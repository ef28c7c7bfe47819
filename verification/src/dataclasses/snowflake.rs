use crate::decimal::{decimal, format_u64, lexical_u64, parse_u64};
use vstd::prelude::*;

verus! {

/// A Discord id: a 64-bit number whose high bits hold the time of creation.
#[derive(Debug, PartialEq, Eq, Clone, Copy, Hash, Structural)]
pub struct Snowflake {
    id: u64,
}

/// `open` + the decimal digits of `id` + `close`.
pub open spec fn mention_text(open: Seq<char>, id: u64, close: Seq<char>) -> Seq<char> {
    open + decimal(id as nat) + close
}

impl Snowflake {
    pub closed spec fn spec_as_u64(&self) -> u64 {
        self.id
    }

    pub fn new(id: u64) -> (r: Snowflake)
        ensures
            r.as_u64() == id,
    {
        Snowflake { id }
    }

    #[verifier::when_used_as_spec(spec_as_u64)]
    pub fn as_u64(&self) -> (r: u64)
        ensures
            r == self.spec_as_u64(),
    {
        self.id
    }

    /// The id in decimal digits.
    pub fn to_string(&self) -> (r: String)
        ensures
            r@ == decimal(self.as_u64() as nat),
    {
        format_u64(self.id)
    }

    /// Reads an id from text. The text is given to `lexical`; whatever it
    /// reads as a `u64` is the id, and whatever it rejects gives `None`.
    pub fn parse(text: &str) -> (r: Option<Snowflake>)
        ensures
            match lexical_u64(text@) {
                Some(id) => r matches Some(s) && s.as_u64() == id,
                None => r is None,
            },
            forall|id: u64|
                text@ == #[trigger] decimal(id as nat) ==> (r matches Some(s) && s.as_u64() == id),
    {
        Snowflake::from_parsed(parse_u64(text).ok())
    }

    /// The id that a parser found, if it found one.
    pub fn from_parsed(parsed: Option<u64>) -> (r: Option<Snowflake>)
        ensures
            match parsed {
                Some(id) => r matches Some(s) && s.as_u64() == id,
                None => r is None,
            },
    {
        match parsed {
            Some(id) => Some(Snowflake { id }),
            None => None,
        }
    }

    fn wrap(&self, open: &str, close: &str) -> (r: String)
        ensures
            r@ == mention_text(open@, self.as_u64(), close@),
    {
        let mut text = String::from_str(open);
        let digits = format_u64(self.id);
        text.append(digits.as_str());
        text.append(close);
        text
    }

    /// `<@id>`: a mention of the user with this id.
    pub fn mention_user(&self) -> (r: String)
        ensures
            r@ == mention_text("<@"@, self.as_u64(), ">"@),
    {
        self.wrap("<@", ">")
    }

    /// `<@&id>`: a mention of the role with this id.
    pub fn mention_role(&self) -> (r: String)
        ensures
            r@ == mention_text("<@&"@, self.as_u64(), ">"@),
    {
        self.wrap("<@&", ">")
    }

    /// `<#id>`: a mention of the channel with this id.
    pub fn mention_channel(&self) -> (r: String)
        ensures
            r@ == mention_text("<#"@, self.as_u64(), ">"@),
    {
        self.wrap("<#", ">")
    }
}

/// An id written as text and read again is the same id.
pub proof fn lemma_snowflake_text_round_trip(a: Snowflake, b: Snowflake)
    requires
        decimal(a.as_u64() as nat) == decimal(b.as_u64() as nat),
    ensures
        a == b,
{
    crate::decimal::lemma_decimal_is_injective(a.as_u64() as nat, b.as_u64() as nat);
}

} // verus!
