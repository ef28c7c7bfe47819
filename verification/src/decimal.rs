//! Decimal text of unsigned integers.
//!
//! Writing is `itoa`'s work and reading is `lexical`'s; the two functions
//! at the end of this file state what the library takes from them.

use vstd::prelude::*;

verus! {

/// `lexical::Error`: why a text is no number. It is only passed on.
#[verifier::external_type_specification]
#[verifier::external_body]
pub struct ExLexicalError(lexical::Error);

/// The character of a decimal digit.
pub open spec fn digit(d: nat) -> char
    recommends
        d < 10,
{
    if d == 0 {
        '0'
    } else if d == 1 {
        '1'
    } else if d == 2 {
        '2'
    } else if d == 3 {
        '3'
    } else if d == 4 {
        '4'
    } else if d == 5 {
        '5'
    } else if d == 6 {
        '6'
    } else if d == 7 {
        '7'
    } else if d == 8 {
        '8'
    } else {
        '9'
    }
}

/// The decimal digits of a number, most significant first, without sign
/// and without leading zeros (`"0"` for zero).
pub open spec fn decimal(n: nat) -> Seq<char>
    decreases n,
{
    if n < 10 {
        seq![digit(n)]
    } else {
        decimal(n / 10).push(digit(n % 10))
    }
}

/// What `lexical` reads out of a text as a `u64`, or `None` where it
/// rejects the text.
pub uninterp spec fn lexical_u64(text: Seq<char>) -> Option<u64>;

/// Decimal text is never empty and holds digits only.
pub proof fn lemma_decimal_shape(n: nat)
    ensures
        decimal(n).len() >= 1,
        forall|i: int|
            0 <= i < decimal(n).len() ==> '0' <= #[trigger] decimal(n)[i] && decimal(n)[i] <= '9',
        n < 10 <==> decimal(n).len() == 1,
    decreases n,
{
    if n >= 10 {
        lemma_decimal_shape(n / 10);
    }
}

/// Different numbers have different decimal text.
pub proof fn lemma_decimal_is_injective(a: nat, b: nat)
    requires
        decimal(a) == decimal(b),
    ensures
        a == b,
    decreases a,
{
    lemma_decimal_shape(a);
    lemma_decimal_shape(b);
    if a >= 10 {
        assert(b >= 10);
        let da = decimal(a / 10);
        let db = decimal(b / 10);
        assert(decimal(a).drop_last() =~= da);
        assert(decimal(b).drop_last() =~= db);
        assert(decimal(a).last() == digit(a % 10));
        assert(decimal(b).last() == digit(b % 10));
        lemma_decimal_is_injective(a / 10, b / 10);
        assert(a % 10 == b % 10);
    } else {
        assert(decimal(a)[0] == digit(a));
        assert(decimal(b)[0] == digit(b));
    }
}

/// `itoa::Buffer::format` on a `u64`, copied into a `String`: the decimal
/// digits of the number.
#[verifier::external_body]
pub(crate) fn format_u64(n: u64) -> (r: String)
    ensures
        r@ == decimal(n as nat),
{
    itoa::Buffer::new().format(n).to_owned()
}

/// `lexical::parse::<u64, &str>`: reads a whole text as one `u64`. The
/// result is the one named by [`lexical_u64`]; the plain decimal digits of
/// a number are read as that number.
#[verifier::external_body]
pub(crate) fn parse_u64(text: &str) -> (r: Result<u64, lexical::Error>)
    ensures
        match r {
            Ok(n) => lexical_u64(text@) == Some(n),
            Err(_) => lexical_u64(text@) is None,
        },
        r is Ok || forall|n: u64| text@ != #[trigger] decimal(n as nat),
        r matches Ok(v) ==> forall|n: u64| text@ == #[trigger] decimal(n as nat) ==> v == n,
{
    lexical::parse::<u64, &str>(text)
}

} // verus!
