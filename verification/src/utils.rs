use crate::dataclasses::{AllowedMention, AllowedMentionType, Snowflake};
use vstd::prelude::*;

verus! {

/// `kinds` without every occurrence of `kind`, the rest in its order.
pub open spec fn without(kinds: Seq<AllowedMentionType>, kind: AllowedMentionType) -> Seq<
    AllowedMentionType,
>
    decreases kinds.len(),
{
    if kinds.len() == 0 {
        kinds
    } else if kinds.last() == kind {
        without(kinds.drop_last(), kind)
    } else {
        without(kinds.drop_last(), kind).push(kinds.last())
    }
}

/// `kinds` with `kind` at the end, unless it is in there already.
pub open spec fn with_kind(kinds: Seq<AllowedMentionType>, kind: AllowedMentionType) -> Seq<
    AllowedMentionType,
> {
    if kinds.contains(kind) {
        kinds
    } else {
        kinds.push(kind)
    }
}

/// Builds an [`AllowedMention`] step by step.
pub struct AllowedMentionsBuilder {
    allowed_mentions: AllowedMention,
}

impl View for AllowedMentionsBuilder {
    type V = AllowedMention;

    closed spec fn view(&self) -> AllowedMention {
        self.allowed_mentions
    }
}

impl AllowedMentionsBuilder {
    /// Nothing may be mentioned.
    pub fn empty() -> (r: AllowedMentionsBuilder)
        ensures
            r@.parse@ == Seq::<AllowedMentionType>::empty(),
            r@.roles is None,
            r@.users is None,
    {
        AllowedMentionsBuilder {
            allowed_mentions: AllowedMention { parse: Vec::new(), roles: None, users: None },
        }
    }

    /// Role mentions are parsed, and these roles may be mentioned.
    pub fn roles(roles: Vec<Snowflake>) -> (r: AllowedMentionsBuilder)
        ensures
            r@.parse@ == seq![AllowedMentionType::Roles],
            r@.roles == Some(roles),
            r@.users is None,
    {
        let mut parse: Vec<AllowedMentionType> = Vec::new();
        parse.push(AllowedMentionType::Roles);
        AllowedMentionsBuilder {
            allowed_mentions: AllowedMention { parse, roles: Some(roles), users: None },
        }
    }

    /// User mentions are parsed, and these users may be mentioned.
    pub fn users(users: Vec<Snowflake>) -> (r: AllowedMentionsBuilder)
        ensures
            r@.parse@ == seq![AllowedMentionType::Users],
            r@.roles is None,
            r@.users == Some(users),
    {
        let mut parse: Vec<AllowedMentionType> = Vec::new();
        parse.push(AllowedMentionType::Users);
        AllowedMentionsBuilder {
            allowed_mentions: AllowedMention { parse, roles: None, users: Some(users) },
        }
    }

    /// Goes on from an [`AllowedMention`] that exists already.
    pub fn from(value: AllowedMention) -> (r: AllowedMentionsBuilder)
        ensures
            r@ == value,
    {
        AllowedMentionsBuilder { allowed_mentions: value }
    }

    /// What was built.
    pub fn build(self) -> (r: AllowedMention)
        ensures
            r == self@,
    {
        self.allowed_mentions
    }

    /// Has mentions of `kind` parsed. Nothing changes where they are
    /// parsed already.
    pub fn enable(&mut self, kind: AllowedMentionType)
        ensures
            final(self)@.parse@ == with_kind(old(self)@.parse@, kind),
            final(self)@.roles == old(self)@.roles,
            final(self)@.users == old(self)@.users,
    {
        let mut found = false;
        let mut i: usize = 0;
        while i < self.allowed_mentions.parse.len()
            invariant
                i <= self.allowed_mentions.parse.len(),
                *self == *old(self),
                found == self.allowed_mentions.parse@.take(i as int).contains(kind),
            decreases self.allowed_mentions.parse.len() - i,
        {
            let ghost seen = self.allowed_mentions.parse@.take(i as int);
            let ghost grown = self.allowed_mentions.parse@.take(i + 1);
            if self.allowed_mentions.parse[i] == kind {
                found = true;
            }
            proof {
                assert(grown =~= seen.push(self.allowed_mentions.parse@[i as int]));
                if seen.contains(kind) {
                    let j = choose|j: int| 0 <= j < seen.len() && seen[j] == kind;
                    assert(grown[j] == kind);
                }
                if self.allowed_mentions.parse@[i as int] == kind {
                    assert(grown[i as int] == kind);
                }
            }
            i = i + 1;
        }
        assert(self.allowed_mentions.parse@.take(i as int) =~= self.allowed_mentions.parse@);
        if !found {
            self.allowed_mentions.parse.push(kind);
        }
    }

    /// Has mentions of `kind` no longer parsed.
    pub fn disable(&mut self, kind: AllowedMentionType)
        ensures
            final(self)@.parse@ == without(old(self)@.parse@, kind),
            final(self)@.roles == old(self)@.roles,
            final(self)@.users == old(self)@.users,
    {
        let mut kept: Vec<AllowedMentionType> = Vec::new();
        let mut i: usize = 0;
        while i < self.allowed_mentions.parse.len()
            invariant
                i <= self.allowed_mentions.parse.len(),
                *self == *old(self),
                kept@ == without(self.allowed_mentions.parse@.take(i as int), kind),
            decreases self.allowed_mentions.parse.len() - i,
        {
            let ghost seen = self.allowed_mentions.parse@.take(i as int);
            let ghost grown = self.allowed_mentions.parse@.take(i + 1);
            assert(grown.drop_last() =~= seen);
            assert(grown.last() == self.allowed_mentions.parse@[i as int]);
            let item = self.allowed_mentions.parse[i];
            if item != kind {
                kept.push(item);
            }
            i = i + 1;
        }
        assert(self.allowed_mentions.parse@.take(i as int) =~= self.allowed_mentions.parse@);
        self.allowed_mentions.parse = kept;
    }

    /// Has mentions of everyone parsed.
    pub fn enable_everyone(&mut self) -> (r: &mut Self)
        ensures
            r@.parse@ == with_kind(old(self)@.parse@, AllowedMentionType::Everyone),
            r@.roles == old(self)@.roles,
            r@.users == old(self)@.users,
            *final(self) == *final(r),
    {
        self.enable(AllowedMentionType::Everyone);
        self
    }

    /// Has mentions of everyone no longer parsed.
    pub fn disable_everyone(&mut self) -> (r: &mut Self)
        ensures
            r@.parse@ == without(old(self)@.parse@, AllowedMentionType::Everyone),
            r@.roles == old(self)@.roles,
            r@.users == old(self)@.users,
            *final(self) == *final(r),
    {
        self.disable(AllowedMentionType::Everyone);
        self
    }

    /// Has mentions of roles parsed.
    pub fn enable_roles(&mut self) -> (r: &mut Self)
        ensures
            r@.parse@ == with_kind(old(self)@.parse@, AllowedMentionType::Roles),
            r@.roles == old(self)@.roles,
            r@.users == old(self)@.users,
            *final(self) == *final(r),
    {
        self.enable(AllowedMentionType::Roles);
        self
    }

    /// Has mentions of roles no longer parsed.
    pub fn disable_roles(&mut self) -> (r: &mut Self)
        ensures
            r@.parse@ == without(old(self)@.parse@, AllowedMentionType::Roles),
            r@.roles == old(self)@.roles,
            r@.users == old(self)@.users,
            *final(self) == *final(r),
    {
        self.disable(AllowedMentionType::Roles);
        self
    }

    /// Has mentions of users parsed.
    pub fn enable_users(&mut self) -> (r: &mut Self)
        ensures
            r@.parse@ == with_kind(old(self)@.parse@, AllowedMentionType::Users),
            r@.roles == old(self)@.roles,
            r@.users == old(self)@.users,
            *final(self) == *final(r),
    {
        self.enable(AllowedMentionType::Users);
        self
    }

    /// Has mentions of users no longer parsed.
    pub fn disable_users(&mut self) -> (r: &mut Self)
        ensures
            r@.parse@ == without(old(self)@.parse@, AllowedMentionType::Users),
            r@.roles == old(self)@.roles,
            r@.users == old(self)@.users,
            *final(self) == *final(r),
    {
        self.disable(AllowedMentionType::Users);
        self
    }

    /// These users may be mentioned.
    pub fn with_users(self, users: Vec<Snowflake>) -> (r: AllowedMentionsBuilder)
        ensures
            r@.users == Some(users),
            r@.parse == self@.parse,
            r@.roles == self@.roles,
    {
        let mut allowed_mentions = self.allowed_mentions;
        allowed_mentions.users = Some(users);
        AllowedMentionsBuilder { allowed_mentions }
    }

    /// These roles may be mentioned.
    pub fn with_roles(self, roles: Vec<Snowflake>) -> (r: AllowedMentionsBuilder)
        ensures
            r@.roles == Some(roles),
            r@.parse == self@.parse,
            r@.users == self@.users,
    {
        let mut allowed_mentions = self.allowed_mentions;
        allowed_mentions.roles = Some(roles);
        AllowedMentionsBuilder { allowed_mentions }
    }
}

/// What was disabled is no longer there, and nothing else has gone.
pub proof fn lemma_without_removes_exactly(
    kinds: Seq<AllowedMentionType>,
    kind: AllowedMentionType,
    other: AllowedMentionType,
)
    ensures
        !without(kinds, kind).contains(kind),
        other != kind ==> (without(kinds, kind).contains(other) <==> kinds.contains(other)),
        without(kinds, kind).len() <= kinds.len(),
    decreases kinds.len(),
{
    if kinds.len() > 0 {
        let front = kinds.drop_last();
        lemma_without_removes_exactly(front, kind, other);
        let out = without(kinds, kind);
        let inner = without(front, kind);
        if kinds.last() != kind {
            assert(out == inner.push(kinds.last()));
            if out.contains(kind) {
                let j = choose|j: int| 0 <= j < out.len() && out[j] == kind;
                if j < inner.len() {
                    assert(inner[j] == kind);
                }
            }
        }
        if other != kind {
            if kinds.contains(other) {
                let j = choose|j: int| 0 <= j < kinds.len() && kinds[j] == other;
                if j < front.len() {
                    assert(front[j] == other);
                    assert(inner.contains(other));
                    let k = choose|k: int| 0 <= k < inner.len() && inner[k] == other;
                    if kinds.last() != kind {
                        assert(out[k] == other);
                    }
                } else {
                    assert(kinds.last() == other);
                    assert(out[out.len() - 1] == other);
                }
            }
            if out.contains(other) {
                let j = choose|j: int| 0 <= j < out.len() && out[j] == other;
                if j < inner.len() {
                    assert(inner[j] == other);
                    assert(front.contains(other));
                    let k = choose|k: int| 0 <= k < front.len() && front[k] == other;
                    assert(kinds[k] == other);
                } else {
                    assert(kinds[kinds.len() - 1] == other);
                }
            }
        }
    }
}

/// Enabling twice is enabling once, and what was enabled is there.
pub proof fn lemma_enable_is_idempotent(kinds: Seq<AllowedMentionType>, kind: AllowedMentionType)
    ensures
        with_kind(kinds, kind).contains(kind),
        with_kind(with_kind(kinds, kind), kind) == with_kind(kinds, kind),
{
    if !kinds.contains(kind) {
        assert(kinds.push(kind)[kinds.len() as int] == kind);
    }
}

} // verus!
