use vstd::prelude::*;
use vstd::string::*;

verus! {

/// The prefix that marks a canonical role identifier.
pub open spec fn canonical_prefix() -> Seq<char> {
    seq!['a', 'r', 'n', ':']
}

/// Whether `s` is written as a canonical role identifier.
pub open spec fn has_canonical_prefix(s: Seq<char>) -> bool {
    s.len() >= canonical_prefix().len() && s.subrange(0, canonical_prefix().len() as int)
        == canonical_prefix()
}

/// A role as the caller named it.
#[derive(Clone, Debug)]
pub enum RoleReference {
    /// Already a canonical identifier: used as it is.
    CanonicalId(String),
    /// A human-readable name that a directory lookup must resolve.
    Name(String),
}

impl RoleReference {
    /// The text the caller gave, whichever variant holds it.
    pub open spec fn text(&self) -> Seq<char> {
        match self {
            RoleReference::CanonicalId(s) => s@,
            RoleReference::Name(s) => s@,
        }
    }

    /// Classifies `role` by its prefix.
    pub fn classify(role: &str) -> (r: RoleReference)
        ensures
            r.text() == role@,
            r is CanonicalId <==> has_canonical_prefix(role@),
    {
        let owned = role.to_owned();
        if starts_with_canonical_prefix(role) {
            RoleReference::CanonicalId(owned)
        } else {
            RoleReference::Name(owned)
        }
    }

    /// Whether resolving this role needs a directory lookup.
    pub fn needs_lookup(&self) -> (r: bool)
        ensures
            r == (self is Name),
    {
        match self {
            RoleReference::CanonicalId(_) => false,
            RoleReference::Name(_) => true,
        }
    }
}

/// Tests `role` for the canonical-identifier prefix.
pub fn starts_with_canonical_prefix(role: &str) -> (r: bool)
    ensures
        r == has_canonical_prefix(role@),
{
    let prefix = "arn:";
    proof {
        reveal_strlit("arn:");
    }
    assert(prefix@ == canonical_prefix());
    let n = role.unicode_len();
    if n < 4 {
        return false;
    }
    let mut i: usize = 0;
    while i < 4
        invariant
            0 <= i <= 4,
            4 <= n,
            n == role@.len(),
            prefix@ == canonical_prefix(),
            forall|j: int| 0 <= j < i ==> role@[j] == canonical_prefix()[j],
        decreases 4 - i,
    {
        if role.get_char(i) != prefix.get_char(i) {
            assert(role@.subrange(0, 4)[i as int] != canonical_prefix()[i as int]);
            return false;
        }
        i = i + 1;
    }
    assert(role@.subrange(0, 4) =~= canonical_prefix());
    true
}

} // verus!
