use vstd::prelude::*;
use vstd::string::*;

use crate::error::LaunchError;

verus! {

/// The separator between a tag's key and its value.
pub open spec fn tag_separator() -> char {
    '='
}

/// `i` is the position of the first separator in `s`.
pub open spec fn first_separator_at(s: Seq<char>, i: int) -> bool {
    &&& 0 <= i < s.len()
    &&& s[i] == tag_separator()
    &&& forall|j: int| 0 <= j < i ==> s[j] != tag_separator()
}

/// `s` holds a separator somewhere.
pub open spec fn has_separator(s: Seq<char>) -> bool {
    exists|i: int| 0 <= i < s.len() && s[i] == tag_separator()
}

/// A session tag: a key and its value.
#[derive(Clone, Debug)]
pub struct SessionTag {
    pub key: String,
    pub value: String,
}

impl SessionTag {
    /// `self` is `raw` split at its first separator.
    pub open spec fn splits(&self, raw: Seq<char>) -> bool {
        exists|i: int|
            first_separator_at(raw, i) && self.key@ == raw.subrange(0, i) && self.value@
                == raw.subrange(i + 1, raw.len() as int)
    }

    /// Parses a `KEY=VALUE` tag, splitting at the first `=`; a tag without
    /// one is refused.
    pub fn parse(raw: &str) -> (r: Result<SessionTag, LaunchError>)
        ensures
            r is Ok <==> has_separator(raw@),
            r matches Ok(t) ==> t.splits(raw@),
            r matches Err(e) ==> (e matches LaunchError::InvalidTag { tag } && tag@ == raw@),
    {
        let n = raw.unicode_len();
        let mut i: usize = 0;
        while i < n
            invariant
                0 <= i <= n,
                n == raw@.len(),
                forall|j: int| 0 <= j < i ==> raw@[j] != tag_separator(),
            decreases n - i,
        {
            if raw.get_char(i) == '=' {
                let key = raw.substring_char(0, i).to_owned();
                let value = raw.substring_char(i + 1, n).to_owned();
                let t = SessionTag { key, value };
                assert(first_separator_at(raw@, i as int));
                return Ok(t);
            }
            i = i + 1;
        }
        Err(LaunchError::InvalidTag { tag: raw.to_owned() })
    }
}

/// Parses every tag in order; the first malformed one is the error.
pub fn parse_tags(raw: &Vec<String>) -> (r: Result<Vec<SessionTag>, LaunchError>)
    ensures
        r is Ok <==> forall|k: int| 0 <= k < raw@.len() ==> has_separator(#[trigger] raw@[k]@),
        r matches Ok(tags) ==> tags@.len() == raw@.len() && forall|k: int|
            0 <= k < raw@.len() ==> #[trigger] tags@[k].splits(raw@[k]@),
        r matches Err(e) ==> exists|k: int|
            0 <= k < raw@.len() && !has_separator(#[trigger] raw@[k]@) && (forall|m: int|
                0 <= m < k ==> has_separator(raw@[m]@)) && (e matches LaunchError::InvalidTag {
                tag,
            } && tag@ == raw@[k]@),
{
    let mut tags: Vec<SessionTag> = Vec::new();
    let mut k: usize = 0;
    while k < raw.len()
        invariant
            0 <= k <= raw@.len(),
            tags@.len() == k,
            forall|m: int| 0 <= m < k ==> has_separator(#[trigger] raw@[m]@),
            forall|m: int| 0 <= m < k ==> #[trigger] tags@[m].splits(raw@[m]@),
        decreases raw@.len() - k,
    {
        match SessionTag::parse(raw[k].as_str()) {
            Ok(t) => {
                tags.push(t);
            },
            Err(e) => {
                assert(!has_separator(raw@[k as int]@));
                return Err(e);
            },
        }
        k = k + 1;
    }
    Ok(tags)
}

/// A tag with exactly one separator, at `i`, splits into the text before it
/// and the text after it; the same holds at the first of several separators.
pub proof fn lemma_split_at_first_separator(t: SessionTag, raw: Seq<char>, i: int)
    requires
        t.splits(raw),
        0 <= i < raw.len(),
        raw[i] == tag_separator(),
        forall|j: int| 0 <= j < i ==> raw[j] != tag_separator(),
    ensures
        t.key@ == raw.subrange(0, i),
        t.value@ == raw.subrange(i + 1, raw.len() as int),
{
    let k = choose|k: int|
        first_separator_at(raw, k) && t.key@ == raw.subrange(0, k) && t.value@ == raw.subrange(
            k + 1,
            raw.len() as int,
        );
    if k < i {
        assert(raw[k] != tag_separator());
    } else if k > i {
        assert(raw[i] != tag_separator());
    }
}

} // verus!
