//! Primitives over address text: how many characters it holds, and what it
//! starts with. Both count Unicode scalar values, never bytes.
use vstd::prelude::*;
use vstd::string::*;

verus! {

/// True when `s` holds exactly `char_count` Unicode scalar values.
pub fn has_character_count(s: &str, char_count: u64) -> (r: bool)
    ensures
        r == (s@.len() == char_count),
{
    s.unicode_len() as u64 == char_count
}

/// True when the characters of `prefix` are the leading characters of `s`,
/// compared literally and case-sensitively.
pub fn starts_with(s: &str, prefix: &str) -> (r: bool)
    ensures
        r == prefix@.is_prefix_of(s@),
{
    let n = prefix.unicode_len();
    let m = s.unicode_len();
    if n > m {
        return false;
    }
    let mut i: usize = 0;
    while i < n
        invariant
            n == prefix@.len(),
            m == s@.len(),
            n <= m,
            i <= n,
            forall|j: int| 0 <= j < i ==> s@[j] == prefix@[j],
        decreases n - i,
    {
        if s.get_char(i) != prefix.get_char(i) {
            assert(s@.subrange(0, n as int)[i as int] != prefix@[i as int]);
            return false;
        }
        i += 1;
    }
    assert(prefix@ =~= s@.subrange(0, n as int));
    true
}

/// True when the character count of `s` is one of `lengths`.
pub fn has_any_character_count(s: &str, lengths: &Vec<u64>) -> (r: bool)
    ensures
        r == (exists|j: int| 0 <= j < lengths@.len() && #[trigger] lengths@[j] == s@.len()),
{
    let mut i: usize = 0;
    while i < lengths.len()
        invariant
            i <= lengths@.len(),
            forall|j: int| 0 <= j < i ==> #[trigger] lengths@[j] != s@.len(),
        decreases lengths.len() - i,
    {
        if has_character_count(s, lengths[i]) {
            return true;
        }
        i += 1;
    }
    false
}

/// True when `s` starts with at least one of `prefixes`.
pub fn starts_with_any(s: &str, prefixes: &Vec<&str>) -> (r: bool)
    ensures
        r == (exists|j: int| 0 <= j < prefixes@.len() && #[trigger] prefixes@[j]@.is_prefix_of(s@)),
{
    let mut i: usize = 0;
    while i < prefixes.len()
        invariant
            i <= prefixes@.len(),
            forall|j: int| 0 <= j < i ==> !(#[trigger] prefixes@[j]@.is_prefix_of(s@)),
        decreases prefixes.len() - i,
    {
        if starts_with(s, prefixes[i]) {
            return true;
        }
        i += 1;
    }
    false
}

} // verus!
