//! Laws that hold of the classification for every address text.
use vstd::prelude::*;
use crate::shape::{AddressKind, kind_lengths, kind_matches, kind_prefixes, length_accepted, prefix_accepted};
use crate::category::{nested_segwit, segwit_native, segwit_v0, segwit_v1, taproot, wrapped_segwit};

verus! {

/// No text has both native segwit shapes at once: P2WPKH wants 42
/// characters and P2WSH wants 62.
pub proof fn lemma_native_shapes_exclusive(a: Seq<char>)
    ensures
        !(kind_matches(a, AddressKind::P2wpkh) && kind_matches(a, AddressKind::P2wsh)),
{
}

/// Segwit v0 is exactly native segwit or nested segwit.
pub proof fn lemma_segwit_v0_is_native_or_nested(a: Seq<char>)
    ensures
        segwit_v0(a) == (segwit_native(a) || nested_segwit(a)),
{
}

/// Wrapped segwit and nested segwit agree on every text.
pub proof fn lemma_wrapped_is_nested(a: Seq<char>)
    ensures
        wrapped_segwit(a) == nested_segwit(a),
{
}

/// Segwit v1 and taproot agree on every text.
pub proof fn lemma_segwit_v1_is_taproot(a: Seq<char>)
    ensures
        segwit_v1(a) == taproot(a),
{
}

/// `c` is disallowed at position `i` for `kind`: every accepted prefix of
/// `kind` reaches position `i`, and none has `c` there.
pub open spec fn disallowed_at(kind: AddressKind, i: int, c: char) -> bool {
    forall|j: int|
        0 <= j < kind_prefixes(kind).len() ==> i < #[trigger] kind_prefixes(kind)[j].len()
            && kind_prefixes(kind)[j][i] != c
}

/// Putting a disallowed character into the prefix of a matching address keeps
/// its length and makes it stop matching.
pub proof fn lemma_prefix_change_rejects(a: Seq<char>, kind: AddressKind, i: int, c: char)
    requires
        kind_matches(a, kind),
        0 <= i,
        disallowed_at(kind, i, c),
    ensures
        i < a.len(),
        a.update(i, c).len() == a.len(),
        !kind_matches(a.update(i, c), kind),
{
    let ps = kind_prefixes(kind);
    let j = choose|j: int| 0 <= j < ps.len() && #[trigger] ps[j].is_prefix_of(a);
    let b = a.update(i, c);
    if prefix_accepted(b, kind) {
        let k = choose|k: int| 0 <= k < ps.len() && #[trigger] ps[k].is_prefix_of(b);
        assert(b.subrange(0, ps[k].len() as int)[i] == c);
    }
}

/// Dropping the last character of a shortest-length match keeps an accepted
/// prefix and leaves no accepted length.
pub proof fn lemma_truncation_rejects(a: Seq<char>, kind: AddressKind)
    requires
        kind_matches(a, kind),
        a.len() == kind_lengths(kind).first(),
    ensures
        prefix_accepted(a.drop_last(), kind),
        !length_accepted(a.drop_last(), kind),
        !kind_matches(a.drop_last(), kind),
{
    let ps = kind_prefixes(kind);
    let b = a.drop_last();
    let j = choose|j: int| 0 <= j < ps.len() && #[trigger] ps[j].is_prefix_of(a);
    assert(b.subrange(0, ps[j].len() as int) =~= a.subrange(0, ps[j].len() as int));
    assert(ps[j].is_prefix_of(b));
}

/// Appending a character to a longest-length match keeps an accepted prefix
/// and leaves no accepted length.
pub proof fn lemma_padding_rejects(a: Seq<char>, kind: AddressKind, c: char)
    requires
        kind_matches(a, kind),
        a.len() == kind_lengths(kind).last(),
    ensures
        prefix_accepted(a.push(c), kind),
        !length_accepted(a.push(c), kind),
        !kind_matches(a.push(c), kind),
{
    let ps = kind_prefixes(kind);
    let b = a.push(c);
    let j = choose|j: int| 0 <= j < ps.len() && #[trigger] ps[j].is_prefix_of(a);
    assert(b.subrange(0, ps[j].len() as int) =~= a.subrange(0, ps[j].len() as int));
    assert(ps[j].is_prefix_of(b));
}

/// The witness shapes have a single accepted length, so truncating or
/// padding any match by one character makes it stop matching.
pub proof fn lemma_witness_shapes_length_exact(a: Seq<char>, kind: AddressKind, c: char)
    requires
        kind == AddressKind::P2wpkh || kind == AddressKind::P2wsh || kind == AddressKind::P2tr,
        kind_matches(a, kind),
    ensures
        !kind_matches(a.drop_last(), kind),
        !kind_matches(a.push(c), kind),
{
    lemma_truncation_rejects(a, kind);
    lemma_padding_rejects(a, kind, c);
}

} // verus!
