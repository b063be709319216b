//! The table of address shapes: for each address type, the character counts
//! and the leading characters that its text may have.
use vstd::prelude::*;
use vstd::string::*;
use crate::text::{has_any_character_count, starts_with_any};

verus! {

/// An address type that can be recognised from its text alone.
#[derive(Clone, Copy, Debug, PartialEq, Eq)]
pub enum AddressKind {
    /// Pay-to-Pubkey-Hash, Base58Check.
    P2pkh,
    /// Pay-to-Script-Hash, Base58Check; also the text form of the
    /// P2SH-wrapped witness types.
    P2sh,
    /// Pay-to-Witness-Pubkey-Hash, Bech32, witness version 0.
    P2wpkh,
    /// Pay-to-Witness-Script-Hash, Bech32, witness version 0.
    P2wsh,
    /// Pay-to-Taproot, Bech32m, witness version 1.
    P2tr,
}

/// The character counts accepted for `kind`, shortest first.
pub open spec fn kind_lengths(kind: AddressKind) -> Seq<nat> {
    match kind {
        AddressKind::P2pkh => seq![33, 34],
        AddressKind::P2sh => seq![34, 35],
        AddressKind::P2wpkh => seq![42],
        AddressKind::P2wsh => seq![62],
        AddressKind::P2tr => seq![62],
    }
}

/// The leading characters accepted for `kind`, mainnet first, then testnet.
pub open spec fn kind_prefixes(kind: AddressKind) -> Seq<Seq<char>> {
    match kind {
        AddressKind::P2pkh => seq![seq!['1'], seq!['m'], seq!['n']],
        AddressKind::P2sh => seq![seq!['2'], seq!['3']],
        AddressKind::P2wpkh => seq![seq!['b', 'c', '1', 'q'], seq!['t', 'b', '1', 'q']],
        AddressKind::P2wsh => seq![seq!['b', 'c', '1', 'q'], seq!['t', 'b', '1', 'q']],
        AddressKind::P2tr => seq![seq!['b', 'c', '1', 'p'], seq!['t', 'b', '1', 'p']],
    }
}

/// `a` has one of the character counts accepted for `kind`.
pub open spec fn length_accepted(a: Seq<char>, kind: AddressKind) -> bool {
    kind_lengths(kind).contains(a.len())
}

/// `a` starts with one of the prefixes accepted for `kind`.
pub open spec fn prefix_accepted(a: Seq<char>, kind: AddressKind) -> bool {
    exists|i: int| 0 <= i < kind_prefixes(kind).len() && #[trigger] kind_prefixes(kind)[i].is_prefix_of(a)
}

/// `a` has the shape of an address of type `kind`.
pub open spec fn kind_matches(a: Seq<char>, kind: AddressKind) -> bool {
    length_accepted(a, kind) && prefix_accepted(a, kind)
}

/// The accepted character counts of `kind`, as executable data.
pub fn accepted_lengths(kind: AddressKind) -> (r: Vec<u64>)
    ensures
        r@.len() == kind_lengths(kind).len(),
        forall|i: int| 0 <= i < r@.len() ==> r@[i] as nat == kind_lengths(kind)[i],
{
    match kind {
        AddressKind::P2pkh => vec![33, 34],
        AddressKind::P2sh => vec![34, 35],
        AddressKind::P2wpkh => vec![42],
        AddressKind::P2wsh => vec![62],
        AddressKind::P2tr => vec![62],
    }
}

/// The accepted leading characters of `kind`, as executable data.
pub fn leading_symbols(kind: AddressKind) -> (r: Vec<&'static str>)
    ensures
        r@.len() == kind_prefixes(kind).len(),
        forall|i: int| 0 <= i < r@.len() ==> r@[i]@ == kind_prefixes(kind)[i],
{
    proof {
        reveal_strlit("1");
        reveal_strlit("m");
        reveal_strlit("n");
        reveal_strlit("2");
        reveal_strlit("3");
        reveal_strlit("bc1q");
        reveal_strlit("tb1q");
        reveal_strlit("bc1p");
        reveal_strlit("tb1p");
    }
    match kind {
        AddressKind::P2pkh => vec!["1", "m", "n"],
        AddressKind::P2sh => vec!["2", "3"],
        AddressKind::P2wpkh => vec!["bc1q", "tb1q"],
        AddressKind::P2wsh => vec!["bc1q", "tb1q"],
        AddressKind::P2tr => vec!["bc1p", "tb1p"],
    }
}

/// True when `address` has the shape of an address of type `kind`: one of
/// its character counts and one of its prefixes.
pub fn matches_kind(address: &str, kind: AddressKind) -> (r: bool)
    ensures
        r == kind_matches(address@, kind),
{
    let lengths = accepted_lengths(kind);
    let prefixes = leading_symbols(kind);
    let has_correct_char_count = has_any_character_count(address, &lengths);
    let has_leading_symbol = starts_with_any(address, &prefixes);
    has_correct_char_count && has_leading_symbol
}

/// Pay-to-Pubkey-Hash shape: 33 or 34 characters, starting with `1`
/// (mainnet), `m` or `n` (testnet).
pub fn is_p2pkh(address: &String) -> (r: bool)
    ensures
        r == kind_matches(address@, AddressKind::P2pkh),
{
    matches_kind(address.as_str(), AddressKind::P2pkh)
}

/// Pay-to-Script-Hash shape: 34 or 35 characters, starting with `2` or `3`.
pub fn is_p2sh(address: &String) -> (r: bool)
    ensures
        r == kind_matches(address@, AddressKind::P2sh),
{
    matches_kind(address.as_str(), AddressKind::P2sh)
}

/// Could be a P2SH-wrapped P2WPKH address. The wrapping does not show in the
/// text, so this is exactly the P2SH shape.
pub fn could_be_p2sh_p2wpkh(address: &String) -> (r: bool)
    ensures
        r == kind_matches(address@, AddressKind::P2sh),
{
    is_p2sh(address)
}

/// Could be a P2SH-wrapped P2WSH address. The wrapping does not show in the
/// text, so this is exactly the P2SH shape.
pub fn could_be_p2sh_p2wsh(address: &String) -> (r: bool)
    ensures
        r == kind_matches(address@, AddressKind::P2sh),
{
    is_p2sh(address)
}

/// Pay-to-Witness-Pubkey-Hash shape: exactly 42 characters, starting with
/// `bc1q` (mainnet) or `tb1q` (testnet).
pub fn is_p2wpkh(address: &String) -> (r: bool)
    ensures
        r == kind_matches(address@, AddressKind::P2wpkh),
{
    matches_kind(address.as_str(), AddressKind::P2wpkh)
}

/// Pay-to-Witness-Script-Hash shape: exactly 62 characters, starting with
/// `bc1q` (mainnet) or `tb1q` (testnet).
pub fn is_p2wsh(address: &String) -> (r: bool)
    ensures
        r == kind_matches(address@, AddressKind::P2wsh),
{
    matches_kind(address.as_str(), AddressKind::P2wsh)
}

/// Pay-to-Taproot shape: exactly 62 characters, starting with `bc1p`
/// (mainnet) or `tb1p` (testnet).
pub fn is_p2tr(address: &String) -> (r: bool)
    ensures
        r == kind_matches(address@, AddressKind::P2tr),
{
    matches_kind(address.as_str(), AddressKind::P2tr)
}

} // verus!
