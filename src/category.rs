//! Address categories. They overlap: a P2SH-shaped address is both nested
//! segwit and segwit v0. Text that matches no category is not an error, only
//! unlike every known address shape.
use vstd::prelude::*;
use crate::shape::{AddressKind, kind_matches, is_p2pkh, is_p2sh, is_p2wpkh, is_p2wsh, is_p2tr};

verus! {

/// Legacy: the P2PKH shape.
pub open spec fn legacy(a: Seq<char>) -> bool {
    kind_matches(a, AddressKind::P2pkh)
}

/// Nested segwit: the P2SH shape.
pub open spec fn nested_segwit(a: Seq<char>) -> bool {
    kind_matches(a, AddressKind::P2sh)
}

/// Wrapped segwit, another name for nested segwit.
pub open spec fn wrapped_segwit(a: Seq<char>) -> bool {
    nested_segwit(a)
}

/// Native segwit: the P2WPKH or the P2WSH shape.
pub open spec fn segwit_native(a: Seq<char>) -> bool {
    kind_matches(a, AddressKind::P2wpkh) || kind_matches(a, AddressKind::P2wsh)
}

/// Segwit v0: the P2WPKH, P2WSH or P2SH shape (a wrapped witness address is
/// written as a P2SH address).
pub open spec fn segwit_v0(a: Seq<char>) -> bool {
    kind_matches(a, AddressKind::P2wpkh) || kind_matches(a, AddressKind::P2wsh)
        || kind_matches(a, AddressKind::P2sh)
}

/// Taproot: the P2TR shape.
pub open spec fn taproot(a: Seq<char>) -> bool {
    kind_matches(a, AddressKind::P2tr)
}

/// Segwit v1: the witness-version-1 shape, which is P2TR.
pub open spec fn segwit_v1(a: Seq<char>) -> bool {
    kind_matches(a, AddressKind::P2tr)
}

/// True when `address` is shaped like a legacy (P2PKH) address.
pub fn is_legacy(address: &String) -> (r: bool)
    ensures
        r == legacy(address@),
{
    is_p2pkh(address)
}

/// True when `address` is shaped like a nested segwit (P2SH) address.
pub fn is_nested_segwit(address: &String) -> (r: bool)
    ensures
        r == nested_segwit(address@),
{
    is_p2sh(address)
}

/// True when `address` is shaped like a wrapped segwit address; the same as
/// [`is_nested_segwit`].
pub fn is_wrapped_segwit(address: &String) -> (r: bool)
    ensures
        r == wrapped_segwit(address@),
{
    is_nested_segwit(address)
}

/// True when `address` is shaped like a native segwit (P2WPKH or P2WSH)
/// address.
pub fn is_segwit_native(address: &String) -> (r: bool)
    ensures
        r == segwit_native(address@),
{
    is_p2wpkh(address) || is_p2wsh(address)
}

/// True when `address` is shaped like a witness version 0 address, native or
/// wrapped in P2SH.
pub fn is_segwit_v0(address: &String) -> (r: bool)
    ensures
        r == segwit_v0(address@),
{
    is_segwit_native(address) || is_p2sh(address)
}

/// True when `address` is shaped like a witness version 1 address; the same
/// as [`is_taproot`].
pub fn is_segwit_v1(address: &String) -> (r: bool)
    ensures
        r == segwit_v1(address@),
{
    is_taproot(address)
}

/// True when `address` is shaped like a taproot (P2TR) address.
pub fn is_taproot(address: &String) -> (r: bool)
    ensures
        r == taproot(address@),
{
    is_p2tr(address)
}

} // verus!
