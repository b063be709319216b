//! Classifies Bitcoin address text by its surface form: character count and
//! leading characters. Nothing is decoded and no checksum is verified; a match
//! says only that the text is shaped like an address of that type.
mod category;
mod laws;
mod shape;
mod text;

pub use category::{
    is_legacy, is_nested_segwit, is_segwit_native, is_segwit_v0, is_segwit_v1, is_taproot,
    is_wrapped_segwit, legacy, nested_segwit, segwit_native, segwit_v0, segwit_v1, taproot,
    wrapped_segwit,
};
pub use shape::{
    accepted_lengths, could_be_p2sh_p2wpkh, could_be_p2sh_p2wsh, is_p2pkh, is_p2sh, is_p2tr,
    is_p2wpkh, is_p2wsh, kind_lengths, kind_matches, kind_prefixes, leading_symbols,
    length_accepted, matches_kind, prefix_accepted, AddressKind,
};
pub use text::{has_any_character_count, has_character_count, starts_with, starts_with_any};
pub use laws::{
    disallowed_at, lemma_native_shapes_exclusive, lemma_padding_rejects,
    lemma_prefix_change_rejects, lemma_segwit_v0_is_native_or_nested, lemma_segwit_v1_is_taproot,
    lemma_truncation_rejects, lemma_witness_shapes_length_exact, lemma_wrapped_is_nested,
};
