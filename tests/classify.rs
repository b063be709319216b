use bitcoin_address_kind::{
    could_be_p2sh_p2wpkh, could_be_p2sh_p2wsh, has_character_count, is_legacy, is_nested_segwit,
    is_p2pkh, is_p2sh, is_p2tr, is_p2wpkh, is_p2wsh, is_segwit_native, is_segwit_v0, is_segwit_v1,
    is_taproot, is_wrapped_segwit, matches_kind, starts_with, starts_with_any, AddressKind,
};

const LEGACY: &str = "1J9uwBYepTm5737RtzkSEePTevGgDGLP5S";
const NESTED: &str = "37u4L57bLqZ8NL9bs1GNX2x52KxviDfvPp";
const NATIVE: &str = "bc1qfvmj8jse4r7203mrchfyt24sjcpna3s2y35ylp";
const TAPROOT: &str = "bc1p8denc9m4sqe9hluasrvxkkdqgkydrk5ctxre5nkk4qwdvefn0sdsc6eqxe";

fn all_categories(a: &String) -> [bool; 7] {
    [
        is_legacy(a),
        is_nested_segwit(a),
        is_wrapped_segwit(a),
        is_segwit_native(a),
        is_segwit_v0(a),
        is_segwit_v1(a),
        is_taproot(a),
    ]
}

#[test]
fn is_legacy_works() {
    let legacy_address = "1J9uwBYepTm5737RtzkSEePTevGgDGLP5S".to_string();
    let nested_segwit_address = "37u4L57bLqZ8NL9bs1GNX2x52KxviDfvPp".to_string();
    let native_segwit_address = "bc1qfvmj8jse4r7203mrchfyt24sjcpna3s2y35ylp".to_string();
    let taproot_address =
        "bc1p8denc9m4sqe9hluasrvxkkdqgkydrk5ctxre5nkk4qwdvefn0sdsc6eqxe".to_string();

    assert_eq!(is_legacy(&legacy_address), true);
    assert_eq!(is_legacy(&nested_segwit_address), false);
    assert_eq!(is_legacy(&native_segwit_address), false);
    assert_eq!(is_legacy(&taproot_address), false);

    assert_eq!(is_nested_segwit(&nested_segwit_address), true);
    assert_eq!(is_nested_segwit(&legacy_address), false);
    assert_eq!(is_nested_segwit(&native_segwit_address), false);
    assert_eq!(is_nested_segwit(&taproot_address), false);

    assert_eq!(is_segwit_native(&native_segwit_address), true);
    assert_eq!(is_segwit_native(&legacy_address), false);
    assert_eq!(is_segwit_native(&nested_segwit_address), false);
    assert_eq!(is_segwit_native(&taproot_address), false);

    assert_eq!(is_segwit_v0(&nested_segwit_address), true);
    assert_eq!(is_segwit_v0(&native_segwit_address), true);
    assert_eq!(is_segwit_v0(&taproot_address), false);

    assert_eq!(is_segwit_v1(&nested_segwit_address), false);
    assert_eq!(is_segwit_v1(&native_segwit_address), false);
    assert_eq!(is_segwit_v1(&taproot_address), true);

    assert_eq!(is_taproot(&taproot_address), true);
    assert_eq!(is_taproot(&legacy_address), false);
    assert_eq!(is_taproot(&nested_segwit_address), false);
    assert_eq!(is_taproot(&native_segwit_address), false);
}

#[test]
fn legacy_fixture_is_only_legacy() {
    let a = LEGACY.to_string();
    assert_eq!(all_categories(&a), [true, false, false, false, false, false, false]);
}

#[test]
fn nested_fixture_is_nested_and_v0() {
    let a = NESTED.to_string();
    assert_eq!(all_categories(&a), [false, true, true, false, true, false, false]);
}

#[test]
fn native_fixture_is_native_and_v0() {
    let a = NATIVE.to_string();
    assert_eq!(a.chars().count(), 42);
    assert_eq!(all_categories(&a), [false, false, false, true, true, false, false]);
}

#[test]
fn taproot_fixture_is_taproot_and_v1() {
    let a = TAPROOT.to_string();
    assert_eq!(a.chars().count(), 62);
    assert_eq!(all_categories(&a), [false, false, false, false, false, true, true]);
}

#[test]
fn testnet_legacy_prefixes() {
    let m33 = format!("m{}", "x".repeat(32));
    let n34 = format!("n{}", "x".repeat(33));
    assert!(is_legacy(&m33));
    assert!(is_legacy(&n34));
    assert!(!is_legacy(&format!("M{}", "x".repeat(32))));
}

#[test]
fn empty_and_unrelated_text_match_nothing() {
    assert_eq!(all_categories(&String::new()), [false; 7]);
    let url = "https://example.com/some/page".to_string();
    assert_eq!(all_categories(&url), [false; 7]);
}

#[test]
fn native_shapes_never_overlap() {
    let wpkh = format!("bc1q{}", "x".repeat(38));
    let wsh = format!("tb1q{}", "x".repeat(58));
    assert!(is_p2wpkh(&wpkh) && !is_p2wsh(&wpkh));
    assert!(is_p2wsh(&wsh) && !is_p2wpkh(&wsh));
    assert!(is_segwit_native(&wsh));
}

#[test]
fn category_relations_on_fixtures() {
    let inputs = [LEGACY, NESTED, NATIVE, TAPROOT, "", "3", "tb1p"];
    for s in inputs {
        let a = s.to_string();
        assert_eq!(is_segwit_v0(&a), is_segwit_native(&a) || is_nested_segwit(&a));
        assert_eq!(is_wrapped_segwit(&a), is_nested_segwit(&a));
        assert_eq!(is_segwit_v1(&a), is_taproot(&a));
    }
}

#[test]
fn p2sh_aliases_agree() {
    let testnet = format!("2{}", "x".repeat(34));
    assert!(is_p2sh(&testnet));
    assert!(could_be_p2sh_p2wpkh(&testnet));
    assert!(could_be_p2sh_p2wsh(&testnet));
    let legacy = LEGACY.to_string();
    assert!(!could_be_p2sh_p2wpkh(&legacy));
    assert!(!could_be_p2sh_p2wsh(&legacy));
}

#[test]
fn disallowed_prefix_character_rejects() {
    let legacy = LEGACY.replacen('1', "4", 1);
    assert!(!is_legacy(&legacy));
    let native = NATIVE.replacen("bc1q", "bd1q", 1);
    assert_eq!(native.chars().count(), 42);
    assert!(!is_segwit_native(&native));
    let taproot = TAPROOT.replacen("bc1p", "bc1q", 1);
    assert!(!is_taproot(&taproot));
    assert!(is_p2wsh(&taproot));
    let upper = TAPROOT.replacen("bc1p", "BC1P", 1);
    assert!(!is_taproot(&upper));
}

#[test]
fn off_by_one_length_rejects() {
    let native = NATIVE.to_string();
    assert!(!is_segwit_native(&native[..41].to_string()));
    assert!(!is_segwit_native(&format!("{}x", native)));
    let taproot = TAPROOT.to_string();
    assert!(!is_taproot(&taproot[..61].to_string()));
    assert!(!is_taproot(&format!("{}x", taproot)));
    let shortest_legacy = format!("1{}", "x".repeat(32));
    assert!(is_p2pkh(&shortest_legacy));
    assert!(!is_p2pkh(&shortest_legacy[..32].to_string()));
    let longest_p2sh = format!("3{}", "x".repeat(34));
    assert!(is_p2sh(&longest_p2sh));
    assert!(!is_p2sh(&format!("{}x", longest_p2sh)));
}

#[test]
fn ranged_lengths_accept_both_ends() {
    assert!(is_p2pkh(&format!("1{}", "x".repeat(32))));
    assert!(is_p2pkh(&format!("1{}", "x".repeat(33))));
    assert!(!is_p2pkh(&format!("1{}", "x".repeat(34))));
    assert!(is_p2sh(&format!("3{}", "x".repeat(33))));
    assert!(is_p2sh(&format!("3{}", "x".repeat(34))));
    assert!(!is_p2sh(&format!("3{}", "x".repeat(32))));
}

#[test]
fn character_count_counts_scalars_not_bytes() {
    assert!(has_character_count("héé", 3));
    assert!(!has_character_count("héé", 5));
    let wide = format!("1{}", "é".repeat(32));
    assert!(wide.len() > 34);
    assert!(is_p2pkh(&wide));
    assert!(!is_p2tr(&format!("bc1p{}", "ä".repeat(59))));
}

#[test]
fn prefix_comparison_is_literal() {
    assert!(starts_with("bc1qabc", "bc1q"));
    assert!(!starts_with("Bc1qabc", "bc1q"));
    assert!(!starts_with("bc1", "bc1q"));
    assert!(starts_with("anything", ""));
    assert!(starts_with_any("tb1p", &vec!["bc1p", "tb1p"]));
    assert!(!starts_with_any("tb1p", &vec![]));
}

#[test]
fn table_driven_match() {
    assert!(matches_kind(NESTED, AddressKind::P2sh));
    assert!(!matches_kind(NESTED, AddressKind::P2pkh));
    assert!(matches_kind(TAPROOT, AddressKind::P2tr));
    assert!(!matches_kind(TAPROOT, AddressKind::P2wsh));
}
