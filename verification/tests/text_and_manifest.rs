//! Exact texts: trimming, decimal rendering, paths and the manifest form.

use modsync::manifest::install_path_text;
use modsync::manifest::manifest_path_text;
use modsync::manifest::manifest_text;
use modsync::text::trim_text;
use modsync::text::u64_to_decimal;

#[test]
fn trim_removes_edges_only() {
    assert_eq!(trim_text("  Foo Bar \n"), "Foo Bar");
    assert_eq!(trim_text("Foo"), "Foo");
    assert_eq!(trim_text(""), "");
    assert_eq!(trim_text(" \t\r\n "), "");
    assert_eq!(trim_text("\u{a0}x\u{3000}"), "x");
}

#[test]
fn decimal_small_values() {
    assert_eq!(u64_to_decimal(0), "0");
    assert_eq!(u64_to_decimal(9), "9");
    assert_eq!(u64_to_decimal(10), "10");
    assert_eq!(u64_to_decimal(907), "907");
}

#[test]
fn decimal_largest_value() {
    assert_eq!(u64_to_decimal(u64::MAX), "18446744073709551615");
}

#[test]
fn install_and_manifest_paths() {
    assert_eq!(install_path_text("mods", 7), "mods/7");
    assert_eq!(install_path_text(" mods \n", 7), "mods/7");
    assert_eq!(manifest_path_text("mods", 7), "mods/7.mod");
    assert_eq!(
        install_path_text("/home/alice/stellaris/mod", 281990),
        "/home/alice/stellaris/mod/281990"
    );
}

#[test]
fn manifest_exact_two_lines() {
    assert_eq!(
        manifest_text("Foo", "mods_root/42"),
        "name=\"Foo\"\npath=\"mods_root/42\""
    );
}

#[test]
fn manifest_trims_title() {
    assert_eq!(
        manifest_text("  A Mod \n", "m/1"),
        "name=\"A Mod\"\npath=\"m/1\""
    );
}
