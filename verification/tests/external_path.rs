//! The internal-path normalizer and its round trip.

use next_externals::external_path::{next_external_specifier, resolve_next_external};
use next_externals::text::normalize_path_sep;

#[test]
fn absolute_path_rewrites_to_distribution_relative() {
    let path = "/opt/app/node_modules/next/dist/server/request/headers.external.js";
    assert_eq!(
        resolve_next_external(path),
        Some("commonjs next/dist/server/request/headers.external.js".to_string()),
    );
}

#[test]
fn bare_external_suffix_is_accepted() {
    let path = "/w/node_modules/next/dist/server/app-render/work-async-storage.external";
    assert_eq!(
        resolve_next_external(path),
        Some("commonjs next/dist/server/app-render/work-async-storage.external".to_string()),
    );
}

#[test]
fn esm_subdirectory_is_accepted() {
    let path = "/w/node_modules/next/dist/esm/server/request/headers.external.js";
    assert_eq!(
        resolve_next_external(path),
        Some("commonjs next/dist/esm/server/request/headers.external.js".to_string()),
    );
}

#[test]
fn backslash_separators_normalize() {
    let path = "C:\\w\\node_modules\\next\\dist\\server\\request\\headers.external.js";
    assert_eq!(
        resolve_next_external(path),
        Some("commonjs next/dist/server/request/headers.external.js".to_string()),
    );
}

#[test]
fn non_external_suffix_yields_nothing() {
    assert_eq!(resolve_next_external("/w/node_modules/next/dist/server/config.js"), None);
    assert_eq!(resolve_next_external("/w/node_modules/next/dist/server/external.js"), None);
}

#[test]
fn paths_outside_distribution_root_yield_nothing() {
    assert_eq!(resolve_next_external("/w/node_modules/other/lib/a.external.js"), None);
    // A distribution root not followed by a separator is not "under" it.
    assert_eq!(resolve_next_external("/w/node_modules/next/distro/a.external.js"), None);
}

#[test]
fn rewrite_uses_first_occurrence_of_the_root() {
    let path = "/cache/next/dist/mirror/next/dist/x.external";
    assert_eq!(
        next_external_specifier(path),
        Some("next/dist/mirror/next/dist/x.external".to_string()),
    );
}

#[test]
fn round_trip_reconstructs_the_path() {
    let path = "\\w\\node_modules\\next\\dist\\server\\request\\headers.external.js";
    let spec = next_external_specifier(path).unwrap();
    // The dropped leading part, normalized, plus the specifier equals the
    // normalized original.
    let prefix = "\\w\\node_modules\\";
    let reconstructed = format!("{}{}", normalize_path_sep(prefix), spec);
    assert_eq!(reconstructed, normalize_path_sep(path));
}

#[test]
fn specifier_drops_the_commonjs_marker_only_in_the_raw_form() {
    let path = "/w/next/dist/a.external";
    assert_eq!(next_external_specifier(path), Some("next/dist/a.external".to_string()));
    assert_eq!(resolve_next_external(path), Some("commonjs next/dist/a.external".to_string()));
}

#[test]
fn normalize_path_sep_exact() {
    assert_eq!(normalize_path_sep("a\\b/c\\"), "a/b/c/".to_string());
    assert_eq!(normalize_path_sep(""), "".to_string());
}
