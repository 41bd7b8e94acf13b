//! Edge-runtime externals handling.

use next_externals::edge::{edge_external_needs_resolution, edge_external_outcome,
    get_edge_polyfilled_modules, is_node_js_module, is_supported_edge_polyfill};

fn builtins() -> Vec<String> {
    ["fs", "path", "buffer", "crypto", "async_hooks"].iter().map(|s| s.to_string()).collect()
}

#[test]
fn polyfilled_modules_table_is_exact() {
    let expected: Vec<(String, String)> = [
        ("buffer", "commonjs node:buffer"),
        ("node:buffer", "commonjs node:buffer"),
        ("events", "commonjs node:events"),
        ("node:events", "commonjs node:events"),
        ("assert", "commonjs node:assert"),
        ("node:assert", "commonjs node:assert"),
        ("util", "commonjs node:util"),
        ("node:util", "commonjs node:util"),
        ("async_hooks", "commonjs node:async_hooks"),
        ("node:async_hooks", "commonjs node:async_hooks"),
    ]
    .iter()
    .map(|(a, b)| (a.to_string(), b.to_string()))
    .collect();
    assert_eq!(get_edge_polyfilled_modules(), expected);
}

#[test]
fn supported_polyfills_are_the_fixed_five() {
    for m in ["buffer", "events", "assert", "util", "async_hooks"] {
        assert!(is_supported_edge_polyfill(m));
    }
    assert!(!is_supported_edge_polyfill("fs"));
    assert!(!is_supported_edge_polyfill("node:buffer"));
}

#[test]
fn builtin_membership_is_exact() {
    let b = builtins();
    assert!(is_node_js_module("fs", &b));
    assert!(is_node_js_module("crypto", &b));
    assert!(!is_node_js_module("lodash", &b));
    assert!(!is_node_js_module("", &b));
}

#[test]
fn only_unpolyfilled_builtins_on_edge_layers_need_resolution() {
    let b = builtins();
    assert!(edge_external_needs_resolution("fs", Some("middleware"), &b));
    assert!(edge_external_needs_resolution("crypto", Some("api-edge"), &b));
    // Polyfilled builtin: left alone.
    assert!(!edge_external_needs_resolution("buffer", Some("middleware"), &b));
    assert!(!edge_external_needs_resolution("async_hooks", Some("api-edge"), &b));
    // Not a builtin.
    assert!(!edge_external_needs_resolution("lodash", Some("middleware"), &b));
    // Not an edge layer.
    assert!(!edge_external_needs_resolution("fs", Some("rsc"), &b));
    assert!(!edge_external_needs_resolution("fs", None, &b));
}

#[test]
fn unresolvable_builtin_gets_the_unsupported_shim() {
    assert_eq!(
        edge_external_outcome("fs", false),
        Some("root globalThis.__import_unsupported('fs')".to_string()),
    );
}

#[test]
fn user_supplied_module_is_left_alone() {
    assert_eq!(edge_external_outcome("fs", true), None);
}
