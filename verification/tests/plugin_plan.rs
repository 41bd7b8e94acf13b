//! The plugin's externals plan per compiler type.

use next_externals::config::{EsmExternalsConfig, ExperimentalConfig, NextConfigComplete};
use next_externals::edge::get_edge_polyfilled_modules;
use next_externals::plugin::{ExternalsEntry, NextExternalsPlugin};

fn plugin(compiler_type: &str) -> NextExternalsPlugin {
    NextExternalsPlugin::new(
        compiler_type.to_string(),
        NextConfigComplete {
            server_external_packages: None,
            transpile_packages: None,
            experimental: ExperimentalConfig { esm_externals: EsmExternalsConfig::Loose },
        },
        vec!["fs".to_string(), "path".to_string()],
        "^$".to_string(),
        vec!["my-ui-kit".to_string()],
        "/proj".to_string(),
    )
}

#[test]
fn plugin_name_is_fixed() {
    assert_eq!(plugin("client").name(), "NextExternalsPlugin");
}

#[test]
fn client_plan_assigns_only_the_framework_root() {
    let plan = plugin("client").externals_plan();
    assert_eq!(plan.external_type, "assign");
    assert_eq!(plan.entries, vec![ExternalsEntry::Literal("next".to_string())]);
}

#[test]
fn edge_server_plan_has_the_fixed_list() {
    let plan = plugin("edge-server").externals_plan();
    assert_eq!(plan.external_type, "assign");
    assert_eq!(plan.entries.len(), 4);
    assert_eq!(plan.entries[0], ExternalsEntry::Literal("next".to_string()));
    assert_eq!(
        plan.entries[1],
        ExternalsEntry::Replacements(vec![
            ("@builder.io/partytown".to_string(), "{}".to_string()),
            ("next/dist/compiled/etag".to_string(), "{}".to_string()),
        ]),
    );
    assert_eq!(plan.entries[2], ExternalsEntry::Replacements(get_edge_polyfilled_modules()));
    assert_eq!(plan.entries[3], ExternalsEntry::EdgeRuntimeHandler);
}

#[test]
fn server_plan_externalizes_builtins_then_delegates() {
    let plan = plugin("server").externals_plan();
    assert_eq!(plan.external_type, "commonjs2");
    assert_eq!(
        plan.entries,
        vec![
            ExternalsEntry::Literal("fs".to_string()),
            ExternalsEntry::Literal("path".to_string()),
            ExternalsEntry::RequestHandler,
        ],
    );
}

#[test]
fn plugin_wires_the_handler_from_its_arguments() {
    let p = plugin("server");
    assert_eq!(p.external_handler.dir, "/proj");
    assert_eq!(p.external_handler.transpiled_packages, vec!["my-ui-kit".to_string()]);
    assert_eq!(p.external_handler.opt_out_bundling_package_pattern, "^$");
    assert!(p.external_handler.loose_esm_externals);
}
