//! Full request flows through the orchestrator, with a fake resolver.

use next_externals::config::{EsmExternalsConfig, ExperimentalConfig, NextConfigComplete};
use next_externals::decision::{Decision, ModuleType};
use next_externals::handler::{ExternalHandler, HandleStep};
use next_externals::resolve::ResolveQuery;

fn handler_with(
    esm: EsmExternalsConfig,
    opt_out: &str,
    transpiled: &[&str],
    dir: &str,
) -> ExternalHandler {
    ExternalHandler::new(
        NextConfigComplete {
            server_external_packages: None,
            transpile_packages: None,
            experimental: ExperimentalConfig { esm_externals: esm },
        },
        opt_out.to_string(),
        transpiled.iter().map(|s| s.to_string()).collect(),
        dir.to_string(),
    )
}

/// Drives one request to its decision: answers every resolution query with
/// the given resolver and every transpiled-directory lookup with the given
/// directories.
fn run(
    handler: &ExternalHandler,
    request: &str,
    dep_type: &str,
    layer: Option<&str>,
    resolver: &dyn Fn(ResolveQuery) -> (Option<String>, bool),
    transpiled_dirs: &[&str],
) -> Decision {
    let mut step = handler.handle_externals(request, dep_type, layer);
    loop {
        match step {
            HandleStep::Done(d) => return d,
            HandleStep::Resolve(st, q) => {
                let (p, e) = resolver(q);
                step = handler.continue_after_resolve(st, p, e);
            },
            HandleStep::NeedTranspiledDirs(st) => {
                let dirs: Vec<String> = transpiled_dirs.iter().map(|s| s.to_string()).collect();
                return handler.continue_with_transpiled_dirs(st, &dirs);
            },
        }
    }
}

fn no_resolution(_q: ResolveQuery) -> (Option<String>, bool) {
    (None, false)
}

#[test]
fn unresolved_requests_bundle() {
    let h = handler_with(EsmExternalsConfig::Disabled, "^$", &[], "/proj");
    let d = run(&h, "missing-pkg", "cjs", None, &no_resolution, &[]);
    assert_eq!(d, Decision::Bundle);
    assert_eq!(d.external_value(), None);
}

#[test]
fn accepted_resolution_externalizes_under_the_request() {
    let h = handler_with(EsmExternalsConfig::Disabled, "^$", &[], "/proj");
    let resolver = |_q: ResolveQuery| (Some("/proj/node_modules/lodash/index.js".to_string()), false);
    let d = run(&h, "lodash", "cjs", None, &resolver, &[]);
    assert_eq!(d, Decision::External(ModuleType::CommonJs, "lodash".to_string()));
    assert_eq!(d.external_value(), Some("commonjs lodash".to_string()));
}

#[test]
fn hoisting_divergence_bundles() {
    let h = handler_with(EsmExternalsConfig::Disabled, "^$", &[], "/proj");
    let resolver = |q: ResolveQuery| {
        if q.from_root {
            (Some("/proj/node_modules/other-copy/index.js".to_string()), false)
        } else {
            (Some("/proj/app/node_modules/dep/index.js".to_string()), false)
        }
    };
    let d = run(&h, "dep", "cjs", None, &resolver, &[]);
    assert_eq!(d, Decision::Bundle);
}

#[test]
fn strict_esm_require_is_fatal_with_exact_message() {
    let h = handler_with(EsmExternalsConfig::Strict, "^$", &[], "/proj");
    let resolver = |_q: ResolveQuery| (Some("/proj/node_modules/esm-pkg/index.mjs".to_string()), true);
    let d = run(&h, "esm-pkg", "cjs", None, &resolver, &[]);
    assert_eq!(
        d,
        Decision::Fatal(
            "ESM packages (esm-pkg) need to be imported. Use 'import' to reference the package \
             instead. https://nextjs.org/docs/messages/import-esm-externals"
                .to_string(),
        ),
    );
}

#[test]
fn disabled_esm_externals_still_fail_on_esm_only_packages() {
    // The strictness of the format check does not depend on ESM externals
    // being enabled, only on the loose mode being off.
    let h = handler_with(EsmExternalsConfig::Disabled, "^$", &[], "/proj");
    let resolver = |_q: ResolveQuery| (Some("/proj/node_modules/esm-pkg/index.mjs".to_string()), true);
    let d = run(&h, "esm-pkg", "cjs", None, &resolver, &[]);
    assert!(matches!(d, Decision::Fatal(_)));
}

#[test]
fn loose_esm_require_externalizes_as_module() {
    let h = handler_with(EsmExternalsConfig::Loose, "^$", &[], "/proj");
    let resolver = |_q: ResolveQuery| (Some("/proj/node_modules/esm-pkg/index.mjs".to_string()), true);
    let d = run(&h, "esm-pkg", "cjs", None, &resolver, &[]);
    assert_eq!(d, Decision::External(ModuleType::Module, "esm-pkg".to_string()));
    assert_eq!(d.external_value(), Some("module esm-pkg".to_string()));
}

#[test]
fn esm_import_of_esm_package_externalizes_as_module() {
    let h = handler_with(EsmExternalsConfig::Strict, "^$", &[], "/proj");
    let resolver = |_q: ResolveQuery| (Some("/proj/node_modules/esm-pkg/index.mjs".to_string()), true);
    let d = run(&h, "esm-pkg", "esm", None, &resolver, &[]);
    assert_eq!(d, Decision::External(ModuleType::Module, "esm-pkg".to_string()));
}

#[test]
fn app_layer_bundles_unless_opted_out() {
    let h = handler_with(EsmExternalsConfig::Disabled, "opted-out-pkg", &[], "/proj");
    let in_pkg = |_q: ResolveQuery| (Some("/proj/node_modules/plain-pkg/index.js".to_string()), false);
    let d = run(&h, "plain-pkg", "cjs", Some("ssr"), &in_pkg, &[]);
    assert_eq!(d, Decision::Bundle);
    // The same layer externalizes a package whose resolved path matches the
    // opt-out pattern.
    let in_opted = |_q: ResolveQuery| {
        (Some("/proj/node_modules/opted-out-pkg/index.js".to_string()), false)
    };
    let d = run(&h, "opted-out-pkg", "cjs", Some("ssr"), &in_opted, &[]);
    assert_eq!(d, Decision::External(ModuleType::CommonJs, "opted-out-pkg".to_string()));
}

#[test]
fn helper_runtime_resolution_bundles() {
    let h = handler_with(EsmExternalsConfig::Disabled, "^$", &[], "/proj");
    let resolver = |_q: ResolveQuery| {
        (Some("/proj/node_modules/@babel/runtime/helpers/x.js".to_string()), false)
    };
    let d = run(&h, "some-pkg", "cjs", None, &resolver, &[]);
    assert_eq!(d, Decision::Bundle);
}

#[test]
fn bundler_internal_resolution_bundles() {
    let h = handler_with(EsmExternalsConfig::Disabled, "^$", &[], "/proj");
    let resolver = |_q: ResolveQuery| {
        (Some("/proj/node_modules/css-loader/dist/cjs.js".to_string()), false)
    };
    let d = run(&h, "css-loader", "cjs", None, &resolver, &[]);
    assert_eq!(d, Decision::Bundle);
}

#[test]
fn transpiled_package_directory_forces_bundling() {
    let h = handler_with(EsmExternalsConfig::Disabled, "^$", &["my-ui-kit"], "/proj");
    let resolver = |_q: ResolveQuery| {
        (Some("/proj/node_modules/my-ui-kit/button.js".to_string()), false)
    };
    let d = run(&h, "my-ui-kit/button", "cjs", None, &resolver, &[
        "/proj/node_modules/my-ui-kit",
    ]);
    assert_eq!(d, Decision::Bundle);
    // The same request externalizes when the cached directory is elsewhere.
    let d = run(&h, "my-ui-kit/button", "cjs", None, &resolver, &["/proj/node_modules/elsewhere"]);
    assert_eq!(d, Decision::External(ModuleType::CommonJs, "my-ui-kit/button".to_string()));
}

#[test]
fn transpiled_directory_match_needs_a_boundary() {
    let h = handler_with(EsmExternalsConfig::Disabled, "^$", &["kit"], "/proj");
    let resolver = |_q: ResolveQuery| {
        (Some("/proj/node_modules/kit-extras/index.js".to_string()), false)
    };
    // "/proj/node_modules/kit" is a prefix of the resolved path, but not at
    // a separator boundary.
    let d = run(&h, "kit-extras", "cjs", None, &resolver, &["/proj/node_modules/kit"]);
    assert_eq!(d, Decision::External(ModuleType::CommonJs, "kit-extras".to_string()));
}

#[test]
fn styled_jsx_style_gets_its_fixed_substitute() {
    let h = handler_with(EsmExternalsConfig::Disabled, "^$", &[], "/proj");
    let d = run(&h, "styled-jsx/style", "cjs", None, &no_resolution, &[]);
    assert_eq!(d, Decision::External(ModuleType::CommonJs, "styled-jsx/style".to_string()));
}

#[test]
fn local_internal_runtime_file_externalizes_normalized() {
    let h = handler_with(EsmExternalsConfig::Disabled, "^$", &[], "/proj");
    let resolver = |q: ResolveQuery| {
        assert!(!q.from_root, "local requests skip the consistency check");
        (
            Some("/proj/node_modules/next/dist/server/request/headers.external.js".to_string()),
            false,
        )
    };
    let d = run(&h, "./request/headers.external", "cjs", None, &resolver, &[]);
    assert_eq!(
        d,
        Decision::External(
            ModuleType::CommonJs,
            "next/dist/server/request/headers.external.js".to_string(),
        ),
    );
}

#[test]
fn local_ordinary_file_bundles() {
    let h = handler_with(EsmExternalsConfig::Disabled, "^$", &[], "/proj");
    let resolver = |_q: ResolveQuery| (Some("/proj/src/util.js".to_string()), false);
    let d = run(&h, "./util", "cjs", None, &resolver, &[]);
    assert_eq!(d, Decision::Bundle);
}

#[test]
fn decisions_are_idempotent() {
    let h = handler_with(EsmExternalsConfig::Strict, "opted", &["kit"], "/proj");
    let resolver = |_q: ResolveQuery| (Some("/proj/node_modules/dep/index.js".to_string()), false);
    let first = run(&h, "dep", "cjs", Some("rsc"), &resolver, &["/proj/node_modules/kit"]);
    let second = run(&h, "dep", "cjs", Some("rsc"), &resolver, &["/proj/node_modules/kit"]);
    assert_eq!(first, second);
}

#[test]
fn empty_opt_out_pattern_matches_everything() {
    // An empty pattern matches every resolved path, so the bundler-owned
    // layer no longer forces bundling.
    let h = handler_with(EsmExternalsConfig::Disabled, "", &[], "/proj");
    let resolver = |_q: ResolveQuery| (Some("/proj/node_modules/dep/index.js".to_string()), false);
    let d = run(&h, "dep", "cjs", Some("ssr"), &resolver, &[]);
    assert_eq!(d, Decision::External(ModuleType::CommonJs, "dep".to_string()));
}
