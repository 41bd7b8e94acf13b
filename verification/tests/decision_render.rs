//! Rendering decisions into the host's external-reference strings.

use next_externals::decision::{Decision, ModuleType};

#[test]
fn commonjs_externals_render_with_the_require_marker() {
    let d = Decision::External(ModuleType::CommonJs, "lodash".to_string());
    assert_eq!(d.external_value(), Some("commonjs lodash".to_string()));
}

#[test]
fn module_externals_render_with_the_import_marker() {
    let d = Decision::External(ModuleType::Module, "esm-pkg".to_string());
    assert_eq!(d.external_value(), Some("module esm-pkg".to_string()));
}

#[test]
fn assign_externals_render_as_the_bare_expression() {
    let d = Decision::External(ModuleType::Assign, "globalThis.shim".to_string());
    assert_eq!(d.external_value(), Some("globalThis.shim".to_string()));
}

#[test]
fn bundle_and_fatal_render_nothing() {
    assert_eq!(Decision::Bundle.external_value(), None);
    assert_eq!(Decision::Fatal("message".to_string()).external_value(), None);
}
