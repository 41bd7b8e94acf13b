//! Externals handling for the edge runtime.
//!
//! On the middleware and edge API layers, Node.js builtin modules are not
//! available: a handful of polyfilled builtins stays bundled, any other
//! builtin that the user has not polyfilled themselves is replaced by a raw
//! reference to the unsupported-module shim.

use vstd::prelude::*;
use crate::text::{concat3, str_eq};

verus! {

/// The builtin modules with an edge-runtime polyfill.
pub open spec fn spec_is_supported_edge_polyfill(module_name: Seq<char>) -> bool {
    ||| module_name == "buffer"@
    ||| module_name == "events"@
    ||| module_name == "assert"@
    ||| module_name == "util"@
    ||| module_name == "async_hooks"@
}

/// Whether the module has an edge-runtime polyfill.
pub fn is_supported_edge_polyfill(module_name: &str) -> (r: bool)
    ensures
        r == spec_is_supported_edge_polyfill(module_name@),
{
    str_eq(module_name, "buffer") || str_eq(module_name, "events") || str_eq(module_name, "assert")
        || str_eq(module_name, "util") || str_eq(module_name, "async_hooks")
}

/// Whether the name is one of the given builtin module names.
pub open spec fn spec_is_node_js_module(module_name: Seq<char>, builtins: Seq<Seq<char>>) -> bool {
    exists|i: int| 0 <= i < builtins.len() && builtins[i] == module_name
}

/// Whether the name is one of the given builtin module names.
pub fn is_node_js_module(module_name: &str, builtin_modules: &Vec<String>) -> (r: bool)
    ensures
        r == spec_is_node_js_module(module_name@, builtin_modules.deep_view()),
{
    let n = builtin_modules.len();
    let mut i: usize = 0;
    while i < n
        invariant
            n == builtin_modules@.len(),
            builtin_modules.deep_view().len() == n,
            forall|j: int| 0 <= j < n ==> builtin_modules.deep_view()[j] == builtin_modules@[j]@,
            i <= n,
            forall|j: int| 0 <= j < i ==> builtin_modules.deep_view()[j] != module_name@,
        decreases n - i,
    {
        if str_eq(builtin_modules[i].as_str(), module_name) {
            assert(builtin_modules.deep_view()[i as int] == module_name@);
            return true;
        }
        i = i + 1;
    }
    false
}

/// The replacement table for polyfilled builtins: each supported builtin,
/// bare and under its `node:` alias, is loaded through synchronous require
/// of its `node:` form.
pub open spec fn spec_edge_polyfilled_modules() -> Seq<(Seq<char>, Seq<char>)> {
    seq![
        ("buffer"@, "commonjs node:buffer"@),
        ("node:buffer"@, "commonjs node:buffer"@),
        ("events"@, "commonjs node:events"@),
        ("node:events"@, "commonjs node:events"@),
        ("assert"@, "commonjs node:assert"@),
        ("node:assert"@, "commonjs node:assert"@),
        ("util"@, "commonjs node:util"@),
        ("node:util"@, "commonjs node:util"@),
        ("async_hooks"@, "commonjs node:async_hooks"@),
        ("node:async_hooks"@, "commonjs node:async_hooks"@),
    ]
}

/// Builds the replacement table for polyfilled builtins.
pub fn get_edge_polyfilled_modules() -> (r: Vec<(String, String)>)
    ensures
        r.deep_view() == spec_edge_polyfilled_modules(),
{
    let mut v: Vec<(String, String)> = Vec::new();
    v.push(("buffer".to_owned(), "commonjs node:buffer".to_owned()));
    v.push(("node:buffer".to_owned(), "commonjs node:buffer".to_owned()));
    v.push(("events".to_owned(), "commonjs node:events".to_owned()));
    v.push(("node:events".to_owned(), "commonjs node:events".to_owned()));
    v.push(("assert".to_owned(), "commonjs node:assert".to_owned()));
    v.push(("node:assert".to_owned(), "commonjs node:assert".to_owned()));
    v.push(("util".to_owned(), "commonjs node:util".to_owned()));
    v.push(("node:util".to_owned(), "commonjs node:util".to_owned()));
    v.push(("async_hooks".to_owned(), "commonjs node:async_hooks".to_owned()));
    v.push(("node:async_hooks".to_owned(), "commonjs node:async_hooks".to_owned()));
    assert(v.deep_view() =~= spec_edge_polyfilled_modules());
    v
}

/// An edge-runtime request needs a resolution attempt when it comes from
/// the middleware or edge API layer, names a builtin module, and has no
/// polyfill: it is replaced by the unsupported-module shim only if the user
/// supplied no module of their own.
pub open spec fn spec_edge_needs_resolution(
    request: Seq<char>,
    layer: Option<Seq<char>>,
    builtins: Seq<Seq<char>>,
) -> bool {
    &&& (layer == Some("middleware"@) || layer == Some("api-edge"@))
    &&& spec_is_node_js_module(request, builtins)
    &&& !spec_is_supported_edge_polyfill(request)
}

/// Whether the edge-runtime rules apply to this request, so that the driver
/// must attempt a resolution.
pub fn edge_external_needs_resolution(
    request: &str,
    layer: Option<&str>,
    builtin_modules: &Vec<String>,
) -> (r: bool)
    ensures
        r == spec_edge_needs_resolution(request@, layer.deep_view(), builtin_modules.deep_view()),
{
    let on_edge_layer = match layer {
        Some(l) => str_eq(l, "middleware") || str_eq(l, "api-edge"),
        None => false,
    };
    on_edge_layer && is_node_js_module(request, builtin_modules)
        && !is_supported_edge_polyfill(request)
}

/// The raw reference that replaces an unsupported builtin at runtime.
pub open spec fn spec_unsupported_module_reference(request: Seq<char>) -> Seq<char> {
    "root globalThis.__import_unsupported('"@ + request + "')"@
}

/// The outcome of the edge-runtime rules once the resolution attempt is in:
/// a module the user supplied themselves is left alone; an unresolvable
/// builtin is replaced by the unsupported-module shim.
pub fn edge_external_outcome(request: &str, resolution_succeeded: bool) -> (r: Option<String>)
    ensures
        r.deep_view() == if resolution_succeeded {
            None
        } else {
            Some(spec_unsupported_module_reference(request@))
        },
{
    if resolution_succeeded {
        None
    } else {
        Some(concat3("root globalThis.__import_unsupported('", request, "')"))
    }
}

} // verus!
