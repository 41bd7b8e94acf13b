//! The fixed pattern table of the fast-path classifier.
//!
//! Every pattern is anchored and case-sensitive. Patterns that describe
//! on-disk framework paths accept either path separator (`wild` matching,
//! see `crate::text`); patterns that describe bare module specifiers match
//! exactly.

use vstd::prelude::*;
use vstd::string::StrSliceExecFns;
use crate::text::{match_at, match_prefix, match_suffix, match_within};
use crate::text::{match_at_str, match_prefix_str, match_suffix_str, match_within_str, str_eq};

verus! {

/// A request is local when it is a relative path or an absolute filesystem
/// path; such requests are already resolved and bypass the rules that only
/// concern bare package specifiers.
pub open spec fn spec_is_local_request(request: Seq<char>) -> bool {
    request.len() > 0 && (request[0] == '.' || request[0] == '/')
}

/// Whether the request is a relative or absolute path.
pub fn is_local_request(request: &str) -> (r: bool)
    ensures
        r == spec_is_local_request(request@),
{
    let len: usize = request.unicode_len();
    if len == 0 {
        false
    } else {
        let c = request.get_char(0);
        c == '.' || c == '/'
    }
}

/// The layer tags whose modules the bundler always compiles itself.
pub open spec fn spec_is_webpack_bundled_layer(layer: Option<Seq<char>>) -> bool {
    match layer {
        Some(l) => {
            ||| l == "rsc"@
            ||| l == "action-browser"@
            ||| l == "ssr"@
            ||| l == "app-pages-browser"@
            ||| l == "shared"@
            ||| l == "instrument"@
            ||| l == "middleware"@
        },
        None => false,
    }
}

/// Whether the layer is one of the bundler-owned layers.
pub fn is_webpack_bundled_layer(layer: Option<&str>) -> (r: bool)
    ensures
        r == spec_is_webpack_bundled_layer(layer.deep_view()),
{
    match layer {
        Some(l) => str_eq(l, "rsc") || str_eq(l, "action-browser") || str_eq(l, "ssr")
            || str_eq(l, "app-pages-browser") || str_eq(l, "shared") || str_eq(l, "instrument")
            || str_eq(l, "middleware"),
        None => false,
    }
}

/// The layer tags that run only on the server and use the server rendering
/// condition.
pub open spec fn spec_should_use_react_server_condition(layer: Option<Seq<char>>) -> bool {
    match layer {
        Some(l) => {
            ||| l == "rsc"@
            ||| l == "action-browser"@
            ||| l == "instrument"@
            ||| l == "middleware"@
        },
        None => false,
    }
}

/// Whether the layer is a server-only layer.
pub fn should_use_react_server_condition(layer: Option<&str>) -> (r: bool)
    ensures
        r == spec_should_use_react_server_condition(layer.deep_view()),
{
    match layer {
        Some(l) => str_eq(l, "rsc") || str_eq(l, "action-browser") || str_eq(l, "instrument")
            || str_eq(l, "middleware"),
        None => false,
    }
}

/// The reserved UI-library names: the library itself, its DOM renderer and
/// its server-DOM adapter, each either exactly or followed by a subpath.
pub open spec fn spec_matches_react_package(request: Seq<char>) -> bool {
    ||| request == "react"@
    ||| match_prefix(request, "react/"@, false)
    ||| request == "react-dom"@
    ||| match_prefix(request, "react-dom/"@, false)
    ||| request == "react-server-dom-webpack"@
    ||| match_prefix(request, "react-server-dom-webpack/"@, false)
}

/// Whether the request names one of the reserved UI-library packages.
pub fn matches_react_package(request: &str) -> (r: bool)
    ensures
        r == spec_matches_react_package(request@),
{
    str_eq(request, "react") || match_prefix_str(request, "react/", false)
        || str_eq(request, "react-dom") || match_prefix_str(request, "react-dom/", false)
        || str_eq(request, "react-server-dom-webpack")
        || match_prefix_str(request, "react-server-dom-webpack/", false)
}

/// The private virtual modules and framework entry points that must never be
/// externalized.
pub open spec fn spec_is_never_external(request: Seq<char>) -> bool {
    ||| match_prefix(request, "private-next-pages/"@, false)
    ||| match_prefix(request, "next/dist/pages/"@, false)
    ||| request == "next/app"@
    ||| request == "next/cache"@
    ||| request == "next/document"@
    ||| request == "next/link"@
    ||| request == "next/form"@
    ||| request == "next/head"@
    ||| request == "next/image"@
    ||| request == "next/legacy/image"@
    ||| request == "next/constants"@
    ||| request == "next/dynamic"@
    ||| request == "next/script"@
    ||| request == "next/navigation"@
    ||| request == "next/headers"@
    ||| request == "next/router"@
    ||| request == "next/compat/router"@
    ||| request == "next/server"@
    ||| match_prefix(request, "string-hash"@, false)
    ||| match_prefix(request, "private-next-rsc-action-validate"@, false)
    ||| match_prefix(request, "private-next-rsc-action-client-wrapper"@, false)
    ||| match_prefix(request, "private-next-rsc-server-reference"@, false)
    ||| match_prefix(request, "private-next-rsc-cache-wrapper"@, false)
    ||| request == "private-next-rsc-track-dynamic-import"@
}

/// Whether the request names a module that must never be externalized.
pub fn is_never_external(request: &str) -> (r: bool)
    ensures
        r == spec_is_never_external(request@),
{
    match_prefix_str(request, "private-next-pages/", false)
        || match_prefix_str(request, "next/dist/pages/", false)
        || str_eq(request, "next/app")
        || str_eq(request, "next/cache")
        || str_eq(request, "next/document")
        || str_eq(request, "next/link")
        || str_eq(request, "next/form")
        || str_eq(request, "next/head")
        || str_eq(request, "next/image")
        || str_eq(request, "next/legacy/image")
        || str_eq(request, "next/constants")
        || str_eq(request, "next/dynamic")
        || str_eq(request, "next/script")
        || str_eq(request, "next/navigation")
        || str_eq(request, "next/headers")
        || str_eq(request, "next/router")
        || str_eq(request, "next/compat/router")
        || str_eq(request, "next/server")
        || match_prefix_str(request, "string-hash", false)
        || match_prefix_str(request, "private-next-rsc-action-validate", false)
        || match_prefix_str(request, "private-next-rsc-action-client-wrapper", false)
        || match_prefix_str(request, "private-next-rsc-server-reference", false)
        || match_prefix_str(request, "private-next-rsc-cache-wrapper", false)
        || str_eq(request, "private-next-rsc-track-dynamic-import")
}

/// The image loader lives under the internal distribution root but must be
/// compiled.
pub open spec fn spec_is_image_loader_path(request: Seq<char>) -> bool {
    match_prefix(request, "next/dist/shared/lib/image-loader"@, true)
}

/// Whether the request is the internal image-loader path.
pub fn is_image_loader_path(request: &str) -> (r: bool)
    ensures
        r == spec_is_image_loader_path(request@),
{
    match_prefix_str(request, "next/dist/shared/lib/image-loader", true)
}

/// The precompiled server bundle under the internal distribution root.
pub open spec fn spec_is_next_server_path(request: Seq<char>) -> bool {
    match_prefix(request, "next/dist/compiled/next-server"@, true)
}

/// Whether the request is under the compiled server bundle path.
pub fn is_next_server_path(request: &str) -> (r: bool)
    ensures
        r == spec_is_next_server_path(request@),
{
    match_prefix_str(request, "next/dist/compiled/next-server", true)
}

/// Shared internal modules loaded as CommonJS; the router's own router module
/// is excluded from this bucket.
pub open spec fn spec_is_shared_cjs_path(request: Seq<char>) -> bool {
    &&& match_prefix(request, "next/dist/shared/"@, true)
    &&& !match_at(request, "lib/router/router"@, "next/dist/shared/"@.len() as int, true)
}

/// Whether the request is a shared internal CommonJS module.
pub fn is_shared_cjs_path(request: &str) -> (r: bool)
    ensures
        r == spec_is_shared_cjs_path(request@),
{
    let off: usize = "next/dist/shared/".unicode_len();
    match_prefix_str(request, "next/dist/shared/", true)
        && !match_at_str(request, "lib/router/router", off, true)
}

/// Precompiled internal modules in CommonJS form.
pub open spec fn spec_is_compiled_cjs_path(request: Seq<char>) -> bool {
    &&& match_prefix(request, "next/dist/compiled/"@, true)
    &&& (match_suffix(request, ".js"@, false) || match_suffix(request, ".cjs"@, false))
}

/// Whether the request is a precompiled internal CommonJS module.
pub fn is_compiled_cjs_path(request: &str) -> (r: bool)
    ensures
        r == spec_is_compiled_cjs_path(request@),
{
    match_prefix_str(request, "next/dist/compiled/", true)
        && (match_suffix_str(request, ".js", false) || match_suffix_str(request, ".cjs", false))
}

/// Shared internal modules in ESM form; the router's own router module is
/// excluded as in the CommonJS bucket.
pub open spec fn spec_is_shared_esm_path(request: Seq<char>) -> bool {
    &&& match_prefix(request, "next/dist/esm/shared/"@, true)
    &&& !match_at(request, "lib/router/router"@, "next/dist/esm/shared/"@.len() as int, true)
}

/// Whether the request is a shared internal ESM module.
pub fn is_shared_esm_path(request: &str) -> (r: bool)
    ensures
        r == spec_is_shared_esm_path(request@),
{
    let off: usize = "next/dist/esm/shared/".unicode_len();
    match_prefix_str(request, "next/dist/esm/shared/", true)
        && !match_at_str(request, "lib/router/router", off, true)
}

/// Precompiled internal modules in ESM form.
pub open spec fn spec_is_compiled_esm_path(request: Seq<char>) -> bool {
    &&& match_prefix(request, "next/dist/compiled/"@, true)
    &&& match_suffix(request, ".mjs"@, false)
}

/// Whether the request is a precompiled internal ESM module.
pub fn is_compiled_esm_path(request: &str) -> (r: bool)
    ensures
        r == spec_is_compiled_esm_path(request@),
{
    match_prefix_str(request, "next/dist/compiled/", true)
        && match_suffix_str(request, ".mjs", false)
}

/// Resolved paths inside the helper-runtime package; hoisting of that package
/// cannot be relied upon, so such paths are never externalized.
pub open spec fn spec_is_babel_runtime_path(path: Seq<char>) -> bool {
    match_within(path, "node_modules/@babel/runtime/"@, true)
}

/// Whether the resolved path lies inside the helper-runtime package.
pub fn is_babel_runtime_path(path: &str) -> (r: bool)
    ensures
        r == spec_is_babel_runtime_path(path@),
{
    match_within_str(path, "node_modules/@babel/runtime/", true)
}

/// Resolved paths inside the bundler itself or its style loader.
pub open spec fn spec_is_bundler_internal_path(path: Seq<char>) -> bool {
    ||| match_within(path, "node_modules/webpack"@, true)
    ||| match_within(path, "node_modules/css-loader"@, true)
}

/// Whether the resolved path lies inside the bundler or its style loader.
pub fn is_bundler_internal_path(path: &str) -> (r: bool)
    ensures
        r == spec_is_bundler_internal_path(path@),
{
    match_within_str(path, "node_modules/webpack", true)
        || match_within_str(path, "node_modules/css-loader", true)
}

} // verus!
