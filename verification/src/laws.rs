//! Laws of the externalization engine: properties that relate several
//! functions, stated over the spec functions the public contracts use and
//! proved once and for all.

use vstd::prelude::*;
use crate::decision::{DecisionModel, ModuleType, spec_esm_violation_message};
use crate::handler::{HandleStateModel, HandleStepModel, HandlerModel, spec_classify_fast_path,
    spec_continue_after_resolve, spec_finish_decision, spec_handle_start};
use crate::patterns::{spec_is_babel_runtime_path, spec_is_bundler_internal_path,
    spec_is_local_request, spec_is_never_external, spec_is_webpack_bundled_layer,
    spec_matches_react_package};
use crate::resolve::ResolveQuery;
use crate::text::{match_char, match_prefix, match_within};

verus! {

/// A reserved UI-library request starts with the letter `r`.
proof fn lemma_react_first_char(request: Seq<char>)
    requires
        spec_matches_react_package(request),
    ensures
        request.len() > 0,
        request[0] == 'r',
{
    reveal_strlit("react");
    reveal_strlit("react/");
    reveal_strlit("react-dom");
    reveal_strlit("react-dom/");
    reveal_strlit("react-server-dom-webpack");
    reveal_strlit("react-server-dom-webpack/");
    if request == "react"@ {
    } else if match_prefix(request, "react/"@, false) {
        assert(match_char(request[0], "react/"@[0], false));
    } else if request == "react-dom"@ {
    } else if match_prefix(request, "react-dom/"@, false) {
        assert(match_char(request[0], "react-dom/"@[0], false));
    } else if request == "react-server-dom-webpack"@ {
    } else {
        assert(match_prefix(request, "react-server-dom-webpack/"@, false));
        assert(match_char(request[0], "react-server-dom-webpack/"@[0], false));
    }
}

/// A never-external module request starts with `p`, `n` or `s`.
proof fn lemma_never_external_first_char(request: Seq<char>)
    requires
        spec_is_never_external(request),
    ensures
        request.len() > 0,
        request[0] == 'p' || request[0] == 'n' || request[0] == 's',
{
    reveal_strlit("private-next-pages/");
    reveal_strlit("next/dist/pages/");
    reveal_strlit("next/app");
    reveal_strlit("next/cache");
    reveal_strlit("next/document");
    reveal_strlit("next/link");
    reveal_strlit("next/form");
    reveal_strlit("next/head");
    reveal_strlit("next/image");
    reveal_strlit("next/legacy/image");
    reveal_strlit("next/constants");
    reveal_strlit("next/dynamic");
    reveal_strlit("next/script");
    reveal_strlit("next/navigation");
    reveal_strlit("next/headers");
    reveal_strlit("next/router");
    reveal_strlit("next/compat/router");
    reveal_strlit("next/server");
    reveal_strlit("string-hash");
    reveal_strlit("private-next-rsc-action-validate");
    reveal_strlit("private-next-rsc-action-client-wrapper");
    reveal_strlit("private-next-rsc-server-reference");
    reveal_strlit("private-next-rsc-cache-wrapper");
    reveal_strlit("private-next-rsc-track-dynamic-import");
    if match_prefix(request, "private-next-pages/"@, false) {
        assert(match_char(request[0], "private-next-pages/"@[0], false));
    } else if match_prefix(request, "next/dist/pages/"@, false) {
        assert(match_char(request[0], "next/dist/pages/"@[0], false));
    } else if match_prefix(request, "string-hash"@, false) {
        assert(match_char(request[0], "string-hash"@[0], false));
    } else if match_prefix(request, "private-next-rsc-action-validate"@, false) {
        assert(match_char(request[0], "private-next-rsc-action-validate"@[0], false));
    } else if match_prefix(request, "private-next-rsc-action-client-wrapper"@, false) {
        assert(match_char(request[0], "private-next-rsc-action-client-wrapper"@[0], false));
    } else if match_prefix(request, "private-next-rsc-server-reference"@, false) {
        assert(match_char(request[0], "private-next-rsc-server-reference"@[0], false));
    } else if match_prefix(request, "private-next-rsc-cache-wrapper"@, false) {
        assert(match_char(request[0], "private-next-rsc-cache-wrapper"@[0], false));
    } else {
    }
}

/// Law: a request for the framework root package is decided immediately,
/// deterministically, and always as a CommonJS external — the redirect to
/// the import-warning module — whatever the layer, the dependency type and
/// the configuration.
pub proof fn lemma_framework_root_always_commonjs_external(
    h: HandlerModel,
    request: Seq<char>,
    dependency_type: Seq<char>,
    layer: Option<Seq<char>>,
)
    requires
        request == "next"@,
    ensures
        spec_handle_start(h, request, dependency_type, layer) == HandleStepModel::Done(
            DecisionModel::External(ModuleType::CommonJs, "next/dist/lib/import-next-warning"@),
        ),
{
}

/// Law: a request matching the reserved UI-library pattern, outside the
/// bundler-owned layers, is decided immediately as a CommonJS external under
/// its own name.
pub proof fn lemma_reserved_ui_library_external(
    h: HandlerModel,
    request: Seq<char>,
    dependency_type: Seq<char>,
    layer: Option<Seq<char>>,
)
    requires
        spec_matches_react_package(request),
        !spec_is_webpack_bundled_layer(layer),
    ensures
        spec_handle_start(h, request, dependency_type, layer) == HandleStepModel::Done(
            DecisionModel::External(ModuleType::CommonJs, request),
        ),
{
    lemma_react_first_char(request);
    reveal_strlit("next");
    assert(request != "next"@);
    assert(!spec_is_local_request(request));
}

/// Law: a request matching the reserved UI-library pattern proceeds to
/// resolution on a bundler-owned layer (as long as it does not mention the
/// helper-runtime package, which is always bundled first).
pub proof fn lemma_reserved_ui_library_resolves_on_bundled_layer(
    h: HandlerModel,
    request: Seq<char>,
    dependency_type: Seq<char>,
    layer: Option<Seq<char>>,
)
    requires
        spec_matches_react_package(request),
        spec_is_webpack_bundled_layer(layer),
        !match_within(request, "@swc/helpers"@, false),
    ensures
        spec_handle_start(h, request, dependency_type, layer) matches HandleStepModel::Resolve(
            _,
            _,
        ),
{
    lemma_react_first_char(request);
    reveal_strlit("next");
    reveal_strlit("__barrel_optimize__");
    reveal_strlit("next/dist/compiled/@vercel/og/index.node.js");
    reveal_strlit("next/dist/");
    assert(request != "next"@);
    if spec_is_never_external(request) {
        lemma_never_external_first_char(request);
        assert(false);
    }
    if match_prefix(request, "__barrel_optimize__"@, false) {
        assert(match_char(request[0], "__barrel_optimize__"@[0], false));
        assert(false);
    }
    assert(request != "next/dist/compiled/@vercel/og/index.node.js"@);
    if match_prefix(request, "next/dist/"@, false) {
        assert(match_char(request[0], "next/dist/"@[0], false));
        assert(false);
    }
}

/// Law: a request under the barrel-optimization prefix is always bundled,
/// whatever the layer, the dependency type and the configuration.
pub proof fn lemma_barrel_optimization_always_bundled(
    h: HandlerModel,
    request: Seq<char>,
    dependency_type: Seq<char>,
    layer: Option<Seq<char>>,
)
    requires
        match_prefix(request, "__barrel_optimize__"@, false),
    ensures
        spec_handle_start(h, request, dependency_type, layer) == HandleStepModel::Done(
            DecisionModel::Bundle,
        ),
{
    reveal_strlit("__barrel_optimize__");
    reveal_strlit("next");
    assert(match_char(request[0], "__barrel_optimize__"@[0], false));
    assert(request[0] == '_');
    assert(request != "next"@);
    if spec_matches_react_package(request) {
        lemma_react_first_char(request);
        assert(false);
    }
    if spec_is_never_external(request) {
        lemma_never_external_first_char(request);
        assert(false);
    }
}

/// Law: classification is deterministic. Equal handlers, equal requests and
/// equal resolver answers step to equal outcomes, at every stage: the
/// decision never depends on anything but these inputs.
pub proof fn lemma_classification_deterministic(
    h1: HandlerModel,
    h2: HandlerModel,
    request: Seq<char>,
    dependency_type: Seq<char>,
    layer: Option<Seq<char>>,
    st: HandleStateModel,
    path: Option<Seq<char>>,
    path_is_esm: bool,
    res: Option<Seq<char>>,
    is_esm: bool,
    dirs: Seq<Seq<char>>,
    c: crate::handler::RequestCtxModel,
)
    requires
        h1 == h2,
    ensures
        spec_classify_fast_path(request, layer) == spec_classify_fast_path(request, layer),
        spec_handle_start(h1, request, dependency_type, layer) == spec_handle_start(
            h2,
            request,
            dependency_type,
            layer,
        ),
        spec_continue_after_resolve(h1, st, path, path_is_esm) == spec_continue_after_resolve(
            h2,
            st,
            path,
            path_is_esm,
        ),
        spec_finish_decision(h1, c, res, is_esm, dirs) == spec_finish_decision(
            h2,
            c,
            res,
            is_esm,
            dirs,
        ),
{
}

/// Law: a candidate whose root-relative re-resolution disagrees with its
/// caller-relative resolution, on the path or on the module format, never
/// yields an external decision. On the divergent answer the orchestrator
/// either continues with the next resolution mode or bundles; it never asks
/// for the transpiled-package directories either, since those only matter
/// to a decision that would otherwise externalize. The one request exempt
/// is the style-injection helper, whose fixed substitute ignores
/// resolution.
pub proof fn lemma_hoisting_divergence_never_external(
    h: HandlerModel,
    st: HandleStateModel,
    base_path: Option<Seq<char>>,
    base_is_esm: bool,
)
    requires
        st.resolve.wf(),
        st.resolve.phase is AwaitingBase,
        base_path != st.resolve.res || base_is_esm != st.resolve.is_esm,
        st.ctx.request != "styled-jsx/style"@,
    ensures
        spec_continue_after_resolve(h, st, base_path, base_is_esm) matches
            HandleStepModel::Done(d) ==> !(d is External),
        !(spec_continue_after_resolve(h, st, base_path, base_is_esm) matches
            HandleStepModel::NeedTranspiledDirs(_)),
{
    crate::resolve::lemma_hoisting_divergence_discards(st.resolve, base_path, base_is_esm);
}

/// Law: a non-local dependency that resolves as ESM although it was
/// required with non-ESM syntax is a fatal violation under the strict
/// policy. The resolution machine rejects the candidate, exhausts its one
/// mode, and the orchestrator raises the violation with its message —
/// provided the request is not on a bundler-owned layer (which bundles
/// first) and is not the style-injection helper.
pub proof fn lemma_strict_esm_require_is_fatal(
    h: HandlerModel,
    request: Seq<char>,
    dependency_type: Seq<char>,
    layer: Option<Seq<char>>,
    st: HandleStateModel,
    q: ResolveQuery,
    p: Seq<char>,
)
    requires
        spec_handle_start(h, request, dependency_type, layer) == HandleStepModel::Resolve(st, q),
        dependency_type != "esm"@,
        !spec_is_local_request(request),
        !h.loose_esm_externals,
        !spec_is_webpack_bundled_layer(layer),
        request != "styled-jsx/style"@,
    ensures
        spec_continue_after_resolve(h, st, Some(p), true) == HandleStepModel::Done(
            DecisionModel::Fatal(spec_esm_violation_message(request)),
        ),
{
}

/// Law: the same non-local ESM resolution for a non-ESM request is accepted
/// under the loose policy: the machine re-resolves from the project root,
/// and an agreeing answer externalizes the request as an ESM module —
/// provided none of the bundling exclusions (bundler-owned layer,
/// helper-runtime or bundler-internal path, configured transpiled packages,
/// the style-injection helper) applies.
pub proof fn lemma_loose_esm_require_is_module_external(
    h: HandlerModel,
    request: Seq<char>,
    dependency_type: Seq<char>,
    layer: Option<Seq<char>>,
    st: HandleStateModel,
    q: ResolveQuery,
    p: Seq<char>,
)
    requires
        spec_handle_start(h, request, dependency_type, layer) == HandleStepModel::Resolve(st, q),
        dependency_type != "esm"@,
        !spec_is_local_request(request),
        h.loose_esm_externals,
        !spec_is_webpack_bundled_layer(layer),
        request != "styled-jsx/style"@,
        !spec_is_babel_runtime_path(p),
        !spec_is_bundler_internal_path(p),
        h.transpiled_packages.len() == 0,
    ensures
        ({
            let step1 = spec_continue_after_resolve(h, st, Some(p), true);
            step1 matches HandleStepModel::Resolve(st2, q2) && q2 == (ResolveQuery {
                prefer_esm: true,
                from_root: true,
            }) && spec_continue_after_resolve(h, st2, Some(p), true) == HandleStepModel::Done(
                DecisionModel::External(ModuleType::Module, request),
            )
        }),
{
}

} // verus!
