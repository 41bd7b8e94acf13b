//! The decision orchestrator.
//!
//! One `ExternalHandler` is built per build and serves every request. A
//! request first runs through the fast-path classifier, which decides from
//! the request string and the layer alone whenever it can. Undecided
//! requests escalate to the dual-mode resolution machine
//! (`crate::resolve`); its outcome then runs through the post-resolution
//! filters. Because resolution and the transpiled-package directory lookup
//! are host capabilities, the orchestrator is a step machine as well: each
//! public entry point returns either the final `Decision` or the next piece
//! of outside work the driver must perform.

use vstd::prelude::*;
use crate::config::{EsmExternalsConfig, NextConfigComplete};
use crate::decision::{Decision, DecisionModel, ModuleType, esm_violation_message,
    spec_esm_violation_message};
use crate::external_path::{next_external_specifier, spec_next_external_specifier};
use crate::patterns::{is_babel_runtime_path, is_bundler_internal_path, is_compiled_cjs_path,
    is_compiled_esm_path, is_image_loader_path, is_local_request, is_never_external,
    is_next_server_path, is_shared_cjs_path, is_shared_esm_path, is_webpack_bundled_layer,
    matches_react_package, should_use_react_server_condition, spec_is_babel_runtime_path,
    spec_is_bundler_internal_path, spec_is_compiled_cjs_path, spec_is_compiled_esm_path,
    spec_is_image_loader_path, spec_is_local_request, spec_is_never_external,
    spec_is_next_server_path, spec_is_shared_cjs_path, spec_is_shared_esm_path,
    spec_is_webpack_bundled_layer, spec_matches_react_package,
    spec_should_use_react_server_condition};
use crate::resolve::{ResolvePolicy, ResolveQuery, ResolveResult, ResolveState, ResolveStateModel,
    ResolveStep, ResolveStepModel, resolve_external_start, resolve_external_step,
    spec_initial_query, spec_initial_state, spec_on_resolved};
use crate::text::{match_prefix, match_within, match_prefix_str, match_within_str, str_eq};
use vstd::string::StrSliceExecFns;

verus! {

/// What `regex::Regex::is_match` returns for a given pattern and text: a
/// fixed function of the two alone. A pattern that does not compile is
/// treated as matching nothing.
pub uninterp spec fn regex_match(pattern: Seq<char>, text: Seq<char>) -> bool;

/// Relies on `regex::Regex::new` and `regex::Regex::is_match`: compiling a
/// pattern and testing a text against it returns the same answer for the
/// same pattern and text on every call; a pattern the crate rejects matches
/// nothing.
#[verifier::external_body]
fn regex_is_match(pattern: &str, text: &str) -> (r: bool)
    ensures
        r == regex_match(pattern@, text@),
{
    match regex::Regex::new(pattern) {
        Ok(re) => re.is_match(text),
        Err(_) => false,
    }
}

/// A resolved path falls under a directory when the directory is a proper
/// prefix ending at a path-separator boundary.
pub open spec fn spec_is_under_dir(path: Seq<char>, dir: Seq<char>) -> bool {
    &&& dir.len() > 0
    &&& match_prefix(path, dir, false)
    &&& (path.len() == dir.len() || path[dir.len() as int] == '/' || path[dir.len() as int]
        == '\\')
}

/// Whether the path falls under the directory.
pub fn is_under_dir(path: &str, dir: &str) -> (r: bool)
    ensures
        r == spec_is_under_dir(path@, dir@),
{
    let dir_len: usize = dir.unicode_len();
    if dir_len == 0 {
        return false;
    }
    if !match_prefix_str(path, dir, false) {
        return false;
    }
    let path_len: usize = path.unicode_len();
    if path_len == dir_len {
        true
    } else {
        let c = path.get_char(dir_len);
        c == '/' || c == '\\'
    }
}

/// Whether the path falls under any of the directories.
pub open spec fn spec_under_any_dir(path: Seq<char>, dirs: Seq<Seq<char>>) -> bool {
    exists|k: int| 0 <= k < dirs.len() && spec_is_under_dir(path, dirs[k])
}

/// Whether the path falls under any of the directories.
pub fn under_any_dir(path: &str, dirs: &Vec<String>) -> (r: bool)
    ensures
        r == spec_under_any_dir(path@, dirs.deep_view()),
{
    let n = dirs.len();
    let mut k: usize = 0;
    while k < n
        invariant
            n == dirs@.len(),
            k <= n,
            dirs.deep_view().len() == n,
            forall|j: int| 0 <= j < n ==> dirs.deep_view()[j] == dirs@[j]@,
            forall|j: int| 0 <= j < k ==> !spec_is_under_dir(path@, dirs.deep_view()[j]),
        decreases n - k,
    {
        if is_under_dir(path, dirs[k].as_str()) {
            assert(spec_is_under_dir(path@, dirs.deep_view()[k as int]));
            return true;
        }
        k = k + 1;
    }
    false
}

/// The per-build state of the orchestrator: the configuration, the pattern
/// naming packages that opt out of bundling, the packages that must always
/// be transpiled, and the project root directory.
#[derive(Debug)]
pub struct ExternalHandler {
    pub config: NextConfigComplete,
    pub opt_out_bundling_package_pattern: String,
    pub transpiled_packages: Vec<String>,
    pub dir: String,
    pub loose_esm_externals: bool,
}

/// The mathematical shape of an `ExternalHandler`.
pub struct HandlerModel {
    pub esm_externals: EsmExternalsConfig,
    pub loose_esm_externals: bool,
    pub opt_out_pattern: Seq<char>,
    pub transpiled_packages: Seq<Seq<char>>,
    pub dir: Seq<char>,
}

impl View for ExternalHandler {
    type V = HandlerModel;

    open spec fn view(&self) -> HandlerModel {
        HandlerModel {
            esm_externals: self.config.experimental.esm_externals,
            loose_esm_externals: self.loose_esm_externals,
            opt_out_pattern: self.opt_out_bundling_package_pattern@,
            transpiled_packages: self.transpiled_packages.deep_view(),
            dir: self.dir@,
        }
    }
}

/// The per-request facts every later stage reads: the request string, the
/// layer, whether the request used ESM import syntax, and whether it is a
/// local path.
#[derive(Debug)]
pub struct RequestCtx {
    pub request: String,
    pub layer: Option<String>,
    pub is_esm_requested: bool,
    pub is_local: bool,
}

/// The mathematical shape of a `RequestCtx`.
pub struct RequestCtxModel {
    pub request: Seq<char>,
    pub layer: Option<Seq<char>>,
    pub is_esm_requested: bool,
    pub is_local: bool,
}

impl View for RequestCtx {
    type V = RequestCtxModel;

    open spec fn view(&self) -> RequestCtxModel {
        RequestCtxModel {
            request: self.request@,
            layer: self.layer.deep_view(),
            is_esm_requested: self.is_esm_requested,
            is_local: self.is_local,
        }
    }
}

/// The fast-path classifier's answer: a decision, or escalation to
/// resolution.
#[derive(Debug)]
pub enum FastPath {
    Decided(Decision),
    NeedsResolve,
}

impl View for FastPath {
    type V = Option<DecisionModel>;

    open spec fn view(&self) -> Option<DecisionModel> {
        match self {
            FastPath::Decided(d) => Some(d@),
            FastPath::NeedsResolve => None,
        }
    }
}

/// The decision for a request under the internal distribution root, applied
/// after the classifier's earlier rules: the image loader is compiled; the
/// compiled server bundle and the shared and compiled CommonJS buckets stay
/// external as CommonJS; the shared and compiled ESM buckets stay external
/// as ESM; what remains is handed to the internal-path normalizer and is
/// bundled when the normalizer yields nothing.
pub open spec fn spec_classify_internal_dist(request: Seq<char>) -> DecisionModel {
    if spec_is_image_loader_path(request) {
        DecisionModel::Bundle
    } else if spec_is_next_server_path(request) {
        DecisionModel::External(ModuleType::CommonJs, request)
    } else if spec_is_shared_cjs_path(request) || spec_is_compiled_cjs_path(request) {
        DecisionModel::External(ModuleType::CommonJs, request)
    } else if spec_is_shared_esm_path(request) || spec_is_compiled_esm_path(request) {
        DecisionModel::External(ModuleType::Module, request)
    } else {
        match spec_next_external_specifier(request) {
            Some(s) => DecisionModel::External(ModuleType::CommonJs, s),
            None => DecisionModel::Bundle,
        }
    }
}

/// The fast-path classifier: the ordered cascade decided by the request
/// string and the layer alone. `None` means the request escalates to
/// resolution.
///
/// In order: the framework root package is redirected to its import-warning
/// module; a non-local reserved UI-library request outside the
/// bundler-owned layers stays external; a non-local never-external module is
/// bundled; a request mentioning the helper-runtime package is bundled; a
/// barrel-optimization request is bundled; the platform image-processing
/// native bundle on a server-only layer stays external as ESM; a request
/// under the internal distribution root is decided by
/// `spec_classify_internal_dist`.
pub open spec fn spec_classify_fast_path(request: Seq<char>, layer: Option<Seq<char>>) -> Option<
    DecisionModel,
> {
    let is_local = spec_is_local_request(request);
    let is_app_layer = spec_is_webpack_bundled_layer(layer);
    if request == "next"@ {
        Some(
            DecisionModel::External(ModuleType::CommonJs, "next/dist/lib/import-next-warning"@),
        )
    } else if !is_local && spec_matches_react_package(request) && !is_app_layer {
        Some(DecisionModel::External(ModuleType::CommonJs, request))
    } else if !is_local && spec_is_never_external(request) {
        Some(DecisionModel::Bundle)
    } else if match_within(request, "@swc/helpers"@, false) {
        Some(DecisionModel::Bundle)
    } else if match_prefix(request, "__barrel_optimize__"@, false) {
        Some(DecisionModel::Bundle)
    } else if spec_should_use_react_server_condition(layer) && request
        == "next/dist/compiled/@vercel/og/index.node.js"@ {
        Some(DecisionModel::External(ModuleType::Module, request))
    } else if match_prefix(request, "next/dist/"@, false) {
        Some(spec_classify_internal_dist(request))
    } else {
        None
    }
}

/// Runs the fast-path classifier.
pub fn classify_fast_path(request: &str, layer: Option<&str>) -> (r: FastPath)
    ensures
        r@ == spec_classify_fast_path(request@, layer.deep_view()),
{
    let is_local = is_local_request(request);
    let is_app_layer = is_webpack_bundled_layer(layer);
    if str_eq(request, "next") {
        return FastPath::Decided(
            Decision::External(ModuleType::CommonJs, "next/dist/lib/import-next-warning".to_owned()),
        );
    }
    if !is_local && matches_react_package(request) && !is_app_layer {
        return FastPath::Decided(Decision::External(ModuleType::CommonJs, request.to_owned()));
    }
    if !is_local && is_never_external(request) {
        return FastPath::Decided(Decision::Bundle);
    }
    if match_within_str(request, "@swc/helpers", false) {
        return FastPath::Decided(Decision::Bundle);
    }
    if match_prefix_str(request, "__barrel_optimize__", false) {
        return FastPath::Decided(Decision::Bundle);
    }
    if should_use_react_server_condition(layer)
        && str_eq(request, "next/dist/compiled/@vercel/og/index.node.js") {
        return FastPath::Decided(Decision::External(ModuleType::Module, request.to_owned()));
    }
    if match_prefix_str(request, "next/dist/", false) {
        if is_image_loader_path(request) {
            return FastPath::Decided(Decision::Bundle);
        }
        if is_next_server_path(request) {
            return FastPath::Decided(Decision::External(ModuleType::CommonJs, request.to_owned()));
        }
        if is_shared_cjs_path(request) || is_compiled_cjs_path(request) {
            return FastPath::Decided(Decision::External(ModuleType::CommonJs, request.to_owned()));
        }
        if is_shared_esm_path(request) || is_compiled_esm_path(request) {
            return FastPath::Decided(Decision::External(ModuleType::Module, request.to_owned()));
        }
        return match next_external_specifier(request) {
            Some(s) => FastPath::Decided(Decision::External(ModuleType::CommonJs, s)),
            None => FastPath::Decided(Decision::Bundle),
        };
    }
    FastPath::NeedsResolve
}

/// The post-resolution filters, applied to the resolution outcome in order:
/// the style-injection helper request is given its fixed substitute; an
/// unresolved request is bundled; a resolution that did not opt out of
/// bundling is bundled on a bundler-owned layer; a non-local ESM resolution
/// for a non-ESM request is a fatal violation unless the policy is loose;
/// helper-runtime and bundler-internal paths are bundled; a path under a
/// transpiled-package directory is bundled; everything else stays external
/// under the original request, typed by the resolved module format.
pub open spec fn spec_finish_decision(
    h: HandlerModel,
    c: RequestCtxModel,
    res0: Option<Seq<char>>,
    is_esm0: bool,
    dirs: Seq<Seq<char>>,
) -> DecisionModel {
    let styled = c.request == "styled-jsx/style"@;
    let res = if styled {
        Some("styled-jsx/style"@)
    } else {
        res0
    };
    let is_esm = if styled {
        false
    } else {
        is_esm0
    };
    match res {
        None => DecisionModel::Bundle,
        Some(rp) => {
            let is_opt_out = regex_match(h.opt_out_pattern, rp);
            let is_app_layer = spec_is_webpack_bundled_layer(c.layer);
            if !is_opt_out && is_app_layer {
                DecisionModel::Bundle
            } else if !c.is_esm_requested && is_esm && !h.loose_esm_externals && !c.is_local {
                DecisionModel::Fatal(spec_esm_violation_message(c.request))
            } else if spec_is_babel_runtime_path(rp) {
                DecisionModel::Bundle
            } else if spec_is_bundler_internal_path(rp) {
                DecisionModel::Bundle
            } else if spec_under_any_dir(rp, dirs) {
                DecisionModel::Bundle
            } else {
                DecisionModel::External(
                    if is_esm {
                        ModuleType::Module
                    } else {
                        ModuleType::CommonJs
                    },
                    c.request,
                )
            }
        },
    }
}

/// The orchestrator's step: the final decision, one resolution for the
/// driver to perform, or the transpiled-package directories to look up.
#[derive(Debug)]
pub enum HandleStep {
    Done(Decision),
    Resolve(HandleState, ResolveQuery),
    NeedTranspiledDirs(TranspileState),
}

/// The orchestrator's state while the resolution machine runs.
#[derive(Debug)]
pub struct HandleState {
    pub ctx: RequestCtx,
    pub resolve: ResolveState,
}

/// The orchestrator's state while the transpiled-package directories are
/// looked up: the accepted resolution is held.
#[derive(Debug)]
pub struct TranspileState {
    pub ctx: RequestCtx,
    pub res: Option<String>,
    pub is_esm: bool,
}

/// The mathematical shape of a `HandleState`.
pub struct HandleStateModel {
    pub ctx: RequestCtxModel,
    pub resolve: ResolveStateModel,
}

impl View for HandleState {
    type V = HandleStateModel;

    open spec fn view(&self) -> HandleStateModel {
        HandleStateModel { ctx: self.ctx@, resolve: self.resolve@ }
    }
}

/// The mathematical shape of a `TranspileState`.
pub struct TranspileStateModel {
    pub ctx: RequestCtxModel,
    pub res: Option<Seq<char>>,
    pub is_esm: bool,
}

impl View for TranspileState {
    type V = TranspileStateModel;

    open spec fn view(&self) -> TranspileStateModel {
        TranspileStateModel { ctx: self.ctx@, res: self.res.deep_view(), is_esm: self.is_esm }
    }
}

/// The mathematical shape of a `HandleStep`.
pub enum HandleStepModel {
    Done(DecisionModel),
    Resolve(HandleStateModel, ResolveQuery),
    NeedTranspiledDirs(TranspileStateModel),
}

impl View for HandleStep {
    type V = HandleStepModel;

    open spec fn view(&self) -> HandleStepModel {
        match self {
            HandleStep::Done(d) => HandleStepModel::Done(d@),
            HandleStep::Resolve(s, q) => HandleStepModel::Resolve(s@, *q),
            HandleStep::NeedTranspiledDirs(s) => HandleStepModel::NeedTranspiledDirs(s@),
        }
    }
}

/// The resolution policy the orchestrator fixes for one request.
pub open spec fn spec_request_policy(
    h: HandlerModel,
    request: Seq<char>,
    dependency_type: Seq<char>,
) -> ResolvePolicy {
    ResolvePolicy {
        esm_externals_enabled: h.esm_externals != EsmExternalsConfig::Disabled,
        loose_esm_externals: h.loose_esm_externals,
        is_esm_requested: dependency_type == "esm"@,
        local_mode: spec_is_local_request(request),
        base_resolve_check: true,
    }
}

/// What `handle_externals` returns: the classifier's decision where it has
/// one, otherwise the start of the resolution machine.
pub open spec fn spec_handle_start(
    h: HandlerModel,
    request: Seq<char>,
    dependency_type: Seq<char>,
    layer: Option<Seq<char>>,
) -> HandleStepModel {
    match spec_classify_fast_path(request, layer) {
        Some(d) => HandleStepModel::Done(d),
        None => {
            let policy = spec_request_policy(h, request, dependency_type);
            HandleStepModel::Resolve(
                HandleStateModel {
                    ctx: RequestCtxModel {
                        request,
                        layer,
                        is_esm_requested: dependency_type == "esm"@,
                        is_local: spec_is_local_request(request),
                    },
                    resolve: spec_initial_state(policy),
                },
                spec_initial_query(policy),
            )
        },
    }
}

/// What the orchestrator does with a completed resolution outcome: holding a
/// decided resolution, it either finishes outright or first asks for the
/// transpiled-package directories — exactly when they could still change
/// the decision (the decision without them would be external) and some
/// packages are configured.
pub open spec fn spec_proceed(
    h: HandlerModel,
    c: RequestCtxModel,
    res: Option<Seq<char>>,
    is_esm: bool,
) -> HandleStepModel {
    let d0 = spec_finish_decision(h, c, res, is_esm, Seq::empty());
    if (d0 is External) && h.transpiled_packages.len() > 0 {
        HandleStepModel::NeedTranspiledDirs(TranspileStateModel { ctx: c, res, is_esm })
    } else {
        HandleStepModel::Done(d0)
    }
}

/// What the orchestrator does with the resolution machine's outcome: a local
/// candidate goes to the internal-path normalizer — a recognized internal
/// runtime file stays external under its normalized specifier, any other
/// local candidate proceeds unresolved; a non-local outcome proceeds as it
/// is.
pub open spec fn spec_after_outcome(
    h: HandlerModel,
    c: RequestCtxModel,
    rr: crate::resolve::ResolveResultModel,
) -> HandleStepModel {
    match rr.local_res {
        Some(p) => match spec_next_external_specifier(p) {
            Some(s) => HandleStepModel::Done(DecisionModel::External(ModuleType::CommonJs, s)),
            None => spec_proceed(h, c, None, false),
        },
        None => spec_proceed(h, c, rr.res, rr.is_esm),
    }
}

/// What `continue_after_resolve` returns: the machine either asks for one
/// more resolution or completes, and a completed outcome runs through
/// `spec_after_outcome`.
pub open spec fn spec_continue_after_resolve(
    h: HandlerModel,
    st: HandleStateModel,
    path: Option<Seq<char>>,
    path_is_esm: bool,
) -> HandleStepModel {
    match spec_on_resolved(st.resolve, path, path_is_esm) {
        ResolveStepModel::Ask(m2, q) => HandleStepModel::Resolve(
            HandleStateModel { ctx: st.ctx, resolve: m2 },
            q,
        ),
        ResolveStepModel::Done(rr) => spec_after_outcome(h, st.ctx, rr),
    }
}

impl ExternalHandler {
    /// Builds the per-build handler state. The loose flag is derived from
    /// the configuration once, here.
    pub fn new(
        config: NextConfigComplete,
        opt_out_bundling_package_pattern: String,
        transpiled_packages: Vec<String>,
        dir: String,
    ) -> (r: Self)
        ensures
            r@ == (HandlerModel {
                esm_externals: config.experimental.esm_externals,
                loose_esm_externals: config.experimental.esm_externals
                    == EsmExternalsConfig::Loose,
                opt_out_pattern: opt_out_bundling_package_pattern@,
                transpiled_packages: transpiled_packages.deep_view(),
                dir: dir@,
            }),
            r.config == config,
    {
        let loose = config.experimental.esm_externals.is_loose();
        ExternalHandler {
            config,
            opt_out_bundling_package_pattern,
            transpiled_packages,
            dir,
            loose_esm_externals: loose,
        }
    }

    /// Applies the post-resolution filters; see `spec_finish_decision`.
    pub fn finish_decision(
        &self,
        ctx: &RequestCtx,
        res: &Option<String>,
        is_esm: bool,
        dirs: &Vec<String>,
    ) -> (r: Decision)
        ensures
            r@ == spec_finish_decision(self@, ctx@, res.deep_view(), is_esm, dirs.deep_view()),
    {
        let styled = str_eq(ctx.request.as_str(), "styled-jsx/style");
        let eff_res: Option<String> = if styled {
            Some("styled-jsx/style".to_owned())
        } else {
            match res {
                Some(s) => Some(s.clone()),
                None => None,
            }
        };
        let eff_esm = if styled {
            false
        } else {
            is_esm
        };
        match eff_res {
            None => Decision::Bundle,
            Some(rp) => {
                let is_opt_out = regex_is_match(
                    self.opt_out_bundling_package_pattern.as_str(),
                    rp.as_str(),
                );
                let layer_ref: Option<&str> = match &ctx.layer {
                    Some(l) => Some(l.as_str()),
                    None => None,
                };
                let is_app_layer = is_webpack_bundled_layer(layer_ref);
                if !is_opt_out && is_app_layer {
                    Decision::Bundle
                } else if !ctx.is_esm_requested && eff_esm && !self.loose_esm_externals
                    && !ctx.is_local {
                    Decision::Fatal(esm_violation_message(ctx.request.as_str()))
                } else if is_babel_runtime_path(rp.as_str()) {
                    Decision::Bundle
                } else if is_bundler_internal_path(rp.as_str()) {
                    Decision::Bundle
                } else if under_any_dir(rp.as_str(), dirs) {
                    Decision::Bundle
                } else {
                    Decision::External(
                        if eff_esm {
                            ModuleType::Module
                        } else {
                            ModuleType::CommonJs
                        },
                        ctx.request.clone(),
                    )
                }
            },
        }
    }

    /// The step after a completed resolution outcome; see `spec_proceed`.
    fn proceed(&self, ctx: RequestCtx, res: Option<String>, is_esm: bool) -> (r: HandleStep)
        ensures
            r@ == spec_proceed(self@, ctx@, res.deep_view(), is_esm),
    {
        let empty: Vec<String> = Vec::new();
        assert(empty.deep_view() =~= Seq::<Seq<char>>::empty());
        let d0 = self.finish_decision(&ctx, &res, is_esm, &empty);
        let is_ext = match &d0 {
            Decision::External(_, _) => true,
            _ => false,
        };
        if is_ext && self.transpiled_packages.len() > 0 {
            HandleStep::NeedTranspiledDirs(TranspileState { ctx, res, is_esm })
        } else {
            HandleStep::Done(d0)
        }
    }

    /// Starts handling one request: either the classifier decides, or the
    /// resolution machine is started and its first query returned.
    pub fn handle_externals(&self, request: &str, dependency_type: &str, layer: Option<&str>) -> (r:
        HandleStep)
        ensures
            r@ == spec_handle_start(self@, request@, dependency_type@, layer.deep_view()),
            r@ matches HandleStepModel::Resolve(m, _) ==> m.resolve.wf(),
    {
        match classify_fast_path(request, layer) {
            FastPath::Decided(d) => HandleStep::Done(d),
            FastPath::NeedsResolve => {
                let is_esm_requested = str_eq(dependency_type, "esm");
                let is_local = is_local_request(request);
                let policy = ResolvePolicy {
                    esm_externals_enabled: self.config.experimental.esm_externals.is_enabled(),
                    loose_esm_externals: self.loose_esm_externals,
                    is_esm_requested,
                    local_mode: is_local,
                    base_resolve_check: true,
                };
                let (rs, q) = resolve_external_start(policy);
                let ctx = RequestCtx {
                    request: request.to_owned(),
                    layer: match layer {
                        Some(l) => Some(l.to_owned()),
                        None => None,
                    },
                    is_esm_requested,
                    is_local,
                };
                HandleStep::Resolve(HandleState { ctx, resolve: rs }, q)
            },
        }
    }

    /// Feeds one resolution answer to the running request; see
    /// `spec_continue_after_resolve`.
    pub fn continue_after_resolve(
        &self,
        st: HandleState,
        path: Option<String>,
        path_is_esm: bool,
    ) -> (r: HandleStep)
        requires
            st@.resolve.wf(),
        ensures
            r@ == spec_continue_after_resolve(self@, st@, path.deep_view(), path_is_esm),
            r@ matches HandleStepModel::Resolve(m, _) ==> m.resolve.wf(),
    {
        let HandleState { ctx, resolve } = st;
        match resolve_external_step(resolve, path, path_is_esm) {
            ResolveStep::Ask(s2, q) => HandleStep::Resolve(HandleState { ctx, resolve: s2 }, q),
            ResolveStep::Done(rr) => {
                let ResolveResult { res, is_esm, local_res } = rr;
                match local_res {
                    Some(p) => match next_external_specifier(p.as_str()) {
                        Some(s) => HandleStep::Done(
                            Decision::External(ModuleType::CommonJs, s),
                        ),
                        None => self.proceed(ctx, None, false),
                    },
                    None => self.proceed(ctx, res, is_esm),
                }
            },
        }
    }

    /// Finishes a request that was waiting for the transpiled-package
    /// directories.
    pub fn continue_with_transpiled_dirs(&self, st: TranspileState, dirs: &Vec<String>) -> (r:
        Decision)
        ensures
            r@ == spec_finish_decision(
                self@,
                st.ctx@,
                st.res.deep_view(),
                st.is_esm,
                dirs.deep_view(),
            ),
    {
        self.finish_decision(&st.ctx, &st.res, st.is_esm, dirs)
    }
}

} // verus!
