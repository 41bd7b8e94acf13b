//! The dual-mode resolution machine.
//!
//! Resolution itself is a capability of the host: it looks up a request on
//! disk and reports an optional resolved path together with a module-format
//! flag. The policy around it — which resolution modes are tried in which
//! order, when a candidate is rejected for its format, and when a candidate
//! is discarded because its root-relative re-resolution diverges — is pure
//! logic and lives here as a step machine. Each step either asks the driver
//! to perform one resolution or completes with an outcome; the driver feeds
//! every answer back through `resolve_external_step`.

use vstd::prelude::*;
use crate::text::opt_string_eq;

verus! {

/// The per-request policy of the machine, fixed when the machine starts.
#[derive(Debug, Clone, Copy, PartialEq, Eq, Structural)]
pub struct ResolvePolicy {
    /// ESM externals are enabled by configuration.
    pub esm_externals_enabled: bool,
    /// A candidate in the wrong module format is still accepted.
    pub loose_esm_externals: bool,
    /// The request itself was made with ESM import syntax.
    pub is_esm_requested: bool,
    /// The request is a local file: an accepted candidate is handed to the
    /// internal-runtime-file normalizer instead of the consistency check.
    pub local_mode: bool,
    /// Accepted candidates are re-resolved from the project root and must
    /// agree with the caller-relative resolution.
    pub base_resolve_check: bool,
}

/// How many resolution modes the policy tries: the ESM-flavored mode first
/// when ESM externals apply to the request, always the Node/CJS-flavored
/// mode.
pub open spec fn mode_count(policy: ResolvePolicy) -> int {
    if policy.esm_externals_enabled && policy.is_esm_requested {
        2
    } else {
        1
    }
}

/// Whether the mode at `idx` resolves with ESM conditions.
pub open spec fn mode_prefers_esm(policy: ResolvePolicy, idx: int) -> bool {
    policy.esm_externals_enabled && policy.is_esm_requested && idx == 0
}

/// What the machine awaits.
#[derive(Debug, Clone, Copy, PartialEq, Eq, Structural)]
pub enum ResolvePhase {
    /// The caller-relative resolution of the current mode.
    AwaitingPrimary,
    /// The root-relative re-resolution of the current candidate.
    AwaitingBase,
}

/// One resolution the machine asks the driver to perform.
#[derive(Debug, Clone, Copy, PartialEq, Eq, Structural)]
pub struct ResolveQuery {
    /// Resolve with ESM conditions rather than Node/CJS conditions.
    pub prefer_esm: bool,
    /// Resolve from the project root rather than the calling module's
    /// directory.
    pub from_root: bool,
}

/// The machine's state between two steps.
#[derive(Debug, Clone)]
pub struct ResolveState {
    pub policy: ResolvePolicy,
    pub mode_index: usize,
    pub phase: ResolvePhase,
    pub res: Option<String>,
    pub is_esm: bool,
}

/// The machine's outcome. `res` and `is_esm` describe the accepted
/// resolution, if any. In local mode an accepted caller-relative path is
/// placed in `local_res` instead and `res` stays empty: the caller decides
/// what external reference that local file denotes.
#[derive(Debug, Clone, PartialEq, Eq)]
pub struct ResolveResult {
    pub res: Option<String>,
    pub is_esm: bool,
    pub local_res: Option<String>,
}

/// One step of the machine: either one more resolution to perform, or the
/// outcome.
#[derive(Debug)]
pub enum ResolveStep {
    Ask(ResolveState, ResolveQuery),
    Done(ResolveResult),
}

/// The mathematical shape of `ResolveState`.
pub struct ResolveStateModel {
    pub policy: ResolvePolicy,
    pub mode_index: int,
    pub phase: ResolvePhase,
    pub res: Option<Seq<char>>,
    pub is_esm: bool,
}

impl ResolveStateModel {
    /// States the machine itself produces: the mode index is in range, and a
    /// base re-resolution is only awaited while a candidate is held.
    pub open spec fn wf(self) -> bool {
        &&& 0 <= self.mode_index < mode_count(self.policy)
        &&& (self.phase is AwaitingBase ==> self.res is Some)
    }
}

impl View for ResolveState {
    type V = ResolveStateModel;

    open spec fn view(&self) -> ResolveStateModel {
        ResolveStateModel {
            policy: self.policy,
            mode_index: self.mode_index as int,
            phase: self.phase,
            res: self.res.deep_view(),
            is_esm: self.is_esm,
        }
    }
}

/// The mathematical shape of `ResolveResult`.
pub struct ResolveResultModel {
    pub res: Option<Seq<char>>,
    pub is_esm: bool,
    pub local_res: Option<Seq<char>>,
}

impl View for ResolveResult {
    type V = ResolveResultModel;

    open spec fn view(&self) -> ResolveResultModel {
        ResolveResultModel {
            res: self.res.deep_view(),
            is_esm: self.is_esm,
            local_res: self.local_res.deep_view(),
        }
    }
}

/// The mathematical shape of `ResolveStep`.
pub enum ResolveStepModel {
    Ask(ResolveStateModel, ResolveQuery),
    Done(ResolveResultModel),
}

impl View for ResolveStep {
    type V = ResolveStepModel;

    open spec fn view(&self) -> ResolveStepModel {
        match self {
            ResolveStep::Ask(s, q) => ResolveStepModel::Ask(s@, *q),
            ResolveStep::Done(r) => ResolveStepModel::Done(r@),
        }
    }
}

/// The state the machine starts in.
pub open spec fn spec_initial_state(policy: ResolvePolicy) -> ResolveStateModel {
    ResolveStateModel {
        policy,
        mode_index: 0,
        phase: ResolvePhase::AwaitingPrimary,
        res: None,
        is_esm: false,
    }
}

/// The first resolution the machine asks for.
pub open spec fn spec_initial_query(policy: ResolvePolicy) -> ResolveQuery {
    ResolveQuery { prefer_esm: mode_prefers_esm(policy, 0), from_root: false }
}

/// Moving past the current mode: either the next mode's caller-relative
/// resolution is asked for, or the machine completes with whatever candidate
/// is still held. A candidate rejected only for its module format is held,
/// so a rejection in the last mode leaks the candidate into the outcome —
/// that leak is what lets the orchestrator raise the strict-mode violation.
pub open spec fn spec_advance(
    policy: ResolvePolicy,
    mode_index: int,
    res: Option<Seq<char>>,
    is_esm: bool,
) -> ResolveStepModel {
    if mode_index + 1 < mode_count(policy) {
        ResolveStepModel::Ask(
            ResolveStateModel {
                policy,
                mode_index: mode_index + 1,
                phase: ResolvePhase::AwaitingPrimary,
                res,
                is_esm,
            },
            ResolveQuery { prefer_esm: mode_prefers_esm(policy, mode_index + 1), from_root: false },
        )
    } else {
        ResolveStepModel::Done(ResolveResultModel { res, is_esm, local_res: None })
    }
}

/// The machine's transition on one resolution answer.
///
/// Awaiting the caller-relative resolution: a missing path moves to the next
/// mode; a candidate whose format is ESM although the request was not an ESM
/// import is rejected under a non-loose policy (and held, see
/// `spec_advance`); in local mode an accepted candidate completes the
/// machine as a local result; otherwise the root-relative re-resolution is
/// asked for, or, with the consistency check disabled, the candidate is
/// accepted outright.
///
/// Awaiting the root-relative re-resolution: agreement on path and format
/// accepts the candidate; any divergence discards it and moves on.
pub open spec fn spec_on_resolved(
    m: ResolveStateModel,
    path: Option<Seq<char>>,
    path_is_esm: bool,
) -> ResolveStepModel {
    match m.phase {
        ResolvePhase::AwaitingPrimary => match path {
            None => spec_advance(m.policy, m.mode_index, None, path_is_esm),
            Some(p) => {
                if !m.policy.is_esm_requested && path_is_esm && !m.policy.loose_esm_externals {
                    spec_advance(m.policy, m.mode_index, Some(p), path_is_esm)
                } else if m.policy.local_mode {
                    ResolveStepModel::Done(
                        ResolveResultModel { res: None, is_esm: false, local_res: Some(p) },
                    )
                } else if m.policy.base_resolve_check {
                    ResolveStepModel::Ask(
                        ResolveStateModel {
                            policy: m.policy,
                            mode_index: m.mode_index,
                            phase: ResolvePhase::AwaitingBase,
                            res: Some(p),
                            is_esm: path_is_esm,
                        },
                        ResolveQuery { prefer_esm: path_is_esm, from_root: true },
                    )
                } else {
                    ResolveStepModel::Done(
                        ResolveResultModel { res: Some(p), is_esm: path_is_esm, local_res: None },
                    )
                }
            },
        },
        ResolvePhase::AwaitingBase => {
            if path == m.res && path_is_esm == m.is_esm {
                ResolveStepModel::Done(
                    ResolveResultModel { res: m.res, is_esm: m.is_esm, local_res: None },
                )
            } else {
                spec_advance(m.policy, m.mode_index, None, m.is_esm)
            }
        },
    }
}

/// Starts the machine: returns its state and the first resolution to
/// perform.
pub fn resolve_external_start(policy: ResolvePolicy) -> (r: (ResolveState, ResolveQuery))
    ensures
        r.0@ == spec_initial_state(policy),
        r.0@.wf(),
        r.1 == spec_initial_query(policy),
{
    let prefer_esm = policy.esm_externals_enabled && policy.is_esm_requested;
    (
        ResolveState {
            policy,
            mode_index: 0,
            phase: ResolvePhase::AwaitingPrimary,
            res: None,
            is_esm: false,
        },
        ResolveQuery { prefer_esm, from_root: false },
    )
}

/// Moves past the current mode; see `spec_advance`.
fn advance_mode(policy: ResolvePolicy, mode_index: usize, res: Option<String>, is_esm: bool) -> (r:
    ResolveStep)
    requires
        mode_index < mode_count(policy),
    ensures
        r@ == spec_advance(policy, mode_index as int, res.deep_view(), is_esm),
        r@ matches ResolveStepModel::Ask(m2, _) ==> m2.wf(),
{
    let count: usize = if policy.esm_externals_enabled && policy.is_esm_requested {
        2
    } else {
        1
    };
    if mode_index + 1 < count {
        ResolveStep::Ask(
            ResolveState {
                policy,
                mode_index: mode_index + 1,
                phase: ResolvePhase::AwaitingPrimary,
                res,
                is_esm,
            },
            ResolveQuery { prefer_esm: false, from_root: false },
        )
    } else {
        ResolveStep::Done(ResolveResult { res, is_esm, local_res: None })
    }
}

/// Feeds one resolution answer to the machine. A lookup error is reported as
/// an absent path: resolution failures are recovered, never surfaced.
pub fn resolve_external_step(state: ResolveState, path: Option<String>, path_is_esm: bool) -> (r:
    ResolveStep)
    requires
        state@.wf(),
    ensures
        r@ == spec_on_resolved(state@, path.deep_view(), path_is_esm),
        r@ matches ResolveStepModel::Ask(m2, _) ==> m2.wf(),
{
    let ResolveState { policy, mode_index, phase, res, is_esm } = state;
    match phase {
        ResolvePhase::AwaitingPrimary => {
            match path {
                None => advance_mode(policy, mode_index, None, path_is_esm),
                Some(p) => {
                    if !policy.is_esm_requested && path_is_esm && !policy.loose_esm_externals {
                        advance_mode(policy, mode_index, Some(p), path_is_esm)
                    } else if policy.local_mode {
                        ResolveStep::Done(
                            ResolveResult { res: None, is_esm: false, local_res: Some(p) },
                        )
                    } else if policy.base_resolve_check {
                        ResolveStep::Ask(
                            ResolveState {
                                policy,
                                mode_index,
                                phase: ResolvePhase::AwaitingBase,
                                res: Some(p),
                                is_esm: path_is_esm,
                            },
                            ResolveQuery { prefer_esm: path_is_esm, from_root: true },
                        )
                    } else {
                        ResolveStep::Done(
                            ResolveResult { res: Some(p), is_esm: path_is_esm, local_res: None },
                        )
                    }
                },
            }
        },
        ResolvePhase::AwaitingBase => {
            let same = opt_string_eq(&path, &res) && path_is_esm == is_esm;
            if same {
                ResolveStep::Done(ResolveResult { res, is_esm, local_res: None })
            } else {
                advance_mode(policy, mode_index, None, is_esm)
            }
        },
    }
}

/// Law: a candidate whose root-relative re-resolution disagrees with the
/// caller-relative resolution, on the path or on the module format, is
/// discarded. The step taken on the divergent answer either asks for the
/// next mode with no candidate held, or completes without any resolution —
/// the divergent candidate can never reach the outcome.
pub proof fn lemma_hoisting_divergence_discards(
    m: ResolveStateModel,
    base_path: Option<Seq<char>>,
    base_is_esm: bool,
)
    requires
        m.wf(),
        m.phase is AwaitingBase,
        base_path != m.res || base_is_esm != m.is_esm,
    ensures
        match spec_on_resolved(m, base_path, base_is_esm) {
            ResolveStepModel::Done(rr) => rr.res is None && rr.local_res is None,
            ResolveStepModel::Ask(m2, _) => m2.res is None,
        },
{
}

} // verus!
