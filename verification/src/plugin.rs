//! The externals plugin: what the host bundler is configured with.
//!
//! The plugin's work at registration time is a plan: the external-reference
//! type the compilation uses, and the ordered externals list handed to the
//! host — fixed literals, replacement tables, and the two request handlers
//! whose logic lives in `crate::handler` and `crate::edge`. The host
//! adapter walks this plan and installs the corresponding host-side items.

use vstd::prelude::*;
use crate::config::NextConfigComplete;
use crate::edge::{get_edge_polyfilled_modules, spec_edge_polyfilled_modules};
use crate::handler::{ExternalHandler, HandlerModel};
use crate::config::EsmExternalsConfig;
use crate::text::str_eq;

verus! {

/// One entry of the externals list.
#[derive(Debug, PartialEq, Eq)]
pub enum ExternalsEntry {
    /// A module specifier externalized as itself.
    Literal(String),
    /// A table of specifiers, each replaced by a fixed external reference.
    Replacements(Vec<(String, String)>),
    /// The per-request edge-runtime handler (`crate::edge`).
    EdgeRuntimeHandler,
    /// The per-request externalization handler (`crate::handler`).
    RequestHandler,
}

/// The mathematical shape of an `ExternalsEntry`.
pub enum ExternalsEntryModel {
    Literal(Seq<char>),
    Replacements(Seq<(Seq<char>, Seq<char>)>),
    EdgeRuntimeHandler,
    RequestHandler,
}

impl View for ExternalsEntry {
    type V = ExternalsEntryModel;

    open spec fn view(&self) -> ExternalsEntryModel {
        match self {
            ExternalsEntry::Literal(s) => ExternalsEntryModel::Literal(s@),
            ExternalsEntry::Replacements(t) => ExternalsEntryModel::Replacements(t.deep_view()),
            ExternalsEntry::EdgeRuntimeHandler => ExternalsEntryModel::EdgeRuntimeHandler,
            ExternalsEntry::RequestHandler => ExternalsEntryModel::RequestHandler,
        }
    }
}

impl DeepView for ExternalsEntry {
    type V = ExternalsEntryModel;

    open spec fn deep_view(&self) -> ExternalsEntryModel {
        self.view()
    }
}

/// The plan the plugin hands to the host.
#[derive(Debug)]
pub struct ExternalsPlan {
    pub external_type: String,
    pub entries: Vec<ExternalsEntry>,
}

/// The mathematical shape of an `ExternalsPlan`.
pub struct ExternalsPlanModel {
    pub external_type: Seq<char>,
    pub entries: Seq<ExternalsEntryModel>,
}

impl View for ExternalsPlan {
    type V = ExternalsPlanModel;

    open spec fn view(&self) -> ExternalsPlanModel {
        ExternalsPlanModel {
            external_type: self.external_type@,
            entries: self.entries.deep_view(),
        }
    }
}

/// The externals list of the edge-server compilation: the framework root,
/// two specifiers replaced by empty objects, the polyfilled builtins, and
/// the edge-runtime handler.
pub open spec fn spec_edge_server_entries() -> Seq<ExternalsEntryModel> {
    seq![
        ExternalsEntryModel::Literal("next"@),
        ExternalsEntryModel::Replacements(
            seq![("@builder.io/partytown"@, "{}"@), ("next/dist/compiled/etag"@, "{}"@)],
        ),
        ExternalsEntryModel::Replacements(spec_edge_polyfilled_modules()),
        ExternalsEntryModel::EdgeRuntimeHandler,
    ]
}

/// The plan for one compiler type: client and edge-server compilations
/// externalize by raw assignment, the server compilation by CommonJS
/// module exports; the client externalizes only the framework root, the
/// edge server its fixed list, and the server every builtin module followed
/// by the per-request handler.
pub open spec fn spec_externals_plan(
    compiler_type: Seq<char>,
    builtins: Seq<Seq<char>>,
) -> ExternalsPlanModel {
    let is_client = compiler_type == "client"@;
    let is_edge_server = compiler_type == "edge-server"@;
    ExternalsPlanModel {
        external_type: if is_client || is_edge_server {
            "assign"@
        } else {
            "commonjs2"@
        },
        entries: if is_client || is_edge_server {
            if is_edge_server {
                spec_edge_server_entries()
            } else {
                seq![ExternalsEntryModel::Literal("next"@)]
            }
        } else {
            builtins.map_values(|b: Seq<char>| ExternalsEntryModel::Literal(b)).push(
                ExternalsEntryModel::RequestHandler,
            )
        },
    }
}

/// The per-build externals plugin: the compiler type it serves, the shared
/// configuration, the builtin module names, and the request handler.
#[derive(Debug)]
pub struct NextExternalsPlugin {
    pub compiler_type: String,
    pub config: NextConfigComplete,
    pub builtin_modules: Vec<String>,
    pub external_handler: ExternalHandler,
}

impl NextExternalsPlugin {
    /// Builds the plugin and its request handler.
    pub fn new(
        compiler_type: String,
        config: NextConfigComplete,
        builtin_modules: Vec<String>,
        opt_out_bundling_package_pattern: String,
        final_transpile_packages: Vec<String>,
        dir: String,
    ) -> (r: Self)
        ensures
            r.compiler_type@ == compiler_type@,
            r.config@ == config@,
            r.builtin_modules@ == builtin_modules@,
            r.external_handler@ == (HandlerModel {
                esm_externals: config.experimental.esm_externals,
                loose_esm_externals: config.experimental.esm_externals
                    == EsmExternalsConfig::Loose,
                opt_out_pattern: opt_out_bundling_package_pattern@,
                transpiled_packages: final_transpile_packages.deep_view(),
                dir: dir@,
            }),
    {
        let handler_config = config.duplicate();
        let external_handler = ExternalHandler::new(
            handler_config,
            opt_out_bundling_package_pattern,
            final_transpile_packages,
            dir,
        );
        NextExternalsPlugin { compiler_type, config, builtin_modules, external_handler }
    }

    /// The plugin's registered name.
    pub fn name(&self) -> (r: &'static str)
        ensures
            r@ == "NextExternalsPlugin"@,
    {
        "NextExternalsPlugin"
    }

    /// Builds the externals plan for this plugin's compiler type; see
    /// `spec_externals_plan`.
    pub fn externals_plan(&self) -> (r: ExternalsPlan)
        ensures
            r@ == spec_externals_plan(self.compiler_type@, self.builtin_modules.deep_view()),
    {
        let is_client = str_eq(self.compiler_type.as_str(), "client");
        let is_edge_server = str_eq(self.compiler_type.as_str(), "edge-server");
        let external_type = if is_client || is_edge_server {
            "assign".to_owned()
        } else {
            "commonjs2".to_owned()
        };
        let entries: Vec<ExternalsEntry> = if is_client || is_edge_server {
            if is_edge_server {
                let mut replaced: Vec<(String, String)> = Vec::new();
                replaced.push(("@builder.io/partytown".to_owned(), "{}".to_owned()));
                replaced.push(("next/dist/compiled/etag".to_owned(), "{}".to_owned()));
                assert(replaced.deep_view() =~= seq![
                    ("@builder.io/partytown"@, "{}"@),
                    ("next/dist/compiled/etag"@, "{}"@),
                ]);
                let mut es: Vec<ExternalsEntry> = Vec::new();
                es.push(ExternalsEntry::Literal("next".to_owned()));
                es.push(ExternalsEntry::Replacements(replaced));
                es.push(ExternalsEntry::Replacements(get_edge_polyfilled_modules()));
                es.push(ExternalsEntry::EdgeRuntimeHandler);
                assert(es.deep_view() =~= spec_edge_server_entries());
                es
            } else {
                let mut es: Vec<ExternalsEntry> = Vec::new();
                es.push(ExternalsEntry::Literal("next".to_owned()));
                assert(es.deep_view() =~= seq![ExternalsEntryModel::Literal("next"@)]);
                es
            }
        } else {
            let n = self.builtin_modules.len();
            let mut es: Vec<ExternalsEntry> = Vec::new();
            let mut i: usize = 0;
            while i < n
                invariant
                    n == self.builtin_modules@.len(),
                    self.builtin_modules.deep_view().len() == n,
                    forall|j: int| 0 <= j < n ==> self.builtin_modules.deep_view()[j]
                        == self.builtin_modules@[j]@,
                    i <= n,
                    es@.len() == i,
                    forall|j: int| 0 <= j < i ==> (#[trigger] es@[j]).deep_view()
                        == ExternalsEntryModel::Literal(self.builtin_modules@[j]@),
                decreases n - i,
            {
                es.push(ExternalsEntry::Literal(self.builtin_modules[i].clone()));
                i = i + 1;
            }
            es.push(ExternalsEntry::RequestHandler);
            proof {
                let dv = self.builtin_modules.deep_view();
                let mapped = dv.map_values(|b: Seq<char>| ExternalsEntryModel::Literal(b));
                let full = mapped.push(ExternalsEntryModel::RequestHandler);
                assert forall|j: int| 0 <= j < es.deep_view().len() implies es.deep_view()[j]
                    == full[j] by {
                    assert(es.deep_view()[j] == es@[j].deep_view());
                    if j < n {
                        assert(mapped[j] == ExternalsEntryModel::Literal(dv[j]));
                        assert(dv[j] == self.builtin_modules@[j]@);
                    }
                }
                assert(es.deep_view() =~= full);
            }
            es
        };
        ExternalsPlan { external_type, entries }
    }
}

} // verus!
