//! The terminal outcome of one externalization request.

use vstd::prelude::*;
use crate::text::{concat2, concat3};

verus! {

/// How an external module is loaded at runtime.
#[derive(Debug, Clone, Copy, PartialEq, Eq, Structural)]
pub enum ModuleType {
    /// Loaded through synchronous require semantics.
    CommonJs,
    /// Loaded through ESM import semantics.
    Module,
    /// Referenced through a raw assignment expression.
    Assign,
}

/// The decision for one request: bundle the module, reference it externally
/// under the given specifier, or fail the build with a message.
#[derive(Debug, Clone, PartialEq, Eq)]
pub enum Decision {
    Bundle,
    External(ModuleType, String),
    Fatal(String),
}

/// The mathematical shape of a `Decision`, with specifiers as character
/// sequences.
pub enum DecisionModel {
    Bundle,
    External(ModuleType, Seq<char>),
    Fatal(Seq<char>),
}

impl View for Decision {
    type V = DecisionModel;

    open spec fn view(&self) -> DecisionModel {
        match self {
            Decision::Bundle => DecisionModel::Bundle,
            Decision::External(t, s) => DecisionModel::External(*t, s@),
            Decision::Fatal(m) => DecisionModel::Fatal(m@),
        }
    }
}

/// The external-reference string a decision hands to the host: the module
/// type followed by the specifier, or the bare specifier for a raw
/// assignment. Bundling and fatal decisions yield no reference.
pub open spec fn spec_external_value(d: DecisionModel) -> Option<Seq<char>> {
    match d {
        DecisionModel::Bundle => None,
        DecisionModel::Fatal(_) => None,
        DecisionModel::External(t, s) => Some(
            match t {
                ModuleType::CommonJs => "commonjs "@ + s,
                ModuleType::Module => "module "@ + s,
                ModuleType::Assign => s,
            },
        ),
    }
}

impl Decision {
    /// Renders the external-reference string of this decision, if any.
    pub fn external_value(&self) -> (r: Option<String>)
        ensures
            r.deep_view() == spec_external_value(self@),
    {
        match self {
            Decision::Bundle => None,
            Decision::Fatal(_) => None,
            Decision::External(t, s) => match t {
                ModuleType::CommonJs => Some(concat2("commonjs ", s.as_str())),
                ModuleType::Module => Some(concat2("module ", s.as_str())),
                ModuleType::Assign => {
                    let c = s.clone();
                    Some(c)
                },
            },
        }
    }
}

/// The message of the one fatal error: an ESM-only package was required with
/// non-ESM syntax under the strict policy.
pub open spec fn spec_esm_violation_message(request: Seq<char>) -> Seq<char> {
    "ESM packages ("@ + request
        + ") need to be imported. Use 'import' to reference the package instead. https://nextjs.org/docs/messages/import-esm-externals"@
}

/// Builds the message of the ESM-import violation error.
pub fn esm_violation_message(request: &str) -> (r: String)
    ensures
        r@ == spec_esm_violation_message(request@),
{
    concat3(
        "ESM packages (",
        request,
        ") need to be imported. Use 'import' to reference the package instead. https://nextjs.org/docs/messages/import-esm-externals",
    )
}

} // verus!
