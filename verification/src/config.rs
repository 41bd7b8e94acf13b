//! Build-scoped configuration: the ESM-externals policy and the fields of the
//! completed framework configuration that the externalization logic reads.

use vstd::prelude::*;

verus! {

/// Policy controlling whether ECMAScript-module dependencies may be
/// externalized, and how strictly format compatibility is checked.
#[derive(Debug, Clone, Copy, PartialEq, Eq, Structural, Default)]
pub enum EsmExternalsConfig {
    /// ESM externals are disabled.
    #[default]
    Disabled,
    /// ESM externals are allowed, and a module in the wrong format may still
    /// be externalized.
    Loose,
    /// ESM externals are allowed, but a module resolved as ESM must have been
    /// requested with ESM import syntax.
    Strict,
}

impl EsmExternalsConfig {
    /// True unless ESM externals are disabled.
    pub fn is_enabled(&self) -> (r: bool)
        ensures
            r == (*self != EsmExternalsConfig::Disabled),
    {
        !matches!(self, EsmExternalsConfig::Disabled)
    }

    /// True exactly in loose mode.
    pub fn is_loose(&self) -> (r: bool)
        ensures
            r == (*self == EsmExternalsConfig::Loose),
    {
        matches!(self, EsmExternalsConfig::Loose)
    }
}

/// The raw user-facing value of the ESM-externals setting, before it is
/// interpreted: absent, a mode name, or a plain switch.
#[derive(Debug, Clone)]
pub enum EsmExternalsSetting {
    Unset,
    Named(String),
    Enabled(bool),
}

/// Interprets the user-facing ESM-externals setting: the mode name "loose"
/// selects loose mode, any other name selects strict mode, a plain `true`
/// selects strict mode, and `false` or an absent setting disables the policy.
pub fn interpret_esm_externals_setting(setting: &EsmExternalsSetting) -> (r: EsmExternalsConfig)
    ensures
        r == spec_interpret_esm_externals_setting(*setting),
{
    match setting {
        EsmExternalsSetting::Unset => EsmExternalsConfig::Disabled,
        EsmExternalsSetting::Named(s) => {
            if crate::text::str_eq(s.as_str(), "loose") {
                EsmExternalsConfig::Loose
            } else {
                EsmExternalsConfig::Strict
            }
        },
        EsmExternalsSetting::Enabled(b) => {
            if *b {
                EsmExternalsConfig::Strict
            } else {
                EsmExternalsConfig::Disabled
            }
        },
    }
}

/// What `interpret_esm_externals_setting` returns, as a function of the
/// setting's value.
pub open spec fn spec_interpret_esm_externals_setting(setting: EsmExternalsSetting) -> EsmExternalsConfig {
    match setting {
        EsmExternalsSetting::Unset => EsmExternalsConfig::Disabled,
        EsmExternalsSetting::Named(s) => if s@ == "loose"@ {
            EsmExternalsConfig::Loose
        } else {
            EsmExternalsConfig::Strict
        },
        EsmExternalsSetting::Enabled(b) => if b {
            EsmExternalsConfig::Strict
        } else {
            EsmExternalsConfig::Disabled
        },
    }
}

/// The experimental section of the configuration.
#[derive(Debug, Clone, Default)]
pub struct ExperimentalConfig {
    pub esm_externals: EsmExternalsConfig,
}

/// The fields of the completed framework configuration that the
/// externalization logic reads. Built once per build and then shared
/// read-only.
#[derive(Debug, Clone, Default)]
pub struct NextConfigComplete {
    pub server_external_packages: Option<Vec<String>>,
    pub transpile_packages: Option<Vec<String>>,
    pub experimental: ExperimentalConfig,
}

/// The mathematical shape of a `NextConfigComplete`.
pub struct ConfigModel {
    pub server_external_packages: Option<Seq<Seq<char>>>,
    pub transpile_packages: Option<Seq<Seq<char>>>,
    pub esm_externals: EsmExternalsConfig,
}

impl View for NextConfigComplete {
    type V = ConfigModel;

    open spec fn view(&self) -> ConfigModel {
        ConfigModel {
            server_external_packages: self.server_external_packages.deep_view(),
            transpile_packages: self.transpile_packages.deep_view(),
            esm_externals: self.experimental.esm_externals,
        }
    }
}

/// A copy of a vector of strings, element for element.
pub fn clone_string_vec(v: &Vec<String>) -> (r: Vec<String>)
    ensures
        r@ == v@,
{
    let n = v.len();
    let mut r: Vec<String> = Vec::new();
    let mut i: usize = 0;
    while i < n
        invariant
            n == v@.len(),
            i <= n,
            r@ == v@.take(i as int),
        decreases n - i,
    {
        r.push(v[i].clone());
        assert(r@ =~= v@.take(i + 1 as int));
        i = i + 1;
    }
    assert(v@.take(n as int) =~= v@);
    r
}

impl NextConfigComplete {
    /// A copy of the configuration that the model cannot tell from the
    /// original.
    pub fn duplicate(&self) -> (r: Self)
        ensures
            r@ == self@,
    {
        NextConfigComplete {
            server_external_packages: match &self.server_external_packages {
                Some(v) => Some(clone_string_vec(v)),
                None => None,
            },
            transpile_packages: match &self.transpile_packages {
                Some(v) => Some(clone_string_vec(v)),
                None => None,
            },
            experimental: ExperimentalConfig { esm_externals: self.experimental.esm_externals },
        }
    }
}

} // verus!
