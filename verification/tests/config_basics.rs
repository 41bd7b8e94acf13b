//! Configuration interpretation.

use next_externals::config::{interpret_esm_externals_setting, EsmExternalsConfig,
    EsmExternalsSetting, ExperimentalConfig, NextConfigComplete};

#[test]
fn mode_predicates() {
    assert!(!EsmExternalsConfig::Disabled.is_enabled());
    assert!(EsmExternalsConfig::Loose.is_enabled());
    assert!(EsmExternalsConfig::Strict.is_enabled());
    assert!(EsmExternalsConfig::Loose.is_loose());
    assert!(!EsmExternalsConfig::Strict.is_loose());
    assert!(!EsmExternalsConfig::Disabled.is_loose());
}

#[test]
fn setting_interpretation() {
    assert_eq!(
        interpret_esm_externals_setting(&EsmExternalsSetting::Unset),
        EsmExternalsConfig::Disabled,
    );
    assert_eq!(
        interpret_esm_externals_setting(&EsmExternalsSetting::Named("loose".to_string())),
        EsmExternalsConfig::Loose,
    );
    assert_eq!(
        interpret_esm_externals_setting(&EsmExternalsSetting::Named("strict".to_string())),
        EsmExternalsConfig::Strict,
    );
    assert_eq!(
        interpret_esm_externals_setting(&EsmExternalsSetting::Named("anything".to_string())),
        EsmExternalsConfig::Strict,
    );
    assert_eq!(
        interpret_esm_externals_setting(&EsmExternalsSetting::Enabled(true)),
        EsmExternalsConfig::Strict,
    );
    assert_eq!(
        interpret_esm_externals_setting(&EsmExternalsSetting::Enabled(false)),
        EsmExternalsConfig::Disabled,
    );
}

#[test]
fn default_configuration_disables_esm_externals() {
    let c = NextConfigComplete::default();
    assert_eq!(c.experimental.esm_externals, EsmExternalsConfig::Disabled);
    assert!(c.server_external_packages.is_none());
    assert!(c.transpile_packages.is_none());
}

#[test]
fn duplicate_copies_every_field() {
    let c = NextConfigComplete {
        server_external_packages: Some(vec!["a".to_string(), "b".to_string()]),
        transpile_packages: Some(vec![]),
        experimental: ExperimentalConfig { esm_externals: EsmExternalsConfig::Loose },
    };
    let d = c.duplicate();
    assert_eq!(d.server_external_packages, c.server_external_packages);
    assert_eq!(d.transpile_packages, c.transpile_packages);
    assert_eq!(d.experimental.esm_externals, c.experimental.esm_externals);
}
