//! Tests of the sequencer configuration.

use std::str::FromStr;
use std::time::Duration;

use sequencer_origin::config::{NonZeroU64, SequencerConfig, SequencerSyncMode};

#[test]
fn sync_mode_from_str_is_case_insensitive() {
    for raw in ["cl", "CL", "Cl", "cL"] {
        assert_eq!(SequencerSyncMode::from_str(raw), Ok(SequencerSyncMode::Cl));
    }
    for raw in ["el", "EL", "El", "eL"] {
        assert_eq!(SequencerSyncMode::from_str(raw), Ok(SequencerSyncMode::El));
    }
}

#[test]
fn sync_mode_from_str_rejects_unknown_preserving_input() {
    let err = SequencerSyncMode::from_str("Xl").unwrap_err();
    assert_eq!(err, "expected `cl` or `el`, got `Xl`");
}

#[test]
fn sync_mode_from_str_rejects_what_only_resembles_a_name() {
    for raw in ["", "c", "l", "cl ", " el", "cll", "ЕL", "ＣＬ", "çl"] {
        let err = raw.parse::<SequencerSyncMode>().unwrap_err();
        assert_eq!(err, format!("expected `cl` or `el`, got `{raw}`"));
    }
}

#[test]
fn sync_mode_is_written_in_lowercase() {
    assert_eq!(SequencerSyncMode::Cl.to_string(), "cl");
    assert_eq!(SequencerSyncMode::El.to_string(), "el");
}

#[test]
fn written_sync_modes_are_read_back() {
    for mode in [SequencerSyncMode::Cl, SequencerSyncMode::El] {
        assert_eq!(SequencerSyncMode::from_str(&mode.to_string()), Ok(mode));
        assert_eq!(SequencerSyncMode::from_str(&mode.to_string().to_uppercase()), Ok(mode));
    }
}

#[test]
fn only_the_el_mode_is_el() {
    assert!(SequencerSyncMode::El.is_el());
    assert!(!SequencerSyncMode::Cl.is_el());
    assert!(!SequencerSyncMode::default().is_el());
    assert_eq!(SequencerSyncMode::default(), SequencerSyncMode::Cl);
}

#[test]
fn default_config_is_that_of_a_normal_sequencer() {
    let config = SequencerConfig::default();
    assert!(!config.sequencer_stopped);
    assert!(!config.sequencer_recovery_mode);
    assert_eq!(config.shadow_blocks_per_cycle, None);
    assert_eq!(config.sequencer_sync_mode, SequencerSyncMode::Cl);
    assert_eq!(config.conductor_rpc_url, None);
    assert!(!config.conductor_binary_commit);
    assert_eq!(config.conductor_rpc_timeout, Duration::from_millis(1000));
    assert_eq!(config.l1_conf_delay, 0);
}

#[test]
fn a_copied_config_is_the_same() {
    let config = SequencerConfig {
        sequencer_stopped: true,
        sequencer_recovery_mode: true,
        shadow_blocks_per_cycle: NonZeroU64::new(3),
        sequencer_sync_mode: SequencerSyncMode::El,
        conductor_rpc_url: Some(url::Url::parse("http://conductor:8545/rpc").unwrap()),
        conductor_binary_commit: true,
        conductor_rpc_timeout: Duration::from_millis(250),
        l1_conf_delay: 4,
    };
    let copy = config.clone();
    assert_eq!(copy, config);
    assert_eq!(copy.conductor_rpc_url.unwrap().as_str(), "http://conductor:8545/rpc");
    assert_ne!(SequencerConfig::default(), config);
}

#[test]
fn zero_blocks_per_cycle_cannot_be_configured() {
    assert_eq!(NonZeroU64::new(0), None);
    assert_eq!(NonZeroU64::new(1).unwrap().get(), 1);
    assert_eq!(NonZeroU64::new(u64::MAX).unwrap().get(), u64::MAX);
}
