use era_connect::native::{fetch_state, write_state, DownloadState};

#[test]
fn state_defaults_to_stopped_and_reads_back_writes() {
    let mut state = DownloadState::default();
    assert_eq!(fetch_state(&state), DownloadState::Stopped);
    write_state(&mut state, DownloadState::Paused);
    assert_eq!(fetch_state(&state), DownloadState::Paused);
}

use era_connect::native::{
    download_state_from_wire, download_state_to_wire, get_ui_layout_config, key_from_wire,
    set_ui_layout_config, ConfigState, Key, UILayout, Value,
};
use era_connect::settings::{Appearances, DarkLightMode, DEFAULT_MAX_SIMULTANEOUS_DOWNLOAD};
use era_connect::version::{LatestVersion, VersionMetadata, VersionType, VersionsManifest};

#[test]
fn download_states_round_trip_over_the_wire() {
    for s in [DownloadState::Downloading, DownloadState::Paused, DownloadState::Stopped] {
        assert_eq!(download_state_from_wire(download_state_to_wire(s)), s);
    }
    assert_eq!(download_state_to_wire(DownloadState::Paused), 1);
    assert_eq!(key_from_wire(0), Key::CompletedSetup);
}

#[test]
fn ui_layout_reads_back_what_was_set() {
    let mut config = ConfigState { ui_layout: UILayout::default() };
    assert_eq!(get_ui_layout_config(&config, Key::CompletedSetup), Value::CompletedSetup(false));
    set_ui_layout_config(&mut config, Value::CompletedSetup(true));
    assert_eq!(get_ui_layout_config(&config, Key::CompletedSetup), Value::CompletedSetup(true));
}

#[test]
fn settings_have_their_defaults() {
    let a = Appearances::default();
    assert_eq!(a.dark_lightmode, DarkLightMode::Dark);
    assert!(!a.blur && !a.animation);
    assert_eq!(DEFAULT_MAX_SIMULTANEOUS_DOWNLOAD, 64);
    let l = era_connect::settings::UILayout::default();
    assert!(!l.completed_setup && !l.sidebar_preivew);
}

fn version(id: &str, version_type: VersionType) -> VersionMetadata {
    VersionMetadata {
        id: String::from(id),
        version_type,
        url: format!("https://example.com/{id}.json"),
        uploaded_time: 0,
        release_time: 0,
        sha1: String::new(),
        compliance_level: 0,
    }
}

#[test]
fn versions_are_found_by_id() {
    let manifest = VersionsManifest {
        latest: LatestVersion { release: String::from("1.20.1"), snapshot: String::from("23w33a") },
        versions: vec![version("23w33a", VersionType::Snapshot), version("1.20.1", VersionType::Release)],
    };
    assert_eq!(VersionMetadata::latest_release(&manifest).unwrap().url, "https://example.com/1.20.1.json");
    assert_eq!(VersionMetadata::latest_snapshot(&manifest).unwrap().version_type, VersionType::Snapshot);
    assert!(VersionMetadata::from_id(&manifest, "1.8.9").is_none());
}
