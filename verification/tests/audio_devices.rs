use capture_card_viewer::audio::config::AudioConfig;
use capture_card_viewer::audio::io::{
    audio_input_request, audio_output_request, dedupe_alsa_aliases, device_priority,
    query_devices, AudioDeviceRequest,
};
use capture_card_viewer::audio::playback::{
    channel_source, plan_chunks, ChannelSource, should_wait_for_input, stream_build_error, ChunkPlan, StreamHealth,
    STALE_THRESHOLD_MS,
};
use capture_card_viewer::errors::AppError;
use capture_card_viewer::settings::Settings;

fn entry(name: &str, id: &str) -> (String, String) {
    (name.to_string(), id.to_string())
}

#[test]
fn priority_of_known_prefixes() {
    assert_eq!(device_priority("alsa:pipewire"), 0);
    assert_eq!(device_priority("pipewire:CARD=Capture"), 0);
    assert_eq!(device_priority("alsa:default:CARD=Capture"), 1);
    assert_eq!(device_priority("sysdefault:CARD=Capture"), 1);
    assert_eq!(device_priority("alsa:plughw:CARD=Capture,DEV=0"), 2);
    assert_eq!(device_priority("hw:CARD=Capture,DEV=0"), 3);
    assert_eq!(device_priority("alsa:front:CARD=Capture,DEV=0"), 4);
    assert_eq!(device_priority("iec958:CARD=Capture"), 5);
    assert_eq!(device_priority("alsa:surround51:CARD=Capture"), 6);
    assert_eq!(device_priority("surround"), 6);
}

#[test]
fn priority_of_unknown_ids_is_one() {
    assert_eq!(device_priority("dmix:CARD=Capture"), 1);
    assert_eq!(device_priority(""), 1);
    assert_eq!(device_priority("alsa:"), 1);
    assert_eq!(device_priority("surroun"), 1);
    assert_eq!(device_priority("hwx:CARD=1"), 1);
    // only one "alsa:" prefix is stripped
    assert_eq!(device_priority("alsa:alsa:hw:1"), 1);
}

#[test]
fn dedupe_keeps_best_alias_at_first_position() {
    let devices = vec![
        entry("USB Capture", "alsa:hw:CARD=1"),
        entry("USB Capture", "alsa:plughw:CARD=1"),
        entry("Speakers", "alsa:default"),
        entry("USB Capture", "alsa:pipewire"),
        entry("Speakers", "alsa:front:CARD=0"),
    ];
    let merged = dedupe_alsa_aliases(devices, true);
    assert_eq!(
        merged,
        vec![entry("USB Capture", "alsa:pipewire"), entry("Speakers", "alsa:default")]
    );
}

#[test]
fn dedupe_tie_keeps_first_entry() {
    let devices = vec![entry("A", "hw:1"), entry("A", "hw:2"), entry("B", "x"), entry("A", "plughw:9")];
    let merged = dedupe_alsa_aliases(devices, true);
    assert_eq!(merged, vec![entry("A", "plughw:9"), entry("B", "x")]);
    let tie = dedupe_alsa_aliases(vec![entry("A", "hw:1"), entry("A", "hw:2")], true);
    assert_eq!(tie, vec![entry("A", "hw:1")]);
}

#[test]
fn dedupe_of_empty_and_distinct_lists() {
    assert_eq!(dedupe_alsa_aliases(Vec::new(), true), Vec::<(String, String)>::new());
    let distinct = vec![entry("A", "hw:1"), entry("B", "hw:2")];
    assert_eq!(dedupe_alsa_aliases(distinct.clone(), true), distinct);
}

#[test]
fn dedupe_twice_changes_nothing_more() {
    let devices = vec![entry("A", "front:1"), entry("B", "hw:2"), entry("A", "hw:1"), entry("B", "pipewire")];
    let once = dedupe_alsa_aliases(devices, true);
    let twice = dedupe_alsa_aliases(once.clone(), true);
    assert_eq!(once, twice);
}

#[test]
fn query_devices_failed_enumeration_is_empty() {
    assert!(query_devices(None, true).is_empty());
    assert!(query_devices(None, false).is_empty());
}

#[test]
fn query_devices_drops_incomplete_entries() {
    let listing = vec![
        (Some("A".to_string()), Some("hw:1".to_string())),
        (None, Some("hw:2".to_string())),
        (Some("B".to_string()), None),
        (Some("A".to_string()), Some("pipewire".to_string())),
    ];
    assert_eq!(
        query_devices(Some(listing.clone()), false),
        vec![entry("A", "hw:1"), entry("A", "pipewire")]
    );
    assert_eq!(query_devices(Some(listing), true), vec![entry("A", "pipewire")]);
}

#[test]
fn input_request_rejects_empty_id() {
    assert_eq!(audio_input_request(""), Err(AppError::AudioDeviceNotFound));
    assert_eq!(
        audio_input_request("alsa:hw:1"),
        Ok(AudioDeviceRequest::ById("alsa:hw:1".to_string()))
    );
}

#[test]
fn output_request_empty_is_system_default() {
    assert_eq!(audio_output_request(""), AudioDeviceRequest::SystemDefault);
    assert_eq!(
        audio_output_request("wasapi:{1}"),
        AudioDeviceRequest::ById("wasapi:{1}".to_string())
    );
}

#[test]
fn audio_config_needs_an_input() {
    let mut settings = Settings::defaults();
    assert!(matches!(AudioConfig::from_settings(&settings), Err(AppError::AudioDeviceNotFound)));
    settings.audio_input = Some("in-1".to_string());
    settings.audio_output = "out-1".to_string();
    let cfg = AudioConfig::from_settings(&settings).unwrap();
    assert_eq!(cfg.input_device, "in-1");
    assert_eq!(cfg.output_device, "out-1");
    let copy = cfg.duplicate();
    assert_eq!(copy.input_device, "in-1");
}

fn health(i: bool, o: bool, p: bool, elapsed: u64, last: u64) -> StreamHealth {
    StreamHealth {
        input_errored: i,
        output_errored: o,
        processing_errored: p,
        elapsed_ms: elapsed,
        last_activity_ms: last,
    }
}

#[test]
fn stream_failure_from_flags() {
    assert!(health(true, false, false, 0, 0).has_failed());
    assert!(health(false, true, false, 0, 0).has_failed());
    assert!(health(false, false, true, 0, 0).has_failed());
    assert!(!health(false, false, false, 0, 0).has_failed());
}

#[test]
fn stream_failure_from_silence() {
    assert_eq!(STALE_THRESHOLD_MS, 3000);
    assert!(!health(false, false, false, 3000, 0).has_failed());
    assert!(health(false, false, false, 3001, 0).has_failed());
    assert!(!health(false, false, false, 10_000, 7_500).has_failed());
    // activity stamped after the clock was read counts as fresh
    assert!(!health(false, false, false, 100, 200).has_failed());
}

#[test]
fn build_errors_are_classified() {
    assert_eq!(stream_build_error(true), AppError::AudioDeviceInUse);
    assert_eq!(stream_build_error(false), AppError::AudioStreamFailed);
}

#[test]
fn chunk_plans() {
    assert_eq!(plan_chunks(2500, 1024, true), ChunkPlan { chunks: 2, chunk_len: 1024, leftover: 452 });
    assert_eq!(plan_chunks(1000, 1024, true), ChunkPlan { chunks: 0, chunk_len: 1024, leftover: 1000 });
    assert_eq!(plan_chunks(2500, 1024, false), ChunkPlan { chunks: 1, chunk_len: 2500, leftover: 0 });
    assert_eq!(plan_chunks(0, 1024, false).chunks, 0);
}

#[test]
fn waiting_for_input() {
    assert!(should_wait_for_input(false, 10, 1024));
    assert!(!should_wait_for_input(true, 10, 1024));
    assert!(!should_wait_for_input(false, 1024, 1024));
}

#[test]
fn channel_layouts() {
    assert_eq!(channel_source(1, 2, 2), ChannelSource::Input(1));
    assert_eq!(channel_source(0, 2, 1), ChannelSource::MixDown);
    assert_eq!(channel_source(1, 1, 2), ChannelSource::Input(0));
    assert_eq!(channel_source(3, 2, 6), ChannelSource::Input(1));
}

#[test]
fn dedupe_of_appended_entries_merges_stepwise() {
    let x = vec![entry("A", "front:1"), entry("B", "hw:2"), entry("A", "hw:1")];
    let y = vec![entry("B", "pipewire"), entry("C", "hw:3"), entry("A", "surround40:1"), entry("A", "plughw:1")];
    let mut whole = x.clone();
    whole.extend(y.clone());
    let mut merged_first = dedupe_alsa_aliases(x, true);
    merged_first.extend(y);
    let expected = vec![entry("A", "plughw:1"), entry("B", "pipewire"), entry("C", "hw:3")];
    assert_eq!(dedupe_alsa_aliases(whole, true), expected);
    assert_eq!(dedupe_alsa_aliases(merged_first, true), expected);
}

#[test]
fn dedupe_elsewhere_keeps_the_list() {
    let devices = vec![entry("A", "hw:1"), entry("A", "pipewire"), entry("B", "x")];
    assert_eq!(dedupe_alsa_aliases(devices.clone(), false), devices);
}
