use dashcmafsink::clock::ClockTime;
use dashcmafsink::property::{Property, PropertyValue};
use dashcmafsink::settings::{
    DashCmafSinkSettings, DEFAULT_INIT_LOCATION, DEFAULT_LATENCY_NSECONDS, DEFAULT_LOCATION,
    DEFAULT_SEGMENT_LOCATION, DEFAULT_SYNC, DEFAULT_TARGET_DURATION,
};
use dashcmafsink::sink::DashCmafSink;

fn text(value: PropertyValue) -> Option<String> {
    match value {
        PropertyValue::Str(s) => s,
        other => panic!("not a string: {:?}", other),
    }
}

#[test]
fn default_settings_are_the_documented_ones() {
    let s = DashCmafSinkSettings::default();
    assert_eq!(s.location(), "manifest.mpd");
    assert_eq!(s.init_location(), "init.cmfi");
    assert_eq!(s.segment_location(), "segment_%d.cmfv");
    assert_eq!(s.target_duration(), 10);
    assert!(s.sync());
    assert_eq!(s.latency().nseconds(), 5_000_000_000);
    assert_eq!(s.playlist_root_init(), None);
}

#[test]
fn default_constants() {
    assert_eq!(DEFAULT_LOCATION, "manifest.mpd");
    assert_eq!(DEFAULT_INIT_LOCATION, "init.cmfi");
    assert_eq!(DEFAULT_SEGMENT_LOCATION, "segment_%d.cmfv");
    assert_eq!(DEFAULT_TARGET_DURATION, 10);
    assert_eq!(DEFAULT_LATENCY_NSECONDS, DEFAULT_TARGET_DURATION as u64 * 500 * 1_000_000);
    assert!(DEFAULT_SYNC);
}

#[test]
fn setters_change_one_setting() {
    let mut s = DashCmafSinkSettings::default();
    s.set_location(Some("out/live.mpd".to_string()));
    s.set_target_duration(4);
    s.set_sync(false);
    s.set_latency(ClockTime::from_nseconds(123));
    s.set_playlist_root_init(Some("https://cdn/".to_string()));
    assert_eq!(s.location(), "out/live.mpd");
    assert_eq!(s.init_location(), "init.cmfi");
    assert_eq!(s.segment_location(), "segment_%d.cmfv");
    assert_eq!(s.target_duration(), 4);
    assert!(!s.sync());
    assert_eq!(s.latency().nseconds(), 123);
    assert_eq!(s.playlist_root_init(), Some("https://cdn/"));
}

#[test]
fn unset_string_falls_back_to_the_default() {
    let mut s = DashCmafSinkSettings::default();
    s.set_location(Some("a".to_string()));
    s.set_init_location(Some("b".to_string()));
    s.set_segment_location(Some("c%d".to_string()));
    s.set_location(None);
    s.set_init_location(None);
    s.set_segment_location(None);
    assert_eq!(s.location(), "manifest.mpd");
    assert_eq!(s.init_location(), "init.cmfi");
    assert_eq!(s.segment_location(), "segment_%d.cmfv");
}

#[test]
fn properties_go_by_their_names() {
    assert_eq!(Property::from_name("location"), Some(Property::Location));
    assert_eq!(Property::from_name("init-location"), Some(Property::InitLocation));
    assert_eq!(Property::from_name("segment-location"), Some(Property::SegmentLocation));
    assert_eq!(Property::from_name("target-duration"), Some(Property::TargetDuration));
    assert_eq!(Property::from_name("sync"), Some(Property::Sync));
    assert_eq!(Property::from_name("latency"), Some(Property::Latency));
    assert_eq!(Property::from_name("playlist-root-init"), Some(Property::PlaylistRootInit));
    assert_eq!(Property::from_name("Location"), None);
    assert_eq!(Property::from_name(""), None);
    assert_eq!(Property::from_name("bitrate"), None);
}

#[test]
fn every_property_is_found_by_its_name() {
    let all = DashCmafSink::properties();
    assert_eq!(all.len(), 7);
    for p in all {
        assert_eq!(Property::from_name(p.name()), Some(p));
    }
}

#[test]
fn only_the_target_duration_is_bound_to_idle() {
    for p in DashCmafSink::properties() {
        assert_eq!(p.mutable_only_when_idle(), p == Property::TargetDuration);
    }
}

#[test]
fn default_values_of_properties() {
    assert_eq!(text(Property::Location.default_value()), Some("manifest.mpd".to_string()));
    assert_eq!(text(Property::InitLocation.default_value()), Some("init.cmfi".to_string()));
    assert_eq!(
        text(Property::SegmentLocation.default_value()),
        Some("segment_%d.cmfv".to_string())
    );
    assert_eq!(text(Property::PlaylistRootInit.default_value()), None);
    assert!(matches!(Property::TargetDuration.default_value(), PropertyValue::UInt(10)));
    assert!(matches!(Property::Sync.default_value(), PropertyValue::Bool(true)));
    assert!(matches!(Property::Latency.default_value(), PropertyValue::UInt64(5_000_000_000)));
}

#[test]
fn a_property_takes_values_of_its_type_only() {
    assert!(Property::Location.takes(&PropertyValue::Str(None)));
    assert!(Property::Location.takes(&PropertyValue::Str(Some("x".to_string()))));
    assert!(!Property::Location.takes(&PropertyValue::UInt(1)));
    assert!(Property::Sync.takes(&PropertyValue::Bool(false)));
    assert!(!Property::Sync.takes(&PropertyValue::UInt64(1)));
    assert!(Property::TargetDuration.takes(&PropertyValue::UInt(1)));
    assert!(!Property::TargetDuration.takes(&PropertyValue::UInt64(1)));
    assert!(Property::Latency.takes(&PropertyValue::UInt64(0)));
    assert!(!Property::Latency.takes(&PropertyValue::UInt(0)));
}

#[test]
fn a_target_duration_of_zero_is_not_taken() {
    assert!(!Property::TargetDuration.takes(&PropertyValue::UInt(0)));
    assert!(!DashCmafSink::accepts_property("target-duration", &PropertyValue::UInt(0)));
}

#[test]
fn the_latency_that_is_no_time_is_not_taken() {
    assert!(!Property::Latency.takes(&PropertyValue::UInt64(u64::MAX)));
    assert!(Property::Latency.takes(&PropertyValue::UInt64(u64::MAX - 1)));
}

#[test]
fn unknown_property_is_not_accepted() {
    assert!(!DashCmafSink::accepts_property("volume", &PropertyValue::UInt(3)));
    assert!(DashCmafSink::accepts_property("sync", &PropertyValue::Bool(true)));
}

#[test]
fn sink_properties_are_set_and_read_by_name() {
    let mut sink = DashCmafSink::new();
    sink.set_property("location", PropertyValue::Str(Some("x.mpd".to_string())));
    sink.set_property("init-location", PropertyValue::Str(Some("i.mp4".to_string())));
    sink.set_property("segment-location", PropertyValue::Str(Some("s%d.m4s".to_string())));
    sink.set_property("target-duration", PropertyValue::UInt(2));
    sink.set_property("sync", PropertyValue::Bool(false));
    sink.set_property("latency", PropertyValue::UInt64(77));
    sink.set_property("playlist-root-init", PropertyValue::Str(Some("/root/".to_string())));
    assert_eq!(text(sink.property("location")), Some("x.mpd".to_string()));
    assert_eq!(text(sink.property("init-location")), Some("i.mp4".to_string()));
    assert_eq!(text(sink.property("segment-location")), Some("s%d.m4s".to_string()));
    assert!(matches!(sink.property("target-duration"), PropertyValue::UInt(2)));
    assert!(matches!(sink.property("sync"), PropertyValue::Bool(false)));
    assert!(matches!(sink.property("latency"), PropertyValue::UInt64(77)));
    assert_eq!(text(sink.property("playlist-root-init")), Some("/root/".to_string()));
}

#[test]
fn setting_a_string_property_to_nothing_sets_the_default() {
    let mut sink = DashCmafSink::new();
    sink.set_property("location", PropertyValue::Str(Some("x.mpd".to_string())));
    sink.set_property("location", PropertyValue::Str(None));
    assert_eq!(text(sink.property("location")), Some("manifest.mpd".to_string()));
    sink.set_property("playlist-root-init", PropertyValue::Str(Some("r".to_string())));
    sink.set_property("playlist-root-init", PropertyValue::Str(None));
    assert_eq!(text(sink.property("playlist-root-init")), None);
}
