use dashcmafsink::format::{
    find_format, media_kind, Fraction, MediaFormat, MediaKind, PadFormat, AUDIO_CODEC,
    UNKNOWN_CODEC, VIDEO_CODEC,
};
use dashcmafsink::manifest::{
    adaptation_set, build_manifest, frame_rate_string, init_location, representation,
    segment_template,
};
use dashcmafsink::registry::StreamRegistry;
use dashcmafsink::settings::DashCmafSinkSettings;
use dashcmafsink::stream::DashCmafSinkStream;

fn video(pad: &str) -> PadFormat {
    PadFormat {
        pad_name: pad.to_string(),
        format: MediaFormat {
            media_type: "video/x-h264".to_string(),
            width: Some(1920),
            height: Some(1080),
            framerate: Some(Fraction { numer: 25, denom: 1 }),
        },
    }
}

fn audio(pad: &str) -> PadFormat {
    PadFormat {
        pad_name: pad.to_string(),
        format: MediaFormat {
            media_type: "audio/mpeg".to_string(),
            width: None,
            height: None,
            framerate: None,
        },
    }
}

fn other(pad: &str, media_type: &str) -> PadFormat {
    PadFormat {
        pad_name: pad.to_string(),
        format: MediaFormat {
            media_type: media_type.to_string(),
            width: Some(1),
            height: Some(1),
            framerate: None,
        },
    }
}

fn registry(pads: &[&str]) -> StreamRegistry {
    let mut r = StreamRegistry::new();
    for p in pads {
        r.insert(p.to_string(), DashCmafSinkStream::default());
    }
    r
}

#[test]
fn kinds_go_by_the_media_type() {
    assert_eq!(MediaKind::of_media_type("video/x-h264"), MediaKind::Video);
    assert_eq!(MediaKind::of_media_type("audio/mpeg"), MediaKind::Audio);
    assert_eq!(MediaKind::of_media_type("video/x-h265"), MediaKind::Unknown);
    assert_eq!(MediaKind::of_media_type("audio/x-opus"), MediaKind::Unknown);
    assert_eq!(MediaKind::of_media_type(""), MediaKind::Unknown);
    assert_eq!(media_kind(None), MediaKind::Unknown);
    assert_eq!(media_kind(Some(&video("a").format)), MediaKind::Video);
}

#[test]
fn codecs_of_the_kinds() {
    assert_eq!(MediaKind::Video.codec(), "avc1.64001e");
    assert_eq!(MediaKind::Audio.codec(), "mp4a.40.2");
    assert_eq!(MediaKind::Unknown.codec(), "unknown");
    assert_eq!(VIDEO_CODEC, "avc1.64001e");
    assert_eq!(AUDIO_CODEC, "mp4a.40.2");
    assert_eq!(UNKNOWN_CODEC, "unknown");
}

#[test]
fn the_first_format_of_a_pad_is_found() {
    let formats = vec![video("a"), audio("b"), audio("a")];
    assert_eq!(find_format(&formats, "a").unwrap().media_type, "video/x-h264");
    assert_eq!(find_format(&formats, "b").unwrap().media_type, "audio/mpeg");
    assert!(find_format(&formats, "c").is_none());
    assert!(find_format(&vec![], "a").is_none());
}

#[test]
fn frame_rate_is_written_as_a_fraction() {
    assert_eq!(frame_rate_string(Fraction { numer: 30, denom: 1 }), "30/1");
    assert_eq!(frame_rate_string(Fraction { numer: 30000, denom: 1001 }), "30000/1001");
    assert_eq!(frame_rate_string(Fraction { numer: -1, denom: 2 }), "-1/2");
    assert_eq!(frame_rate_string(Fraction { numer: 0, denom: 1 }), "0/1");
}

#[test]
fn init_location_has_the_pad_name_in_front() {
    let settings = DashCmafSinkSettings::default();
    assert_eq!(init_location(&settings, "sink_0"), "sink_0_init.cmfi");
}

#[test]
fn segment_template_of_the_default_settings() {
    let settings = DashCmafSinkSettings::default();
    let t = segment_template(&settings, "sink_0");
    assert_eq!(t.timescale, 1000);
    assert_eq!(t.duration, 10_000);
    assert_eq!(t.start_number, 0);
    assert_eq!(t.initialization, "sink_0_init.cmfi");
    assert_eq!(t.media, "segment_$Number$.cmfv");
}

#[test]
fn init_reference_goes_behind_the_root() {
    let mut settings = DashCmafSinkSettings::default();
    settings.set_playlist_root_init(Some("https://cdn.example/live/".to_string()));
    settings.set_target_duration(2);
    let t = segment_template(&settings, "v");
    assert_eq!(t.initialization, "https://cdn.example/live/v_init.cmfi");
    assert_eq!(t.media, "segment_$Number$.cmfv");
    assert_eq!(t.duration, 2000);
    assert_eq!(init_location(&settings, "v"), "v_init.cmfi");
}

#[test]
fn video_representation_has_picture_fields() {
    let settings = DashCmafSinkSettings::default();
    let r = representation(&settings, "v", 800_000, &video("v").format, MediaKind::Video);
    assert_eq!(r.id, "v");
    assert_eq!(r.codecs, "avc1.64001e");
    assert_eq!(r.width, Some(1920));
    assert_eq!(r.height, Some(1080));
    assert_eq!(r.frame_rate.as_deref(), Some("25/1"));
    assert_eq!(r.bandwidth, 800_000);
    assert_eq!(r.segment_template.initialization, "v_init.cmfi");
}

#[test]
fn video_representation_falls_back_to_the_defaults() {
    let settings = DashCmafSinkSettings::default();
    let bare = MediaFormat {
        media_type: "video/x-h264".to_string(),
        width: None,
        height: None,
        framerate: None,
    };
    let r = representation(&settings, "v", 1, &bare, MediaKind::Video);
    assert_eq!(r.width, Some(1280));
    assert_eq!(r.height, Some(720));
    assert_eq!(r.frame_rate.as_deref(), Some("30/1"));
}

#[test]
fn audio_representation_has_no_picture_fields() {
    let settings = DashCmafSinkSettings::default();
    let r = representation(&settings, "a", 128_000, &audio("a").format, MediaKind::Audio);
    assert_eq!(r.id, "a");
    assert_eq!(r.codecs, "mp4a.40.2");
    assert_eq!(r.width, None);
    assert_eq!(r.height, None);
    assert_eq!(r.frame_rate, None);
    assert_eq!(r.bandwidth, 128_000);
    assert_eq!(r.segment_template.media, "segment_$Number$.cmfv");
}

#[test]
fn adaptation_set_flags_are_fixed() {
    let v = adaptation_set(MediaKind::Video, vec![]);
    assert_eq!(v.content_type, "video");
    assert_eq!(v.mime_type, "video/mp4");
    assert!(v.segment_alignment);
    assert_eq!(v.subsegment_starts_with_sap, 1);
    let a = adaptation_set(MediaKind::Audio, vec![]);
    assert_eq!(a.content_type, "audio");
    assert_eq!(a.mime_type, "audio/mp4");
    assert!(a.segment_alignment);
    assert_eq!(a.subsegment_starts_with_sap, 1);
}

#[test]
fn manifest_header_is_fixed() {
    let settings = DashCmafSinkSettings::default();
    let m = build_manifest(&settings, &registry(&[]), &vec![], 0);
    assert_eq!(m.mpdtype, "static");
    assert_eq!(m.xmlns, "urn:mpeg:dash:schema:mpd:2011");
    assert_eq!(m.schema_location, "urn:mpeg:dash:schema:mpd:2011 DASH-MPD.xsd");
    assert_eq!(m.profiles, "urn:mpeg:dash:profile:isoff-on-demand:2011");
    assert_eq!(m.min_buffer_time, 10);
    assert_eq!(m.media_presentation_duration, 0);
    assert!(m.adaptations.is_empty());
}

#[test]
fn min_buffer_time_is_the_target_duration() {
    let mut settings = DashCmafSinkSettings::default();
    settings.set_target_duration(6);
    let m = build_manifest(&settings, &registry(&["v"]), &vec![video("v")], 12_000);
    assert_eq!(m.min_buffer_time, 6);
    assert_eq!(m.media_presentation_duration, 12_000);
}

#[test]
fn two_video_streams_share_one_adaptation_set() {
    let settings = DashCmafSinkSettings::default();
    let m = build_manifest(&settings, &registry(&["v1", "v2"]), &vec![video("v1"), video("v2")], 0);
    assert_eq!(m.adaptations.len(), 1);
    assert_eq!(m.adaptations[0].content_type, "video");
    let ids: Vec<&str> = m.adaptations[0].representations.iter().map(|r| r.id.as_str()).collect();
    assert_eq!(ids, vec!["v1", "v2"]);
}

#[test]
fn two_audio_streams_share_one_adaptation_set() {
    let settings = DashCmafSinkSettings::default();
    let m = build_manifest(&settings, &registry(&["a1", "a2"]), &vec![audio("a2"), audio("a1")], 0);
    assert_eq!(m.adaptations.len(), 1);
    assert_eq!(m.adaptations[0].content_type, "audio");
    let ids: Vec<&str> = m.adaptations[0].representations.iter().map(|r| r.id.as_str()).collect();
    assert_eq!(ids, vec!["a1", "a2"]);
}

#[test]
fn video_and_audio_get_an_adaptation_set_each() {
    let settings = DashCmafSinkSettings::default();
    let m = build_manifest(&settings, &registry(&["a", "v"]), &vec![audio("a"), video("v")], 0);
    assert_eq!(m.adaptations.len(), 2);
    assert_eq!(m.adaptations[0].content_type, "video");
    assert_eq!(m.adaptations[0].mime_type, "video/mp4");
    assert_eq!(m.adaptations[0].representations.len(), 1);
    assert_eq!(m.adaptations[0].representations[0].id, "v");
    assert_eq!(m.adaptations[1].content_type, "audio");
    assert_eq!(m.adaptations[1].mime_type, "audio/mp4");
    assert_eq!(m.adaptations[1].representations.len(), 1);
    assert_eq!(m.adaptations[1].representations[0].id, "a");
}

#[test]
fn a_stream_of_unknown_kind_is_left_out() {
    let settings = DashCmafSinkSettings::default();
    let formats = vec![video("v"), other("x", "video/x-vp9")];
    let m = build_manifest(&settings, &registry(&["x", "v"]), &formats, 0);
    assert_eq!(m.adaptations.len(), 1);
    assert_eq!(m.adaptations[0].representations.len(), 1);
    assert_eq!(m.adaptations[0].representations[0].id, "v");
}

#[test]
fn a_stream_without_format_is_left_out() {
    let settings = DashCmafSinkSettings::default();
    let m = build_manifest(&settings, &registry(&["v", "w"]), &vec![video("v")], 0);
    assert_eq!(m.adaptations.len(), 1);
    assert_eq!(m.adaptations[0].representations.len(), 1);
}

#[test]
fn only_unknown_streams_give_no_adaptation_set() {
    let settings = DashCmafSinkSettings::default();
    let formats = vec![other("x", "text/plain")];
    let m = build_manifest(&settings, &registry(&["x", "y"]), &formats, 0);
    assert!(m.adaptations.is_empty());
}

#[test]
fn many_streams_of_a_kind_still_give_one_set() {
    let settings = DashCmafSinkSettings::default();
    let pads = ["v0", "a0", "v1", "a1", "v2", "x", "a2", "v3"];
    let mut formats = Vec::new();
    for p in pads {
        if p.starts_with('v') {
            formats.push(video(p));
        } else if p.starts_with('a') {
            formats.push(audio(p));
        }
    }
    let m = build_manifest(&settings, &registry(&pads), &formats, 0);
    assert_eq!(m.adaptations.len(), 2);
    assert_eq!(m.adaptations[0].representations.len(), 4);
    assert_eq!(m.adaptations[1].representations.len(), 3);
    assert_eq!(m.adaptations.iter().filter(|s| s.content_type == "video").count(), 1);
    assert_eq!(m.adaptations.iter().filter(|s| s.content_type == "audio").count(), 1);
}

#[test]
fn a_format_for_no_stream_adds_nothing() {
    let settings = DashCmafSinkSettings::default();
    let m = build_manifest(&settings, &registry(&["v"]), &vec![audio("ghost"), video("v")], 0);
    assert_eq!(m.adaptations.len(), 1);
    assert_eq!(m.adaptations[0].content_type, "video");
}

#[test]
fn bandwidth_comes_from_the_stream() {
    let settings = DashCmafSinkSettings::default();
    let mut r = registry(&["v"]);
    r.record_segment_at(0, 10, 1_250_000);
    let m = build_manifest(&settings, &r, &vec![video("v")], 10_000);
    assert_eq!(m.adaptations[0].representations[0].bandwidth, 1_000_000);
}

#[test]
fn a_negative_dimension_wraps_around() {
    let settings = DashCmafSinkSettings::default();
    let odd = MediaFormat {
        media_type: "video/x-h264".to_string(),
        width: Some(-1),
        height: Some(i32::MIN),
        framerate: None,
    };
    let r = representation(&settings, "v", 0, &odd, MediaKind::Video);
    assert_eq!(r.width, Some(u64::MAX));
    assert_eq!(r.height, Some(-2147483648i64 as u64));
}

#[test]
fn document_has_the_declaration_on_a_line_of_its_own() {
    assert_eq!(
        dashcmafsink::manifest::manifest_document("<MPD/>"),
        "<?xml version=\"1.0\" encoding=\"UTF-8\"?>\n<MPD/>\n"
    );
    assert_eq!(
        dashcmafsink::manifest::manifest_document(""),
        "<?xml version=\"1.0\" encoding=\"UTF-8\"?>\n\n"
    );
}
