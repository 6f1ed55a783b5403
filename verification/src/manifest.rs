use crate::format::{
    codec_of, default_framerate, find_format, format_of, format_views, kind_of, media_kind,
    Fraction, MediaFormat, MediaFormatView, MediaKind, PadFormat, PadFormatView, DEFAULT_HEIGHT,
    DEFAULT_WIDTH,
};
use crate::registry::{EntryView, StreamRegistry};
use crate::settings::{DashCmafSinkSettings, SettingsView};
use crate::text::{
    number_template, prefix_with, prefixed, signed_decimal, signed_decimal_string,
    with_number_placeholder,
};
use vstd::prelude::*;

verus! {

pub const MPD_TYPE: &'static str = "static";

pub const MPD_XMLNS: &'static str = "urn:mpeg:dash:schema:mpd:2011";

pub const MPD_SCHEMA_LOCATION: &'static str = "urn:mpeg:dash:schema:mpd:2011 DASH-MPD.xsd";

pub const MPD_PROFILES: &'static str = "urn:mpeg:dash:profile:isoff-on-demand:2011";

pub const VIDEO_CONTENT_TYPE: &'static str = "video";

pub const AUDIO_CONTENT_TYPE: &'static str = "audio";

pub const VIDEO_MIME_TYPE: &'static str = "video/mp4";

pub const AUDIO_MIME_TYPE: &'static str = "audio/mp4";

/// The first line of a manifest file.
pub const XML_DECLARATION: &'static str = "<?xml version=\"1.0\" encoding=\"UTF-8\"?>";

/// Units of a segment template's duration in one second.
pub const TIMESCALE: u64 = 1000;

/// How a player finds the segments of a representation.
#[derive(Clone, Debug)]
pub struct SegmentTemplate {
    pub timescale: u64,
    /// The length of a segment in units of the timescale.
    pub duration: u64,
    pub start_number: u64,
    pub initialization: String,
    pub media: String,
}

/// A segment template as plain values.
pub struct SegmentTemplateView {
    pub timescale: u64,
    pub duration: u64,
    pub start_number: u64,
    pub initialization: Seq<char>,
    pub media: Seq<char>,
}

impl View for SegmentTemplate {
    type V = SegmentTemplateView;

    open spec fn view(&self) -> SegmentTemplateView {
        SegmentTemplateView {
            timescale: self.timescale,
            duration: self.duration,
            start_number: self.start_number,
            initialization: self.initialization@,
            media: self.media@,
        }
    }
}

/// One stream as a manifest describes it.
#[derive(Clone, Debug)]
pub struct Representation {
    pub id: String,
    pub codecs: String,
    pub width: Option<u64>,
    pub height: Option<u64>,
    pub frame_rate: Option<String>,
    pub bandwidth: u64,
    pub segment_template: SegmentTemplate,
}

/// A representation as plain values.
pub struct RepresentationView {
    pub id: Seq<char>,
    pub codecs: Seq<char>,
    pub width: Option<u64>,
    pub height: Option<u64>,
    pub frame_rate: Option<Seq<char>>,
    pub bandwidth: u64,
    pub segment_template: SegmentTemplateView,
}

impl View for Representation {
    type V = RepresentationView;

    open spec fn view(&self) -> RepresentationView {
        RepresentationView {
            id: self.id@,
            codecs: self.codecs@,
            width: self.width,
            height: self.height,
            frame_rate: match self.frame_rate {
                Some(rate) => Some(rate@),
                None => None,
            },
            bandwidth: self.bandwidth,
            segment_template: self.segment_template@,
        }
    }
}

/// The representations as plain values, in the same order.
pub open spec fn representation_views(representations: Seq<Representation>) -> Seq<
    RepresentationView,
> {
    representations.map_values(|r: Representation| r@)
}

/// The streams of one kind of media, among which a player may switch.
#[derive(Clone, Debug)]
pub struct AdaptationSet {
    pub content_type: String,
    pub mime_type: String,
    pub segment_alignment: bool,
    pub subsegment_starts_with_sap: u64,
    pub representations: Vec<Representation>,
}

/// An adaptation set as plain values.
pub struct AdaptationSetView {
    pub content_type: Seq<char>,
    pub mime_type: Seq<char>,
    pub segment_alignment: bool,
    pub subsegment_starts_with_sap: u64,
    pub representations: Seq<RepresentationView>,
}

impl View for AdaptationSet {
    type V = AdaptationSetView;

    open spec fn view(&self) -> AdaptationSetView {
        AdaptationSetView {
            content_type: self.content_type@,
            mime_type: self.mime_type@,
            segment_alignment: self.segment_alignment,
            subsegment_starts_with_sap: self.subsegment_starts_with_sap,
            representations: representation_views(self.representations@),
        }
    }
}

/// The adaptation sets as plain values, in the same order.
pub open spec fn adaptation_views(adaptations: Seq<AdaptationSet>) -> Seq<AdaptationSetView> {
    adaptations.map_values(|a: AdaptationSet| a@)
}

/// A manifest of one period.
#[derive(Clone, Debug)]
pub struct Manifest {
    pub mpdtype: String,
    pub xmlns: String,
    pub schema_location: String,
    pub profiles: String,
    /// The adaptation sets of the one period.
    pub adaptations: Vec<AdaptationSet>,
    /// The length of the presentation in milliseconds.
    pub media_presentation_duration: u64,
    /// The least time to buffer, in seconds.
    pub min_buffer_time: u64,
}

/// A manifest as plain values.
pub struct ManifestView {
    pub mpdtype: Seq<char>,
    pub xmlns: Seq<char>,
    pub schema_location: Seq<char>,
    pub profiles: Seq<char>,
    pub adaptations: Seq<AdaptationSetView>,
    pub media_presentation_duration: u64,
    pub min_buffer_time: u64,
}

impl View for Manifest {
    type V = ManifestView;

    open spec fn view(&self) -> ManifestView {
        ManifestView {
            mpdtype: self.mpdtype@,
            xmlns: self.xmlns@,
            schema_location: self.schema_location@,
            profiles: self.profiles@,
            adaptations: adaptation_views(self.adaptations@),
            media_presentation_duration: self.media_presentation_duration,
            min_buffer_time: self.min_buffer_time,
        }
    }
}

/// The location of the initialization segment of pad `pad_name`.
pub open spec fn init_location_of(settings: SettingsView, pad_name: Seq<char>) -> Seq<char> {
    prefixed(pad_name, settings.init_location)
}

/// How a manifest refers to the initialization segment of pad `pad_name`:
/// by its location, behind the root where one is set.
pub open spec fn init_reference_of(settings: SettingsView, pad_name: Seq<char>) -> Seq<char> {
    match settings.playlist_root_init {
        Some(root) => root + init_location_of(settings, pad_name),
        None => init_location_of(settings, pad_name),
    }
}

/// How a manifest refers to the media segments: by the template of their
/// locations, with the manifest's placeholder for the number.
pub open spec fn media_reference_of(settings: SettingsView) -> Seq<char> {
    with_number_placeholder(settings.segment_location)
}

/// The segment template of pad `pad_name`.
pub open spec fn segment_template_of(settings: SettingsView, pad_name: Seq<char>) -> SegmentTemplateView {
    SegmentTemplateView {
        timescale: TIMESCALE,
        duration: (settings.target_duration * TIMESCALE) as u64,
        start_number: 0,
        initialization: init_reference_of(settings, pad_name),
        media: media_reference_of(settings),
    }
}

/// A frame rate as a manifest writes it: the two counts with a slash between
/// them.
pub open spec fn frame_rate_text(rate: Fraction) -> Seq<char> {
    signed_decimal(rate.numer as int) + seq!['/'] + signed_decimal(rate.denom as int)
}

/// A dimension of a picture as a manifest holds it.
pub open spec fn dimension(pixels: Option<i32>, default: i32) -> u64 {
    match pixels {
        Some(p) => p as u64,
        None => default as u64,
    }
}

/// The representation of a stream of `kind` with `format`.
pub open spec fn representation_for(
    settings: SettingsView,
    pad_name: Seq<char>,
    bandwidth: u64,
    format: MediaFormatView,
    kind: MediaKind,
) -> RepresentationView {
    RepresentationView {
        id: pad_name,
        codecs: codec_of(kind),
        width: if kind == MediaKind::Video {
            Some(dimension(format.width, DEFAULT_WIDTH))
        } else {
            None
        },
        height: if kind == MediaKind::Video {
            Some(dimension(format.height, DEFAULT_HEIGHT))
        } else {
            None
        },
        frame_rate: if kind == MediaKind::Video {
            Some(
                frame_rate_text(
                    match format.framerate {
                        Some(rate) => rate,
                        None => default_framerate(),
                    },
                ),
            )
        } else {
            None
        },
        bandwidth,
        segment_template: segment_template_of(settings, pad_name),
    }
}

/// The representation of `entry` among those of `kind`: one where the
/// stream's format is of that kind, none where it is of another kind or the
/// stream has no format.
pub open spec fn representation_of(
    settings: SettingsView,
    formats: Seq<PadFormatView>,
    entry: EntryView,
    kind: MediaKind,
) -> Option<RepresentationView> {
    match format_of(formats, entry.pad_name) {
        Some(format) => if kind_of_format(format) == kind {
            Some(
                representation_for(settings, entry.pad_name, entry.stream.bandwidth, format, kind),
            )
        } else {
            None
        },
        None => None,
    }
}

/// The kind of media of a format.
pub open spec fn kind_of_format(format: MediaFormatView) -> MediaKind {
    kind_of(Some(format))
}

/// The representations of the streams of `kind`, in the order of the streams.
pub open spec fn representations_of(
    settings: SettingsView,
    entries: Seq<EntryView>,
    formats: Seq<PadFormatView>,
    kind: MediaKind,
) -> Seq<RepresentationView> {
    entries.filter_map(representation_picker(settings, formats, kind))
}

/// The function that gives each stream its representation among those of
/// `kind`.
pub open spec fn representation_picker(
    settings: SettingsView,
    formats: Seq<PadFormatView>,
    kind: MediaKind,
) -> spec_fn(EntryView) -> Option<RepresentationView> {
    |e: EntryView| representation_of(settings, formats, e, kind)
}

/// The content type of an adaptation set of `kind`.
pub open spec fn content_type_of(kind: MediaKind) -> Seq<char> {
    if kind == MediaKind::Video {
        VIDEO_CONTENT_TYPE@
    } else {
        AUDIO_CONTENT_TYPE@
    }
}

/// The MIME type of an adaptation set of `kind`.
pub open spec fn mime_type_of(kind: MediaKind) -> Seq<char> {
    if kind == MediaKind::Video {
        VIDEO_MIME_TYPE@
    } else {
        AUDIO_MIME_TYPE@
    }
}

/// The adaptation set that holds `representations`, all of `kind`.
pub open spec fn adaptation_set_of(kind: MediaKind, representations: Seq<RepresentationView>) -> AdaptationSetView {
    AdaptationSetView {
        content_type: content_type_of(kind),
        mime_type: mime_type_of(kind),
        segment_alignment: true,
        subsegment_starts_with_sap: 1,
        representations,
    }
}

/// The adaptation set of `kind`, if any stream is of that kind.
pub open spec fn adaptations_of_kind(
    settings: SettingsView,
    entries: Seq<EntryView>,
    formats: Seq<PadFormatView>,
    kind: MediaKind,
) -> Seq<AdaptationSetView> {
    let representations = representations_of(settings, entries, formats, kind);
    if representations.len() > 0 {
        seq![adaptation_set_of(kind, representations)]
    } else {
        Seq::empty()
    }
}

/// The adaptation sets of a manifest: that of the video streams, then that
/// of the audio streams, each only if there is such a stream.
pub open spec fn adaptations_of(
    settings: SettingsView,
    entries: Seq<EntryView>,
    formats: Seq<PadFormatView>,
) -> Seq<AdaptationSetView> {
    adaptations_of_kind(settings, entries, formats, MediaKind::Video) + adaptations_of_kind(
        settings,
        entries,
        formats,
        MediaKind::Audio,
    )
}

/// The manifest of the streams in `entries` with the formats in `formats`,
/// for a presentation of `duration` milliseconds.
pub open spec fn manifest_of(
    settings: SettingsView,
    entries: Seq<EntryView>,
    formats: Seq<PadFormatView>,
    duration: u64,
) -> ManifestView {
    ManifestView {
        mpdtype: MPD_TYPE@,
        xmlns: MPD_XMLNS@,
        schema_location: MPD_SCHEMA_LOCATION@,
        profiles: MPD_PROFILES@,
        adaptations: adaptations_of(settings, entries, formats),
        media_presentation_duration: duration,
        min_buffer_time: settings.target_duration as u64,
    }
}

/// The text of a manifest file whose document element is written as `xml`:
/// the XML declaration on a line of its own, then the element, then the end
/// of the line.
pub open spec fn document_of(xml: Seq<char>) -> Seq<char> {
    XML_DECLARATION@ + seq!['\n'] + xml + seq!['\n']
}

/// Puts the XML declaration in front of a serialized manifest and a line end
/// behind it.
pub fn manifest_document(xml: &str) -> (document: String)
    ensures
        document@ == document_of(xml@),
{
    let mut document: String = XML_DECLARATION.to_owned();
    proof {
        reveal_strlit("\n");
    }
    document.append("\n");
    document.append(xml);
    document.append("\n");
    assert("\n"@ =~= seq!['\n']);
    document
}

/// Writes a frame rate as a manifest holds it.
pub fn frame_rate_string(rate: Fraction) -> (text: String)
    ensures
        text@ == frame_rate_text(rate),
{
    let mut text = signed_decimal_string(rate.numer as i64);
    proof {
        reveal_strlit("/");
    }
    text.append("/");
    let denom = signed_decimal_string(rate.denom as i64);
    text.append(denom.as_str());
    assert("/"@ =~= seq!['/']);
    text
}

/// Makes the location of the initialization segment of pad `pad_name`.
pub fn init_location(settings: &DashCmafSinkSettings, pad_name: &str) -> (location: String)
    ensures
        location@ == init_location_of(settings@, pad_name@),
{
    prefix_with(pad_name, settings.init_location())
}

/// Makes the segment template of pad `pad_name`.
pub fn segment_template(settings: &DashCmafSinkSettings, pad_name: &str) -> (template:
    SegmentTemplate)
    ensures
        template@ == segment_template_of(settings@, pad_name@),
{
    let location = init_location(settings, pad_name);
    let initialization = match settings.playlist_root_init() {
        Some(root) => {
            let mut reference = root.to_owned();
            reference.append(location.as_str());
            reference
        },
        None => location,
    };
    SegmentTemplate {
        timescale: TIMESCALE,
        duration: (settings.target_duration() as u64) * TIMESCALE,
        start_number: 0,
        initialization,
        media: number_template(settings.segment_location()),
    }
}

/// Makes the representation of the stream `pad_name` of `kind`, which is
/// video or audio.
pub fn representation(
    settings: &DashCmafSinkSettings,
    pad_name: &str,
    bandwidth: u64,
    format: &MediaFormat,
    kind: MediaKind,
) -> (representation: Representation)
    ensures
        representation@ == representation_for(settings@, pad_name@, bandwidth, format@, kind),
{
    let is_video = match kind {
        MediaKind::Video => true,
        _ => false,
    };
    let width = if is_video {
        Some(
            match format.width {
                Some(w) => w as u64,
                None => DEFAULT_WIDTH as u64,
            },
        )
    } else {
        None
    };
    let height = if is_video {
        Some(
            match format.height {
                Some(h) => h as u64,
                None => DEFAULT_HEIGHT as u64,
            },
        )
    } else {
        None
    };
    let frame_rate = if is_video {
        Some(
            frame_rate_string(
                match format.framerate {
                    Some(rate) => rate,
                    None => Fraction { numer: 30, denom: 1 },
                },
            ),
        )
    } else {
        None
    };
    Representation {
        id: pad_name.to_owned(),
        codecs: kind.codec().to_owned(),
        width,
        height,
        frame_rate,
        bandwidth,
        segment_template: segment_template(settings, pad_name),
    }
}

/// Makes the adaptation set that holds `representations`, all of `kind`,
/// which is video or audio.
pub fn adaptation_set(kind: MediaKind, representations: Vec<Representation>) -> (set: AdaptationSet)
    ensures
        set@ == adaptation_set_of(kind, representation_views(representations@)),
{
    let is_video = match kind {
        MediaKind::Video => true,
        _ => false,
    };
    AdaptationSet {
        content_type: if is_video {
            VIDEO_CONTENT_TYPE.to_owned()
        } else {
            AUDIO_CONTENT_TYPE.to_owned()
        },
        mime_type: if is_video {
            VIDEO_MIME_TYPE.to_owned()
        } else {
            AUDIO_MIME_TYPE.to_owned()
        },
        segment_alignment: true,
        subsegment_starts_with_sap: 1,
        representations,
    }
}

/// Makes the manifest of the streams in `registry` with the formats in
/// `formats`, for a presentation of `duration` milliseconds.
pub fn build_manifest(
    settings: &DashCmafSinkSettings,
    registry: &StreamRegistry,
    formats: &Vec<PadFormat>,
    duration: u64,
) -> (manifest: Manifest)
    ensures
        manifest@ == manifest_of(settings@, registry@, format_views(formats@), duration),
{
    let ghost entries = registry@;
    let ghost views = format_views(formats@);
    let ghost pick_video = representation_picker(settings@, views, MediaKind::Video);
    let ghost pick_audio = representation_picker(settings@, views, MediaKind::Audio);
    let mut video: Vec<Representation> = Vec::new();
    let mut audio: Vec<Representation> = Vec::new();
    let n = registry.len();
    let mut i: usize = 0;
    assert(entries.take(0).filter_map(pick_video) =~= Seq::<RepresentationView>::empty());
    assert(entries.take(0).filter_map(pick_audio) =~= Seq::<RepresentationView>::empty());
    assert(representation_views(video@) =~= Seq::<RepresentationView>::empty());
    assert(representation_views(audio@) =~= Seq::<RepresentationView>::empty());
    while i < n
        invariant
            n == entries.len(),
            i <= n,
            entries == registry@,
            views == format_views(formats@),
            pick_video == representation_picker(settings@, views, MediaKind::Video),
            pick_audio == representation_picker(settings@, views, MediaKind::Audio),
            representation_views(video@) == entries.take(i as int).filter_map(pick_video),
            representation_views(audio@) == entries.take(i as int).filter_map(pick_audio),
        decreases n - i,
    {
        let pad_name = registry.pad_name_at(i);
        let stream = registry.stream_at(i);
        let ghost video_before = representation_views(video@);
        let ghost audio_before = representation_views(audio@);
        proof {
            entries.lemma_filter_map_take_succ(pick_video, i as int);
            entries.lemma_filter_map_take_succ(pick_audio, i as int);
        }
        match find_format(formats, pad_name) {
            Some(format) => {
                let kind = media_kind(Some(format));
                match kind {
                    MediaKind::Video => {
                        let made = representation(
                            settings,
                            pad_name,
                            stream.bandwidth(),
                            format,
                            kind,
                        );
                        video.push(made);
                        assert(representation_views(video@) =~= video_before + seq![made@]);
                        assert(audio_before + Seq::<RepresentationView>::empty()
                            =~= audio_before);
                    },
                    MediaKind::Audio => {
                        let made = representation(
                            settings,
                            pad_name,
                            stream.bandwidth(),
                            format,
                            kind,
                        );
                        audio.push(made);
                        assert(representation_views(audio@) =~= audio_before + seq![made@]);
                        assert(video_before + Seq::<RepresentationView>::empty()
                            =~= video_before);
                    },
                    MediaKind::Unknown => {
                        assert(video_before + Seq::<RepresentationView>::empty()
                            =~= video_before);
                        assert(audio_before + Seq::<RepresentationView>::empty()
                            =~= audio_before);
                    },
                }
            },
            None => {
                assert(video_before + Seq::<RepresentationView>::empty() =~= video_before);
                assert(audio_before + Seq::<RepresentationView>::empty() =~= audio_before);
            },
        }
        i = i + 1;
    }
    assert(entries.take(n as int) =~= entries);
    let mut adaptations: Vec<AdaptationSet> = Vec::new();
    if video.len() > 0 {
        adaptations.push(adaptation_set(MediaKind::Video, video));
    }
    if audio.len() > 0 {
        adaptations.push(adaptation_set(MediaKind::Audio, audio));
    }
    assert(adaptation_views(adaptations@) =~= adaptations_of(settings@, entries, views));
    Manifest {
        mpdtype: MPD_TYPE.to_owned(),
        xmlns: MPD_XMLNS.to_owned(),
        schema_location: MPD_SCHEMA_LOCATION.to_owned(),
        profiles: MPD_PROFILES.to_owned(),
        adaptations,
        media_presentation_duration: duration,
        min_buffer_time: settings.target_duration() as u64,
    }
}

} // verus!
