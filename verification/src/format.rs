use crate::text::same_text;
use vstd::prelude::*;

verus! {

pub const VIDEO_MEDIA_TYPE: &'static str = "video/x-h264";

pub const AUDIO_MEDIA_TYPE: &'static str = "audio/mpeg";

pub const VIDEO_CODEC: &'static str = "avc1.64001e";

pub const AUDIO_CODEC: &'static str = "mp4a.40.2";

pub const UNKNOWN_CODEC: &'static str = "unknown";

pub const DEFAULT_WIDTH: i32 = 1280;

pub const DEFAULT_HEIGHT: i32 = 720;

/// A frame rate as a count of frames and the count of seconds they take.
#[derive(Clone, Copy, Debug, PartialEq, Eq, Structural)]
pub struct Fraction {
    pub numer: i32,
    pub denom: i32,
}

/// The frame rate of a video format that names none: 30 frames a second.
pub open spec fn default_framerate() -> Fraction {
    Fraction { numer: 30, denom: 1 }
}

/// The format that a pad has negotiated.
#[derive(Clone, Debug)]
pub struct MediaFormat {
    /// The name of the format, such as `video/x-h264`.
    pub media_type: String,
    pub width: Option<i32>,
    pub height: Option<i32>,
    pub framerate: Option<Fraction>,
}

/// A format as plain values.
pub struct MediaFormatView {
    pub media_type: Seq<char>,
    pub width: Option<i32>,
    pub height: Option<i32>,
    pub framerate: Option<Fraction>,
}

impl View for MediaFormat {
    type V = MediaFormatView;

    open spec fn view(&self) -> MediaFormatView {
        MediaFormatView {
            media_type: self.media_type@,
            width: self.width,
            height: self.height,
            framerate: self.framerate,
        }
    }
}

/// The format of one pad, by the pad's name.
#[derive(Clone, Debug)]
pub struct PadFormat {
    pub pad_name: String,
    pub format: MediaFormat,
}

/// A pad's format as plain values.
pub struct PadFormatView {
    pub pad_name: Seq<char>,
    pub format: MediaFormatView,
}

impl View for PadFormat {
    type V = PadFormatView;

    open spec fn view(&self) -> PadFormatView {
        PadFormatView { pad_name: self.pad_name@, format: self.format@ }
    }
}

/// The formats as plain values, in the same order.
pub open spec fn format_views(formats: Seq<PadFormat>) -> Seq<PadFormatView> {
    formats.map_values(|f: PadFormat| f@)
}

/// What a stream carries.
#[derive(Clone, Copy, Debug, PartialEq, Eq, Structural)]
pub enum MediaKind {
    Video,
    Audio,
    Unknown,
}

/// The kind of media that goes by the format name `media_type`.
pub open spec fn kind_of_media_type(media_type: Seq<char>) -> MediaKind {
    if media_type == VIDEO_MEDIA_TYPE@ {
        MediaKind::Video
    } else if media_type == AUDIO_MEDIA_TYPE@ {
        MediaKind::Audio
    } else {
        MediaKind::Unknown
    }
}

/// The kind of media of a pad with `format`; a pad without a format has an
/// unknown kind.
pub open spec fn kind_of(format: Option<MediaFormatView>) -> MediaKind {
    match format {
        Some(f) => kind_of_media_type(f.media_type),
        None => MediaKind::Unknown,
    }
}

/// The codec that a manifest names for media of `kind`.
pub open spec fn codec_of(kind: MediaKind) -> Seq<char> {
    match kind {
        MediaKind::Video => VIDEO_CODEC@,
        MediaKind::Audio => AUDIO_CODEC@,
        MediaKind::Unknown => UNKNOWN_CODEC@,
    }
}

/// The first format in `formats` that is given for `pad_name`, if there is
/// one.
pub open spec fn format_of(formats: Seq<PadFormatView>, pad_name: Seq<char>) -> Option<
    MediaFormatView,
>
    decreases formats.len(),
{
    if formats.len() == 0 {
        None
    } else if formats[0].pad_name == pad_name {
        Some(formats[0].format)
    } else {
        format_of(formats.skip(1), pad_name)
    }
}

impl MediaKind {
    /// Tells the kind of media by the name of its format.
    pub fn of_media_type(media_type: &str) -> (kind: MediaKind)
        ensures
            kind == kind_of_media_type(media_type@),
    {
        if same_text(media_type, VIDEO_MEDIA_TYPE) {
            MediaKind::Video
        } else if same_text(media_type, AUDIO_MEDIA_TYPE) {
            MediaKind::Audio
        } else {
            MediaKind::Unknown
        }
    }

    /// The codec that a manifest names for media of this kind.
    pub fn codec(self) -> (codec: &'static str)
        ensures
            codec@ == codec_of(self),
    {
        match self {
            MediaKind::Video => VIDEO_CODEC,
            MediaKind::Audio => AUDIO_CODEC,
            MediaKind::Unknown => UNKNOWN_CODEC,
        }
    }
}

/// Tells the kind of media of a pad by its format, if it has one.
pub fn media_kind(format: Option<&MediaFormat>) -> (kind: MediaKind)
    ensures
        kind == kind_of(
            match format {
                Some(f) => Some(f@),
                None => None,
            },
        ),
{
    match format {
        Some(f) => MediaKind::of_media_type(f.media_type.as_str()),
        None => MediaKind::Unknown,
    }
}

/// Finds the first format in `formats` that is given for `pad_name`.
pub fn find_format<'a>(formats: &'a Vec<PadFormat>, pad_name: &str) -> (format: Option<
    &'a MediaFormat,
>)
    ensures
        format is Some <==> format_of(format_views(formats@), pad_name@) is Some,
        format matches Some(f) ==> format_of(format_views(formats@), pad_name@) == Some(f@),
{
    let ghost views = format_views(formats@);
    let mut i: usize = 0;
    assert(views.skip(0) =~= views);
    while i < formats.len()
        invariant
            i <= formats.len(),
            views == format_views(formats@),
            format_of(views.skip(i as int), pad_name@) == format_of(views, pad_name@),
        decreases formats.len() - i,
    {
        let ghost rest = views.skip(i as int);
        assert(rest[0] == formats@[i as int]@);
        if same_text(formats[i].pad_name.as_str(), pad_name) {
            return Some(&formats[i].format);
        }
        assert(rest.skip(1) =~= views.skip(i + 1));
        i = i + 1;
    }
    None
}

} // verus!
