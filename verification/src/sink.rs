use crate::error::{ConfigError, FlowError};
use crate::format::{format_views, PadFormat};
use crate::fragment::{
    leads_with_init, media_size, media_start, payload_size, starts_with_init, BufferInfo,
};
use crate::manifest::{build_manifest, init_location, init_location_of, manifest_of, Manifest};
use crate::property::{
    property_named, property_value, takes, with_property, Property, PropertyValue,
};
use crate::registry::{
    distinct_names, has_pad, lemma_registered, position_of, registered, removed, stream_of,
    EntryView, StreamRegistry,
};
use crate::settings::{default_settings, DashCmafSinkSettings, SettingsView};
use crate::stream::{
    bandwidth_of, can_record, lemma_segment_count, new_stream, phase_of, recorded,
    window_mseconds, DashCmafSinkStream, StreamView,
};
use crate::template::{format_segment_location, segment_location, text_of};
use crate::text::{decimal, decimal_string, lemma_decimal_injective};
use vstd::prelude::*;

verus! {

/// A sink that turns the samples of its pads into the segments and the
/// manifest of a DASH presentation.
pub struct DashCmafSink {
    settings: DashCmafSinkSettings,
    streams: StreamRegistry,
}

/// A sink as plain values.
pub struct SinkView {
    pub settings: SettingsView,
    /// The streams in the order in which they were registered.
    pub streams: Seq<EntryView>,
}

/// What is to be written for the media segment of a sample.
#[derive(Debug)]
pub struct SegmentWrite {
    /// The file that takes the segment.
    pub location: String,
    /// The place in the sample of the first buffer of the segment; the
    /// segment runs to the end of the sample.
    pub first_buffer: usize,
    /// The size of the segment in bytes.
    pub total_size: usize,
}

/// A segment that is to be written, as plain values.
pub struct SegmentWriteView {
    pub location: Seq<char>,
    pub first_buffer: usize,
    pub total_size: usize,
}

impl View for SegmentWrite {
    type V = SegmentWriteView;

    open spec fn view(&self) -> SegmentWriteView {
        SegmentWriteView {
            location: self.location@,
            first_buffer: self.first_buffer,
            total_size: self.total_size,
        }
    }
}

/// What is to be written for a sample.
#[derive(Debug)]
pub struct SampleAction {
    /// The file that takes the first buffer of the sample as the
    /// initialization segment, if that buffer is one.
    pub init_location: Option<String>,
    /// The media segment, if the sample holds one.
    pub segment: Option<SegmentWrite>,
}

/// What is to be written for a sample, as plain values.
pub struct SampleActionView {
    pub init_location: Option<Seq<char>>,
    pub segment: Option<SegmentWriteView>,
}

impl View for SampleAction {
    type V = SampleActionView;

    open spec fn view(&self) -> SampleActionView {
        SampleActionView {
            init_location: match self.init_location {
                Some(l) => Some(l@),
                None => None,
            },
            segment: match self.segment {
                Some(s) => Some(s@),
                None => None,
            },
        }
    }
}

/// What a `Result` holds, with the plain values of an action in place of the
/// action.
pub open spec fn action_view(r: Result<SampleAction, FlowError>) -> Result<
    SampleActionView,
    FlowError,
> {
    match r {
        Ok(a) => Ok(a@),
        Err(e) => Err(e),
    }
}

/// The name with `number` that the sink gives a pad.
pub open spec fn generated_name(number: nat) -> Seq<char> {
    "sink_"@ + decimal(number)
}

/// Whether `number` is the least whose generated name no stream goes by.
pub open spec fn is_first_free(streams: Seq<EntryView>, number: nat) -> bool {
    &&& !has_pad(streams, generated_name(number))
    &&& forall|lower: nat| lower < number ==> has_pad(streams, #[trigger] generated_name(lower))
}

/// The least number whose generated name no stream goes by.
pub open spec fn first_free_number(streams: Seq<EntryView>) -> nat {
    choose|number: nat| is_first_free(streams, number)
}

/// The name that a new pad gets: the one asked for, or the generated name
/// with the least number that no stream goes by.
pub open spec fn pad_name_for(streams: Seq<EntryView>, name: Option<Seq<char>>) -> Seq<char> {
    match name {
        Some(name) => name,
        None => generated_name(first_free_number(streams)),
    }
}

/// Generated names with different numbers differ.
pub proof fn lemma_generated_name_injective(a: nat, b: nat)
    requires
        generated_name(a) == generated_name(b),
    ensures
        a == b,
{
    let prefix = "sink_"@;
    assert(generated_name(a).skip(prefix.len() as int) =~= decimal(a));
    assert(generated_name(b).skip(prefix.len() as int) =~= decimal(b));
    lemma_decimal_injective(a, b);
}

/// Where the generated names with the numbers below `count` are all taken,
/// there are `count` streams at least.
pub proof fn lemma_taken_names(streams: Seq<EntryView>, count: nat)
    requires
        forall|lower: nat| lower < count ==> has_pad(streams, #[trigger] generated_name(lower)),
    ensures
        count <= streams.len(),
    decreases count,
{
    if count > 0 {
        let top = (count - 1) as nat;
        assert(has_pad(streams, generated_name(top)));
        let place = position_of(streams, generated_name(top));
        let rest = streams.remove(place);
        assert forall|lower: nat| lower < top implies has_pad(
            rest,
            #[trigger] generated_name(lower),
        ) by {
            assert(has_pad(streams, generated_name(lower)));
            let found = position_of(streams, generated_name(lower));
            if found == place {
                lemma_generated_name_injective(lower, top);
            }
            let moved = if found < place {
                found
            } else {
                found - 1
            };
            assert(rest[moved] == streams[found]);
        }
        lemma_taken_names(rest, top);
    }
}

/// There is one least number whose generated name no stream goes by, and it
/// is at most the count of the streams.
pub proof fn lemma_first_free(streams: Seq<EntryView>, number: nat)
    requires
        is_first_free(streams, number),
    ensures
        first_free_number(streams) == number,
        number <= streams.len(),
{
    let chosen = first_free_number(streams);
    assert(is_first_free(streams, chosen));
    if chosen < number {
        assert(has_pad(streams, generated_name(chosen)));
    } else if number < chosen {
        assert(has_pad(streams, generated_name(number)));
    }
    lemma_taken_names(streams, number);
}

/// What is to be written for the sample `batch` of the stream `pad_name`.
///
/// A sample without buffers is an error. The first buffer is the
/// initialization payload where the stream has had no media segment and the
/// buffer carries both marks; the rest of the sample, if there is any, is one
/// media segment with the stream's next number. Where the template gives that
/// number no location, or the segment cannot be recorded within the
/// machine's numbers, nothing is to be written at all.
pub open spec fn action_of(
    settings: SettingsView,
    pad_name: Seq<char>,
    stream: StreamView,
    batch: Seq<BufferInfo>,
) -> Result<SampleActionView, FlowError> {
    let phase = phase_of(stream);
    let init_location = if leads_with_init(phase, batch) {
        Some(init_location_of(settings, pad_name))
    } else {
        None
    };
    let size = media_size(phase, batch);
    if batch.len() == 0 {
        Err(FlowError::Error)
    } else if media_start(phase, batch) == batch.len() {
        Ok(SampleActionView { init_location, segment: None })
    } else {
        match segment_location(settings.segment_location, stream.segment_idx) {
            Ok(location) => if size <= usize::MAX && can_record(
                stream,
                settings.target_duration,
                size as usize,
            ) {
                Ok(
                    SampleActionView {
                        init_location,
                        segment: Some(
                            SegmentWriteView {
                                location,
                                first_buffer: media_start(phase, batch) as usize,
                                total_size: size as usize,
                            },
                        ),
                    },
                )
            } else {
                Err(FlowError::OutOfRange)
            },
            Err(e) => Err(FlowError::Config(e)),
        }
    }
}

/// Whether the sample `batch` of the stream `pad_name` has a media segment
/// that is taken.
pub open spec fn sample_accepted(sink: SinkView, pad_name: Seq<char>, batch: Seq<BufferInfo>) -> bool {
    &&& has_pad(sink.streams, pad_name)
    &&& action_of(sink.settings, pad_name, stream_of(sink.streams, pad_name)->0, batch) matches Ok(
        action,
    )
    &&& action.segment is Some
}

/// The sink after a media segment of `total_size` bytes was recorded for the
/// stream `pad_name`: that stream has one segment more, and nothing else
/// has changed.
pub open spec fn with_segment(sink: SinkView, pad_name: Seq<char>, total_size: usize) -> SinkView {
    SinkView {
        streams: sink.streams.update(
            position_of(sink.streams, pad_name),
            EntryView {
                pad_name,
                stream: recorded(
                    stream_of(sink.streams, pad_name)->0,
                    sink.settings.target_duration,
                    total_size,
                ),
            },
        ),
        ..sink
    }
}

/// The sink after the media segment of the sample `batch` was recorded for
/// the stream `pad_name`.
pub open spec fn with_sample(sink: SinkView, pad_name: Seq<char>, batch: Seq<BufferInfo>) -> SinkView {
    with_segment(
        sink,
        pad_name,
        media_size(phase_of(stream_of(sink.streams, pad_name)->0), batch) as usize,
    )
}

/// A sample that holds the initialization payload and nothing else, for a
/// stream that has had no media segment, has the payload written and no
/// media segment.
pub proof fn lemma_init_only_sample(
    settings: SettingsView,
    pad_name: Seq<char>,
    stream: StreamView,
    payload: BufferInfo,
)
    requires
        stream.segment_idx == 0,
        payload.discont && payload.header,
    ensures
        action_of(settings, pad_name, stream, seq![payload]) == Ok::<SampleActionView, FlowError>(
            SampleActionView {
                init_location: Some(init_location_of(settings, pad_name)),
                segment: None,
            },
        ),
{
}

/// Every sample whose media segment is taken raises the segment count of its
/// stream by exactly one, however many buffers it holds. The segment is what
/// the sample holds behind the initialization payload; it takes the count of
/// before as its number; the bandwidth after it is its size in bits divided
/// by the target duration, rounded down, whatever the bandwidth was before;
/// and the stream's window is the new count times the target duration.
pub proof fn lemma_accepted_sample(
    settings: SettingsView,
    pad_name: Seq<char>,
    stream: StreamView,
    batch: Seq<BufferInfo>,
)
    requires
        action_of(settings, pad_name, stream, batch) matches Ok(action) && action.segment is Some,
    ensures
        ({
            let segment = action_of(settings, pad_name, stream, batch)->Ok_0.segment->0;
            let size = media_size(phase_of(stream), batch);
            let after = recorded(stream, settings.target_duration, segment.total_size);
            &&& segment.total_size == size
            &&& segment.first_buffer == media_start(phase_of(stream), batch)
            &&& segment.first_buffer < batch.len()
            &&& segment_location(settings.segment_location, stream.segment_idx) == Ok::<
                Seq<char>,
                ConfigError,
            >(segment.location)
            &&& after.segment_idx == stream.segment_idx + 1
            &&& after.bandwidth == bandwidth_of(size, settings.target_duration as nat)
            &&& after.bandwidth == size * 8 / (settings.target_duration as nat)
            &&& window_mseconds(after) == (stream.segment_idx + 1) * settings.target_duration
                * 1000
        }),
{
    let size = media_size(phase_of(stream), batch);
    lemma_segment_count(settings, stream, settings.target_duration, size as usize);
}

impl View for DashCmafSink {
    type V = SinkView;

    closed spec fn view(&self) -> SinkView {
        SinkView { settings: self.settings@, streams: self.streams@ }
    }
}

impl DashCmafSink {
    /// The settings and the registry of the sink are each well formed.
    pub closed spec fn wf(self) -> bool {
        self.settings.wf() && self.streams.wf()
    }

    /// What `wf` says, over the plain values.
    pub proof fn lemma_wf(self)
        requires
            self.wf(),
        ensures
            self@.settings.target_duration > 0,
            distinct_names(self@.streams),
    {
        self.settings.lemma_wf();
        self.streams.lemma_wf();
    }

    /// A sink with the default settings and no stream.
    pub fn new() -> (sink: Self)
        ensures
            sink@ == (SinkView { settings: default_settings(), streams: Seq::empty() }),
            sink.wf(),
    {
        DashCmafSink { settings: DashCmafSinkSettings::default(), streams: StreamRegistry::new() }
    }

    pub fn settings(&self) -> (settings: &DashCmafSinkSettings)
        ensures
            settings@ == self@.settings,
            settings.wf(),
    {
        proof {
            use_type_invariant(&self.settings);
        }
        &self.settings
    }

    pub fn streams(&self) -> (streams: &StreamRegistry)
        ensures
            streams@ == self@.streams,
            streams.wf(),
    {
        proof {
            use_type_invariant(&self.streams);
        }
        &self.streams
    }

    /// The properties of the sink.
    pub fn properties() -> (properties: Vec<Property>)
        ensures
            properties@ == seq![
                Property::Location,
                Property::InitLocation,
                Property::SegmentLocation,
                Property::TargetDuration,
                Property::Sync,
                Property::Latency,
                Property::PlaylistRootInit,
            ],
    {
        let mut properties: Vec<Property> = Vec::new();
        properties.push(Property::Location);
        properties.push(Property::InitLocation);
        properties.push(Property::SegmentLocation);
        properties.push(Property::TargetDuration);
        properties.push(Property::Sync);
        properties.push(Property::Latency);
        properties.push(Property::PlaylistRootInit);
        assert(properties@ =~= seq![
            Property::Location,
            Property::InitLocation,
            Property::SegmentLocation,
            Property::TargetDuration,
            Property::Sync,
            Property::Latency,
            Property::PlaylistRootInit,
        ]);
        properties
    }

    /// Whether the property `name` exists and can be set to `value`.
    pub fn accepts_property(name: &str, value: &PropertyValue) -> (ok: bool)
        ensures
            ok == (property_named(name@) matches Some(p) && takes(p, value@)),
    {
        match Property::from_name(name) {
            Some(property) => property.takes(value),
            None => false,
        }
    }

    /// Sets the property `name` to `value`.
    pub fn set_property(&mut self, name: &str, value: PropertyValue)
        requires
            property_named(name@) matches Some(p) && takes(p, value@),
        ensures
            final(self)@ == (SinkView {
                settings: with_property(old(self)@.settings, property_named(name@)->0, value@),
                ..old(self)@
            }),
            final(self).wf(),
    {
        match Property::from_name(name) {
            Some(property) => self.settings.set(property, value),
            None => {},
        }
        proof {
            use_type_invariant(&self.settings);
            use_type_invariant(&self.streams);
        }
    }

    /// The value of the property `name`.
    pub fn property(&self, name: &str) -> (value: PropertyValue)
        requires
            property_named(name@) is Some,
        ensures
            value@ == property_value(self@.settings, property_named(name@)->0),
    {
        match Property::from_name(name) {
            Some(property) => self.settings.get(property),
            None => PropertyValue::Bool(false),
        }
    }

    /// Whether a stream goes by `pad_name`.
    pub fn has_pad(&self, pad_name: &str) -> (found: bool)
        ensures
            found == has_pad(self@.streams, pad_name@),
    {
        self.streams.position(pad_name).is_some()
    }

    /// Generates the name with the least number that no stream goes by.
    pub fn free_pad_name(&self) -> (pad_name: String)
        ensures
            pad_name@ == pad_name_for(self@.streams, None),
            !has_pad(self@.streams, pad_name@),
    {
        let count = self.streams.len();
        let mut number: usize = 0;
        loop
            invariant
                count == self@.streams.len(),
                number <= count,
                forall|lower: nat|
                    lower < number ==> has_pad(self@.streams, #[trigger] generated_name(lower)),
            decreases count - number,
        {
            let mut candidate: String = "sink_".to_owned();
            let digits = decimal_string(number as u64);
            candidate.append(digits.as_str());
            if !self.has_pad(candidate.as_str()) {
                proof {
                    lemma_first_free(self@.streams, number as nat);
                }
                return candidate;
            }
            proof {
                assert forall|lower: nat| lower < number + 1 implies has_pad(
                    self@.streams,
                    #[trigger] generated_name(lower),
                ) by {}
                lemma_taken_names(self@.streams, (number + 1) as nat);
            }
            number = number + 1;
        }
    }

    /// Registers a stream for a new pad, with a muxer as the settings ask for
    /// it, and returns the pad's name: `name`, which no stream goes by, or a
    /// generated one. Every stream that there was stays as it is.
    pub fn request_new_pad(&mut self, name: Option<&str>) -> (pad_name: String)
        requires
            name matches Some(n) ==> !has_pad(old(self)@.streams, n@),
        ensures
            pad_name@ == pad_name_for(
                old(self)@.streams,
                match name {
                    Some(n) => Some(n@),
                    None => None,
                },
            ),
            !has_pad(old(self)@.streams, pad_name@),
            final(self)@ == (SinkView {
                streams: registered(
                    old(self)@.streams,
                    pad_name@,
                    new_stream(old(self)@.settings),
                ),
                ..old(self)@
            }),
            stream_of(final(self)@.streams, pad_name@) == Some(new_stream(old(self)@.settings)),
            forall|other: Seq<char>|
                other != pad_name@ ==> #[trigger] stream_of(final(self)@.streams, other)
                    == stream_of(old(self)@.streams, other),
            final(self).wf(),
    {
        let pad_name: String = match name {
            Some(name) => name.to_owned(),
            None => self.free_pad_name(),
        };
        proof {
            use_type_invariant(&self.streams);
            self.streams.lemma_wf();
            lemma_registered(self@.streams, pad_name@, new_stream(self@.settings));
        }
        let stream = DashCmafSinkStream::new(&self.settings);
        self.streams.insert(pad_name.clone(), stream);
        proof {
            use_type_invariant(&self.settings);
            use_type_invariant(&self.streams);
        }
        pad_name
    }

    /// Drops the stream of the pad `pad_name`, if there is one.
    pub fn release_pad(&mut self, pad_name: &str)
        ensures
            final(self)@ == (SinkView {
                streams: removed(old(self)@.streams, pad_name@),
                ..old(self)@
            }),
            final(self).wf(),
    {
        self.streams.remove(pad_name);
        proof {
            use_type_invariant(&self.settings);
            use_type_invariant(&self.streams);
        }
    }

    /// The file that takes the initialization segment of the pad `pad_name`.
    pub fn on_init_segment(&self, pad_name: &str) -> (location: String)
        ensures
            location@ == init_location_of(self@.settings, pad_name@),
    {
        init_location(&self.settings, pad_name)
    }

    /// The file that takes the next media segment of the stream `pad_name`.
    pub fn on_new_segment(&self, pad_name: &str) -> (location: Result<String, ConfigError>)
        requires
            has_pad(self@.streams, pad_name@),
        ensures
            text_of(location) == segment_location(
                self@.settings.segment_location,
                stream_of(self@.streams, pad_name@)->0.segment_idx,
            ),
    {
        match self.streams.get(pad_name) {
            Some(stream) => format_segment_location(
                self.settings.segment_location(),
                stream.segment_idx(),
            ),
            None => Err(ConfigError::BadPlaceholder),
        }
    }

    /// Decides what is to be written for the sample `batch` of the stream
    /// `pad_name`. The sink stays as it is: what was written is recorded by
    /// `sample_written`.
    pub fn on_new_sample(&self, pad_name: &str, batch: &Vec<BufferInfo>) -> (action: Result<
        SampleAction,
        FlowError,
    >)
        requires
            has_pad(self@.streams, pad_name@),
        ensures
            action_view(action) == action_of(
                self@.settings,
                pad_name@,
                stream_of(self@.streams, pad_name@)->0,
                batch@,
            ),
    {
        if batch.len() == 0 {
            return Err(FlowError::Error);
        }
        let stream = match self.streams.get(pad_name) {
            Some(stream) => stream,
            None => {
                return Err(FlowError::Error);
            },
        };
        let init = starts_with_init(stream.phase(), batch);
        let first_buffer: usize = if init {
            1
        } else {
            0
        };
        let init_location = if init {
            Some(self.on_init_segment(pad_name))
        } else {
            None
        };
        if first_buffer == batch.len() {
            return Ok(SampleAction { init_location, segment: None });
        }
        let location = match format_segment_location(
            self.settings.segment_location(),
            stream.segment_idx(),
        ) {
            Ok(location) => location,
            Err(e) => {
                return Err(FlowError::Config(e));
            },
        };
        match payload_size(batch, first_buffer) {
            Some(total_size) => {
                if stream.can_record(self.settings.target_duration(), total_size) {
                    Ok(
                        SampleAction {
                            init_location,
                            segment: Some(SegmentWrite { location, first_buffer, total_size }),
                        },
                    )
                } else {
                    Err(FlowError::OutOfRange)
                }
            },
            None => Err(FlowError::OutOfRange),
        }
    }

    /// Whether one more segment of `total_size` bytes can be recorded for the
    /// stream `pad_name`: there is such a stream, and the numbers stay within
    /// the machine's.
    pub fn can_record_segment(&self, pad_name: &str, total_size: usize) -> (ok: bool)
        ensures
            ok == (has_pad(self@.streams, pad_name@) && can_record(
                stream_of(self@.streams, pad_name@)->0,
                self@.settings.target_duration,
                total_size,
            )),
    {
        match self.streams.position(pad_name) {
            Some(place) => self.streams.can_record_at(
                place,
                self.settings.target_duration(),
                total_size,
            ),
            None => false,
        }
    }

    /// Records that a media segment of `total_size` bytes was written for the
    /// stream `pad_name`: its segment count goes up by one, its window and
    /// its bandwidth are those of this segment. Every other stream and the
    /// settings stay as they are.
    pub fn segment_written(&mut self, pad_name: &str, total_size: usize)
        requires
            has_pad(old(self)@.streams, pad_name@),
            can_record(
                stream_of(old(self)@.streams, pad_name@)->0,
                old(self)@.settings.target_duration,
                total_size,
            ),
        ensures
            final(self)@ == with_segment(old(self)@, pad_name@, total_size),
            final(self).wf(),
    {
        match self.streams.position(pad_name) {
            Some(place) => {
                self.streams.record_segment_at(
                    place,
                    self.settings.target_duration(),
                    total_size,
                );
            },
            None => {},
        }
        proof {
            use_type_invariant(&self.settings);
            use_type_invariant(&self.streams);
        }
    }

    /// Records that the media segment of the sample `batch` was written for
    /// the stream `pad_name`, and says whether there was such a segment to
    /// record: for a sample that `on_new_sample` gives no segment, and for a
    /// pad without a stream, the sink stays as it is.
    pub fn sample_written(&mut self, pad_name: &str, batch: &Vec<BufferInfo>) -> (accepted: bool)
        ensures
            accepted == sample_accepted(old(self)@, pad_name@, batch@),
            final(self)@ == if accepted {
                with_sample(old(self)@, pad_name@, batch@)
            } else {
                old(self)@
            },
            final(self).wf(),
    {
        proof {
            use_type_invariant(&self.settings);
            use_type_invariant(&self.streams);
        }
        if !self.has_pad(pad_name) {
            return false;
        }
        match self.on_new_sample(pad_name, batch) {
            Ok(action) => match action.segment {
                Some(segment) => {
                    self.segment_written(pad_name, segment.total_size);
                    true
                },
                None => false,
            },
            Err(_) => false,
        }
    }

    /// Makes the manifest of the sink's streams after the stream `pad_name`
    /// had a segment: the presentation lasts as long as that stream's window.
    pub fn add_segment(&self, pad_name: &str, formats: &Vec<PadFormat>) -> (manifest: Manifest)
        requires
            has_pad(self@.streams, pad_name@),
        ensures
            manifest@ == manifest_of(
                self@.settings,
                self@.streams,
                format_views(formats@),
                window_mseconds(stream_of(self@.streams, pad_name@)->0) as u64,
            ),
    {
        let duration = match self.streams.get(pad_name) {
            Some(stream) => stream.window_mseconds(),
            None => 0,
        };
        build_manifest(&self.settings, &self.streams, formats, duration)
    }
}

impl Default for DashCmafSink {
    fn default() -> (sink: Self)
        ensures
            sink@ == (SinkView { settings: default_settings(), streams: Seq::empty() }),
            sink.wf(),
    {
        DashCmafSink::new()
    }
}

} // verus!
