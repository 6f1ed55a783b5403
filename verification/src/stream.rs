use crate::clock::{ClockTime, NANOS_PER_MSECOND, NANOS_PER_SECOND};
use crate::settings::{
    DashCmafSinkSettings, SettingsView, DEFAULT_LATENCY_NSECONDS, DEFAULT_SYNC,
    DEFAULT_TARGET_DURATION,
};
use vstd::prelude::*;

verus! {

/// Where a stream stands: before its first media segment, or after it.
#[derive(Clone, Copy, Debug, PartialEq, Eq, Structural)]
pub enum Phase {
    AwaitingInit,
    Streaming,
}

/// What the sink keeps of one stream.
#[derive(Clone, Copy, Debug)]
pub struct DashCmafSinkStream {
    segment_idx: usize,
    start_time: ClockTime,
    end_time: ClockTime,
    bandwidth: u64,
    fragment_duration: ClockTime,
    latency: ClockTime,
    sync: bool,
}

/// A stream as plain values; times are in nanoseconds.
pub struct StreamView {
    /// How many media segments the stream has had; also the number of the
    /// next one.
    pub segment_idx: usize,
    pub start_time: nat,
    pub end_time: nat,
    /// Bits per second of the last segment.
    pub bandwidth: u64,
    /// The fragment duration that the stream's muxer was made with.
    pub fragment_duration: nat,
    /// The latency that the stream's muxer was made with.
    pub latency: nat,
    /// Whether the stream's sink waits for the clock.
    pub sync: bool,
}

/// Bits per second of `total_size` bytes that play for `target_duration`
/// seconds, rounded down.
pub open spec fn bandwidth_of(total_size: nat, target_duration: nat) -> nat
    recommends
        target_duration > 0,
{
    total_size * 8 / target_duration
}

/// The stream that nothing was written for yet, with a muxer as `settings`
/// asks for it.
pub open spec fn new_stream(settings: SettingsView) -> StreamView {
    StreamView {
        segment_idx: 0,
        start_time: 0,
        end_time: 0,
        bandwidth: 0,
        fragment_duration: settings.target_duration as nat * NANOS_PER_SECOND as nat,
        latency: settings.latency,
        sync: settings.sync,
    }
}

/// Whether the numbers of one more segment stay within the machine's: the
/// segment count, the end time in nanoseconds and the size in bits each fit
/// their integer.
pub open spec fn can_record(stream: StreamView, target_duration: u32, total_size: usize) -> bool {
    &&& target_duration > 0
    &&& stream.segment_idx < usize::MAX
    &&& target_duration * (stream.segment_idx + 1) * NANOS_PER_SECOND <= u64::MAX
    &&& total_size * 8 <= u64::MAX
}

/// The stream after one more segment of `total_size` bytes: the count goes up
/// by one, the window runs from zero to the count times the target duration,
/// and the bandwidth is that of this segment alone.
pub open spec fn recorded(stream: StreamView, target_duration: u32, total_size: usize) -> StreamView
    recommends
        can_record(stream, target_duration, total_size),
{
    StreamView {
        segment_idx: (stream.segment_idx + 1) as usize,
        start_time: 0,
        end_time: (target_duration * (stream.segment_idx + 1) * NANOS_PER_SECOND) as nat,
        bandwidth: bandwidth_of(total_size as nat, target_duration as nat) as u64,
        ..stream
    }
}

/// The stream's window in whole milliseconds.
pub open spec fn window_mseconds(stream: StreamView) -> nat {
    ((stream.end_time - stream.start_time) / NANOS_PER_MSECOND as int) as nat
}

/// The phase that a stream is in.
pub open spec fn phase_of(stream: StreamView) -> Phase {
    if stream.segment_idx == 0 {
        Phase::AwaitingInit
    } else {
        Phase::Streaming
    }
}

/// A stream starts without a segment and awaits its initialization payload;
/// each recorded segment raises the count by exactly one, and from the first
/// on the stream is streaming. The window of a stream with `n` segments of
/// `target_duration` seconds is `n * target_duration` seconds long.
pub proof fn lemma_segment_count(
    settings: SettingsView,
    stream: StreamView,
    target_duration: u32,
    total_size: usize,
)
    requires
        can_record(stream, target_duration, total_size),
    ensures
        new_stream(settings).segment_idx == 0,
        phase_of(new_stream(settings)) == Phase::AwaitingInit,
        recorded(stream, target_duration, total_size).segment_idx == stream.segment_idx + 1,
        phase_of(recorded(stream, target_duration, total_size)) == Phase::Streaming,
        window_mseconds(recorded(stream, target_duration, total_size)) == (stream.segment_idx
            + 1) * target_duration * 1000,
        recorded(stream, target_duration, total_size).bandwidth == total_size * 8 / (
        target_duration as int),
{
    let count = stream.segment_idx + 1;
    let seconds = target_duration * count;
    assert(seconds * NANOS_PER_SECOND == target_duration * (stream.segment_idx + 1)
        * NANOS_PER_SECOND);
    assert(seconds * 1_000_000_000 == (seconds * 1000) * 1_000_000) by (nonlinear_arith);
    assert(((seconds * 1000) * 1_000_000) / 1_000_000 == seconds * 1000) by (nonlinear_arith);
    assert(seconds * 1000 == count * target_duration * 1000) by (nonlinear_arith)
        requires
            seconds == target_duration * count,
    ;
    assert(total_size * 8 / (target_duration as int) <= total_size * 8) by (nonlinear_arith)
        requires
            target_duration >= 1,
            total_size >= 0,
    ;
}

/// Computes the bandwidth of a segment.
pub fn bandwidth_estimate(total_size: usize, target_duration: u32) -> (bandwidth: u64)
    requires
        target_duration > 0,
        total_size * 8 <= u64::MAX,
    ensures
        bandwidth == bandwidth_of(total_size as nat, target_duration as nat),
{
    (total_size as u64) * 8 / (target_duration as u64)
}

impl View for DashCmafSinkStream {
    type V = StreamView;

    closed spec fn view(&self) -> StreamView {
        StreamView {
            segment_idx: self.segment_idx,
            start_time: self.start_time.nanos(),
            end_time: self.end_time.nanos(),
            bandwidth: self.bandwidth,
            fragment_duration: self.fragment_duration.nanos(),
            latency: self.latency.nanos(),
            sync: self.sync,
        }
    }
}

impl DashCmafSinkStream {
    /// A stream's window does not end before it starts.
    #[verifier::type_invariant]
    pub closed spec fn wf(self) -> bool {
        self.start_time.nanos() <= self.end_time.nanos()
    }

    /// What `wf` says, over the plain values.
    pub proof fn lemma_wf(self)
        ensures
            self.wf() <==> self@.start_time <= self@.end_time,
            self@.end_time <= u64::MAX,
    {
        self.end_time.lemma_wf();
    }

    /// A stream that nothing was written for yet, with a muxer as `settings`
    /// asks for it.
    pub fn new(settings: &DashCmafSinkSettings) -> (stream: Self)
        ensures
            stream@ == new_stream(settings@),
            stream.wf(),
    {
        let seconds: u64 = settings.target_duration() as u64;
        DashCmafSinkStream {
            segment_idx: 0,
            start_time: ClockTime::zero(),
            end_time: ClockTime::zero(),
            bandwidth: 0,
            fragment_duration: ClockTime::from_seconds(seconds),
            latency: settings.latency(),
            sync: settings.sync(),
        }
    }

    pub fn segment_idx(&self) -> (idx: usize)
        ensures
            idx == self@.segment_idx,
    {
        self.segment_idx
    }

    pub fn start_time(&self) -> (t: ClockTime)
        ensures
            t.nanos() == self@.start_time,
    {
        self.start_time
    }

    pub fn end_time(&self) -> (t: ClockTime)
        ensures
            t.nanos() == self@.end_time,
    {
        self.end_time
    }

    pub fn bandwidth(&self) -> (bandwidth: u64)
        ensures
            bandwidth == self@.bandwidth,
    {
        self.bandwidth
    }

    pub fn fragment_duration(&self) -> (t: ClockTime)
        ensures
            t.nanos() == self@.fragment_duration,
    {
        self.fragment_duration
    }

    pub fn latency(&self) -> (t: ClockTime)
        ensures
            t.nanos() == self@.latency,
    {
        self.latency
    }

    pub fn sync(&self) -> (sync: bool)
        ensures
            sync == self@.sync,
    {
        self.sync
    }

    pub fn phase(&self) -> (phase: Phase)
        ensures
            phase == phase_of(self@),
    {
        if self.segment_idx == 0 {
            Phase::AwaitingInit
        } else {
            Phase::Streaming
        }
    }

    /// The stream's window in whole milliseconds.
    pub fn window_mseconds(&self) -> (ms: u64)
        ensures
            ms == window_mseconds(self@),
    {
        proof {
            use_type_invariant(self);
        }
        match self.end_time.checked_sub(self.start_time) {
            Some(window) => window.mseconds(),
            None => 0,
        }
    }

    /// Whether one more segment of `total_size` bytes can be recorded.
    pub fn can_record(&self, target_duration: u32, total_size: usize) -> (ok: bool)
        ensures
            ok == can_record(self@, target_duration, total_size),
    {
        if target_duration == 0 || self.segment_idx == usize::MAX {
            return false;
        }
        let count: u128 = self.segment_idx as u128 + 1;
        let seconds: u128 = target_duration as u128;
        assert(seconds * count <= 0xffff_ffff_0000_0000_0000_0000) by (nonlinear_arith)
            requires
                seconds <= 0xffff_ffff,
                count <= 0x1_0000_0000_0000_0000,
        ;
        let total_seconds: u128 = seconds * count;
        assert(total_seconds * 1_000_000_000 <= u128::MAX);
        let nanos: u128 = total_seconds * (NANOS_PER_SECOND as u128);
        assert(target_duration * (self@.segment_idx + 1) * NANOS_PER_SECOND == nanos);
        nanos <= u64::MAX as u128 && (total_size as u128) * 8 <= u64::MAX as u128
    }

    /// Records one more segment of `total_size` bytes.
    pub fn record_segment(&mut self, target_duration: u32, total_size: usize)
        requires
            can_record(old(self)@, target_duration, total_size),
        ensures
            final(self)@ == recorded(old(self)@, target_duration, total_size),
            final(self).wf(),
    {
        let count: u64 = self.segment_idx as u64 + 1;
        assert(target_duration * count <= target_duration * count * NANOS_PER_SECOND)
            by (nonlinear_arith)
            requires
                target_duration * count >= 0,
        ;
        let seconds: u64 = (target_duration as u64) * count;
        assert(seconds * NANOS_PER_SECOND == target_duration * (old(self)@.segment_idx + 1)
            * NANOS_PER_SECOND);
        let end_time = ClockTime::from_seconds(seconds);
        *self = DashCmafSinkStream {
            segment_idx: self.segment_idx + 1,
            start_time: ClockTime::zero(),
            end_time,
            bandwidth: bandwidth_estimate(total_size, target_duration),
            fragment_duration: self.fragment_duration,
            latency: self.latency,
            sync: self.sync,
        };
    }
}

impl Default for DashCmafSinkStream {
    fn default() -> (stream: Self)
        ensures
            stream@ == new_stream(crate::settings::default_settings()),
            stream.wf(),
    {
        DashCmafSinkStream {
            segment_idx: 0,
            start_time: ClockTime::zero(),
            end_time: ClockTime::zero(),
            bandwidth: 0,
            fragment_duration: ClockTime::from_seconds(DEFAULT_TARGET_DURATION as u64),
            latency: ClockTime::from_nseconds(DEFAULT_LATENCY_NSECONDS),
            sync: DEFAULT_SYNC,
        }
    }
}

} // verus!
