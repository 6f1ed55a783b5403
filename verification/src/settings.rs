use crate::clock::{ClockTime, CLOCK_TIME_NONE};
use vstd::prelude::*;

verus! {

pub const DEFAULT_TARGET_DURATION: u32 = 10;

/// Half of the default target duration, in nanoseconds.
pub const DEFAULT_LATENCY_NSECONDS: u64 = 5_000_000_000;

pub const DEFAULT_SYNC: bool = true;

pub const DEFAULT_LOCATION: &'static str = "manifest.mpd";

pub const DEFAULT_INIT_LOCATION: &'static str = "init.cmfi";

pub const DEFAULT_SEGMENT_LOCATION: &'static str = "segment_%d.cmfv";

/// What the sink is configured with.
pub struct DashCmafSinkSettings {
    location: String,
    init_location: String,
    segment_location: String,
    target_duration: u32,
    sync: bool,
    latency: ClockTime,
    playlist_root_init: Option<String>,
}

/// The settings as plain values.
pub struct SettingsView {
    /// Where the manifest is written.
    pub location: Seq<char>,
    /// The file name of an initialization segment, before the pad's name is
    /// put in front.
    pub init_location: Seq<char>,
    /// The printf-style template of a media segment's file name.
    pub segment_location: Seq<char>,
    /// The length that a segment is meant to have, in seconds.
    pub target_duration: u32,
    pub sync: bool,
    /// The latency in nanoseconds.
    pub latency: nat,
    /// What the manifest puts in front of a reference to an initialization
    /// segment, if anything.
    pub playlist_root_init: Option<Seq<char>>,
}

/// The text of an optional string.
pub open spec fn optional_text(s: Option<String>) -> Option<Seq<char>> {
    match s {
        Some(s) => Some(s@),
        None => None,
    }
}

/// The settings that a new sink starts with.
pub open spec fn default_settings() -> SettingsView {
    SettingsView {
        location: DEFAULT_LOCATION@,
        init_location: DEFAULT_INIT_LOCATION@,
        segment_location: DEFAULT_SEGMENT_LOCATION@,
        target_duration: DEFAULT_TARGET_DURATION,
        sync: DEFAULT_SYNC,
        latency: DEFAULT_LATENCY_NSECONDS as nat,
        playlist_root_init: None,
    }
}

impl View for DashCmafSinkSettings {
    type V = SettingsView;

    closed spec fn view(&self) -> SettingsView {
        SettingsView {
            location: self.location@,
            init_location: self.init_location@,
            segment_location: self.segment_location@,
            target_duration: self.target_duration,
            sync: self.sync,
            latency: self.latency.nanos(),
            playlist_root_init: optional_text(self.playlist_root_init),
        }
    }
}

impl DashCmafSinkSettings {
    /// A target duration is a positive number of seconds, and a latency is a
    /// time.
    #[verifier::type_invariant]
    pub closed spec fn wf(self) -> bool {
        self.target_duration > 0 && self.latency.wf()
    }

    /// What `wf` says, over the plain values.
    pub proof fn lemma_wf(self)
        requires
            self.wf(),
        ensures
            self@.target_duration > 0,
            self@.latency != CLOCK_TIME_NONE,
    {
        self.latency.lemma_wf();
    }

    pub fn location(&self) -> (s: &str)
        ensures
            s@ == self@.location,
    {
        self.location.as_str()
    }

    pub fn init_location(&self) -> (s: &str)
        ensures
            s@ == self@.init_location,
    {
        self.init_location.as_str()
    }

    pub fn segment_location(&self) -> (s: &str)
        ensures
            s@ == self@.segment_location,
    {
        self.segment_location.as_str()
    }

    pub fn target_duration(&self) -> (seconds: u32)
        ensures
            seconds == self@.target_duration,
            seconds > 0,
    {
        proof {
            use_type_invariant(self);
        }
        self.target_duration
    }

    pub fn sync(&self) -> (sync: bool)
        ensures
            sync == self@.sync,
    {
        self.sync
    }

    pub fn latency(&self) -> (latency: ClockTime)
        ensures
            latency.nanos() == self@.latency,
            latency.wf(),
    {
        proof {
            use_type_invariant(self);
        }
        self.latency
    }

    pub fn playlist_root_init(&self) -> (root: Option<&str>)
        ensures
            root is Some <==> self@.playlist_root_init is Some,
            root matches Some(r) ==> self@.playlist_root_init == Some(r@),
    {
        match &self.playlist_root_init {
            Some(root) => Some(root.as_str()),
            None => None,
        }
    }

    /// Sets where the manifest is written; `None` sets the default.
    pub fn set_location(&mut self, location: Option<String>)
        ensures
            final(self)@ == (SettingsView {
                location: match location {
                    Some(l) => l@,
                    None => DEFAULT_LOCATION@,
                },
                ..old(self)@
            }),
            final(self).wf(),
    {
        proof {
            use_type_invariant(&*self);
        }
        self.location = match location {
            Some(l) => l,
            None => DEFAULT_LOCATION.to_owned(),
        };
    }

    /// Sets the file name of initialization segments; `None` sets the
    /// default.
    pub fn set_init_location(&mut self, init_location: Option<String>)
        ensures
            final(self)@ == (SettingsView {
                init_location: match init_location {
                    Some(l) => l@,
                    None => DEFAULT_INIT_LOCATION@,
                },
                ..old(self)@
            }),
            final(self).wf(),
    {
        proof {
            use_type_invariant(&*self);
        }
        self.init_location = match init_location {
            Some(l) => l,
            None => DEFAULT_INIT_LOCATION.to_owned(),
        };
    }

    /// Sets the template of media segment file names; `None` sets the
    /// default.
    pub fn set_segment_location(&mut self, segment_location: Option<String>)
        ensures
            final(self)@ == (SettingsView {
                segment_location: match segment_location {
                    Some(l) => l@,
                    None => DEFAULT_SEGMENT_LOCATION@,
                },
                ..old(self)@
            }),
            final(self).wf(),
    {
        proof {
            use_type_invariant(&*self);
        }
        self.segment_location = match segment_location {
            Some(l) => l,
            None => DEFAULT_SEGMENT_LOCATION.to_owned(),
        };
    }

    /// Sets the target duration of a segment, a positive number of seconds.
    pub fn set_target_duration(&mut self, seconds: u32)
        requires
            seconds > 0,
        ensures
            final(self)@ == (SettingsView { target_duration: seconds, ..old(self)@ }),
            final(self).wf(),
    {
        proof {
            use_type_invariant(&*self);
        }
        self.target_duration = seconds;
    }

    pub fn set_sync(&mut self, sync: bool)
        ensures
            final(self)@ == (SettingsView { sync, ..old(self)@ }),
            final(self).wf(),
    {
        proof {
            use_type_invariant(&*self);
        }
        self.sync = sync;
    }

    pub fn set_latency(&mut self, latency: ClockTime)
        ensures
            final(self)@ == (SettingsView { latency: latency.nanos(), ..old(self)@ }),
            final(self).wf(),
    {
        proof {
            use_type_invariant(&*self);
            use_type_invariant(latency);
        }
        self.latency = latency;
    }

    /// Sets what the manifest puts in front of a reference to an
    /// initialization segment; `None` puts nothing there.
    pub fn set_playlist_root_init(&mut self, root: Option<String>)
        ensures
            final(self)@ == (SettingsView {
                playlist_root_init: optional_text(root),
                ..old(self)@
            }),
            final(self).wf(),
    {
        proof {
            use_type_invariant(&*self);
        }
        self.playlist_root_init = root;
    }
}

impl Default for DashCmafSinkSettings {
    fn default() -> (settings: Self)
        ensures
            settings@ == default_settings(),
            settings.wf(),
    {
        DashCmafSinkSettings {
            location: DEFAULT_LOCATION.to_owned(),
            init_location: DEFAULT_INIT_LOCATION.to_owned(),
            segment_location: DEFAULT_SEGMENT_LOCATION.to_owned(),
            target_duration: DEFAULT_TARGET_DURATION,
            sync: DEFAULT_SYNC,
            latency: ClockTime::from_nseconds(DEFAULT_LATENCY_NSECONDS),
            playlist_root_init: None,
        }
    }
}

} // verus!
