use crate::clock::{ClockTime, CLOCK_TIME_NONE};
use crate::settings::{
    optional_text, DashCmafSinkSettings, SettingsView, DEFAULT_INIT_LOCATION,
    DEFAULT_LATENCY_NSECONDS, DEFAULT_LOCATION, DEFAULT_SEGMENT_LOCATION, DEFAULT_SYNC,
    DEFAULT_TARGET_DURATION,
};
use crate::text::same_text;
use vstd::prelude::*;

verus! {

/// The properties of the sink.
#[derive(Clone, Copy, Debug, PartialEq, Eq, Structural)]
pub enum Property {
    /// `location`: the path that the manifest is written to.
    Location,
    /// `init-location`: the path of initialization segments.
    InitLocation,
    /// `segment-location`: the template of media segment paths.
    SegmentLocation,
    /// `target-duration`: the target duration of a segment in seconds.
    TargetDuration,
    /// `sync`: whether samples wait for the pipeline clock.
    Sync,
    /// `latency`: the latency in nanoseconds.
    Latency,
    /// `playlist-root-init`: what the manifest puts in front of a reference
    /// to an initialization segment.
    PlaylistRootInit,
}

/// A value that a property takes or gives.
#[derive(Debug)]
pub enum PropertyValue {
    Str(Option<String>),
    UInt(u32),
    Bool(bool),
    UInt64(u64),
}

/// A property value as plain values.
pub enum PropertyValueView {
    Str(Option<Seq<char>>),
    UInt(u32),
    Bool(bool),
    UInt64(u64),
}

impl View for PropertyValue {
    type V = PropertyValueView;

    open spec fn view(&self) -> PropertyValueView {
        match *self {
            PropertyValue::Str(s) => PropertyValueView::Str(optional_text(s)),
            PropertyValue::UInt(n) => PropertyValueView::UInt(n),
            PropertyValue::Bool(b) => PropertyValueView::Bool(b),
            PropertyValue::UInt64(n) => PropertyValueView::UInt64(n),
        }
    }
}

/// The property that goes by `name`, if there is one.
pub open spec fn property_named(name: Seq<char>) -> Option<Property> {
    if name == "location"@ {
        Some(Property::Location)
    } else if name == "init-location"@ {
        Some(Property::InitLocation)
    } else if name == "segment-location"@ {
        Some(Property::SegmentLocation)
    } else if name == "target-duration"@ {
        Some(Property::TargetDuration)
    } else if name == "sync"@ {
        Some(Property::Sync)
    } else if name == "latency"@ {
        Some(Property::Latency)
    } else if name == "playlist-root-init"@ {
        Some(Property::PlaylistRootInit)
    } else {
        None
    }
}

/// Whether `property` can be set to `value`: the value is of the property's
/// type, a target duration is positive, and a latency is a time.
pub open spec fn takes(property: Property, value: PropertyValueView) -> bool {
    match (property, value) {
        (Property::Location, PropertyValueView::Str(_)) => true,
        (Property::InitLocation, PropertyValueView::Str(_)) => true,
        (Property::SegmentLocation, PropertyValueView::Str(_)) => true,
        (Property::PlaylistRootInit, PropertyValueView::Str(_)) => true,
        (Property::TargetDuration, PropertyValueView::UInt(seconds)) => seconds > 0,
        (Property::Sync, PropertyValueView::Bool(_)) => true,
        (Property::Latency, PropertyValueView::UInt64(nseconds)) => nseconds != CLOCK_TIME_NONE,
        _ => false,
    }
}

/// The text that a string property is set to by `value`: the value's own, or
/// `default` where it has none.
pub open spec fn text_or(value: Option<Seq<char>>, default: Seq<char>) -> Seq<char> {
    match value {
        Some(text) => text,
        None => default,
    }
}

/// The settings after `property` was set to `value`.
pub open spec fn with_property(
    settings: SettingsView,
    property: Property,
    value: PropertyValueView,
) -> SettingsView
    recommends
        takes(property, value),
{
    match (property, value) {
        (Property::Location, PropertyValueView::Str(s)) => SettingsView {
            location: text_or(s, DEFAULT_LOCATION@),
            ..settings
        },
        (Property::InitLocation, PropertyValueView::Str(s)) => SettingsView {
            init_location: text_or(s, DEFAULT_INIT_LOCATION@),
            ..settings
        },
        (Property::SegmentLocation, PropertyValueView::Str(s)) => SettingsView {
            segment_location: text_or(s, DEFAULT_SEGMENT_LOCATION@),
            ..settings
        },
        (Property::PlaylistRootInit, PropertyValueView::Str(s)) => SettingsView {
            playlist_root_init: s,
            ..settings
        },
        (Property::TargetDuration, PropertyValueView::UInt(seconds)) => SettingsView {
            target_duration: seconds,
            ..settings
        },
        (Property::Sync, PropertyValueView::Bool(sync)) => SettingsView { sync, ..settings },
        (Property::Latency, PropertyValueView::UInt64(nseconds)) => SettingsView {
            latency: nseconds as nat,
            ..settings
        },
        _ => settings,
    }
}

/// The value that `property` has in `settings`.
pub open spec fn property_value(settings: SettingsView, property: Property) -> PropertyValueView {
    match property {
        Property::Location => PropertyValueView::Str(Some(settings.location)),
        Property::InitLocation => PropertyValueView::Str(Some(settings.init_location)),
        Property::SegmentLocation => PropertyValueView::Str(Some(settings.segment_location)),
        Property::PlaylistRootInit => PropertyValueView::Str(settings.playlist_root_init),
        Property::TargetDuration => PropertyValueView::UInt(settings.target_duration),
        Property::Sync => PropertyValueView::Bool(settings.sync),
        Property::Latency => PropertyValueView::UInt64(settings.latency as u64),
    }
}

impl Property {
    /// Finds the property that goes by `name`.
    pub fn from_name(name: &str) -> (property: Option<Property>)
        ensures
            property == property_named(name@),
    {
        if same_text(name, "location") {
            Some(Property::Location)
        } else if same_text(name, "init-location") {
            Some(Property::InitLocation)
        } else if same_text(name, "segment-location") {
            Some(Property::SegmentLocation)
        } else if same_text(name, "target-duration") {
            Some(Property::TargetDuration)
        } else if same_text(name, "sync") {
            Some(Property::Sync)
        } else if same_text(name, "latency") {
            Some(Property::Latency)
        } else if same_text(name, "playlist-root-init") {
            Some(Property::PlaylistRootInit)
        } else {
            None
        }
    }

    /// The name that the property goes by.
    pub fn name(self) -> (name: &'static str)
        ensures
            property_named(name@) == Some(self),
    {
        proof {
            reveal_strlit("location");
            reveal_strlit("init-location");
            reveal_strlit("segment-location");
            reveal_strlit("target-duration");
            reveal_strlit("sync");
            reveal_strlit("latency");
            reveal_strlit("playlist-root-init");
            // No two names have the same length.
            assert("location"@.len() == 8);
            assert("init-location"@.len() == 13);
            assert("segment-location"@.len() == 16);
            assert("target-duration"@.len() == 15);
            assert("sync"@.len() == 4);
            assert("latency"@.len() == 7);
            assert("playlist-root-init"@.len() == 18);
        }
        match self {
            Property::Location => "location",
            Property::InitLocation => "init-location",
            Property::SegmentLocation => "segment-location",
            Property::TargetDuration => "target-duration",
            Property::Sync => "sync",
            Property::Latency => "latency",
            Property::PlaylistRootInit => "playlist-root-init",
        }
    }

    /// Whether the property can be set to `value`.
    pub fn takes(self, value: &PropertyValue) -> (ok: bool)
        ensures
            ok == takes(self, value@),
    {
        match (self, value) {
            (Property::Location, PropertyValue::Str(_)) => true,
            (Property::InitLocation, PropertyValue::Str(_)) => true,
            (Property::SegmentLocation, PropertyValue::Str(_)) => true,
            (Property::PlaylistRootInit, PropertyValue::Str(_)) => true,
            (Property::TargetDuration, PropertyValue::UInt(seconds)) => *seconds > 0,
            (Property::Sync, PropertyValue::Bool(_)) => true,
            (Property::Latency, PropertyValue::UInt64(nseconds)) => *nseconds != CLOCK_TIME_NONE,
            _ => false,
        }
    }

    /// The value that the property has before it is set.
    pub fn default_value(self) -> (value: PropertyValue)
        ensures
            value@ == property_value(crate::settings::default_settings(), self),
    {
        match self {
            Property::Location => PropertyValue::Str(Some(DEFAULT_LOCATION.to_owned())),
            Property::InitLocation => PropertyValue::Str(Some(DEFAULT_INIT_LOCATION.to_owned())),
            Property::SegmentLocation => PropertyValue::Str(
                Some(DEFAULT_SEGMENT_LOCATION.to_owned()),
            ),
            Property::PlaylistRootInit => PropertyValue::Str(None),
            Property::TargetDuration => PropertyValue::UInt(DEFAULT_TARGET_DURATION),
            Property::Sync => PropertyValue::Bool(DEFAULT_SYNC),
            Property::Latency => PropertyValue::UInt64(DEFAULT_LATENCY_NSECONDS),
        }
    }

    /// Whether the property may only change while the sink is idle.
    pub fn mutable_only_when_idle(self) -> (idle_only: bool)
        ensures
            idle_only == (self == Property::TargetDuration),
    {
        match self {
            Property::TargetDuration => true,
            _ => false,
        }
    }
}

impl DashCmafSinkSettings {
    /// Sets `property` to `value`.
    pub fn set(&mut self, property: Property, value: PropertyValue)
        requires
            takes(property, value@),
        ensures
            final(self)@ == with_property(old(self)@, property, value@),
            final(self).wf(),
    {
        match (property, value) {
            (Property::Location, PropertyValue::Str(s)) => self.set_location(s),
            (Property::InitLocation, PropertyValue::Str(s)) => self.set_init_location(s),
            (Property::SegmentLocation, PropertyValue::Str(s)) => self.set_segment_location(s),
            (Property::PlaylistRootInit, PropertyValue::Str(s)) => self.set_playlist_root_init(s),
            (Property::TargetDuration, PropertyValue::UInt(seconds)) => self.set_target_duration(
                seconds,
            ),
            (Property::Sync, PropertyValue::Bool(sync)) => self.set_sync(sync),
            (Property::Latency, PropertyValue::UInt64(nseconds)) => self.set_latency(
                ClockTime::from_nseconds(nseconds),
            ),
            _ => {
                proof {
                    use_type_invariant(&*self);
                }
            },
        }
    }

    /// The value of `property`.
    pub fn get(&self, property: Property) -> (value: PropertyValue)
        ensures
            value@ == property_value(self@, property),
    {
        match property {
            Property::Location => PropertyValue::Str(Some(self.location().to_owned())),
            Property::InitLocation => PropertyValue::Str(Some(self.init_location().to_owned())),
            Property::SegmentLocation => PropertyValue::Str(
                Some(self.segment_location().to_owned()),
            ),
            Property::PlaylistRootInit => PropertyValue::Str(
                match self.playlist_root_init() {
                    Some(root) => Some(root.to_owned()),
                    None => None,
                },
            ),
            Property::TargetDuration => PropertyValue::UInt(self.target_duration()),
            Property::Sync => PropertyValue::Bool(self.sync()),
            Property::Latency => PropertyValue::UInt64(self.latency().nseconds()),
        }
    }
}

} // verus!
