use vstd::prelude::*;

verus! {

/// Why a segment location template cannot name a segment.
#[derive(Clone, Copy, Debug, PartialEq, Eq, Structural)]
pub enum ConfigError {
    /// A field of the template has a width or a precision of more than nine
    /// digits, which the formatter cannot hold.
    FieldTooWide,
    /// The formatter rejects the template: there is no placeholder in it that
    /// takes the one segment number, or there is more than one, or it is not
    /// well formed.
    BadPlaceholder,
}

/// Why a sample is not accepted.
#[derive(Clone, Copy, Debug, PartialEq, Eq, Structural)]
pub enum FlowError {
    /// The sample carries no buffer at all.
    Error,
    /// The numbers of the sample's segment are beyond the machine's: its
    /// size, or the stream's segment count or window with it.
    OutOfRange,
    /// The segment location template is malformed.
    Config(ConfigError),
}

} // verus!
