// The sink of a DASH packager: it numbers the CMAF segments of each stream,
// tells initialization payloads from media, keeps each stream's window and
// bandwidth, and describes the streams in a manifest.

pub mod clock;
pub mod error;
pub mod format;
pub mod fragment;
pub mod manifest;
pub mod manifest_proofs;
pub mod property;
pub mod registry;
pub mod settings;
pub mod sink;
pub mod stream;
pub mod template;
pub mod text;
