//! Verified core of a point-cloud conversion tool.
//!
//! The library holds the decision and data logic of the converter: file-format
//! resolution, frame-range parsing and window resolution, the raw-binary
//! record codec, the conversion support matrix, field-schema lookup, the
//! spherical-projection case policy, and batch bookkeeping. File access,
//! sensor-capture decoding and the floating-point arithmetic around these
//! decisions live in the unverified front end.

pub mod batch;
pub mod dispatch;
pub mod error;
pub mod format;
pub mod frame_window;
pub mod opts;
pub mod raw_bin;
pub mod schema;
pub mod spherical;
pub mod text;
pub mod types;

pub use types::FileFormat;
