//! Sans-I/O core of the final stage of a chunked video encode: joining the
//! encoded video segments into one stream and reattaching the other streams
//! of the source.
//!
//! The crate decides and computes; its caller performs the file and process
//! operations that the [`protocol`] asks for.

pub mod decimal;
pub mod normalize;
pub mod options;
pub mod paths;
pub mod error;
pub mod muxer;
pub mod protocol;
pub mod remux;
pub mod concat;

pub use concat::{concatenate_videos_and_copy_streams, Concatenation};
pub use error::{ConcatenationFailure, OutputError};
pub use options::mkvmerge_options_json;
pub use remux::{mkvmerge, Remux};
