//! Safe orchestration around an ASTC block-compression engine: the error
//! model, block-grid geometry, pixel formats and swizzles, validated
//! configuration, and the lifecycle of a compression context.
//!
//! The engine itself is called by the caller: each step here says what to
//! hand it, and takes the status code it answered with.
pub mod config;
pub mod context;
pub mod error;
pub mod format;
pub mod geometry;

pub use config::{Config, ConfigBuilder, ConfigRequest, Flags, Preset, Profile};
pub use context::{CompressRequest, Context, DecompressRequest, Phase};
pub use error::{error_code_to_result, Error};
pub use format::{DataType, Image, Selector, Swizzle, SwizzleCodes, Type};
pub use geometry::Extents;
