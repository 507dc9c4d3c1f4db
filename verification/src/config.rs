//! Turning configuration text into typed values.

pub mod depth;
pub mod error;
pub mod extend;

pub use error::{diagnostic, ConfigError, ConfigErrorView, Target};
pub use depth::MAX_GLOB_DEPTH;
pub use extend::{AbsolutePath, Force, PathExtension};
