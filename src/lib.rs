//! A verified binding layer around a native speech-to-intent engine.
//!
//! The native engine is reached through a C interface that only the host
//! program can call. This crate holds every decision taken around those
//! calls: which library and model to use, whether a configuration is
//! acceptable, in which order symbols are resolved and native calls are made,
//! how native status codes become errors, and how an inference is copied out
//! of native buffers.

pub mod config;
pub mod construction;
pub mod engine;
pub mod error;
pub mod float_bits;
pub mod inference;
pub mod platform;
pub mod slots;
pub mod status;
pub mod text;

pub use config::RhinoBuilder;
pub use construction::{Construction, InitReply, InitStep};
pub use engine::{EngineInfo, NativeSymbol};
pub use error::{RhinoError, RhinoErrorStatus};
pub use inference::{Extraction, ExtractionReply, ExtractionStep, RhinoInference};
pub use platform::{pv_library_path, pv_model_path, pv_platform, Host};
pub use slots::SlotMap;
pub use status::PvStatus;
