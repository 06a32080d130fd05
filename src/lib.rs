//! Real-time orchestration around an opaque facial-animation engine: audio
//! quantization into fixed frames, session catalog construction, frame
//! assembly, morph-slot binding, and a playback resampler.
#![allow(non_camel_case_types)]

pub mod catalog;
pub mod error;
pub mod format;
pub mod quantizer;
pub mod resampler;
pub mod resolver;
pub mod session;
