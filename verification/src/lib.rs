//! Glyph quads for a GPU text pipeline: encoding laid-out glyphs as instance
//! records, describing the pipeline's resources, and deciding what each upload
//! and each draw asks of the device.
//!
//! The crate holds no GPU handle and does no floating-point arithmetic.
//! Numbers are bit patterns ([`scalar::Scalar`]); the device work comes back
//! to the caller as plain values ([`pipeline::Upload`], [`pipeline::Draw`]).

pub mod geometry;
pub mod instance;
pub mod pipeline;
pub mod resources;
pub mod scalar;
pub mod wire;

pub use geometry::Region;
pub use instance::Instance;
pub use pipeline::Pipeline;
