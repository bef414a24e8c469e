//! Sampling of structured values whose domains are given at call time.
//!
//! A [`Shape`] describes the structure of a value; a [`ConfigNode`] tree that
//! mirrors the shape says from which domain each part is drawn. [`sample`]
//! walks both and returns one [`Value`], or the [`SampleError`] of the first
//! part that cannot be drawn.
//!
//! What `sample` may return is stated in [`rules`], and what follows from
//! that for every sampled value is proved in [`laws`]. The random draws are
//! made by the `rand` crate, behind the contracts of [`draw`]. The library
//! holds no floating-point code: a double is carried as its IEEE-754 bit
//! pattern, ordered as [`number`] says, and the draw of a double between two
//! bounds is asked of the caller.

pub mod config;
pub mod draw;
pub mod error;
pub mod keys;
pub mod laws;
pub mod number;
pub mod pool;
pub mod rules;
pub mod sampler;
pub mod scalar;
pub mod shape;
pub mod typename;
pub mod value;

pub use config::{ConfigNode, Entry, Number};
pub use error::{SampleError, SampleErrorKind};
pub use sampler::{sample, sample_field};
pub use shape::{Field, IntWidth, PrimitiveKind, Shape, Variant, VariantShape};
pub use value::{FieldValue, Payload, Value};
