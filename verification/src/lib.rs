//! A small algebra for composing scalar noise functions.
//!
//! Every node of a composed tree implements the [`NoiseFn`] capability:
//! given an N-dimensional point it produces one scalar sample. On top of
//! that sit a memoizing decorator ([`Cache`]), which remembers the single
//! most recent (point, value) pair of its wrapped source, and a combinator
//! family ([`Min`] as the exemplar), which merges the outputs of two
//! sources with a fixed binary rule. Two optional capability traits,
//! [`Seedable`] and [`MultiFractal`], let a decorator forward reseeding and
//! fractal-parameter changes to whatever it wraps.
//!
//! Points are vectors of signed 64-bit coordinates and samples are signed
//! 64-bit scalars; a concrete generator (a gradient, value, or cellular
//! kernel) decides how to map one to the other, for instance as fixed-point
//! amplitudes. The dimension of a tree is fixed when it is composed:
//! every node states the point length it accepts, and combining two
//! sources demands that their dimensions agree.

mod multifractal;
pub mod noise_fns;
mod seedable;

pub use multifractal::MultiFractal;
pub use noise_fns::cache::Cache;
pub use noise_fns::combiners::min::Min;
pub use noise_fns::generators::Constant;
pub use noise_fns::generators::Ramp;
pub use noise_fns::get_step;
pub use noise_fns::runs;
pub use noise_fns::tally::Tally;
pub use noise_fns::NoiseFn;
pub use seedable::Seedable;
