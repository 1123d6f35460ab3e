//! A bidirectional adapter between a generic object model (scalars, strings,
//! bytes, options, sequences, maps, structs and enum variants) and the
//! nine-variant tagged-union wire value used for local inter-process message
//! passing.
//!
//! The encode direction walks a typed [`value::Value`] depth-first and emits
//! a [`wire::Message`] tree; the decode direction walks a wire tree under the
//! guidance of a requested [`value::Shape`] and rebuilds a typed value.  Both
//! directions are specified by pure recursive functions over the spec views
//! of these types ([`ser::spec_encode`], [`de::decode_spec`]), the executable
//! [`serialize`] and [`deserialize`] are proved to return exactly what those
//! functions say, and the round-trip theorem in [`laws`] ties the two
//! directions together.

pub mod de;
pub mod error;
pub mod laws;
pub mod num;
pub mod ser;
pub mod value;
pub mod wire;

pub use de::deserialize;
pub use ser::serialize;
