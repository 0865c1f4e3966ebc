//! Runtime values and type tags of a small dynamically typed language: type
//! comparison with `Any` and unions, casts, value equality with a wildcard, and
//! arithmetic with integer-to-float promotion.
pub mod cast;
pub mod float;
pub mod laws;
pub mod types;
pub mod value;

pub use cast::Cast;
pub use float::Float64;
pub use types::Type;
pub use value::{Arith, ArithOp, NativeRef, NodeRef, V};
