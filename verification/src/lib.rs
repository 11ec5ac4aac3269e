//! A minimal-overhead binary encoder: values of fixed, statically known shape
//! are written straight into a caller-sized buffer, with a proved static
//! upper bound on the number of bytes any value can occupy.
pub mod pod;
pub mod poke;
pub mod shape;
pub mod sink;
pub mod wire;

pub use pod::{F32Bits, F64Bits, UnsafePod};
pub use poke::{poke_to_vec, UnsafePoke};
pub use shape::{
    decl_fits, derive_encode, derive_encode_to_vec, derive_max_size, encode_shape, encode_to_vec,
    shape_max_size, value_fits, Shape, TypeDecl, Value, VariantShape,
};
pub use sink::{Poker, UnsafePokable};
