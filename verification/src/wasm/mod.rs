//! Values, integer arithmetic and the module representation.

pub mod endian;
pub mod integer;
pub mod module;
pub mod ops;
pub mod parse;
pub mod value;
