//! The dynamically-typed value model and the constant pool built from it.
pub mod value;
pub mod valuearray;

pub use self::value::Value;
pub use self::valuearray::ValueArray;
