//! Wraps a function in code that runs before and after its original body.

pub mod laws;
pub mod params;
pub mod syntax;
pub mod tokens;
pub mod wrapped;

pub use params::{classify_params, ClassifiedParameter, Param, PassMode, Pattern, TypeKind, TypeShape};
pub use wrapped::{ReturnDescriptor, WrapError, WrappedFn};
