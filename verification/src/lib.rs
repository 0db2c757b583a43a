//! Type descriptions for TypeScript bindings: groups of named constants
//! rendered as object literals, and an untyped wrapper that is described
//! as `any`.

pub mod any;
pub mod group;
pub mod number;
pub mod object;
pub mod text;
pub mod value;

pub use any::TsAny;
pub use group::{resolve_path, ConstDecl, ConstGroup};
pub use value::ConstValue;
