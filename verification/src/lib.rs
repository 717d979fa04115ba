//! A cross-language type-definition compiler core.
//!
//! Source declarations (struct-like interfaces, enumerations, tagged unions)
//! are lowered into a language-neutral intermediate representation and
//! re-emitted as source text for a target language through a backend
//! capability interface.

pub mod block;
pub mod codegen;
pub mod decimal;
pub mod frontend;
pub mod ir;
