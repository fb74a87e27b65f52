//! Code generation for trait method bodies and the "add return type" assist,
//! over a model of the syntax that the assists read and write.

pub mod ast;
pub mod adt;
pub mod numeral;
pub mod gen_trait_fn_body;
pub mod add_return_type;
pub mod body_laws;
