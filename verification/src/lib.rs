//! The semantic core of type checking for a language with generics and
//! traits: relating two type-level terms under a directional relation,
//! confirming a selected method call, and writing the results of inference
//! back into permanent tables.

pub mod adjust;
pub mod answered;
pub mod ast;
pub mod combine;
pub mod concrete;
pub mod confirm;
pub mod counterparts;
pub mod ctxt;
pub mod demands;
pub mod duality;
pub mod equality;
pub mod fixup;
pub mod fold;
pub mod infer;
pub mod list;
pub mod opened;
pub mod permanent;
pub mod probe;
pub mod reflexivity;
pub mod relate;
pub mod resolve;
pub mod scan;
pub mod stable;
pub mod tables;
pub mod totality;
pub mod ty;
pub mod variance;
pub mod writeback;
