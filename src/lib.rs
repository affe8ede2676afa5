//! Synthesis of a "value to variant" lookup for fieldless enumerations.
//!
//! A declaration is described by [`decl::EnumDecl`]; [`synth::generate`]
//! validates it, resolves the integer representation it asks for, assigns
//! every variant its discriminant and returns the lookup function `n` as a
//! dispatch table. [`dispatch`] gives that table its numeric meaning.
use vstd::prelude::*;

pub mod decl;
pub mod discriminant;
pub mod dispatch;
pub mod repr;
pub mod synth;
