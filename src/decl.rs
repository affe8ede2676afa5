//! The description of an enumeration declaration, and its shape check.
use vstd::prelude::*;

verus! {

/// How a variant carries data.
#[derive(Clone, Copy, Debug, PartialEq, Eq, Structural)]
pub enum FieldShape {
    /// No fields.
    Unit,
    /// Fields with names, `V { x: T }`.
    Named,
    /// Positional fields, `V(T)`.
    Positional,
}

/// A declaration-level annotation: its name and the first word of its
/// payload, if it has one (`#[repr(u8)]` has name `repr` and payload `u8`).
#[derive(Clone, Debug)]
pub struct Attr {
    pub name: String,
    pub payload: Option<String>,
}

impl Attr {
    pub open spec fn payload_view(&self) -> Option<Seq<char>> {
        match self.payload {
            Some(p) => Some(p@),
            None => None,
        }
    }
}

/// One variant of the declaration.
#[derive(Clone, Debug)]
pub struct VariantDecl {
    pub name: String,
    pub shape: FieldShape,
    /// The source text of the explicit discriminant expression, if any. It is
    /// carried through and never evaluated here.
    pub explicit: Option<String>,
}

/// An enumeration declaration: its name, annotations and variants in order.
#[derive(Clone, Debug)]
pub struct EnumDecl {
    pub name: String,
    pub attrs: Vec<Attr>,
    pub variants: Vec<VariantDecl>,
}

} // verus!
