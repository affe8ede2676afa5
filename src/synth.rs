//! Synthesis of the lookup function from a declaration.
use vstd::prelude::*;

use crate::decl::{EnumDecl, FieldShape, VariantDecl};
use crate::discriminant::{Discriminant, assign_discriminants, discr_of};
use crate::repr::{ReprKind, resolve_repr, resolve_repr_spec};

verus! {

broadcast use vstd::string::to_string_from_display_ensures_for_str;

/// One arm of the dispatch: the variant built when the input equals its
/// discriminant.
#[derive(Clone, Debug)]
pub struct Arm {
    pub variant: String,
    pub discriminant: Discriminant,
}

/// The lookup function `n` generated for a declaration.
#[derive(Clone, Debug)]
pub struct GeneratedFn {
    /// The enumeration the function is attached to.
    pub enum_name: String,
    /// The function's name, always `n`.
    pub name: String,
    /// The form of the function's parameter.
    pub param: ReprKind,
    /// One arm per variant, in declaration order; any other input gives `None`.
    pub arms: Vec<Arm>,
}

/// A variant that carries data, which the lookup cannot construct.
#[derive(Clone, Debug)]
pub struct ShapeError {
    /// The position of the variant in the declaration.
    pub index: usize,
    /// The variant's name.
    pub variant: String,
}

pub open spec fn shape_error_text() -> Seq<char> {
    "enumn: variant with data is not supported"@
}

impl ShapeError {
    /// The diagnostic's message, the same for every such variant.
    pub fn message(&self) -> (r: String)
        ensures
            r@ == shape_error_text(),
    {
        "enumn: variant with data is not supported".to_string()
    }
}

/// `i` is the first variant of `vs` that is not a unit variant.
pub open spec fn is_first_non_unit(vs: Seq<VariantDecl>, i: int) -> bool {
    0 <= i < vs.len() && vs[i].shape != FieldShape::Unit && forall|j: int|
        0 <= j < i ==> vs[j].shape == FieldShape::Unit
}

pub open spec fn all_unit(vs: Seq<VariantDecl>) -> bool {
    forall|j: int| 0 <= j < vs.len() ==> vs[j].shape == FieldShape::Unit
}

/// Finds the first variant that carries data; later ones are not examined.
pub fn first_non_unit(vs: &Vec<VariantDecl>) -> (r: Option<usize>)
    ensures
        match r {
            Some(i) => is_first_non_unit(vs@, i as int),
            None => all_unit(vs@),
        },
{
    let mut i: usize = 0;
    while i < vs.len()
        invariant
            i <= vs@.len(),
            forall|j: int| 0 <= j < i ==> vs@[j].shape == FieldShape::Unit,
        decreases vs@.len() - i,
    {
        match vs[i].shape {
            FieldShape::Unit => {},
            _ => {
                return Some(i);
            },
        }
        i = i + 1;
    }
    None
}

/// The name every generated lookup function has.
pub fn lookup_fn_name() -> (r: String)
    ensures
        r@ == "n"@,
{
    "n".to_string()
}

/// Generates the lookup function for `decl`, or reports the first variant
/// that carries data; nothing is generated in that case.
pub fn generate(decl: &EnumDecl) -> (r: Result<GeneratedFn, ShapeError>)
    ensures
        r is Err <==> !all_unit(decl.variants@),
        r matches Err(e) ==> is_first_non_unit(decl.variants@, e.index as int)
            && e.variant@ == decl.variants@[e.index as int].name@,
        r matches Ok(f) ==> {
            &&& f.enum_name@ == decl.name@
            &&& f.name@ == "n"@
            &&& f.param == resolve_repr_spec(decl.attrs@)
            &&& f.arms@.len() == decl.variants@.len()
            &&& forall|i: int|
                0 <= i < decl.variants@.len() ==> f.arms@[i].variant@ == decl.variants@[i].name@
                    && f.arms@[i].discriminant == discr_of(decl.variants@, i)
        },
{
    match first_non_unit(&decl.variants) {
        Some(i) => {
            return Err(ShapeError { index: i, variant: decl.variants[i].name.clone() });
        },
        None => {},
    }
    let param = resolve_repr(&decl.attrs);
    let table = assign_discriminants(&decl.variants);
    let mut arms: Vec<Arm> = Vec::new();
    let mut i: usize = 0;
    while i < decl.variants.len()
        invariant
            i <= decl.variants@.len(),
            table@.len() == decl.variants@.len(),
            forall|k: int| 0 <= k < decl.variants@.len() ==> table@[k] == discr_of(decl.variants@, k),
            arms@.len() == i,
            forall|k: int|
                0 <= k < i ==> arms@[k].variant@ == decl.variants@[k].name@
                    && arms@[k].discriminant == discr_of(decl.variants@, k),
        decreases decl.variants@.len() - i,
    {
        arms.push(Arm { variant: decl.variants[i].name.clone(), discriminant: table[i] });
        i = i + 1;
    }
    Ok(GeneratedFn { enum_name: decl.name.clone(), name: lookup_fn_name(), param, arms })
}

} // verus!
