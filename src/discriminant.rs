//! Assignment of discriminants under the sequential rule.
//!
//! Explicit discriminant expressions are not evaluated: a variant's
//! discriminant is recorded as "the explicit value of variant `anchor`, plus
//! `offset`", or as plain `offset` when no earlier variant has an explicit
//! value. The compiler evaluates the expressions; [`value_of`] gives the
//! resulting number once their values are known.
use vstd::prelude::*;

use crate::decl::VariantDecl;

verus! {

/// A discriminant relative to the nearest explicit one at or before it.
#[derive(Clone, Copy, Debug, PartialEq, Eq, Structural)]
pub struct Discriminant {
    /// The index of the nearest variant, at or before this one, with an
    /// explicit discriminant; `None` when there is no such variant.
    pub anchor: Option<usize>,
    /// How far past the anchor's value (or past zero) this value lies.
    pub offset: usize,
}

/// The discriminant of variant `i` of `vs` under the sequential rule.
pub open spec fn discr_of(vs: Seq<VariantDecl>, i: int) -> Discriminant
    decreases i,
{
    if i <= 0 {
        if vs[0].explicit is Some {
            Discriminant { anchor: Some(0), offset: 0 }
        } else {
            Discriminant { anchor: None, offset: 0 }
        }
    } else if vs[i].explicit is Some {
        Discriminant { anchor: Some(i as usize), offset: 0 }
    } else {
        let prev = discr_of(vs, i - 1);
        Discriminant { anchor: prev.anchor, offset: (prev.offset + 1) as usize }
    }
}

/// The numeric value of `d`, given the value of each variant's explicit
/// expression (entries of variants without one are not read).
pub open spec fn value_of(d: Discriminant, explicit: Seq<int>) -> int {
    match d.anchor {
        Some(j) => explicit[j as int] + d.offset,
        None => d.offset as int,
    }
}

/// The resolved value of variant `i` of `vs`.
pub open spec fn resolved(vs: Seq<VariantDecl>, explicit: Seq<int>, i: int) -> int {
    value_of(discr_of(vs, i), explicit)
}

/// The anchor of a discriminant lies at or before its variant, and its
/// offset is the distance to it.
pub proof fn lemma_discr_shape(vs: Seq<VariantDecl>, i: int)
    requires
        0 <= i < vs.len(),
        vs.len() <= usize::MAX,
    ensures
        match discr_of(vs, i).anchor {
            Some(j) => 0 <= j <= i && vs[j as int].explicit is Some && discr_of(vs, i).offset == i - j
                && forall|k: int| j < k <= i ==> vs[k].explicit is None,
            None => discr_of(vs, i).offset == i && forall|k: int| 0 <= k <= i ==> vs[k].explicit is None,
        },
    decreases i,
{
    if i > 0 {
        lemma_discr_shape(vs, i - 1);
    }
}

/// Assigns every variant its discriminant, in declaration order.
pub fn assign_discriminants(vs: &Vec<VariantDecl>) -> (r: Vec<Discriminant>)
    ensures
        r@.len() == vs@.len(),
        forall|i: int| 0 <= i < vs@.len() ==> r@[i] == discr_of(vs@, i),
{
    let mut r: Vec<Discriminant> = Vec::new();
    let mut anchor: Option<usize> = None;
    let mut next: usize = 0;
    let mut i: usize = 0;
    while i < vs.len()
        invariant
            i <= vs@.len(),
            r@.len() == i,
            forall|k: int| 0 <= k < i ==> r@[k] == discr_of(vs@, k),
            i > 0 ==> anchor == discr_of(vs@, i - 1).anchor && next == discr_of(vs@, i - 1).offset + 1,
            i == 0 ==> anchor is None && next == 0,
            next <= i,
        decreases vs@.len() - i,
    {
        proof {
            if i > 0 {
                lemma_discr_shape(vs@, i - 1);
            }
        }
        let d = if vs[i].explicit.is_some() {
            anchor = Some(i);
            Discriminant { anchor: Some(i), offset: 0 }
        } else {
            Discriminant { anchor, offset: next }
        };
        r.push(d);
        next = d.offset + 1;
        i = i + 1;
    }
    r
}

} // verus!
