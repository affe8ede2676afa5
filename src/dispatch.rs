//! What the generated function computes: the resolved discriminant values,
//! and the dispatch of an input value to the variant that carries it.
use vstd::prelude::*;

use crate::decl::VariantDecl;
use crate::discriminant::{Discriminant, discr_of, lemma_discr_shape, resolved, value_of};

verus! {

/// The integers that a sequence of `i128` values denotes.
pub open spec fn ints(s: Seq<i128>) -> Seq<int> {
    s.map_values(|x: i128| x as int)
}

/// Every anchor of `table` indexes into `explicit`.
pub open spec fn anchors_within(table: Seq<Discriminant>, explicit: Seq<i128>) -> bool {
    forall|i: int|
        #![trigger table[i]]
        0 <= i < table.len() ==> match table[i].anchor {
            Some(j) => j < explicit.len(),
            None => true,
        }
}

/// Whether every entry of `table` has a value that fits in `i128`.
pub open spec fn all_fit(table: Seq<Discriminant>, explicit: Seq<i128>) -> bool {
    forall|i: int|
        #![trigger table[i]]
        0 <= i < table.len() ==> i128::MIN <= value_of(table[i], ints(explicit)) <= i128::MAX
}

/// Computes the value of every entry of `table`, where `explicit[j]` is the
/// value of variant `j`'s explicit expression. Returns `None` exactly when
/// some value does not fit in `i128`.
pub fn resolve_values(table: &Vec<Discriminant>, explicit: &Vec<i128>) -> (r: Option<Vec<i128>>)
    requires
        anchors_within(table@, explicit@),
    ensures
        r is Some <==> all_fit(table@, explicit@),
        r matches Some(v) ==> v@.len() == table@.len() && forall|i: int|
            0 <= i < table@.len() ==> v@[i] as int == value_of(table@[i], ints(explicit@)),
{
    let mut v: Vec<i128> = Vec::new();
    let mut i: usize = 0;
    while i < table.len()
        invariant
            i <= table@.len(),
            v@.len() == i,
            anchors_within(table@, explicit@),
            forall|k: int|
                0 <= k < i ==> v@[k] as int == value_of(table@[k], ints(explicit@)),
            forall|k: int|
                #![trigger table@[k]]
                0 <= k < i ==> i128::MIN <= value_of(table@[k], ints(explicit@)) <= i128::MAX,
        decreases table@.len() - i,
    {
        let d = table[i];
        assert(table@[i as int] == d);
        let x: Option<i128> = match d.anchor {
            Some(j) => explicit[j].checked_add(d.offset as i128),
            None => Some(d.offset as i128),
        };
        match x {
            Some(x) => {
                v.push(x);
            },
            None => {
                assert(!(i128::MIN <= value_of(table@[i as int], ints(explicit@)) <= i128::MAX));
                return None;
            },
        }
        i = i + 1;
    }
    Some(v)
}

/// `r` is what dispatching `value` over `values` gives: the first index that
/// holds `value`, or `None` when no index does.
pub open spec fn dispatches_to(values: Seq<i128>, value: i128, r: Option<usize>) -> bool {
    match r {
        Some(i) => i < values.len() && values[i as int] == value && forall|j: int|
            0 <= j < i ==> values[j] != value,
        None => forall|j: int| 0 <= j < values.len() ==> values[j] != value,
    }
}

/// The body of the generated function: the index of the first variant whose
/// value is `value`, or `None`.
pub fn dispatch(values: &Vec<i128>, value: i128) -> (r: Option<usize>)
    ensures
        dispatches_to(values@, value, r),
{
    let mut i: usize = 0;
    while i < values.len()
        invariant
            i <= values@.len(),
            forall|j: int| 0 <= j < i ==> values@[j] != value,
        decreases values@.len() - i,
    {
        if values[i] == value {
            return Some(i);
        }
        i = i + 1;
    }
    None
}

/// No two variants share a value.
pub open spec fn distinct(values: Seq<i128>) -> bool {
    forall|a: int, b: int| 0 <= a < values.len() && 0 <= b < values.len() && a != b ==> values[a] != values[b]
}

/// Totality: when the values are distinct, dispatching the value of variant
/// `i` gives variant `i`.
pub proof fn lemma_total(values: Seq<i128>, i: int, r: Option<usize>)
    requires
        distinct(values),
        0 <= i < values.len(),
        dispatches_to(values, values[i], r),
    ensures
        r == Some(i as usize),
{
    match r {
        Some(k) => {
            assert(values[k as int] == values[i]);
        },
        None => {
            assert(values[i] != values[i]);
        },
    }
}

/// Non-membership: a value that no variant carries dispatches to `None`.
pub proof fn lemma_not_member(values: Seq<i128>, value: i128, r: Option<usize>)
    requires
        forall|j: int| 0 <= j < values.len() ==> values[j] != value,
        dispatches_to(values, value, r),
    ensures
        r is None,
{
}

/// Sequential default rule: a variant without an explicit discriminant takes
/// its predecessor's value plus one, and zero when it is the first.
pub proof fn lemma_sequential(vs: Seq<VariantDecl>, explicit: Seq<int>, i: int)
    requires
        vs.len() <= usize::MAX,
        0 <= i < vs.len(),
        vs[i].explicit is None,
    ensures
        i == 0 ==> resolved(vs, explicit, i) == 0,
        i > 0 ==> resolved(vs, explicit, i) == resolved(vs, explicit, i - 1) + 1,
{
    if i > 0 {
        lemma_discr_shape(vs, i - 1);
    }
}

/// Restart after an explicit value: following an explicit discriminant at
/// variant `j`, each later variant without one up to `k` counts on from it.
pub proof fn lemma_restart(vs: Seq<VariantDecl>, explicit: Seq<int>, j: int, k: int)
    requires
        vs.len() <= usize::MAX,
        0 <= j <= k < vs.len(),
        vs[j].explicit is Some,
        forall|m: int| j < m <= k ==> vs[m].explicit is None,
    ensures
        resolved(vs, explicit, j) == explicit[j],
        resolved(vs, explicit, k) == explicit[j] + (k - j),
    decreases k,
{
    if k > j {
        lemma_restart(vs, explicit, j, k - 1);
        lemma_sequential(vs, explicit, k);
    }
}

} // verus!
