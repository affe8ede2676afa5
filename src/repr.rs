//! Integer representations that a declaration may request.
use vstd::prelude::*;

use crate::decl::Attr;

verus! {

broadcast use vstd::string::to_string_from_display_ensures_for_str;

/// A fixed-width integer type that a `repr` annotation can name.
#[derive(Clone, Copy, Debug, PartialEq, Eq, Structural)]
pub enum IntRepr {
    U8,
    U16,
    U32,
    U64,
    U128,
    Usize,
    I8,
    I16,
    I32,
    I64,
    I128,
    Isize,
}

/// The parameter form of the generated lookup function.
#[derive(Clone, Copy, Debug, PartialEq, Eq, Structural)]
pub enum ReprKind {
    /// The parameter has exactly this integer type.
    Fixed(IntRepr),
    /// The parameter is generic over anything convertible into `i64`.
    Generic,
}

/// Every recognised representation, in the order the tags are looked up.
pub open spec fn repr_table() -> Seq<IntRepr> {
    seq![
        IntRepr::U8,
        IntRepr::U16,
        IntRepr::U32,
        IntRepr::U64,
        IntRepr::U128,
        IntRepr::Usize,
        IntRepr::I8,
        IntRepr::I16,
        IntRepr::I32,
        IntRepr::I64,
        IntRepr::I128,
        IntRepr::Isize,
    ]
}

impl IntRepr {
    /// The identifier that names this type in source text.
    pub open spec fn tag_spec(self) -> Seq<char> {
        match self {
            IntRepr::U8 => "u8"@,
            IntRepr::U16 => "u16"@,
            IntRepr::U32 => "u32"@,
            IntRepr::U64 => "u64"@,
            IntRepr::U128 => "u128"@,
            IntRepr::Usize => "usize"@,
            IntRepr::I8 => "i8"@,
            IntRepr::I16 => "i16"@,
            IntRepr::I32 => "i32"@,
            IntRepr::I64 => "i64"@,
            IntRepr::I128 => "i128"@,
            IntRepr::Isize => "isize"@,
        }
    }

    /// The identifier that names this type, e.g. `u8`.
    pub fn tag(&self) -> (r: String)
        ensures
            r@ == self.tag_spec(),
    {
        match self {
            IntRepr::U8 => "u8".to_string(),
            IntRepr::U16 => "u16".to_string(),
            IntRepr::U32 => "u32".to_string(),
            IntRepr::U64 => "u64".to_string(),
            IntRepr::U128 => "u128".to_string(),
            IntRepr::Usize => "usize".to_string(),
            IntRepr::I8 => "i8".to_string(),
            IntRepr::I16 => "i16".to_string(),
            IntRepr::I32 => "i32".to_string(),
            IntRepr::I64 => "i64".to_string(),
            IntRepr::I128 => "i128".to_string(),
            IntRepr::Isize => "isize".to_string(),
        }
    }
}

/// The table of recognised representations as a vector.
pub fn all_reprs() -> (r: Vec<IntRepr>)
    ensures
        r@ == repr_table(),
{
    let r = vec![
        IntRepr::U8,
        IntRepr::U16,
        IntRepr::U32,
        IntRepr::U64,
        IntRepr::U128,
        IntRepr::Usize,
        IntRepr::I8,
        IntRepr::I16,
        IntRepr::I32,
        IntRepr::I64,
        IntRepr::I128,
        IntRepr::Isize,
    ];
    assert(r@ =~= repr_table());
    r
}

/// The first entry of `table` whose tag is `t`, if any.
pub open spec fn first_with_tag(table: Seq<IntRepr>, t: Seq<char>) -> Option<IntRepr>
    decreases table.len(),
{
    if table.len() == 0 {
        None
    } else if table[0].tag_spec() == t {
        Some(table[0])
    } else {
        first_with_tag(table.drop_first(), t)
    }
}

/// The representation that the identifier `t` names, if it names one.
pub open spec fn repr_of_tag(t: Seq<char>) -> Option<IntRepr> {
    first_with_tag(repr_table(), t)
}

/// Looks `tag` up in the table of recognised representations.
pub fn repr_from_tag(tag: &String) -> (r: Option<IntRepr>)
    ensures
        r == repr_of_tag(tag@),
{
    let table = all_reprs();
    let mut i: usize = 0;
    assert(table@.subrange(0, table@.len() as int) =~= table@);
    while i < table.len()
        invariant
            i <= table@.len(),
            table@ == repr_table(),
            first_with_tag(table@, tag@) == first_with_tag(table@.subrange(i as int, table@.len() as int), tag@),
        decreases table@.len() - i,
    {
        proof {
            let rest = table@.subrange(i as int, table@.len() as int);
            assert(rest.drop_first() =~= table@.subrange(i + 1, table@.len() as int));
        }
        let name = table[i].tag();
        if name == *tag {
            return Some(table[i]);
        }
        i = i + 1;
    }
    None
}

/// Whether an annotation with this name and payload requests a representation,
/// and which.
pub open spec fn attr_repr(name: Seq<char>, payload: Option<Seq<char>>) -> Option<IntRepr> {
    if name == "repr"@ {
        match payload {
            Some(t) => repr_of_tag(t),
            None => None,
        }
    } else {
        None
    }
}

/// The representation requested by the first annotation of `attrs` that names
/// a recognised one; `Generic` when none does.
pub open spec fn resolve_repr_spec(attrs: Seq<Attr>) -> ReprKind
    decreases attrs.len(),
{
    if attrs.len() == 0 {
        ReprKind::Generic
    } else {
        match attr_repr(attrs[0].name@, attrs[0].payload_view()) {
            Some(k) => ReprKind::Fixed(k),
            None => resolve_repr_spec(attrs.drop_first()),
        }
    }
}

/// Representation binding: the first annotation that requests a recognised
/// representation fixes the parameter to exactly that type, and a declaration
/// with no such annotation gets the generic parameter.
pub proof fn lemma_repr_binding(attrs: Seq<Attr>, i: int)
    requires
        0 <= i <= attrs.len(),
        forall|j: int|
            0 <= j < i ==> #[trigger] attr_repr(attrs[j].name@, attrs[j].payload_view()) is None,
    ensures
        i == attrs.len() ==> resolve_repr_spec(attrs) == ReprKind::Generic,
        i < attrs.len() ==> (attr_repr(attrs[i].name@, attrs[i].payload_view()) matches Some(k)
            ==> resolve_repr_spec(attrs) == ReprKind::Fixed(k)),
    decreases i,
{
    if i > 0 {
        let rest = attrs.drop_first();
        assert forall|j: int| 0 <= j < i - 1 implies #[trigger] attr_repr(rest[j].name@, rest[j].payload_view()) is None by {
            assert(rest[j] == attrs[j + 1]);
        }
        lemma_repr_binding(rest, i - 1);
        assert(attr_repr(attrs[0].name@, attrs[0].payload_view()) is None);
    }
}

/// The representation that an annotation requests, if it requests a
/// recognised one. Other annotations, and unknown tags, are ignored.
pub fn repr_of_attr(attr: &Attr) -> (r: Option<IntRepr>)
    ensures
        r == attr_repr(attr.name@, attr.payload_view()),
{
    let repr_word = "repr".to_string();
    if attr.name != repr_word {
        return None;
    }
    match &attr.payload {
        Some(t) => repr_from_tag(t),
        None => None,
    }
}

/// Resolves the parameter form from the declaration's annotations: the first
/// recognised `repr` request wins.
pub fn resolve_repr(attrs: &Vec<Attr>) -> (r: ReprKind)
    ensures
        r == resolve_repr_spec(attrs@),
{
    let mut i: usize = 0;
    assert(attrs@.subrange(0, attrs@.len() as int) =~= attrs@);
    while i < attrs.len()
        invariant
            i <= attrs@.len(),
            resolve_repr_spec(attrs@) == resolve_repr_spec(attrs@.subrange(i as int, attrs@.len() as int)),
        decreases attrs@.len() - i,
    {
        proof {
            let rest = attrs@.subrange(i as int, attrs@.len() as int);
            assert(rest.drop_first() =~= attrs@.subrange(i + 1, attrs@.len() as int));
        }
        match repr_of_attr(&attrs[i]) {
            Some(k) => {
                return ReprKind::Fixed(k);
            },
            None => {},
        }
        i = i + 1;
    }
    proof {
        assert(attrs@.subrange(i as int, attrs@.len() as int).len() == 0);
    }
    ReprKind::Generic
}

} // verus!
