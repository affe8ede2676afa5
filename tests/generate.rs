use enumn::decl::{Attr, EnumDecl, FieldShape, VariantDecl};
use enumn::discriminant::{assign_discriminants, Discriminant};
use enumn::dispatch::{dispatch, resolve_values};
use enumn::repr::{all_reprs, repr_from_tag, resolve_repr, IntRepr, ReprKind};
use enumn::synth::{first_non_unit, generate, GeneratedFn};

fn unit(name: &str) -> VariantDecl {
    VariantDecl { name: name.to_string(), shape: FieldShape::Unit, explicit: None }
}

fn valued(name: &str, expr: &str) -> VariantDecl {
    VariantDecl {
        name: name.to_string(),
        shape: FieldShape::Unit,
        explicit: Some(expr.to_string()),
    }
}

fn attr(name: &str, payload: Option<&str>) -> Attr {
    Attr { name: name.to_string(), payload: payload.map(|p| p.to_string()) }
}

fn decl(attrs: Vec<Attr>, variants: Vec<VariantDecl>) -> EnumDecl {
    EnumDecl { name: "E".to_string(), attrs, variants }
}

fn values_of(f: &GeneratedFn, explicit: &Vec<i128>) -> Vec<i128> {
    let table: Vec<Discriminant> = f.arms.iter().map(|a| a.discriminant).collect();
    resolve_values(&table, explicit).unwrap()
}

#[test]
fn explicit_value_in_middle() {
    let d = decl(vec![], vec![unit("A"), valued("B", "66"), unit("C")]);
    let f = generate(&d).unwrap();
    assert_eq!(f.param, ReprKind::Generic);
    assert_eq!(f.name, "n");
    assert_eq!(f.enum_name, "E");
    let names: Vec<&str> = f.arms.iter().map(|a| a.variant.as_str()).collect();
    assert_eq!(names, vec!["A", "B", "C"]);
    let values = values_of(&f, &vec![0, 66, 0]);
    assert_eq!(values, vec![0, 66, 67]);
    assert_eq!(dispatch(&values, 0), Some(0));
    assert_eq!(dispatch(&values, 66), Some(1));
    assert_eq!(dispatch(&values, 67), Some(2));
    assert_eq!(dispatch(&values, 5), None);
}

#[test]
fn fixed_u8_two_variants() {
    let d = decl(vec![attr("repr", Some("u8"))], vec![unit("A"), unit("B")]);
    let f = generate(&d).unwrap();
    assert_eq!(f.param, ReprKind::Fixed(IntRepr::U8));
    assert_eq!(IntRepr::U8.tag(), "u8");
    let values = values_of(&f, &vec![0, 0]);
    assert_eq!(values, vec![0, 1]);
    assert_eq!(dispatch(&values, 0), Some(0));
    assert_eq!(dispatch(&values, 1), Some(1));
    assert_eq!(dispatch(&values, 2), None);
}

#[test]
fn sequential_from_zero() {
    let d = decl(vec![], vec![unit("A"), unit("B"), unit("C"), unit("D")]);
    let f = generate(&d).unwrap();
    let values = values_of(&f, &vec![0, 0, 0, 0]);
    assert_eq!(values, vec![0, 1, 2, 3]);
    for (i, v) in values.iter().enumerate() {
        assert_eq!(dispatch(&values, *v), Some(i));
    }
    assert_eq!(dispatch(&values, 4), None);
    assert_eq!(dispatch(&values, -1), None);
}

#[test]
fn restart_after_each_explicit() {
    let d = decl(
        vec![],
        vec![valued("A", "10"), unit("B"), valued("C", "-3"), unit("D"), unit("E")],
    );
    let f = generate(&d).unwrap();
    assert_eq!(f.arms[1].discriminant, Discriminant { anchor: Some(0), offset: 1 });
    assert_eq!(f.arms[4].discriminant, Discriminant { anchor: Some(2), offset: 2 });
    let values = values_of(&f, &vec![10, 0, -3, 0, 0]);
    assert_eq!(values, vec![10, 11, -3, -2, -1]);
    assert_eq!(dispatch(&values, -2), Some(3));
    assert_eq!(dispatch(&values, 0), None);
}

#[test]
fn discriminants_are_symbolic() {
    let vs = vec![unit("A"), valued("B", "K + 1"), unit("C")];
    let table = assign_discriminants(&vs);
    assert_eq!(
        table,
        vec![
            Discriminant { anchor: None, offset: 0 },
            Discriminant { anchor: Some(1), offset: 0 },
            Discriminant { anchor: Some(1), offset: 1 },
        ]
    );
}

#[test]
fn overflowing_value_is_reported() {
    let d = decl(vec![], vec![valued("A", "MAX"), unit("B")]);
    let f = generate(&d).unwrap();
    let table: Vec<Discriminant> = f.arms.iter().map(|a| a.discriminant).collect();
    assert_eq!(resolve_values(&table, &vec![i128::MAX, 0]), None);
    assert_eq!(resolve_values(&table, &vec![i128::MAX - 1, 0]), Some(vec![i128::MAX - 1, i128::MAX]));
}

#[test]
fn first_match_wins_on_duplicates() {
    let values: Vec<i128> = vec![3, 1, 3];
    assert_eq!(dispatch(&values, 3), Some(0));
    assert_eq!(dispatch(&vec![], 0), None);
}

#[test]
fn data_variant_is_rejected() {
    let mut b = unit("B");
    b.shape = FieldShape::Positional;
    let mut c = unit("C");
    c.shape = FieldShape::Named;
    let d = decl(vec![attr("repr", Some("u8"))], vec![unit("A"), b, c]);
    let e = generate(&d).unwrap_err();
    assert_eq!(e.index, 1);
    assert_eq!(e.variant, "B");
    assert_eq!(e.message(), "enumn: variant with data is not supported");
    assert_eq!(first_non_unit(&d.variants), Some(1));
}

#[test]
fn named_variant_is_rejected() {
    let mut a = unit("A");
    a.shape = FieldShape::Named;
    let e = generate(&decl(vec![], vec![a])).unwrap_err();
    assert_eq!(e.index, 0);
    assert_eq!(e.variant, "A");
}

#[test]
fn empty_enum_generates_empty_dispatch() {
    let f = generate(&decl(vec![], vec![])).unwrap();
    assert!(f.arms.is_empty());
    assert_eq!(first_non_unit(&vec![]), None);
}

#[test]
fn every_tag_is_recognised() {
    let tags = ["u8", "u16", "u32", "u64", "u128", "usize", "i8", "i16", "i32", "i64", "i128", "isize"];
    let table = all_reprs();
    assert_eq!(table.len(), tags.len());
    for (k, t) in table.iter().zip(tags.iter()) {
        assert_eq!(k.tag(), *t);
        assert_eq!(repr_from_tag(&t.to_string()), Some(*k));
    }
    assert_eq!(repr_from_tag(&"C".to_string()), None);
    assert_eq!(repr_from_tag(&"u7".to_string()), None);
}

#[test]
fn first_recognised_repr_wins() {
    let attrs = vec![
        attr("derive", Some("N")),
        attr("repr", Some("C")),
        attr("repr", None),
        attr("repr", Some("i16")),
        attr("repr", Some("u64")),
    ];
    assert_eq!(resolve_repr(&attrs), ReprKind::Fixed(IntRepr::I16));
    let d = decl(attrs, vec![unit("A")]);
    assert_eq!(generate(&d).unwrap().param, ReprKind::Fixed(IntRepr::I16));
}

#[test]
fn unrecognised_annotations_leave_generic() {
    let attrs = vec![attr("repr", Some("C")), attr("allow", Some("u8")), attr("doc", None)];
    assert_eq!(resolve_repr(&attrs), ReprKind::Generic);
    assert_eq!(resolve_repr(&vec![]), ReprKind::Generic);
}
