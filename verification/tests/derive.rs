//! The derivation pipeline on the three schemas the container generator is
//! exercised with: positional fields, named fields, and a mix including a
//! unit variant.

use service_util::layout::{allocate, arm_plans, plan_layout, projection_slot_types, Projection};
use service_util::schema::{
    extract, DeclBody, FieldsDecl, NamedFieldDecl, SrcSpan, TypeDecl, VariantDecl,
};

fn positional(name: &str, tys: &[&str]) -> VariantDecl {
    VariantDecl {
        name: name.to_owned(),
        fields: FieldsDecl::Positional(tys.iter().map(|t| (*t).to_owned()).collect()),
    }
}

fn named(name: &str, fields: &[(&str, &str)]) -> VariantDecl {
    VariantDecl {
        name: name.to_owned(),
        fields: FieldsDecl::Named(
            fields
                .iter()
                .map(|(n, t)| NamedFieldDecl { name: (*n).to_owned(), ty: (*t).to_owned() })
                .collect(),
        ),
    }
}

fn unit(name: &str) -> VariantDecl {
    VariantDecl { name: name.to_owned(), fields: FieldsDecl::Unit }
}

fn sum_decl(name: &str, variants: Vec<VariantDecl>) -> TypeDecl {
    TypeDecl {
        name: name.to_owned(),
        span: SrcSpan { line: 1, column: 0 },
        body: DeclBody::Sum { variants },
    }
}

#[test]
fn test_split_unnamed() {
    let decl = sum_decl(
        "TestEnum",
        vec![
            positional("A", &["i32"]),
            positional("B", &["u32", "u64"]),
            positional("C", &["String"]),
        ],
    );
    let schema = extract(&decl).unwrap();
    assert_eq!(schema.name, "TestEnum");
    assert_eq!(schema.variants.len(), 3);

    let layout = plan_layout(&schema);
    assert_eq!(layout.total, 4);

    // the component list of every projection: one slot per field, in order
    let table = allocate(&schema);
    let tys: Vec<&str> = table.slots.iter().map(|s| s.ty.as_str()).collect();
    assert_eq!(tys, ["i32", "u32", "u64", "String"]);
    let owners: Vec<(usize, usize)> = table.slots.iter().map(|s| (s.variant, s.field)).collect();
    assert_eq!(owners, [(0, 0), (1, 0), (1, 1), (2, 0)]);

    // the three match arms: leading empties, bound fields, trailing empties
    let plans = arm_plans(&schema, &layout);
    let shapes: Vec<(usize, usize, usize)> =
        plans.iter().map(|p| (p.prefix, p.len, p.suffix)).collect();
    assert_eq!(shapes, [(0, 1, 3), (1, 2, 1), (3, 1, 0)]);
}

#[test]
fn test_split_named() {
    let decl = sum_decl(
        "TestEnum",
        vec![
            named("A", &[("a", "i32")]),
            named("B", &[("b", "u32"), ("B", "u64")]),
            named("C", &[("c", "String")]),
        ],
    );
    let schema = extract(&decl).unwrap();

    // field names survive normalization, in source order
    let names: Vec<Option<&str>> = schema
        .variants
        .iter()
        .flat_map(|v| v.fields.iter().map(|f| f.name.as_deref()))
        .collect();
    assert_eq!(names, [Some("a"), Some("b"), Some("B"), Some("c")]);

    // the layout is the same as with positional fields: shape is surface
    // syntax only
    let layout = plan_layout(&schema);
    assert_eq!(layout.total, 4);
    let table = allocate(&schema);
    let tys: Vec<&str> = table.slots.iter().map(|s| s.ty.as_str()).collect();
    assert_eq!(tys, ["i32", "u32", "u64", "String"]);
    let plans = arm_plans(&schema, &layout);
    let shapes: Vec<(usize, usize, usize)> =
        plans.iter().map(|p| (p.prefix, p.len, p.suffix)).collect();
    assert_eq!(shapes, [(0, 1, 3), (1, 2, 1), (3, 1, 0)]);
}

#[test]
fn test_split_mixed() {
    let decl = sum_decl(
        "TestEnum",
        vec![
            unit("A"),
            positional("B", &["u8"]),
            positional("C", &["u16", "u32"]),
            named("D", &[("d", "u64")]),
            named("E", &[("e", "i8"), ("E", "i16")]),
        ],
    );
    let schema = extract(&decl).unwrap();
    assert_eq!(schema.variants[0].fields.len(), 0);

    let layout = plan_layout(&schema);
    assert_eq!(layout.total, 6);

    let table = allocate(&schema);
    let tys: Vec<&str> = table.slots.iter().map(|s| s.ty.as_str()).collect();
    assert_eq!(tys, ["u8", "u16", "u32", "u64", "i8", "i16"]);

    // the unit variant contributes zero width: every later range starts
    // right after the one before it
    let offsets: Vec<(usize, usize)> =
        layout.ranges.iter().map(|r| (r.offset, r.len)).collect();
    assert_eq!(offsets, [(0, 0), (0, 1), (1, 2), (3, 1), (4, 2)]);

    let plans = arm_plans(&schema, &layout);
    let shapes: Vec<(usize, usize, usize)> =
        plans.iter().map(|p| (p.prefix, p.len, p.suffix)).collect();
    assert_eq!(shapes, [(0, 0, 6), (0, 1, 5), (1, 2, 3), (3, 1, 2), (4, 2, 0)]);
}

#[test]
fn projections_share_the_slot_layout() {
    let decl = sum_decl(
        "TestEnum",
        vec![
            positional("A", &["i32"]),
            positional("B", &["u32", "u64"]),
            positional("C", &["String"]),
        ],
    );
    let schema = extract(&decl).unwrap();
    let table = allocate(&schema);

    let owned = projection_slot_types(&table, Projection::Owned);
    let shared = projection_slot_types(&table, Projection::Shared);
    let exclusive = projection_slot_types(&table, Projection::Exclusive);

    assert_eq!(owned, ["i32", "u32", "u64", "String"]);
    assert_eq!(
        shared,
        ["&'split i32", "&'split u32", "&'split u64", "&'split String"],
    );
    assert_eq!(
        exclusive,
        ["&'split mut i32", "&'split mut u32", "&'split mut u64", "&'split mut String"],
    );
    assert_eq!(owned.len(), shared.len());
    assert_eq!(shared.len(), exclusive.len());
}

#[test]
fn extract_rejects_record() {
    let decl = TypeDecl {
        name: "Point".to_owned(),
        span: SrcSpan { line: 7, column: 4 },
        body: DeclBody::Record {
            fields: FieldsDecl::Named(vec![NamedFieldDecl {
                name: "x".to_owned(),
                ty: "i64".to_owned(),
            }]),
        },
    };
    let err = extract(&decl).unwrap_err();
    assert_eq!(err.span, SrcSpan { line: 7, column: 4 });
    assert_eq!(err.message, "a flattened container can only be derived for a sum type");
}

#[test]
fn extract_rejects_union() {
    let decl = TypeDecl {
        name: "Raw".to_owned(),
        span: SrcSpan { line: 3, column: 0 },
        body: DeclBody::Union {
            members: vec![NamedFieldDecl { name: "bits".to_owned(), ty: "u32".to_owned() }],
        },
    };
    let err = extract(&decl).unwrap_err();
    assert_eq!(err.span, SrcSpan { line: 3, column: 0 });
}

#[test]
fn allocation_is_stable_across_runs() {
    let decl = sum_decl(
        "TestEnum",
        vec![
            unit("A"),
            positional("B", &["u8"]),
            positional("C", &["u16", "u32"]),
            named("D", &[("d", "u64")]),
        ],
    );
    let schema = extract(&decl).unwrap();
    let t1 = allocate(&schema);
    let t2 = allocate(&schema);
    for (a, b) in t1.slots.iter().zip(t2.slots.iter()) {
        assert_eq!(a.variant, b.variant);
        assert_eq!(a.field, b.field);
        assert_eq!(a.ty, b.ty);
    }
    assert_eq!(t1.slots.len(), t2.slots.len());
}
