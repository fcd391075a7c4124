//! The three projections at the value level: the concrete scenarios, the
//! borrowing behaviour, determinism, and the round trip.

use service_util::layout::{plan_layout, Layout};
use service_util::schema::{extract, DeclBody, FieldsDecl, SrcSpan, TypeDecl, VariantDecl};
use service_util::split::{recombine, split_exclusive, split_owned, split_shared, SumValue};

#[derive(Clone, Debug, PartialEq)]
enum FieldVal {
    I32(i32),
    U32(u32),
    U64(u64),
    Str(String),
}

/// A layout for a sum type given only its variants' field counts; the
/// field types play no part in the layout.
fn layout_of_counts(counts: &[usize]) -> Layout {
    let variants = counts
        .iter()
        .enumerate()
        .map(|(i, c)| VariantDecl {
            name: format!("V{i}"),
            fields: FieldsDecl::Positional(vec!["u64".to_owned(); *c]),
        })
        .collect();
    let decl = TypeDecl {
        name: "S".to_owned(),
        span: SrcSpan { line: 1, column: 0 },
        body: DeclBody::Sum { variants },
    };
    plan_layout(&extract(&decl).unwrap())
}

#[test]
fn scenario_three_positional_variants() {
    // schema { A(i32), B(u32, u64), C(String) }: four slots
    let layout = layout_of_counts(&[1, 2, 1]);
    assert_eq!(layout.total, 4);

    let a = SumValue { tag: 0, fields: vec![FieldVal::I32(5)] };
    assert_eq!(
        split_owned(&layout, a),
        vec![Some(FieldVal::I32(5)), None, None, None],
    );

    let b = SumValue { tag: 1, fields: vec![FieldVal::U32(1), FieldVal::U64(2)] };
    assert_eq!(
        split_owned(&layout, b),
        vec![None, Some(FieldVal::U32(1)), Some(FieldVal::U64(2)), None],
    );

    let c = SumValue { tag: 2, fields: vec![FieldVal::Str("x".to_owned())] };
    assert_eq!(
        split_owned(&layout, c),
        vec![None, None, None, Some(FieldVal::Str("x".to_owned()))],
    );
}

#[test]
fn scenario_unit_variant_shifts_nothing() {
    // schema { A, B(u8), C(u16, u32), D { d: u64 }, E { e: i8, f: i16 } }:
    // six slots; the unit variant has zero width, so each later variant's
    // range starts right after the previous one's
    let layout = layout_of_counts(&[0, 1, 2, 1, 2]);
    assert_eq!(layout.total, 6);
    let offsets: Vec<(usize, usize)> =
        layout.ranges.iter().map(|r| (r.offset, r.len)).collect();
    assert_eq!(offsets, [(0, 0), (0, 1), (1, 2), (3, 1), (4, 2)]);

    let a = SumValue { tag: 0, fields: Vec::<i64>::new() };
    assert_eq!(split_owned(&layout, a), vec![None; 6]);

    let b = SumValue { tag: 1, fields: vec![7i64] };
    assert_eq!(
        split_owned(&layout, b),
        vec![Some(7i64), None, None, None, None, None],
    );

    let e = SumValue { tag: 4, fields: vec![-3i64, 9i64] };
    assert_eq!(
        split_owned(&layout, e),
        vec![None, None, None, None, Some(-3i64), Some(9i64)],
    );
}

#[test]
fn shared_projection_borrows_fields() {
    let layout = layout_of_counts(&[1, 2, 1]);
    let b = SumValue { tag: 1, fields: vec![10u64, 20u64] };
    let slots = split_shared(&layout, &b);
    assert_eq!(slots.len(), 4);
    assert!(slots[0].is_none());
    assert_eq!(slots[1], Some(&10u64));
    assert_eq!(slots[2], Some(&20u64));
    assert!(slots[3].is_none());
    // several shared projections of one value may coexist
    let again = split_shared(&layout, &b);
    assert_eq!(again[1], Some(&10u64));
    assert_eq!(b.fields, vec![10u64, 20u64]);
}

#[test]
fn exclusive_projection_writes_disjoint_fields() {
    let layout = layout_of_counts(&[1, 2, 1]);
    let mut b = SumValue { tag: 1, fields: vec![10u64, 20u64] };
    {
        let mut slots = split_exclusive(&layout, &mut b);
        assert_eq!(slots.len(), 4);
        assert!(slots[0].is_none());
        assert!(slots[3].is_none());
        // both populated slots are live at once; writing through each
        // touches its own field and nothing else
        let (left, right) = slots.split_at_mut(2);
        let s1 = left[1].as_mut().unwrap();
        let s2 = right[0].as_mut().unwrap();
        **s1 += 1;
        **s2 += 2;
    }
    assert_eq!(b.tag, 1);
    assert_eq!(b.fields, vec![11u64, 22u64]);
}

#[test]
fn exclusive_projection_of_unit_variant_is_all_empty() {
    let layout = layout_of_counts(&[0, 1, 2, 1, 2]);
    let mut a = SumValue { tag: 0, fields: Vec::<i64>::new() };
    let slots = split_exclusive(&layout, &mut a);
    assert_eq!(slots.len(), 6);
    assert!(slots.iter().all(|s| s.is_none()));
    assert_eq!(a.tag, 0);
}

#[test]
fn split_is_deterministic() {
    let layout = layout_of_counts(&[1, 2, 1]);
    let x = SumValue { tag: 1, fields: vec![FieldVal::U32(1), FieldVal::U64(2)] };
    let y = SumValue { tag: 1, fields: vec![FieldVal::U32(1), FieldVal::U64(2)] };
    assert_eq!(split_owned(&layout, x), split_owned(&layout, y));
}

#[test]
fn conversion_goes_through_the_owned_split() {
    let layout = layout_of_counts(&[1, 2, 1]);
    let b = SumValue { tag: 1, fields: vec![1u64, 2u64] };
    let via_conversion = b.into_components(&layout);
    let b_again = SumValue { tag: 1, fields: vec![1u64, 2u64] };
    assert_eq!(via_conversion, split_owned(&layout, b_again));
}

#[test]
fn round_trip_reproduces_fields() {
    let layout = layout_of_counts(&[1, 2, 1]);
    let original = SumValue { tag: 1, fields: vec![FieldVal::U32(1), FieldVal::U64(2)] };
    let tag = original.tag;
    let expected = original.fields.clone();
    let slots = split_owned(&layout, original);
    let back = recombine(tag, slots);
    assert_eq!(back.tag, 1);
    assert_eq!(back.fields, expected);
}

#[test]
fn round_trip_unit_variant() {
    let layout = layout_of_counts(&[0, 1, 2, 1, 2]);
    let original = SumValue { tag: 0, fields: Vec::<i64>::new() };
    let slots = split_owned(&layout, original);
    let back = recombine(0, slots);
    assert_eq!(back.tag, 0);
    assert!(back.fields.is_empty());
}
