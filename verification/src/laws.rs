//! The guarantees of the derivation, stated and proved once over the
//! specification-level models that the executable contracts use.

use vstd::prelude::*;

use crate::layout::field_count;
use crate::layout::slot_index;
use crate::layout::slot_offset;
use crate::layout::table_matches;
use crate::layout::total_slots;
use crate::layout::lemma_slot_is_owned;
use crate::layout::Layout;
use crate::layout::SlotTable;
use crate::schema::VariantSchema;
use crate::split::shared_matches;
use crate::split::some_values;
use crate::split::spec_split;
use crate::split::SumValue;

verus! {

/// Width: a container split against a layout planned from a schema has
/// exactly `N = Σ c_i` slots, the sum of all variants' field counts. All
/// three projections state this same width, `layout.total`, in their
/// contracts, so it is identical across them.
pub proof fn lemma_container_width<T>(
    layout: Layout,
    variants: Seq<VariantSchema>,
    tag: int,
    fields: Seq<T>,
)
    requires
        layout.matches_schema(variants),
    ensures
        spec_split(layout, tag, fields).len() == total_slots(variants),
{
}

/// Population: splitting a value of the variant at `tag` yields `Some` of
/// field `k - offset` at every slot `k` in `[offset, offset + len)` — the
/// fields in declaration order — and `None` at every slot outside that
/// range.
pub proof fn lemma_split_population<T>(layout: Layout, tag: int, fields: Seq<T>, k: int)
    requires
        0 <= tag < layout.variant_count(),
        0 <= k < layout.total,
    ensures
        layout.in_range(tag, k) ==> spec_split(layout, tag, fields)[k] == Some(
            fields[k - layout.ranges@[tag].offset],
        ),
        !layout.in_range(tag, k) ==> spec_split(layout, tag, fields)[k] is None,
{
}

/// Determinism of the split: the owned split's contract pins its result
/// to one pure function of the tag and the fields, so two containers
/// produced from equal inputs — in one run or across runs — are
/// structurally equal.
pub proof fn lemma_split_deterministic<T>(
    layout: Layout,
    a: SumValue<T>,
    b: SumValue<T>,
    out_a: Seq<Option<T>>,
    out_b: Seq<Option<T>>,
)
    requires
        a.tag == b.tag,
        a.fields@ == b.fields@,
        out_a == spec_split(layout, a.tag as int, a.fields@),
        out_b == spec_split(layout, b.tag as int, b.fields@),
    ensures
        out_a == out_b,
{
}

/// The projections are structurally identical: a borrowed container
/// populates exactly the slots the owned container populates, and each
/// populated slot of it refers to the very value the owned slot holds.
pub proof fn lemma_shared_mirrors_owned<T>(
    layout: Layout,
    tag: int,
    fields: Seq<T>,
    out: Seq<Option<&T>>,
    k: int,
)
    requires
        0 <= tag < layout.variant_count(),
        shared_matches(layout, tag, fields, out),
        0 <= k < out.len(),
    ensures
        out[k] is Some <==> spec_split(layout, tag, fields)[k] is Some,
        out[k] matches Some(r) ==> spec_split(layout, tag, fields)[k] == Some(*r),
{
}

/// Stability of allocation: slot indices depend on nothing but the schema,
/// so two tables allocated from one unchanged schema agree on every slot's
/// owner and type.
pub proof fn lemma_allocation_stable(variants: Seq<VariantSchema>, t1: SlotTable, t2: SlotTable)
    requires
        table_matches(t1, variants),
        table_matches(t2, variants),
    ensures
        t1.slots@.len() == t2.slots@.len(),
        forall|k: int|
            0 <= k < t1.slots@.len() ==> #[trigger] t1.slots@[k].variant == t2.slots@[k].variant
                && t1.slots@[k].field == t2.slots@[k].field && t1.slots@[k].ty == t2.slots@[k].ty,
{
    assert forall|k: int|
        0 <= k < t1.slots@.len() implies #[trigger] t1.slots@[k].variant == t2.slots@[k].variant
        && t1.slots@[k].field == t2.slots@[k].field && t1.slots@[k].ty == t2.slots@[k].ty by {
        lemma_slot_is_owned(variants, k);
        let i = choose|i: int|
            0 <= i < variants.len() && slot_offset(variants, i) <= k < slot_offset(variants, i)
                + #[trigger] field_count(variants, i);
        let j = k - slot_offset(variants, i);
        assert(slot_index(variants, i, j) == k);
    }
}

/// Disjointness of the exclusive projection: two distinct populated slots
/// of one split lead to distinct fields of the one active variant. With
/// the exclusive split's contract — slot `k` borrows field `k - offset`
/// and writes through it land there and nowhere else — the exclusive
/// references handed out by one call never overlap.
pub proof fn lemma_exclusive_disjoint(layout: Layout, tag: int, k1: int, k2: int)
    requires
        0 <= tag < layout.variant_count(),
        layout.in_range(tag, k1),
        layout.in_range(tag, k2),
        k1 != k2,
    ensures
        k1 - layout.ranges@[tag].offset != k2 - layout.ranges@[tag].offset,
{
}

/// A run of empty slots.
pub open spec fn nones<T>(n: nat) -> Seq<Option<T>> {
    Seq::new(n, |k: int| None)
}

/// The populated values of a concatenation are the two parts' populated
/// values, in order.
pub proof fn lemma_some_values_concat<T>(a: Seq<Option<T>>, b: Seq<Option<T>>)
    ensures
        some_values(a + b) == some_values(a) + some_values(b),
    decreases a.len(),
{
    if a.len() == 0 {
        assert(a + b =~= b);
        assert(some_values(a) =~= Seq::<T>::empty());
        assert(some_values(a) + some_values(b) =~= some_values(b));
    } else {
        assert((a + b).skip(1) =~= a.skip(1) + b);
        lemma_some_values_concat(a.skip(1), b);
        assert((a + b)[0] == a[0]);
        match a[0] {
            Some(t) => {
                assert(some_values(a + b) =~= seq![t] + (some_values(a.skip(1)) + some_values(b)));
                assert(seq![t] + (some_values(a.skip(1)) + some_values(b)) =~= (seq![t]
                    + some_values(a.skip(1))) + some_values(b));
            },
            None => {},
        }
    }
}

/// A run of empty slots contributes no values.
pub proof fn lemma_some_values_nones<T>(n: nat)
    ensures
        some_values(nones::<T>(n)) == Seq::<T>::empty(),
    decreases n,
{
    if n > 0 {
        assert(nones::<T>(n)[0] is None);
        assert(nones::<T>(n).skip(1) =~= nones::<T>((n - 1) as nat));
        lemma_some_values_nones::<T>((n - 1) as nat);
    } else {
        assert(nones::<T>(0).len() == 0);
    }
}

/// A run of populated slots contributes exactly its values, in order.
pub proof fn lemma_some_values_all_some<T>(fields: Seq<T>)
    ensures
        some_values(fields.map_values(|t: T| Some(t))) == fields,
    decreases fields.len(),
{
    let m = fields.map_values(|t: T| Some(t));
    if fields.len() == 0 {
        assert(some_values(m) =~= fields);
    } else {
        assert(m[0] == Some(fields[0]));
        assert(m.skip(1) =~= fields.skip(1).map_values(|t: T| Some(t)));
        lemma_some_values_all_some(fields.skip(1));
        assert(some_values(m) =~= seq![fields[0]] + fields.skip(1));
        assert(seq![fields[0]] + fields.skip(1) =~= fields);
    }
}

/// Round trip: reading the populated slots of a split container in slot
/// order reproduces exactly the split value's fields. With the known tag
/// carried externally, reconstruction recovers field values equal to the
/// original's — `recombine` states precisely this over its result.
pub proof fn lemma_split_round_trip<T>(layout: Layout, tag: int, fields: Seq<T>)
    requires
        layout.wf(),
        0 <= tag < layout.variant_count(),
        fields.len() == layout.ranges@[tag].len,
    ensures
        some_values(spec_split(layout, tag, fields)) == fields,
{
    let off = layout.ranges@[tag].offset as int;
    let len = layout.ranges@[tag].len as int;
    let s = spec_split(layout, tag, fields);
    let pre = nones::<T>(off as nat);
    let mid = fields.map_values(|t: T| Some(t));
    let post = nones::<T>((layout.total - off - len) as nat);
    assert(s =~= (pre + mid) + post);
    lemma_some_values_concat(pre + mid, post);
    lemma_some_values_concat(pre, mid);
    lemma_some_values_nones::<T>(off as nat);
    lemma_some_values_nones::<T>((layout.total - off - len) as nat);
    lemma_some_values_all_some(fields);
    assert(some_values(s) =~= fields);
}

} // verus!
