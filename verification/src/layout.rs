//! Slot allocation and layout planning.
//!
//! Every field of every variant receives one global slot index. Indices are
//! assigned by walking variants in declaration order and fields within each
//! variant in declaration order, so variant `i` owns the contiguous range
//! `[offset(i), offset(i) + len(i))` where `offset(i)` is the sum of the
//! field counts of the variants before it. The ranges partition the whole
//! index space `[0, N)` with no gaps and no overlap, and the assignment is a
//! pure function of the schema.

use vstd::prelude::*;

use crate::schema::SumTypeSchema;
use crate::schema::VariantSchema;

verus! {

/// The number of fields of variant `i`.
pub open spec fn field_count(variants: Seq<VariantSchema>, i: int) -> int {
    variants[i].fields@.len() as int
}

/// The first slot index owned by variant `i`: the sum of the field counts
/// of all earlier variants.
pub open spec fn slot_offset(variants: Seq<VariantSchema>, i: int) -> int
    decreases i,
{
    if i <= 0 {
        0
    } else {
        slot_offset(variants, i - 1) + field_count(variants, i - 1)
    }
}

/// The total number of slots: the sum of all variants' field counts.
pub open spec fn total_slots(variants: Seq<VariantSchema>) -> int {
    slot_offset(variants, variants.len() as int)
}

/// The global slot index of field `j` of variant `i`.
pub open spec fn slot_index(variants: Seq<VariantSchema>, i: int, j: int) -> int {
    slot_offset(variants, i) + j
}

/// Slot offsets never decrease from one variant to the next.
pub proof fn lemma_offset_monotonic(variants: Seq<VariantSchema>, i: int, j: int)
    requires
        0 <= i <= j,
    ensures
        slot_offset(variants, i) <= slot_offset(variants, j),
    decreases j - i,
{
    if i < j {
        lemma_offset_monotonic(variants, i, j - 1);
    }
}

/// Every variant's slot range lies inside `[0, N)`.
pub proof fn lemma_range_within_total(variants: Seq<VariantSchema>, i: int)
    requires
        0 <= i < variants.len(),
    ensures
        0 <= slot_offset(variants, i),
        slot_offset(variants, i) + field_count(variants, i) <= total_slots(variants),
{
    lemma_offset_monotonic(variants, 0, i);
    lemma_offset_monotonic(variants, i + 1, variants.len() as int);
}

/// Distinct variants own disjoint slot ranges: a slot index inside variant
/// `i`'s range lies outside variant `j`'s range whenever `i != j`.
pub proof fn lemma_ranges_disjoint(variants: Seq<VariantSchema>, i: int, j: int, k: int)
    requires
        0 <= i < variants.len(),
        0 <= j < variants.len(),
        i != j,
        slot_offset(variants, i) <= k < slot_offset(variants, i) + field_count(variants, i),
    ensures
        !(slot_offset(variants, j) <= k < slot_offset(variants, j) + field_count(variants, j)),
{
    if i < j {
        lemma_offset_monotonic(variants, i + 1, j);
    } else {
        lemma_offset_monotonic(variants, j + 1, i);
    }
}

/// The slot ranges leave no gaps: every index in `[0, N)` falls in the
/// range of some variant.
pub proof fn lemma_slot_is_owned(variants: Seq<VariantSchema>, k: int)
    requires
        0 <= k < total_slots(variants),
    ensures
        exists|i: int|
            0 <= i < variants.len() && slot_offset(variants, i) <= k < slot_offset(variants, i)
                + #[trigger] field_count(variants, i),
{
    lemma_slot_is_owned_upto(variants, variants.len() as int, k);
}

/// Helper for coverage: an index below `offset(j)` falls in the range of a
/// variant before `j`.
proof fn lemma_slot_is_owned_upto(variants: Seq<VariantSchema>, j: int, k: int)
    requires
        0 <= j <= variants.len(),
        0 <= k < slot_offset(variants, j),
    ensures
        exists|i: int|
            0 <= i < j && slot_offset(variants, i) <= k < slot_offset(variants, i)
                + #[trigger] field_count(variants, i),
    decreases j,
{
    if j > 0 {
        if slot_offset(variants, j - 1) <= k {
            assert(0 <= j - 1 < j && slot_offset(variants, j - 1) <= k < slot_offset(
                variants,
                j - 1,
            ) + field_count(variants, j - 1));
        } else {
            lemma_slot_is_owned_upto(variants, j - 1, k);
        }
    }
}

/// The contiguous slot range owned by one variant.
#[derive(Clone, Copy, PartialEq, Eq, Structural, Debug)]
pub struct VariantRange {
    pub offset: usize,
    pub len: usize,
}

/// The planned layout of a flattened container: one slot range per variant
/// in declaration order, and the total slot count shared by all three
/// projections.
pub struct Layout {
    pub ranges: Vec<VariantRange>,
    pub total: usize,
}

impl Layout {
    /// The layout agrees with a schema: one range per variant, each at the
    /// offset given by the prefix sum of the earlier field counts.
    pub open spec fn matches_schema(self, variants: Seq<VariantSchema>) -> bool {
        &&& self.ranges@.len() == variants.len()
        &&& self.total as int == total_slots(variants)
        &&& forall|i: int|
            0 <= i < variants.len() ==> (#[trigger] self.ranges@[i]).offset as int == slot_offset(
                variants,
                i,
            ) && self.ranges@[i].len as int == field_count(variants, i)
    }

    /// The number of variants the layout was planned for.
    pub open spec fn variant_count(self) -> int {
        self.ranges@.len() as int
    }

    /// Every variant's slot range fits inside the container: this is all
    /// the split operation itself needs of a layout.
    pub open spec fn wf(self) -> bool {
        forall|i: int|
            0 <= i < self.ranges@.len() ==> (#[trigger] self.ranges@[i]).offset
                + self.ranges@[i].len <= self.total
    }

    /// Slot `k` lies in variant `i`'s range.
    pub open spec fn in_range(self, i: int, k: int) -> bool {
        self.ranges@[i].offset <= k < self.ranges@[i].offset + self.ranges@[i].len
    }
}

/// A layout that agrees with a schema keeps every variant's range inside
/// the container.
pub proof fn lemma_matches_schema_wf(l: Layout, variants: Seq<VariantSchema>)
    requires
        l.matches_schema(variants),
    ensures
        l.wf(),
{
    assert forall|i: int| 0 <= i < l.ranges@.len() implies (#[trigger] l.ranges@[i]).offset
        + l.ranges@[i].len <= l.total by {
        lemma_range_within_total(variants, i);
    }
}

/// Plans the layout of a schema: computes each variant's slot range by a
/// running prefix sum over the field counts, and the total slot count.
pub fn plan_layout(schema: &SumTypeSchema) -> (l: Layout)
    requires
        total_slots(schema.variants@) <= usize::MAX,
    ensures
        l.matches_schema(schema.variants@),
        l.wf(),
{
    let n = schema.variants.len();
    let mut ranges: Vec<VariantRange> = Vec::new();
    let mut next: usize = 0;
    for i in 0..n
        invariant
            n == schema.variants@.len(),
            total_slots(schema.variants@) <= usize::MAX,
            ranges@.len() == i,
            next as int == slot_offset(schema.variants@, i as int),
            forall|m: int|
                0 <= m < i ==> (#[trigger] ranges@[m]).offset as int == slot_offset(
                    schema.variants@,
                    m,
                ) && ranges@[m].len as int == field_count(schema.variants@, m),
    {
        let len = schema.variants[i].fields.len();
        proof {
            lemma_range_within_total(schema.variants@, i as int);
        }
        ranges.push(VariantRange { offset: next, len });
        next = next + len;
    }
    let l = Layout { ranges, total: next };
    proof {
        lemma_matches_schema_wf(l, schema.variants@);
    }
    l
}

/// One record of the slot table: the variant and field a slot belongs to,
/// and the field's declared type.
pub struct SlotAssign {
    pub variant: usize,
    pub field: usize,
    pub ty: String,
}

/// The full ordered slot table produced by the allocator: slot `k` is the
/// `k`-th entry.
pub struct SlotTable {
    pub slots: Vec<SlotAssign>,
}

/// The table records the allocation the schema determines: one slot per
/// field, and field `j` of variant `i` at index `offset(i) + j` with its
/// declared type.
pub open spec fn table_matches(t: SlotTable, variants: Seq<VariantSchema>) -> bool {
    &&& t.slots@.len() == total_slots(variants)
    &&& forall|i: int, j: int|
        0 <= i < variants.len() && 0 <= j < field_count(variants, i) ==> {
            let k = #[trigger] slot_index(variants, i, j);
            &&& t.slots@[k].variant as int == i
            &&& t.slots@[k].field as int == j
            &&& t.slots@[k].ty == variants[i].fields@[j].ty
        }
}

/// Allocates every field its global slot index in a single deterministic
/// pass: variants in declaration order, fields within each variant in
/// declaration order, counting up from zero. Field `j` of variant `i` lands
/// at index `offset(i) + j`, so the table's length is the total field count
/// and re-running the allocator on an unchanged schema reproduces the very
/// same table.
pub fn allocate(schema: &SumTypeSchema) -> (t: SlotTable)
    requires
        total_slots(schema.variants@) <= usize::MAX,
    ensures
        table_matches(t, schema.variants@),
{
    let n = schema.variants.len();
    let mut slots: Vec<SlotAssign> = Vec::new();
    for i in 0..n
        invariant
            n == schema.variants@.len(),
            total_slots(schema.variants@) <= usize::MAX,
            slots@.len() == slot_offset(schema.variants@, i as int),
            forall|m: int, j: int|
                0 <= m < i && 0 <= j < field_count(schema.variants@, m) ==> {
                    let k = #[trigger] slot_index(schema.variants@, m, j);
                    &&& slots@[k].variant as int == m
                    &&& slots@[k].field as int == j
                    &&& slots@[k].ty == schema.variants@[m].fields@[j].ty
                },
    {
        let fields = &schema.variants[i].fields;
        let c = fields.len();
        proof {
            lemma_range_within_total(schema.variants@, i as int);
        }
        for j in 0..c
            invariant
                n == schema.variants@.len(),
                i < n,
                c == field_count(schema.variants@, i as int),
                slot_offset(schema.variants@, i as int) + c <= total_slots(schema.variants@),
                total_slots(schema.variants@) <= usize::MAX,
                fields == &schema.variants@[i as int].fields,
                slots@.len() == slot_offset(schema.variants@, i as int) + j,
                forall|m: int, jj: int|
                    0 <= m < i && 0 <= jj < field_count(schema.variants@, m) ==> {
                        let k = #[trigger] slot_index(schema.variants@, m, jj);
                        &&& slots@[k].variant as int == m
                        &&& slots@[k].field as int == jj
                        &&& slots@[k].ty == schema.variants@[m].fields@[jj].ty
                    },
                forall|jj: int|
                    0 <= jj < j ==> {
                        let k = #[trigger] slot_index(schema.variants@, i as int, jj);
                        &&& slots@[k].variant as int == i as int
                        &&& slots@[k].field as int == jj
                        &&& slots@[k].ty == schema.variants@[i as int].fields@[jj].ty
                    },
        {
            let ghost prev = slots@;
            slots.push(SlotAssign { variant: i, field: j, ty: fields[j].ty.clone() });
            proof {
                lemma_offset_monotonic(schema.variants@, 0, i as int);
                assert forall|m: int, jj: int|
                    0 <= m < i && 0 <= jj < field_count(schema.variants@, m) implies {
                    let k = #[trigger] slot_index(schema.variants@, m, jj);
                    &&& slots@[k].variant as int == m
                    &&& slots@[k].field as int == jj
                    &&& slots@[k].ty == schema.variants@[m].fields@[jj].ty
                } by {
                    lemma_offset_monotonic(schema.variants@, 0, m);
                    lemma_offset_monotonic(schema.variants@, m + 1, i as int);
                    assert(slot_index(schema.variants@, m, jj) < prev.len());
                    assert(slots@[slot_index(schema.variants@, m, jj)] == prev[slot_index(
                        schema.variants@,
                        m,
                        jj,
                    )]);
                }
            }
        }
        proof {
            lemma_offset_step(schema.variants@, i as int);
        }
    }
    SlotTable { slots }
}

/// The next variant's offset is this one's offset plus its field count.
proof fn lemma_offset_step(variants: Seq<VariantSchema>, i: int)
    requires
        0 <= i,
    ensures
        slot_offset(variants, i) + field_count(variants, i) == slot_offset(variants, i + 1),
{
}

/// The three container shapes produced from a sum value: slots taken by
/// value, by shared reference, or by exclusive reference. All three share
/// one slot layout; they differ only in how a populated slot holds its
/// field.
#[derive(Clone, Copy, PartialEq, Eq, Structural, Debug)]
pub enum Projection {
    Owned,
    Shared,
    Exclusive,
}

/// What a projection wraps around each slot's type: nothing for the owned
/// container, a borrow for the shared one, an exclusive borrow for the
/// exclusive one — each with the single lifetime every slot of the
/// container shares.
pub open spec fn wrap_prefix(p: Projection) -> Seq<char> {
    match p {
        Projection::Owned => Seq::empty(),
        Projection::Shared => "&'split "@,
        Projection::Exclusive => "&'split mut "@,
    }
}

/// Emits the slot types of one projection's container: slot `k` holds an
/// optional value of the allocated type, wrapped as the projection
/// demands. Every projection has exactly as many slots as the table.
pub fn projection_slot_types(table: &SlotTable, p: Projection) -> (r: Vec<String>)
    ensures
        r@.len() == table.slots@.len(),
        forall|k: int|
            0 <= k < r@.len() ==> (#[trigger] r@[k])@ == wrap_prefix(p) + table.slots@[k].ty@,
{
    let n = table.slots.len();
    let mut r: Vec<String> = Vec::new();
    for k in 0..n
        invariant
            n == table.slots@.len(),
            r@.len() == k,
            forall|m: int|
                0 <= m < k ==> (#[trigger] r@[m])@ == wrap_prefix(p) + table.slots@[m].ty@,
    {
        let ty = &table.slots[k].ty;
        let wrapped = match p {
            Projection::Owned => {
                let t = ty.clone();
                proof {
                    assert(t@ =~= wrap_prefix(p) + ty@);
                }
                t
            },
            Projection::Shared => String::from_str("&'split ").concat(ty.as_str()),
            Projection::Exclusive => String::from_str("&'split mut ").concat(ty.as_str()),
        };
        r.push(wrapped);
    }
    r
}

/// The shape of one emitted match arm: how many empty slots come before the
/// matched variant's fields, how many fields it binds, and how many empty
/// slots follow. Prefix, length and suffix always add up to the total slot
/// count.
#[derive(Clone, Copy, PartialEq, Eq, Structural, Debug)]
pub struct ArmPlan {
    pub prefix: usize,
    pub len: usize,
    pub suffix: usize,
}

/// Plans one match arm per variant: variant `i` binds its `len(i)` fields
/// between `offset(i)` leading empties and `N - offset(i) - len(i)`
/// trailing empties.
pub fn arm_plans(schema: &SumTypeSchema, layout: &Layout) -> (plans: Vec<ArmPlan>)
    requires
        layout.matches_schema(schema.variants@),
    ensures
        plans@.len() == schema.variants@.len(),
        forall|i: int|
            0 <= i < schema.variants@.len() ==> {
                let p = #[trigger] plans@[i];
                &&& p.prefix as int == slot_offset(schema.variants@, i)
                &&& p.len as int == field_count(schema.variants@, i)
                &&& p.prefix + p.len + p.suffix == total_slots(schema.variants@)
            },
{
    let n = layout.ranges.len();
    let mut plans: Vec<ArmPlan> = Vec::new();
    for i in 0..n
        invariant
            layout.matches_schema(schema.variants@),
            n == schema.variants@.len(),
            plans@.len() == i,
            forall|m: int|
                0 <= m < i ==> {
                    let p = #[trigger] plans@[m];
                    &&& p.prefix as int == slot_offset(schema.variants@, m)
                    &&& p.len as int == field_count(schema.variants@, m)
                    &&& p.prefix + p.len + p.suffix == total_slots(schema.variants@)
                },
    {
        let r = layout.ranges[i];
        proof {
            lemma_range_within_total(schema.variants@, i as int);
        }
        plans.push(ArmPlan { prefix: r.offset, len: r.len, suffix: layout.total - r.offset - r.len });
    }
    plans
}

} // verus!
