//! The split operation: populating a flattened container from one live
//! sum-type value.
//!
//! A runtime sum value is a tag naming the active variant and that
//! variant's field values in declaration order. Splitting it against a
//! layout yields one optional slot per field across all variants: the
//! active variant's slots hold its fields in order, every other slot is
//! empty. Three structurally identical projections differ only in how a
//! populated slot holds its field: by value, by shared reference, or by
//! exclusive reference. Dispatch is total: a well-formed value always
//! names exactly one variant, so splitting cannot fail at runtime.

use vstd::prelude::*;

use crate::layout::Layout;

verus! {

/// One live value of a sum type, in the dynamic representation the
/// projections work on: the index of the active variant and its field
/// values in declaration order.
pub struct SumValue<T> {
    pub tag: usize,
    pub fields: Vec<T>,
}

impl<T> SumValue<T> {
    /// The value fits the layout: its tag names a planned variant and it
    /// carries exactly that variant's number of fields.
    pub open spec fn wf(self, layout: Layout) -> bool {
        &&& (self.tag as int) < layout.variant_count()
        &&& self.fields@.len() == layout.ranges@[self.tag as int].len
    }

    /// The standard one-way conversion into the owned container, wired
    /// straight to the owned split. No reverse conversion exists: with a
    /// zero-field variant in the schema, an all-empty container cannot be
    /// told apart from a present unit variant without the tag.
    pub fn into_components(self, layout: &Layout) -> (out: Vec<Option<T>>)
        requires
            layout.wf(),
            self.wf(*layout),
        ensures
            out@ == spec_split(*layout, self.tag as int, self.fields@),
    {
        split_owned(layout, self)
    }
}

/// The flattened container of a sum value with the given tag and fields:
/// `N` slots, of which exactly those in the tag's range are populated,
/// slot `offset + j` holding field `j`.
pub open spec fn spec_split<T>(layout: Layout, tag: int, fields: Seq<T>) -> Seq<Option<T>> {
    Seq::new(
        layout.total as nat,
        |k: int|
            if layout.in_range(tag, k) {
                Some(fields[k - layout.ranges@[tag].offset])
            } else {
                None
            },
    )
}

/// A sequence of borrowed slots mirrors the owned container: the same
/// slots are populated, and a populated slot refers to the very field the
/// owned container would hold.
pub open spec fn shared_matches<T>(
    layout: Layout,
    tag: int,
    fields: Seq<T>,
    out: Seq<Option<&T>>,
) -> bool {
    &&& out.len() == layout.total as int
    &&& forall|k: int|
        0 <= k < out.len() ==> if layout.in_range(tag, k) {
            #[trigger] out[k] matches Some(r) && *r == fields[k - layout.ranges@[tag].offset]
        } else {
            out[k] is None
        }
}

/// Splits an owned sum value into the owned projection: the container
/// takes the fields themselves, moved out of the value.
pub fn split_owned<T>(layout: &Layout, value: SumValue<T>) -> (out: Vec<Option<T>>)
    requires
        layout.wf(),
        value.wf(*layout),
    ensures
        out@ == spec_split(*layout, value.tag as int, value.fields@),
{
    let SumValue { tag, fields: mut fields } = value;
    let ghost gtag = tag as int;
    let ghost gfields = fields@;
    let range = layout.ranges[tag];
    let mut out: Vec<Option<T>> = Vec::new();
    for k in 0..range.offset
        invariant
            out@.len() == k,
            forall|m: int| 0 <= m < k ==> #[trigger] out@[m] == spec_split(*layout, gtag, gfields)[m],
            range == layout.ranges@[gtag],
            layout.wf(),
            0 <= gtag < layout.variant_count(),
            gfields.len() == range.len,
            range.offset + range.len <= layout.total,
    {
        out.push(None);
    }
    for j in 0..range.len
        invariant
            out@.len() == range.offset + j,
            fields@ == gfields.skip(j as int),
            forall|m: int| 0 <= m < out@.len() ==> #[trigger] out@[m] == spec_split(*layout, gtag, gfields)[m],
            range == layout.ranges@[gtag],
            layout.wf(),
            0 <= gtag < layout.variant_count(),
            gfields.len() == range.len,
            range.offset + range.len <= layout.total,
    {
        let f = fields.remove(0);
        proof {
            assert(gfields.skip(j as int).remove(0) =~= gfields.skip(j as int + 1));
            assert(f == gfields[j as int]);
        }
        out.push(Some(f));
    }
    let rest = layout.total - range.offset - range.len;
    for k in 0..rest
        invariant
            rest == layout.total - range.offset - range.len,
            out@.len() == range.offset + range.len + k,
            forall|m: int| 0 <= m < out@.len() ==> #[trigger] out@[m] == spec_split(*layout, gtag, gfields)[m],
            range == layout.ranges@[gtag],
            layout.wf(),
            0 <= gtag < layout.variant_count(),
            gfields.len() == range.len,
            range.offset + range.len <= layout.total,
    {
        out.push(None);
    }
    proof {
        assert(out@ =~= spec_split(*layout, gtag, gfields));
    }
    out
}

/// Splits a borrowed sum value into the shared projection: populated slots
/// borrow the active variant's fields, all slots sharing the borrowed
/// value's lifetime.
pub fn split_shared<'a, T>(layout: &Layout, value: &'a SumValue<T>) -> (out: Vec<Option<&'a T>>)
    requires
        layout.wf(),
        value.wf(*layout),
    ensures
        shared_matches(*layout, value.tag as int, value.fields@, out@),
{
    let ghost gtag = value.tag as int;
    let range = layout.ranges[value.tag];
    let mut out: Vec<Option<&'a T>> = Vec::new();
    for k in 0..range.offset
        invariant
            out@.len() == k,
            forall|m: int| 0 <= m < k ==> (#[trigger] out@[m]) is None,
            range == layout.ranges@[gtag],
            layout.wf(),
            0 <= gtag < layout.variant_count(),
            value.fields@.len() == range.len,
            range.offset + range.len <= layout.total,
    {
        out.push(None);
    }
    for j in 0..range.len
        invariant
            out@.len() == range.offset + j,
            forall|m: int|
                0 <= m < range.offset ==> (#[trigger] out@[m]) is None,
            forall|m: int|
                range.offset <= m < out@.len() ==> (#[trigger] out@[m] matches Some(r) && *r
                    == value.fields@[m - range.offset]),
            range == layout.ranges@[gtag],
            layout.wf(),
            0 <= gtag < layout.variant_count(),
            value.fields@.len() == range.len,
            range.offset + range.len <= layout.total,
    {
        out.push(Some(&value.fields[j]));
    }
    let rest = layout.total - range.offset - range.len;
    for k in 0..rest
        invariant
            rest == layout.total - range.offset - range.len,
            out@.len() == range.offset + range.len + k,
            forall|m: int|
                0 <= m < range.offset ==> (#[trigger] out@[m]) is None,
            forall|m: int|
                range.offset <= m < range.offset + range.len ==> (#[trigger] out@[m] matches Some(
                    r,
                ) && *r == value.fields@[m - range.offset]),
            forall|m: int|
                range.offset + range.len <= m < out@.len() ==> (#[trigger] out@[m]) is None,
            range == layout.ranges@[gtag],
            layout.wf(),
            0 <= gtag < layout.variant_count(),
            value.fields@.len() == range.len,
            range.offset + range.len <= layout.total,
    {
        out.push(None);
    }
    out
}

/// Splits an exclusively borrowed sum value into the exclusive projection.
///
/// Populated slots borrow the active variant's fields exclusively, all with
/// the borrowed value's lifetime. Handing several such references out at
/// once is sound because they are disjoint by construction: slot
/// `offset + j` leads to field `j` of the one active variant and to nothing
/// else, so the caller's writes through distinct slots land in distinct
/// fields. The final value of each populated field is exactly what the
/// caller leaves behind through its slot; the tag and the field count never
/// change.
#[verifier::loop_isolation(false)]
pub fn split_exclusive<'a, T>(layout: &Layout, value: &'a mut SumValue<T>) -> (out: Vec<
    Option<&'a mut T>,
>)
    requires
        layout.wf(),
        old(value).wf(*layout),
    ensures
        out@.len() == layout.total as int,
        final(value).tag == old(value).tag,
        final(value).fields@.len() == old(value).fields@.len(),
        forall|k: int|
            0 <= k < out@.len() && !layout.in_range(old(value).tag as int, k) ==> (
            #[trigger] out@[k]) is None,
        forall|k: int|
            0 <= k < out@.len() && layout.in_range(old(value).tag as int, k) ==> (
            #[trigger] out@[k]) is Some,
        forall|k: int|
            0 <= k < out@.len() && layout.in_range(old(value).tag as int, k) ==> *((
            #[trigger] out@[k])->0) == old(value).fields@[k - layout.ranges@[old(value).tag as int].offset],
        forall|k: int|
            0 <= k < out@.len() && layout.in_range(old(value).tag as int, k) ==> final(value).fields@[k
                - layout.ranges@[old(value).tag as int].offset] == *final((#[trigger] out@[k])->0),
{
    let tag = value.tag;
    let ghost gtag = tag as int;
    let ghost gfields = old(value).fields@;
    let ghost vfin: SumValue<T> = *final(value);
    let range = layout.ranges[tag];
    let mut out: Vec<Option<&'a mut T>> = Vec::new();
    for k in 0..range.offset
        invariant
            out@.len() == k,
            forall|m: int| 0 <= m < k ==> (#[trigger] out@[m]) is None,
    {
        out.push(None);
    }
    let mut rest: &'a mut [T] = value.fields.as_mut_slice();
    for j in 0..range.len
        invariant
            out@.len() == range.offset + j,
            forall|m: int| 0 <= m < range.offset ==> (#[trigger] out@[m]) is None,
            forall|m: int|
                range.offset <= m < out@.len() ==> (#[trigger] out@[m]) is Some,
            forall|m: int|
                range.offset <= m < out@.len() ==> *((#[trigger] out@[m])->0) == gfields[m
                    - range.offset],
            forall|m: int|
                range.offset <= m < out@.len() ==> vfin.fields@[m - range.offset] == *final((
                #[trigger] out@[m])->0),
            rest@ == gfields.skip(j as int),
            vfin.fields@.len() == j + final(rest)@.len(),
            forall|m: int| 0 <= m < final(rest)@.len() ==> vfin.fields@[j + m] == final(rest)@[m],
    {
        let tmp = rest;
        let ghost tfin: Seq<T> = final(tmp)@;
        let (head, tail) = <[T]>::split_at_mut(tmp, 1);
        let ghost hfin: Seq<T> = final(head)@;
        let h = <[T]>::first_mut(head);
        let hu = h.unwrap();
        proof {
            assert(tfin =~= hfin + final(tail)@);
            assert(hfin =~= seq![*final(hu)]);
            assert(vfin.fields@[j as int] == tfin[0]);
            assert(tfin[0] == *final(hu));
            assert forall|m: int| 0 <= m < final(tail)@.len() implies vfin.fields@[j + 1 + m]
                == final(tail)@[m] by {
                assert(final(tail)@[m] == tfin[1 + m]);
            }
        }
        out.push(Some(hu));
        rest = tail;
    }
    proof {
        assert(has_resolved(rest));
    }
    let stop = layout.total - range.offset - range.len;
    for k in 0..stop
        invariant
            out@.len() == range.offset + range.len + k,
            forall|m: int| 0 <= m < range.offset ==> (#[trigger] out@[m]) is None,
            forall|m: int|
                range.offset <= m < range.offset + range.len ==> (#[trigger] out@[m]) is Some,
            forall|m: int|
                range.offset <= m < range.offset + range.len ==> *((#[trigger] out@[m])->0)
                    == gfields[m - range.offset],
            forall|m: int|
                range.offset <= m < range.offset + range.len ==> vfin.fields@[m - range.offset]
                    == *final((#[trigger] out@[m])->0),
            forall|m: int|
                range.offset + range.len <= m < out@.len() ==> (#[trigger] out@[m]) is None,
    {
        out.push(None);
    }
    out
}

/// The values of the populated slots of a container, in slot order.
pub open spec fn some_values<T>(s: Seq<Option<T>>) -> Seq<T>
    decreases s.len(),
{
    if s.len() == 0 {
        Seq::empty()
    } else {
        match s[0] {
            Some(t) => seq![t] + some_values(s.skip(1)),
            None => some_values(s.skip(1)),
        }
    }
}

/// Appending one slot appends its value, if it holds one.
pub proof fn lemma_some_values_push<T>(s: Seq<Option<T>>, x: Option<T>)
    ensures
        some_values(s.push(x)) == match x {
            Some(t) => some_values(s).push(t),
            None => some_values(s),
        },
    decreases s.len(),
{
    if s.len() == 0 {
        assert(s.push(x) =~= seq![x]);
        assert(seq![x].skip(1) =~= Seq::<Option<T>>::empty());
        assert(some_values(Seq::<Option<T>>::empty()) =~= Seq::<T>::empty());
        match x {
            Some(t) => {
                assert(some_values(seq![x]) =~= seq![t] + Seq::<T>::empty());
                assert(seq![t] + Seq::<T>::empty() =~= some_values(s).push(t));
            },
            None => {},
        }
    } else {
        assert(s.push(x).skip(1) =~= s.skip(1).push(x));
        lemma_some_values_push(s.skip(1), x);
        match (s[0], x) {
            (Some(t0), Some(t)) => {
                assert(some_values(s.push(x)) =~= seq![t0] + some_values(s.skip(1).push(x)));
                assert(seq![t0] + some_values(s.skip(1)).push(t) =~= (seq![t0] + some_values(
                    s.skip(1),
                )).push(t));
            },
            (None, Some(t)) => {
                assert(some_values(s.push(x)) =~= some_values(s.skip(1).push(x)));
            },
            (_, None) => {
                assert(some_values(s.push(x)) =~= some_values(s));
            },
        }
    }
}

/// Rebuilds a sum value from a container and the active variant's tag,
/// carried externally: the populated slots, read in slot order, become the
/// value's fields. Applied to the owned projection of a well-formed value
/// with its own tag, this reproduces that value exactly.
pub fn recombine<T>(tag: usize, slots: Vec<Option<T>>) -> (r: SumValue<T>)
    ensures
        r.tag == tag,
        r.fields@ == some_values(slots@),
{
    let ghost gslots = slots@;
    let mut slots = slots;
    let mut fields: Vec<T> = Vec::new();
    let n = slots.len();
    for k in 0..n
        invariant
            n == gslots.len(),
            slots@ == gslots.skip(k as int),
            fields@ == some_values(gslots.take(k as int)),
    {
        proof {
            assert(gslots.take(k as int).push(gslots[k as int]) =~= gslots.take(k as int + 1));
            lemma_some_values_push(gslots.take(k as int), gslots[k as int]);
            assert(gslots.skip(k as int).remove(0) =~= gslots.skip(k as int + 1));
        }
        match slots.remove(0) {
            Some(t) => fields.push(t),
            None => {},
        }
    }
    proof {
        assert(gslots.take(n as int) =~= gslots);
    }
    SumValue { tag, fields }
}

} // verus!
