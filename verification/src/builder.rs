//! Slot-table model of a generated builder: one slot per field, each
//! holding an optional owned value, beside the per-field default values
//! that stand for the fields' auto-fill capability.
//!
//! The model makes the typestate discipline of the emitted builders
//! checkable: a field's flag is true exactly when its slot has been
//! written, a setter demands that its field's flag still be false and
//! flips exactly that flag, finalization demands every field set or
//! defaultable and fills the unset defaultable slots with their default
//! values, and the finished record does not depend on the order in which
//! distinct fields were set.

use vstd::prelude::*;
use vstd::pervasive::VecAdditionalExecFns;

verus! {

broadcast use vstd::seq::group_seq_axioms;

/// A partially built record: one storage slot per field, `Some` exactly
/// where a value has been written, and one optional default value per
/// field standing for the field type's auto-fill capability.
pub struct Builder<V> {
    slots: Vec<Option<V>>,
    defaults: Vec<Option<V>>,
}

/// The values the finalizer assembles: each written slot contributes the
/// value written into it, and each unset slot its default value.
pub open spec fn finished_values<V>(slots: Seq<Option<V>>, defaults: Seq<Option<V>>) -> Seq<V> {
    Seq::new(
        slots.len(),
        |i: int|
            if slots[i] is Some {
                slots[i]->0
            } else {
                defaults[i]->0
            },
    )
}

impl<V> Builder<V> {
    /// The storage slots, one per field.
    pub closed spec fn slots_view(self) -> Seq<Option<V>> {
        self.slots@
    }

    /// The per-field default values; `None` where the field has no
    /// auto-fill capability.
    pub closed spec fn defaults_view(self) -> Seq<Option<V>> {
        self.defaults@
    }

    /// How many fields the record has.
    pub open spec fn num_fields(self) -> nat {
        self.slots_view().len()
    }

    pub open spec fn wf(self) -> bool {
        self.defaults_view().len() == self.num_fields()
    }

    /// The flag tuple of the builder. A field's flag is true exactly
    /// when its slot holds a written value: the flags are defined from
    /// the storage, so they can never drift from it.
    pub open spec fn flags(self) -> Seq<bool> {
        Seq::new(self.num_fields(), |i: int| self.slots_view()[i] is Some)
    }

    /// Whether the field at `i` can be filled in by the finalizer when
    /// left unset.
    pub open spec fn defaultable(self, i: int) -> bool {
        self.defaults_view()[i] is Some
    }

    /// A fresh builder: every flag false, no slot written.
    pub fn new(defaults: Vec<Option<V>>) -> (r: Self)
        ensures
            r.wf(),
            r.num_fields() == defaults@.len(),
            r.defaults_view() == defaults@,
            r.slots_view() == Seq::new(defaults@.len(), |i: int| Option::<V>::None),
            forall|i: int| 0 <= i < r.num_fields() ==> !r.flags()[i],
    {
        let n = defaults.len();
        let mut slots: Vec<Option<V>> = Vec::new();
        let mut i: usize = 0;
        while i < n
            invariant
                i <= n,
                slots@.len() == i,
                forall|j: int| 0 <= j < i ==> slots@[j] is None,
            decreases n - i,
        {
            slots.push(None);
            i = i + 1;
        }
        proof {
            assert(slots@ =~= Seq::new(defaults@.len(), |j: int| Option::<V>::None));
        }
        Builder { slots, defaults }
    }

    /// Set the field at `i`. The builder is consumed; the field's flag
    /// must still be false, and comes back true, with every other slot
    /// and flag untouched.
    pub fn set(self, i: usize, v: V) -> (r: Self)
        requires
            self.wf(),
            i < self.num_fields(),
            !self.flags()[i as int],
        ensures
            r.wf(),
            r.num_fields() == self.num_fields(),
            r.slots_view() == self.slots_view().update(i as int, Some(v)),
            r.defaults_view() == self.defaults_view(),
            r.flags() == self.flags().update(i as int, true),
    {
        let mut b = self;
        b.slots.set(i, Some(v));
        proof {
            assert(b.flags() =~= self.flags().update(i as int, true));
        }
        b
    }

    /// Whether every field is set or defaultable — whether the
    /// finalizer is available for this builder.
    pub fn can_finish(&self) -> (b: bool)
        requires
            self.wf(),
        ensures
            b == (forall|i: int|
                0 <= i < self.num_fields() ==> self.flags()[i] || self.defaultable(i)),
    {
        let n = self.slots.len();
        let mut i: usize = 0;
        while i < n
            invariant
                self.wf(),
                n == self.num_fields(),
                i <= n,
                forall|j: int| 0 <= j < i ==> self.flags()[j] || self.defaultable(j),
            decreases n - i,
        {
            if self.slots[i].is_none() && self.defaults[i].is_none() {
                proof {
                    assert(!self.flags()[i as int] && !self.defaultable(i as int));
                }
                return false;
            }
            i = i + 1;
        }
        true
    }

    /// Finalize: every field must be set or defaultable; each unset
    /// defaultable slot is filled with its default value, and the
    /// fully initialized record is moved out, consuming the builder.
    pub fn finish(self) -> (r: Vec<V>)
        requires
            self.wf(),
            forall|i: int| 0 <= i < self.num_fields() ==> self.flags()[i] || self.defaultable(i),
        ensures
            r@ == finished_values(self.slots_view(), self.defaults_view()),
    {
        let Builder { mut slots, mut defaults } = self;
        let ghost slots0 = slots@;
        let ghost defaults0 = defaults@;
        proof {
            assert(slots0 == self.slots_view());
            assert(defaults0 == self.defaults_view());
            assert forall|i: int| 0 <= i < slots0.len() implies slots0[i] is Some || defaults0[i]
                is Some by {
                assert(self.flags()[i] || self.defaultable(i));
            }
        }
        let mut rev: Vec<V> = Vec::new();
        while slots.len() > 0
            invariant
                defaults0.len() == slots0.len(),
                defaults@.len() == slots@.len(),
                slots@ =~= slots0.take(slots@.len() as int),
                defaults@ =~= defaults0.take(slots@.len() as int),
                rev@.len() + slots@.len() == slots0.len(),
                forall|j: int|
                    0 <= j < rev@.len() ==> #[trigger] rev@[j] == finished_values(
                        slots0,
                        defaults0,
                    )[slots0.len() - 1 - j],
                forall|i: int| 0 <= i < slots0.len() ==> slots0[i] is Some || defaults0[i] is Some,
            decreases slots@.len(),
        {
            let s = match slots.pop() {
                Some(x) => x,
                None => vstd::pervasive::unreached(),
            };
            let d = match defaults.pop() {
                Some(x) => x,
                None => vstd::pervasive::unreached(),
            };
            let ghost k = slots@.len() as int;
            proof {
                assert(s == slots0[k]);
                assert(d == defaults0[k]);
                assert(slots0[k] is Some || defaults0[k] is Some);
                assert(slots@ =~= slots0.take(k));
                assert(defaults@ =~= defaults0.take(k));
            }
            let v = match s {
                Some(v) => v,
                None => {
                    match d {
                        Some(v) => v,
                        None => vstd::pervasive::unreached(),
                    }
                },
            };
            proof {
                assert(v == finished_values(slots0, defaults0)[k]);
            }
            rev.push(v);
        }
        let mut r: Vec<V> = Vec::new();
        while rev.len() > 0
            invariant
                rev@.len() + r@.len() == slots0.len(),
                forall|j: int|
                    0 <= j < rev@.len() ==> #[trigger] rev@[j] == finished_values(
                        slots0,
                        defaults0,
                    )[slots0.len() - 1 - j],
                forall|j: int|
                    0 <= j < r@.len() ==> #[trigger] r@[j] == finished_values(slots0, defaults0)[j],
            decreases rev@.len(),
        {
            let v = match rev.pop() {
                Some(x) => x,
                None => vstd::pervasive::unreached(),
            };
            r.push(v);
        }
        proof {
            assert(r@ =~= finished_values(slots0, defaults0));
        }
        r
    }
}

/// Auto-fill correctness: a field left unset appears in the finished
/// record with exactly its default value, and a field that was set with
/// exactly the value written into it.
pub proof fn lemma_auto_fill<V>(slots: Seq<Option<V>>, defaults: Seq<Option<V>>, j: int)
    requires
        0 <= j < slots.len(),
    ensures
        slots[j] is Some ==> finished_values(slots, defaults)[j] == slots[j]->0,
        slots[j] is None ==> finished_values(slots, defaults)[j] == defaults[j]->0,
{
}

/// The slot table of a fresh builder for `n` fields: nothing written.
pub open spec fn new_slots<V>(n: nat) -> Seq<Option<V>> {
    Seq::new(n, |i: int| Option::<V>::None)
}

/// The flag tuple read off a slot table.
pub open spec fn flags_of<V>(slots: Seq<Option<V>>) -> Seq<bool> {
    Seq::new(slots.len(), |i: int| slots[i] is Some)
}

/// The slot table after a sequence of setter calls, each written as the
/// field set and the value given for it.
pub open spec fn slots_after<V>(init: Seq<Option<V>>, ops: Seq<(usize, V)>) -> Seq<Option<V>>
    decreases ops.len(),
{
    if ops.len() == 0 {
        init
    } else {
        slots_after(init, ops.drop_last()).update(
            ops.last().0 as int,
            Some(ops.last().1),
        )
    }
}

/// One more setter call extends the slot table by one update — the
/// bridge between a chain of `set` calls, whose contract speaks in
/// updates, and a call sequence, which the laws below speak of.
pub proof fn lemma_slots_after_push<V>(
    init: Seq<Option<V>>,
    ops: Seq<(usize, V)>,
    i: usize,
    v: V,
)
    ensures
        slots_after(init, ops.push((i, v))) == slots_after(init, ops).update(i as int, Some(v)),
{
    let pushed = ops.push((i, v));
    assert(pushed.drop_last() =~= ops);
    assert(pushed.last() == (i, v));
}

/// No two calls of the sequence touch the same field.
pub open spec fn distinct_indices<V>(ops: Seq<(usize, V)>) -> bool {
    forall|k1: int, k2: int|
        0 <= k1 < k2 < ops.len() ==> (#[trigger] ops[k1]).0 != (#[trigger] ops[k2]).0
}

/// Every call of the sequence touches a field of the record.
pub open spec fn indices_in_range<V>(ops: Seq<(usize, V)>, n: nat) -> bool {
    forall|k: int| 0 <= k < ops.len() ==> (#[trigger] ops[k]).0 < n
}

/// Whether some call of the sequence sets the field at `j`.
pub open spec fn sets_field<V>(ops: Seq<(usize, V)>, j: int) -> bool {
    exists|k: int| 0 <= k < ops.len() && (#[trigger] ops[k]).0 == j
}

/// What a sequence of setter calls on distinct fields does to the slot
/// table: each call leaves exactly the value it wrote in its own field's
/// slot, and every field no call touched keeps its prior slot.
pub proof fn lemma_slots_after<V>(init: Seq<Option<V>>, ops: Seq<(usize, V)>)
    requires
        indices_in_range(ops, init.len()),
        distinct_indices(ops),
    ensures
        slots_after(init, ops).len() == init.len(),
        forall|j: int|
            0 <= j < init.len() && !sets_field(ops, j) ==> #[trigger] slots_after(init, ops)[j]
                == init[j],
        forall|k: int|
            0 <= k < ops.len() ==> slots_after(init, ops)[(#[trigger] ops[k]).0 as int] == Some(
                ops[k].1,
            ),
    decreases ops.len(),
{
    if ops.len() > 0 {
        let ops1 = ops.drop_last();
        let last = ops.last();
        assert(indices_in_range(ops1, init.len())) by {
            assert forall|k: int| 0 <= k < ops1.len() implies (#[trigger] ops1[k]).0
                < init.len() by {
                assert(ops1[k] == ops[k]);
            }
        }
        assert(distinct_indices(ops1)) by {
            assert forall|k1: int, k2: int| 0 <= k1 < k2 < ops1.len() implies (
            #[trigger] ops1[k1]).0 != (#[trigger] ops1[k2]).0 by {
                assert(ops1[k1] == ops[k1] && ops1[k2] == ops[k2]);
            }
        }
        lemma_slots_after(init, ops1);
        assert forall|j: int| 0 <= j < init.len() && !sets_field(ops, j) implies #[trigger] slots_after(
            init,
            ops,
        )[j] == init[j] by {
            assert forall|k: int| 0 <= k < ops1.len() implies (#[trigger] ops1[k]).0 != j by {
                assert(ops1[k] == ops[k]);
            }
            assert(!sets_field(ops1, j));
            assert((ops[ops.len() - 1]).0 != j);
        }
        assert forall|k: int| 0 <= k < ops.len() implies slots_after(init, ops)[(
        #[trigger] ops[k]).0 as int] == Some(ops[k].1) by {
            if k == ops.len() - 1 {
                assert(slots_after(init, ops)[last.0 as int] == Some(last.1));
            } else {
                assert(ops1[k] == ops[k]);
                assert(slots_after(init, ops1)[ops1[k].0 as int] == Some(ops1[k].1));
                assert(ops[k].0 != last.0);
            }
        }
    }
}

/// Flag accuracy: after any sequence of setter calls on distinct fields
/// of a fresh builder, a field's flag is true exactly when one of the
/// calls set that field. Read on every prefix of a call sequence, the
/// flag tuple equals the set of fields written at every point of the
/// construction.
pub proof fn lemma_flag_accuracy<V>(n: nat, ops: Seq<(usize, V)>)
    requires
        indices_in_range(ops, n),
        distinct_indices(ops),
    ensures
        flags_of(slots_after(new_slots::<V>(n), ops)).len() == n,
        forall|j: int|
            0 <= j < n ==> (#[trigger] flags_of(slots_after(new_slots::<V>(n), ops))[j]
                <==> sets_field(ops, j)),
{
    lemma_slots_after(new_slots::<V>(n), ops);
    let after = slots_after(new_slots::<V>(n), ops);
    assert forall|j: int| 0 <= j < n implies (#[trigger] flags_of(after)[j] <==> sets_field(
        ops,
        j,
    )) by {
        if sets_field(ops, j) {
            let k = choose|k: int| 0 <= k < ops.len() && (#[trigger] ops[k]).0 == j;
            assert(after[(ops[k]).0 as int] == Some(ops[k].1));
        } else {
            assert(after[j] == new_slots::<V>(n)[j]);
        }
    }
}

/// Order independence: two sequences of setter calls that set the same
/// fields to the same values, each field at most once, leave identical
/// slot tables — whatever the order of the calls.
pub proof fn lemma_order_independence<V>(
    init: Seq<Option<V>>,
    ops1: Seq<(usize, V)>,
    ops2: Seq<(usize, V)>,
)
    requires
        indices_in_range(ops1, init.len()),
        distinct_indices(ops1),
        distinct_indices(ops2),
        ops1.to_multiset() == ops2.to_multiset(),
    ensures
        slots_after(init, ops1) == slots_after(init, ops2),
{
    broadcast use vstd::seq_lib::group_to_multiset_ensures;

    assert forall|k: int| 0 <= k < ops2.len() implies (#[trigger] ops2[k]).0 < init.len() by {
        assert(ops2.contains(ops2[k]));
        assert(ops2.to_multiset().count(ops2[k]) > 0);
        assert(ops1.to_multiset().count(ops2[k]) > 0);
        assert(ops1.contains(ops2[k]));
        let k1 = choose|k1: int| 0 <= k1 < ops1.len() && ops1[k1] == ops2[k];
        assert((ops1[k1]).0 < init.len());
    }
    lemma_slots_after(init, ops1);
    lemma_slots_after(init, ops2);
    assert forall|j: int| 0 <= j < init.len() implies slots_after(init, ops1)[j] == slots_after(
        init,
        ops2,
    )[j] by {
        if sets_field(ops1, j) {
            let k1 = choose|k1: int| 0 <= k1 < ops1.len() && (#[trigger] ops1[k1]).0 == j;
            let p = ops1[k1];
            assert(ops1.contains(p));
            assert(ops1.to_multiset().count(p) > 0);
            assert(ops2.to_multiset().count(p) > 0);
            assert(ops2.contains(p));
            let k2 = choose|k2: int| 0 <= k2 < ops2.len() && ops2[k2] == p;
            assert(slots_after(init, ops1)[(ops1[k1]).0 as int] == Some(ops1[k1].1));
            assert(slots_after(init, ops2)[(ops2[k2]).0 as int] == Some(ops2[k2].1));
        } else if sets_field(ops2, j) {
            let k2 = choose|k2: int| 0 <= k2 < ops2.len() && (#[trigger] ops2[k2]).0 == j;
            let p = ops2[k2];
            assert(ops2.contains(p));
            assert(ops2.to_multiset().count(p) > 0);
            assert(ops1.to_multiset().count(p) > 0);
            assert(ops1.contains(p));
            let k1 = choose|k1: int| 0 <= k1 < ops1.len() && ops1[k1] == p;
            assert((ops1[k1]).0 == j);
            assert(sets_field(ops1, j));
        }
    }
    assert(slots_after(init, ops1) =~= slots_after(init, ops2));
}

/// Order independence of the finished record: two call sequences that
/// set the same fields to the same values, in any order, finalize to the
/// bit-identical record.
pub proof fn lemma_finish_order_independence<V>(
    init: Seq<Option<V>>,
    defaults: Seq<Option<V>>,
    ops1: Seq<(usize, V)>,
    ops2: Seq<(usize, V)>,
)
    requires
        indices_in_range(ops1, init.len()),
        distinct_indices(ops1),
        distinct_indices(ops2),
        ops1.to_multiset() == ops2.to_multiset(),
    ensures
        finished_values(slots_after(init, ops1), defaults) == finished_values(
            slots_after(init, ops2),
            defaults,
        ),
{
    lemma_order_independence(init, ops1, ops2);
}

} // verus!
