//! The engine's guarantees, stated once over the table model and proved.
//!
//! Each law is a public proof function over the specification-level table
//! state of [`crate::hashmap`]. They are phrased against the same predicates
//! the operations' contracts use — [`slots_can_read`], [`slots_can_write`],
//! [`slots_after_insert`] and friends — so that what an operation promises
//! and what a law states meet in the same vocabulary.

use vstd::prelude::*;

use crate::hashmap::{
    fresh_slot, lemma_index_of_unique, slots_after_insert, slots_can_read, slots_can_write,
    slots_has_key, slots_index_of, slots_quiescent, slots_value_of, slots_wf, typed_slots_wf,
    SlotModel,
};
use crate::value::{Value, ValueKind};

verus! {

/// Isolation: holds on one key never affect another. If two well-formed
/// table states agree on every slot except the slot of key `k1` — whose lock
/// state may differ arbitrarily while key and value stay put — then for any
/// other key `k2`, whether a shared or an exclusive hold can be granted, and
/// which value sits there, is identical in both states. In particular, a
/// writer appearing on `k1` never disables a concurrent reader or writer
/// on `k2`.
pub proof fn lemma_isolation<KV>(
    s1: Seq<SlotModel<KV>>,
    s2: Seq<SlotModel<KV>>,
    k1: KV,
    k2: KV,
)
    requires
        slots_wf(s1),
        slots_wf(s2),
        k1 != k2,
        s1.len() == s2.len(),
        forall|i: int| 0 <= i < s1.len() ==> (#[trigger] s1[i]).key == s2[i].key && s1[i].value
            == s2[i].value,
        forall|i: int| 0 <= i < s1.len() && (#[trigger] s1[i]).key != k1 ==> s1[i] == s2[i],
    ensures
        slots_has_key(s1, k2) == slots_has_key(s2, k2),
        slots_can_read(s1, k2) == slots_can_read(s2, k2),
        slots_can_write(s1, k2) == slots_can_write(s2, k2),
        slots_has_key(s1, k2) ==> slots_value_of(s1, k2) == slots_value_of(s2, k2),
{
    if slots_has_key(s1, k2) {
        let i = slots_index_of(s1, k2);
        assert(0 <= i < s1.len() && s1[i].key == k2);
        assert(s2[i].key == k2);
        lemma_index_of_unique(s2, k2, i);
        assert(s1[i] == s2[i]);
    }
    if slots_has_key(s2, k2) {
        let i = slots_index_of(s2, k2);
        assert(0 <= i < s2.len() && s2[i].key == k2);
        assert(s1[i].key == k2);
        lemma_index_of_unique(s1, k2, i);
    }
}

/// Exclusion: while an exclusive hold is outstanding on the slot of `k`, no
/// further hold of either kind can be granted on `k`, and no shared hold is
/// outstanding beside it — exclusive windows on one key never overlap with
/// anything on that key.
pub proof fn lemma_exclusion<KV>(s: Seq<SlotModel<KV>>, k: KV)
    requires
        slots_wf(s),
        slots_has_key(s, k),
        s[slots_index_of(s, k)].writer,
    ensures
        !slots_can_read(s, k),
        !slots_can_write(s, k),
        s[slots_index_of(s, k)].readers == 0,
{
    let i = slots_index_of(s, k);
    assert(0 <= i < s.len() && s[i].key == k);
    assert(s[i].writer ==> s[i].readers == 0);
}

/// Reader concurrency: the number of shared holds already outstanding on the
/// slot of `k` never disqualifies one more reader. As long as no exclusive
/// hold is outstanding (and the hold count has room), a further shared hold
/// is granted, whatever `readers` already is — so any number of readers can
/// hold the same slot simultaneously.
pub proof fn lemma_reader_concurrency<KV>(s: Seq<SlotModel<KV>>, k: KV)
    requires
        slots_wf(s),
        slots_has_key(s, k),
        !s[slots_index_of(s, k)].writer,
        s[slots_index_of(s, k)].readers < usize::MAX,
    ensures
        slots_can_read(s, k),
{
}

/// Insert visibility and stability: after `insert(k, v)` the table is again
/// well formed, `k` is present holding exactly `v` with a fresh, free lock —
/// so any subsequent lookup of `k` is granted and observes `v` — and every
/// other key's slot is exactly what it was, present or absent as before.
pub proof fn lemma_insert_visibility<KV>(s: Seq<SlotModel<KV>>, k: KV, v: Value)
    requires
        slots_wf(s),
    ensures
        slots_wf(slots_after_insert(s, k, v)),
        slots_has_key(slots_after_insert(s, k, v), k),
        slots_value_of(slots_after_insert(s, k, v), k) == v,
        slots_can_read(slots_after_insert(s, k, v), k),
        slots_can_write(slots_after_insert(s, k, v), k),
        forall|k2: KV| k2 != k ==> slots_has_key(slots_after_insert(s, k, v), k2)
            == slots_has_key(s, k2),
        forall|k2: KV| k2 != k && slots_has_key(s, k2) ==> slots_value_of(
            slots_after_insert(s, k, v),
            k2,
        ) == slots_value_of(s, k2),
{
    let t = slots_after_insert(s, k, v);
    if slots_has_key(s, k) {
        let i = slots_index_of(s, k);
        assert(0 <= i < s.len() && s[i].key == k);
        assert(t == s.update(i, fresh_slot(k, v)));
        assert(forall|j: int| 0 <= j < t.len() && j != i ==> t[j] == s[j]);
        assert(t[i] == fresh_slot(k, v));
        assert(slots_wf(t));
        lemma_index_of_unique(t, k, i);
        assert forall|k2: KV| k2 != k implies slots_has_key(t, k2) == slots_has_key(s, k2) by {
            if slots_has_key(s, k2) {
                let j = slots_index_of(s, k2);
                assert(j != i);
                assert(t[j].key == k2);
            }
            if slots_has_key(t, k2) {
                let j = slots_index_of(t, k2);
                assert(j != i);
                assert(s[j].key == k2);
            }
        }
        assert forall|k2: KV| k2 != k && slots_has_key(s, k2) implies slots_value_of(t, k2)
            == slots_value_of(s, k2) by {
            let j = slots_index_of(s, k2);
            assert(j != i);
            assert(t[j].key == k2);
            lemma_index_of_unique(t, k2, j);
        }
    } else {
        let n = s.len() as int;
        assert(t == s.push(fresh_slot(k, v)));
        assert(t[n] == fresh_slot(k, v));
        assert(forall|j: int| 0 <= j < n ==> t[j] == s[j]);
        assert forall|i: int, j: int|
            0 <= i < t.len() && 0 <= j < t.len() && i != j implies t[i].key != t[j].key by {
            if i < n && j < n {
                assert(s[i].key != s[j].key);
            } else if i == n {
                assert(t[j].key == s[j].key);
                assert(s[j].key != k);
            } else {
                assert(t[i].key == s[i].key);
                assert(s[i].key != k);
            }
        }
        assert(slots_wf(t));
        lemma_index_of_unique(t, k, n);
        assert forall|k2: KV| k2 != k implies slots_has_key(t, k2) == slots_has_key(s, k2) by {
            if slots_has_key(s, k2) {
                let j = slots_index_of(s, k2);
                assert(t[j].key == k2);
            }
            if slots_has_key(t, k2) {
                let j = slots_index_of(t, k2);
                assert(j != n);
                assert(s[j].key == k2);
            }
        }
        assert forall|k2: KV| k2 != k && slots_has_key(s, k2) implies slots_value_of(t, k2)
            == slots_value_of(s, k2) by {
            let j = slots_index_of(s, k2);
            assert(t[j].key == k2);
            lemma_index_of_unique(t, k2, j);
        }
    }
}

/// Not-found stability: a key never inserted stays absent — deterministically
/// an empty result, never a grant — under any insert of an unrelated key.
pub proof fn lemma_not_found_stability<KV>(s: Seq<SlotModel<KV>>, k: KV, k2: KV, v: Value)
    requires
        slots_wf(s),
        !slots_has_key(s, k),
        k2 != k,
    ensures
        !slots_has_key(slots_after_insert(s, k2, v), k),
        !slots_can_read(slots_after_insert(s, k2, v), k),
        !slots_can_write(slots_after_insert(s, k2, v), k),
        !slots_can_read(s, k),
        !slots_can_write(s, k),
{
    lemma_insert_visibility(s, k2, v);
}

/// Type-keyed uniqueness: registering two values of the same shape, one
/// after the other, leaves exactly one slot of that shape — holding the
/// second value — in a still well-formed type-keyed table.
pub proof fn lemma_typed_uniqueness(s: Seq<SlotModel<ValueKind>>, v1: Value, v2: Value)
    requires
        typed_slots_wf(s),
        v1.spec_kind() == v2.spec_kind(),
    ensures
        ({
            let t = slots_after_insert(
                slots_after_insert(s, v1.spec_kind(), v1),
                v2.spec_kind(),
                v2,
            );
            &&& slots_has_key(t, v2.spec_kind())
            &&& slots_value_of(t, v2.spec_kind()) == v2
            &&& forall|i: int, j: int|
                0 <= i < t.len() && 0 <= j < t.len() && t[i].key == v2.spec_kind() && t[j].key
                    == v2.spec_kind() ==> i == j
        }),
{
    let k = v2.spec_kind();
    let m = slots_after_insert(s, k, v1);
    let t = slots_after_insert(m, k, v2);
    lemma_insert_visibility(s, k, v1);
    lemma_insert_visibility(m, k, v2);
    assert(slots_wf(t));
}

} // verus!
