//! The locking/storage engine: a table of heterogeneous slots, each with its
//! own reader/writer lock, plus a coarse table lock that serializes structural
//! changes (insertion of new keys) against lookups.
//!
//! The engine is modelled as a single-actor state machine: every slot records
//! how many shared holds and whether an exclusive hold are outstanding, and
//! each operation's contract says exactly how that state changes. An
//! acquisition that a running thread would have to block for — a writer is
//! outstanding on the requested slot, say — surfaces as an empty result here,
//! the same degradation the engine applies to an unusable lock. An operation
//! that would block on a hold of the *calling* thread itself (a structural
//! insert while any handle is still live) can never return, so its contract
//! excludes that state outright.
//!
//! Slots, once created, are never removed and never relocated: a slot's
//! position is stable for the table's whole life, which is why a handle can
//! name its slot by index and why inserting unrelated keys never invalidates
//! an outstanding handle.

use vstd::prelude::*;

use crate::value::{Value, ValueKind};

verus! {

/// The specification-level state of one slot: its key, its stored value, and
/// the lock bookkeeping — how many shared holds and whether an exclusive hold
/// are outstanding.
pub ghost struct SlotModel<KV> {
    /// The key this slot was created under.
    pub key: KV,
    /// The heterogeneous value the slot currently stores.
    pub value: Value,
    /// The number of shared (reader) holds outstanding on this slot.
    pub readers: nat,
    /// Whether an exclusive (writer) hold is outstanding on this slot.
    pub writer: bool,
}

/// Whether some slot of `s` carries the key `k`.
pub open spec fn slots_has_key<KV>(s: Seq<SlotModel<KV>>, k: KV) -> bool {
    exists|i: int| 0 <= i < s.len() && s[i].key == k
}

/// The index of the slot of `s` carrying the key `k` (meaningful only when
/// `slots_has_key(s, k)` holds; unique under `slots_wf`).
pub open spec fn slots_index_of<KV>(s: Seq<SlotModel<KV>>, k: KV) -> int {
    choose|i: int| 0 <= i < s.len() && s[i].key == k
}

/// Well-formedness of a table state: keys are unique, and a slot with an
/// exclusive hold outstanding has no shared holds outstanding.
pub open spec fn slots_wf<KV>(s: Seq<SlotModel<KV>>) -> bool {
    &&& forall|i: int, j: int|
        0 <= i < s.len() && 0 <= j < s.len() && i != j ==> s[i].key != s[j].key
    &&& forall|i: int| 0 <= i < s.len() && #[trigger] s[i].writer ==> s[i].readers == 0
}

/// Whether a shared hold on the slot of key `k` can be granted right now:
/// the key exists, no exclusive hold is outstanding, and the hold count has
/// room. The count of existing shared holds never disables a further reader.
pub open spec fn slots_can_read<KV>(s: Seq<SlotModel<KV>>, k: KV) -> bool {
    &&& slots_has_key(s, k)
    &&& !s[slots_index_of(s, k)].writer
    &&& s[slots_index_of(s, k)].readers < usize::MAX
}

/// Whether an exclusive hold on the slot of key `k` can be granted right now:
/// the key exists and no hold of either kind is outstanding on its slot.
pub open spec fn slots_can_write<KV>(s: Seq<SlotModel<KV>>, k: KV) -> bool {
    &&& slots_has_key(s, k)
    &&& !s[slots_index_of(s, k)].writer
    &&& s[slots_index_of(s, k)].readers == 0
}

/// The value stored under key `k` (meaningful only when the key exists).
pub open spec fn slots_value_of<KV>(s: Seq<SlotModel<KV>>, k: KV) -> Value {
    s[slots_index_of(s, k)].value
}

/// Whether no hold of any kind is outstanding anywhere in the table.
pub open spec fn slots_quiescent<KV>(s: Seq<SlotModel<KV>>) -> bool {
    forall|i: int| 0 <= i < s.len() ==> (#[trigger] s[i]).readers == 0 && !s[i].writer
}

/// A slot as insertion creates it: carrying `k` and `v`, with no holds.
pub open spec fn fresh_slot<KV>(k: KV, v: Value) -> SlotModel<KV> {
    SlotModel { key: k, value: v, readers: 0, writer: false }
}

/// The table state after `insert(k, v)`: an existing slot for `k` is replaced
/// outright (its lock state discarded with it), and a missing key gets a new
/// slot at the end. Slots of other keys are untouched in either case.
pub open spec fn slots_after_insert<KV>(s: Seq<SlotModel<KV>>, k: KV, v: Value) -> Seq<
    SlotModel<KV>,
> {
    if slots_has_key(s, k) {
        s.update(slots_index_of(s, k), fresh_slot(k, v))
    } else {
        s.push(fresh_slot(k, v))
    }
}

/// In a well-formed table, any index whose slot carries `k` is *the* index of
/// `k`: keys are unique, so `slots_index_of` agrees with any witness.
pub proof fn lemma_index_of_unique<KV>(s: Seq<SlotModel<KV>>, k: KV, i: int)
    requires
        slots_wf(s),
        0 <= i < s.len(),
        s[i].key == k,
    ensures
        slots_has_key(s, k),
        slots_index_of(s, k) == i,
{
    assert(slots_has_key(s, k));
    let j = slots_index_of(s, k);
    assert(0 <= j < s.len() && s[j].key == k);
    if i != j {
        assert(s[i].key != s[j].key);
        assert(false);
    }
}

/// A key for a [`RwHashMap`]: hashable-and-comparable is rendered here as an
/// executable equality test that decides equality of the keys' abstract views.
pub trait TableKey: View + Sized {
    /// Decides whether two keys are the same key.
    fn key_eq(&self, other: &Self) -> (b: bool)
        ensures
            b == (self@ == other@),
    ;
}

impl TableKey for String {
    fn key_eq(&self, other: &Self) -> (b: bool)
        ensures
            b == (self@ == other@),
    {
        self.eq(other)
    }
}

impl TableKey for ValueKind {
    fn key_eq(&self, other: &Self) -> (b: bool)
        ensures
            b == (self@ == other@),
    {
        *self == *other
    }
}

/// One entry of the table: the stored value together with that slot's own
/// lock, rendered as explicit hold bookkeeping.
struct MapField {
    value: Value,
    readers: usize,
    writer: bool,
}

impl MapField {
    /// A fresh field around `value`, with no holds outstanding.
    fn new(value: Value) -> (r: Self)
        ensures
            r.value == value,
            r.readers == 0,
            !r.writer,
    {
        Self { value, readers: 0, writer: false }
    }
}

/// A shared-access handle: evidence of one shared hold on the slot whose
/// index it names (plus, conceptually, a shared hold on the table lock).
/// Releasing it through [`RwHashMap::release_reader`] gives both back.
pub struct MapReader {
    idx: usize,
}

impl MapReader {
    /// The index of the slot this handle holds.
    pub closed spec fn index(&self) -> int {
        self.idx as int
    }

    fn new(idx: usize) -> (r: Self)
        ensures
            r.index() == idx,
    {
        MapReader { idx }
    }
}

/// An exclusive-access handle on the slot whose index it names. A handle
/// obtained through the locked path records that it holds the slot's lock;
/// one obtained through the unsynchronized escape hatch records that it holds
/// nothing, and its user carries the exclusivity obligation instead.
pub struct MapWriter {
    idx: usize,
    locked: bool,
}

impl MapWriter {
    /// The index of the slot this handle names.
    pub closed spec fn index(&self) -> int {
        self.idx as int
    }

    /// Whether this handle actually holds the slot's exclusive lock, as
    /// opposed to relying on the caller's own serialization.
    pub closed spec fn is_locked(&self) -> bool {
        self.locked
    }

    fn new(idx: usize, locked: bool) -> (r: Self)
        ensures
            r.index() == idx,
            r.is_locked() == locked,
    {
        MapWriter { idx, locked }
    }
}

/// A table from keys to heterogeneous slots. Lookups take a momentary shared
/// hold of the coarse table lock; insertion takes it exclusively; each slot's
/// own lock serializes access to that slot's value alone.
pub struct RwHashMap<Key: TableKey> {
    table: Vec<(Key, MapField)>,
}

impl<Key: TableKey> View for RwHashMap<Key> {
    type V = Seq<SlotModel<<Key as View>::V>>;

    closed spec fn view(&self) -> Self::V {
        Seq::new(
            self.table@.len(),
            |i: int|
                SlotModel {
                    key: self.table@[i].0@,
                    value: self.table@[i].1.value,
                    readers: self.table@[i].1.readers as nat,
                    writer: self.table@[i].1.writer,
                },
        )
    }
}

impl<Key: TableKey> RwHashMap<Key> {
    /// Well-formedness: unique keys, and exclusive holds exclude shared ones.
    pub open spec fn wf(&self) -> bool {
        slots_wf(self@)
    }

    /// An empty table.
    pub fn new() -> (r: Self)
        ensures
            r.wf(),
            r@ == Seq::<SlotModel<<Key as View>::V>>::empty(),
    {
        let r = Self { table: Vec::new() };
        proof {
            assert(r@ =~= Seq::<SlotModel<<Key as View>::V>>::empty());
        }
        r
    }

    /// Linear scan for `key`, returning its slot index if present.
    fn find(&self, key: &Key) -> (r: Option<usize>)
        ensures
            match r {
                Some(i) => i < self@.len() && self@[i as int].key == key@,
                None => !slots_has_key(self@, key@),
            },
    {
        let n = self.table.len();
        let mut i: usize = 0;
        while i < n
            invariant
                i <= n,
                n == self@.len(),
                forall|j: int| 0 <= j < i ==> self@[j].key != key@,
            decreases n - i,
        {
            assert(self@[i as int].key == self.table@[i as int].0@);
            if self.table[i].0.key_eq(key) {
                return Some(i);
            }
            i += 1;
        }
        None
    }

    /// Looks `key` up and, if its slot exists and a shared hold can be
    /// granted, takes the table lock shared, takes the slot's lock shared,
    /// and returns the handle bundling both. An absent key is an ordinary
    /// "not registered" outcome; a slot whose lock cannot be granted degrades
    /// to the same empty result.
    pub fn get(&mut self, key: &Key) -> (r: Option<MapReader>)
        requires
            old(self).wf(),
        ensures
            final(self).wf(),
            r is Some <==> slots_can_read(old(self)@, key@),
            r is None ==> final(self)@ == old(self)@,
            r matches Some(h) ==> ({
                let i = slots_index_of(old(self)@, key@);
                &&& h.index() == i
                &&& final(self)@ == old(self)@.update(
                    i,
                    (SlotModel {
                        key: old(self)@[i].key,
                        value: old(self)@[i].value,
                        readers: old(self)@[i].readers + 1,
                        writer: false,
                    }),
                )
            }),
    {
        let idx_opt = self.find(key);
        match idx_opt {
            None => {
                proof {
                    assert(!slots_can_read(self@, key@));
                }
                None
            },
            Some(i) => {
                proof {
                    lemma_index_of_unique(self@, key@, i as int);
                }
                if self.table[i].1.writer || self.table[i].1.readers == usize::MAX {
                    proof {
                        assert(self@[i as int].writer == self.table@[i as int].1.writer);
                        assert(!slots_can_read(self@, key@));
                    }
                    None
                } else {
                    let e = &mut self.table[i];
                    e.1.readers = e.1.readers + 1;
                    proof {
                        assert(self@ =~= old(self)@.update(
                            i as int,
                            (SlotModel {
                                key: old(self)@[i as int].key,
                                value: old(self)@[i as int].value,
                                readers: old(self)@[i as int].readers + 1,
                                writer: false,
                            }),
                        ));
                    }
                    Some(MapReader::new(i))
                }
            },
        }
    }

    /// As [`Self::get`], but takes the slot's lock exclusively: the hold is
    /// granted only while no other hold of either kind is outstanding on that
    /// slot. Absent key and ungrantable lock both give the empty result.
    pub fn get_mut(&mut self, key: &Key) -> (r: Option<MapWriter>)
        requires
            old(self).wf(),
        ensures
            final(self).wf(),
            r is Some <==> slots_can_write(old(self)@, key@),
            r is None ==> final(self)@ == old(self)@,
            r matches Some(w) ==> ({
                let i = slots_index_of(old(self)@, key@);
                &&& w.index() == i
                &&& w.is_locked()
                &&& final(self)@ == old(self)@.update(
                    i,
                    (SlotModel {
                        key: old(self)@[i].key,
                        value: old(self)@[i].value,
                        readers: 0,
                        writer: true,
                    }),
                )
            }),
    {
        let idx_opt = self.find(key);
        match idx_opt {
            None => {
                proof {
                    assert(!slots_can_write(self@, key@));
                }
                None
            },
            Some(i) => {
                proof {
                    lemma_index_of_unique(self@, key@, i as int);
                }
                if self.table[i].1.writer || self.table[i].1.readers != 0 {
                    proof {
                        assert(self@[i as int].writer == self.table@[i as int].1.writer);
                        assert(self@[i as int].readers == self.table@[i as int].1.readers as nat);
                        assert(!slots_can_write(self@, key@));
                    }
                    None
                } else {
                    let e = &mut self.table[i];
                    e.1.writer = true;
                    proof {
                        assert(self@ =~= old(self)@.update(
                            i as int,
                            (SlotModel {
                                key: old(self)@[i as int].key,
                                value: old(self)@[i as int].value,
                                readers: 0,
                                writer: true,
                            }),
                        ));
                    }
                    Some(MapWriter::new(i, true))
                }
            },
        }
    }

    /// Takes the table lock exclusively, installs a fresh slot wrapping
    /// `value` — replacing any previous slot for the same key outright, its
    /// lock state discarded with it — and releases the table lock. The
    /// exclusive table hold cannot be granted while any handle is still
    /// outstanding, and this single actor would then wait on itself forever,
    /// so a quiescent table is demanded up front. Slots of other keys are
    /// neither moved nor touched.
    pub fn insert(&mut self, key: Key, value: Value) -> (r: Option<()>)
        requires
            old(self).wf(),
            slots_quiescent(old(self)@),
        ensures
            final(self).wf(),
            slots_quiescent(final(self)@),
            r == Some::<()>(()),
            final(self)@ == slots_after_insert(old(self)@, key@, value),
    {
        let ghost k_view = key@;
        let idx_opt = self.find(&key);
        match idx_opt {
            Some(i) => {
                proof {
                    lemma_index_of_unique(self@, key@, i as int);
                }
                let e = &mut self.table[i];
                *e = (key, MapField::new(value));
                proof {
                    assert(self@ =~= slots_after_insert(old(self)@, k_view, value));
                }
            },
            None => {
                self.table.push((key, MapField::new(value)));
                proof {
                    assert(self@ =~= slots_after_insert(old(self)@, k_view, value));
                }
            },
        }
        Some(())
    }

    /// The unsynchronized escape hatch: names `key`'s slot for exclusive use
    /// **without taking any lock**, leaving the table's lock state untouched.
    /// The caller must guarantee on their own that no other access to the
    /// table is in flight for the duration of use — here that obligation is
    /// the demanded quiescence, and it is checked again when the handle is
    /// used or released. For externally-serialized single-writer contexts
    /// where lock overhead buys nothing.
    pub fn get_mut_nonlock(&self, key: &Key) -> (r: Option<MapWriter>)
        requires
            self.wf(),
            slots_quiescent(self@),
        ensures
            r is Some <==> slots_has_key(self@, key@),
            r matches Some(w) ==> w.index() == slots_index_of(self@, key@) && !w.is_locked(),
    {
        let idx_opt = self.find(key);
        match idx_opt {
            None => None,
            Some(i) => {
                proof {
                    lemma_index_of_unique(self@, key@, i as int);
                }
                Some(MapWriter::new(i, false))
            },
        }
    }

    /// Reads the value a shared-access handle holds.
    pub fn read<'a>(&'a self, r: &MapReader) -> (v: &'a Value)
        requires
            0 <= r.index() < self@.len(),
            self@[r.index()].readers > 0,
        ensures
            *v == self@[r.index()].value,
    {
        let i = r.idx;
        assert(self@[i as int].value == self.table@[i as int].1.value);
        &self.table[i].1.value
    }

    /// Reads the value an exclusive-access handle holds. A locked handle must
    /// actually hold its slot's lock; an unsynchronized one is honoured only
    /// while the slot it names has no hold outstanding — the escape hatch's
    /// caller obligation, restated at each use.
    pub fn peek<'a>(&'a self, w: &MapWriter) -> (v: &'a Value)
        requires
            0 <= w.index() < self@.len(),
            w.is_locked() ==> self@[w.index()].writer,
            !w.is_locked() ==> self@[w.index()].readers == 0 && !self@[w.index()].writer,
        ensures
            *v == self@[w.index()].value,
    {
        let i = w.idx;
        assert(self@[i as int].value == self.table@[i as int].1.value);
        &self.table[i].1.value
    }

    /// Replaces the value of the slot an exclusive-access handle holds,
    /// leaving key and lock state as they were.
    pub fn write(&mut self, w: &MapWriter, value: Value)
        requires
            old(self).wf(),
            0 <= w.index() < old(self)@.len(),
            w.is_locked() ==> old(self)@[w.index()].writer,
            !w.is_locked() ==> old(self)@[w.index()].readers == 0 && !old(self)@[
                w.index()
            ].writer,
        ensures
            final(self).wf(),
            final(self)@ == old(self)@.update(
                w.index(),
                (SlotModel {
                    key: old(self)@[w.index()].key,
                    value: value,
                    readers: old(self)@[w.index()].readers,
                    writer: old(self)@[w.index()].writer,
                }),
            ),
    {
        let i = w.idx;
        let e = &mut self.table[i];
        e.1.value = value;
        proof {
            assert(self@ =~= old(self)@.update(
                i as int,
                (SlotModel {
                    key: old(self)@[i as int].key,
                    value: value,
                    readers: old(self)@[i as int].readers,
                    writer: old(self)@[i as int].writer,
                }),
            ));
        }
    }

    /// Gives back a shared hold: the slot's lock first, the table lock with
    /// it. Every other slot is untouched.
    pub fn release_reader(&mut self, r: MapReader)
        requires
            old(self).wf(),
            0 <= r.index() < old(self)@.len(),
            old(self)@[r.index()].readers > 0,
        ensures
            final(self).wf(),
            final(self)@ == old(self)@.update(
                r.index(),
                (SlotModel {
                    key: old(self)@[r.index()].key,
                    value: old(self)@[r.index()].value,
                    readers: (old(self)@[r.index()].readers - 1) as nat,
                    writer: old(self)@[r.index()].writer,
                }),
            ),
    {
        let i = r.idx;
        let e = &mut self.table[i];
        e.1.readers = e.1.readers - 1;
        proof {
            assert(self@ =~= old(self)@.update(
                i as int,
                (SlotModel {
                    key: old(self)@[i as int].key,
                    value: old(self)@[i as int].value,
                    readers: (old(self)@[i as int].readers - 1) as nat,
                    writer: old(self)@[i as int].writer,
                }),
            ));
        }
    }

    /// Gives back an exclusive hold: a locked handle releases the slot's lock
    /// and the table lock; an unsynchronized handle held no lock, so handing
    /// it back changes nothing.
    pub fn release_writer(&mut self, w: MapWriter)
        requires
            old(self).wf(),
            0 <= w.index() < old(self)@.len(),
            w.is_locked() ==> old(self)@[w.index()].writer,
        ensures
            final(self).wf(),
            !w.is_locked() ==> final(self)@ == old(self)@,
            w.is_locked() ==> final(self)@ == old(self)@.update(
                w.index(),
                (SlotModel {
                    key: old(self)@[w.index()].key,
                    value: old(self)@[w.index()].value,
                    readers: 0,
                    writer: false,
                }),
            ),
    {
        if w.locked {
            let i = w.idx;
            let e = &mut self.table[i];
            e.1.writer = false;
            proof {
                assert(self@[i as int].readers == old(self)@[i as int].readers);
                assert(self@ =~= old(self)@.update(
                    i as int,
                    (SlotModel {
                        key: old(self)@[i as int].key,
                        value: old(self)@[i as int].value,
                        readers: 0,
                        writer: false,
                    }),
                ));
            }
        }
    }
}

/// Well-formedness of a type-keyed table state: on top of [`slots_wf`], every
/// slot's key is exactly the shape tag of the value it stores. This is the
/// invariant that makes the typed lookup a checked cast: asking for a tag
/// can only ever surface a value of that shape.
pub open spec fn typed_slots_wf(s: Seq<SlotModel<ValueKind>>) -> bool {
    &&& slots_wf(s)
    &&& forall|i: int| 0 <= i < s.len() ==> (#[trigger] s[i]).value.spec_kind() == s[i].key
}

/// A [`RwHashMap`] specialized so the key is the stored value's own shape
/// tag: one slot per distinct shape, the key derived rather than supplied.
pub struct RwTypedMap(RwHashMap<ValueKind>);

impl View for RwTypedMap {
    type V = Seq<SlotModel<ValueKind>>;

    closed spec fn view(&self) -> Self::V {
        self.0@
    }
}

impl RwTypedMap {
    /// Well-formedness: the underlying table invariant, plus one slot per
    /// shape tag holding a value of exactly that shape.
    pub open spec fn wf(&self) -> bool {
        typed_slots_wf(self@)
    }

    /// An empty type-keyed table.
    pub fn new() -> (r: Self)
        ensures
            r.wf(),
            r@ == Seq::<SlotModel<ValueKind>>::empty(),
    {
        Self(RwHashMap::new())
    }

    /// A shared hold on the slot of shape `kind`, if that shape was ever
    /// registered and the hold can be granted. Whatever comes back is
    /// guaranteed to be of the requested shape.
    pub fn get_of(&mut self, kind: ValueKind) -> (r: Option<MapReader>)
        requires
            old(self).wf(),
        ensures
            final(self).wf(),
            r is Some <==> slots_can_read(old(self)@, kind),
            r is Some ==> slots_value_of(old(self)@, kind).spec_kind() == kind,
            r is None ==> final(self)@ == old(self)@,
            r matches Some(h) ==> ({
                let i = slots_index_of(old(self)@, kind);
                &&& h.index() == i
                &&& final(self)@ == old(self)@.update(
                    i,
                    (SlotModel {
                        key: old(self)@[i].key,
                        value: old(self)@[i].value,
                        readers: old(self)@[i].readers + 1,
                        writer: false,
                    }),
                )
            }),
    {
        let r = self.0.get(&kind);
        proof {
            if slots_can_read(old(self)@, kind) {
                assert(old(self)@[slots_index_of(old(self)@, kind)].value.spec_kind()
                    == old(self)@[slots_index_of(old(self)@, kind)].key);
            }
        }
        r
    }

    /// An exclusive hold on the slot of shape `kind`, granted only while no
    /// other hold is outstanding on it.
    pub fn get_of_mut(&mut self, kind: ValueKind) -> (r: Option<MapWriter>)
        requires
            old(self).wf(),
        ensures
            final(self).wf(),
            r is Some <==> slots_can_write(old(self)@, kind),
            r is Some ==> slots_value_of(old(self)@, kind).spec_kind() == kind,
            r is None ==> final(self)@ == old(self)@,
            r matches Some(w) ==> ({
                let i = slots_index_of(old(self)@, kind);
                &&& w.index() == i
                &&& w.is_locked()
                &&& final(self)@ == old(self)@.update(
                    i,
                    (SlotModel {
                        key: old(self)@[i].key,
                        value: old(self)@[i].value,
                        readers: 0,
                        writer: true,
                    }),
                )
            }),
    {
        self.0.get_mut(&kind)
    }

    /// The unsynchronized escape hatch of the type-keyed view: names the slot
    /// of shape `kind` without taking any lock. The caller's own
    /// serialization is the demanded quiescence.
    pub fn get_of_mut_nonlock(&self, kind: ValueKind) -> (r: Option<MapWriter>)
        requires
            self.wf(),
            slots_quiescent(self@),
        ensures
            r is Some <==> slots_has_key(self@, kind),
            r matches Some(w) ==> w.index() == slots_index_of(self@, kind) && !w.is_locked(),
    {
        self.0.get_mut_nonlock(&kind)
    }

    /// Registers `value` under its own shape tag, replacing any previous
    /// value of that shape: at most one slot per shape ever exists.
    pub fn insert_of(&mut self, value: Value)
        requires
            old(self).wf(),
            slots_quiescent(old(self)@),
        ensures
            final(self).wf(),
            slots_quiescent(final(self)@),
            final(self)@ == slots_after_insert(old(self)@, value.spec_kind(), value),
    {
        let ghost v = value;
        let k = value.kind();
        let _ = self.0.insert(k, value);
        proof {
            let s = old(self)@;
            let t = self@;
            assert forall|i: int| 0 <= i < t.len() implies (#[trigger] t[i]).value.spec_kind()
                == t[i].key by {
                if slots_has_key(s, v.spec_kind()) {
                    if i != slots_index_of(s, v.spec_kind()) {
                        assert(t[i] == s[i]);
                    }
                } else {
                    if i < s.len() {
                        assert(t[i] == s[i]);
                    }
                }
            }
        }
    }

    /// Reads the value a shared-access handle holds.
    pub fn read<'a>(&'a self, r: &MapReader) -> (v: &'a Value)
        requires
            0 <= r.index() < self@.len(),
            self@[r.index()].readers > 0,
        ensures
            *v == self@[r.index()].value,
    {
        self.0.read(r)
    }

    /// Reads the value an exclusive-access handle holds.
    pub fn peek<'a>(&'a self, w: &MapWriter) -> (v: &'a Value)
        requires
            0 <= w.index() < self@.len(),
            w.is_locked() ==> self@[w.index()].writer,
            !w.is_locked() ==> self@[w.index()].readers == 0 && !self@[w.index()].writer,
        ensures
            *v == self@[w.index()].value,
    {
        self.0.peek(w)
    }

    /// Replaces the value of the slot an exclusive-access handle holds. The
    /// new value must be of the slot's shape: a typed slot never changes
    /// shape under a writer.
    pub fn write(&mut self, w: &MapWriter, value: Value)
        requires
            old(self).wf(),
            0 <= w.index() < old(self)@.len(),
            value.spec_kind() == old(self)@[w.index()].key,
            w.is_locked() ==> old(self)@[w.index()].writer,
            !w.is_locked() ==> old(self)@[w.index()].readers == 0 && !old(self)@[
                w.index()
            ].writer,
        ensures
            final(self).wf(),
            final(self)@ == old(self)@.update(
                w.index(),
                (SlotModel {
                    key: old(self)@[w.index()].key,
                    value: value,
                    readers: old(self)@[w.index()].readers,
                    writer: old(self)@[w.index()].writer,
                }),
            ),
    {
        self.0.write(w, value);
        proof {
            let s = old(self)@;
            let t = self@;
            assert forall|i: int| 0 <= i < t.len() implies (#[trigger] t[i]).value.spec_kind()
                == t[i].key by {
                if i != w.index() {
                    assert(t[i] == s[i]);
                }
            }
        }
    }

    /// Gives back a shared hold.
    pub fn release_reader(&mut self, r: MapReader)
        requires
            old(self).wf(),
            0 <= r.index() < old(self)@.len(),
            old(self)@[r.index()].readers > 0,
        ensures
            final(self).wf(),
            final(self)@ == old(self)@.update(
                r.index(),
                (SlotModel {
                    key: old(self)@[r.index()].key,
                    value: old(self)@[r.index()].value,
                    readers: (old(self)@[r.index()].readers - 1) as nat,
                    writer: old(self)@[r.index()].writer,
                }),
            ),
    {
        let ghost i = r.index();
        self.0.release_reader(r);
        proof {
            let s = old(self)@;
            let t = self@;
            assert forall|j: int| 0 <= j < t.len() implies (#[trigger] t[j]).value.spec_kind()
                == t[j].key by {
                if j != i {
                    assert(t[j] == s[j]);
                }
            }
        }
    }

    /// Gives back an exclusive hold; an unsynchronized handle held nothing.
    pub fn release_writer(&mut self, w: MapWriter)
        requires
            old(self).wf(),
            0 <= w.index() < old(self)@.len(),
            w.is_locked() ==> old(self)@[w.index()].writer,
        ensures
            final(self).wf(),
            !w.is_locked() ==> final(self)@ == old(self)@,
            w.is_locked() ==> final(self)@ == old(self)@.update(
                w.index(),
                (SlotModel {
                    key: old(self)@[w.index()].key,
                    value: old(self)@[w.index()].value,
                    readers: 0,
                    writer: false,
                }),
            ),
    {
        let ghost i = w.index();
        let ghost was_locked = w.is_locked();
        self.0.release_writer(w);
        proof {
            if was_locked {
                let s = old(self)@;
                let t = self@;
                assert forall|j: int| 0 <= j < t.len() implies (#[trigger] t[j]).value.spec_kind()
                    == t[j].key by {
                    if j != i {
                        assert(t[j] == s[j]);
                    }
                }
            }
        }
    }
}

/// The named+typed composite: one string-keyed table and one type-keyed
/// table behind a single facade, so callers can register data either by name
/// or by the value's own shape. The two sub-tables are independent — a value
/// under a name and a same-shaped value under its tag never alias — and no
/// operation touches both, so the composite adds no locking of its own.
pub struct RwMap {
    named: RwHashMap<String>,
    typed: RwTypedMap,
}

impl RwMap {
    /// The state of the string-keyed sub-table.
    pub closed spec fn named_slots(&self) -> Seq<SlotModel<Seq<char>>> {
        self.named@
    }

    /// The state of the type-keyed sub-table.
    pub closed spec fn typed_slots(&self) -> Seq<SlotModel<ValueKind>> {
        self.typed@
    }

    /// Well-formedness of both sub-tables.
    pub open spec fn wf(&self) -> bool {
        &&& slots_wf(self.named_slots())
        &&& typed_slots_wf(self.typed_slots())
    }

    /// An empty composite.
    pub fn new() -> (r: Self)
        ensures
            r.wf(),
            r.named_slots() == Seq::<SlotModel<Seq<char>>>::empty(),
            r.typed_slots() == Seq::<SlotModel<ValueKind>>::empty(),
    {
        Self { named: RwHashMap::<String>::new(), typed: RwTypedMap::new() }
    }

    /// A shared hold on the named slot of `key`, if present and grantable.
    /// The type-keyed sub-table is untouched.
    pub fn get(&mut self, key: &String) -> (r: Option<MapReader>)
        requires
            old(self).wf(),
        ensures
            final(self).wf(),
            final(self).typed_slots() == old(self).typed_slots(),
            r is Some <==> slots_can_read(old(self).named_slots(), key@),
            r is None ==> final(self).named_slots() == old(self).named_slots(),
            r matches Some(h) ==> ({
                let s = old(self).named_slots();
                let i = slots_index_of(s, key@);
                &&& h.index() == i
                &&& final(self).named_slots() == s.update(
                    i,
                    (SlotModel { key: s[i].key, value: s[i].value, readers: s[i].readers + 1, writer: false }),
                )
            }),
    {
        self.named.get(key)
    }

    /// An exclusive hold on the named slot of `key`, if present and free.
    pub fn get_mut(&mut self, key: &String) -> (r: Option<MapWriter>)
        requires
            old(self).wf(),
        ensures
            final(self).wf(),
            final(self).typed_slots() == old(self).typed_slots(),
            r is Some <==> slots_can_write(old(self).named_slots(), key@),
            r is None ==> final(self).named_slots() == old(self).named_slots(),
            r matches Some(w) ==> ({
                let s = old(self).named_slots();
                let i = slots_index_of(s, key@);
                &&& w.index() == i
                &&& w.is_locked()
                &&& final(self).named_slots() == s.update(
                    i,
                    (SlotModel { key: s[i].key, value: s[i].value, readers: 0, writer: true }),
                )
            }),
    {
        self.named.get_mut(key)
    }

    /// The unsynchronized escape hatch on the named sub-table.
    pub fn get_mut_nonlock(&self, key: &String) -> (r: Option<MapWriter>)
        requires
            self.wf(),
            slots_quiescent(self.named_slots()),
        ensures
            r is Some <==> slots_has_key(self.named_slots(), key@),
            r matches Some(w) ==> w.index() == slots_index_of(self.named_slots(), key@)
                && !w.is_locked(),
    {
        self.named.get_mut_nonlock(key)
    }

    /// Registers `value` under `key` in the named sub-table, replacing any
    /// previous slot for that name outright.
    pub fn insert(&mut self, key: String, value: Value) -> (r: Option<()>)
        requires
            old(self).wf(),
            slots_quiescent(old(self).named_slots()),
        ensures
            final(self).wf(),
            final(self).typed_slots() == old(self).typed_slots(),
            slots_quiescent(final(self).named_slots()),
            r == Some::<()>(()),
            final(self).named_slots() == slots_after_insert(
                old(self).named_slots(),
                key@,
                value,
            ),
    {
        self.named.insert(key, value)
    }

    /// A shared hold on the typed slot of shape `kind`; whatever comes back
    /// is of that shape. The named sub-table is untouched.
    pub fn get_of(&mut self, kind: ValueKind) -> (r: Option<MapReader>)
        requires
            old(self).wf(),
        ensures
            final(self).wf(),
            final(self).named_slots() == old(self).named_slots(),
            r is Some <==> slots_can_read(old(self).typed_slots(), kind),
            r is Some ==> slots_value_of(old(self).typed_slots(), kind).spec_kind() == kind,
            r is None ==> final(self).typed_slots() == old(self).typed_slots(),
            r matches Some(h) ==> ({
                let s = old(self).typed_slots();
                let i = slots_index_of(s, kind);
                &&& h.index() == i
                &&& final(self).typed_slots() == s.update(
                    i,
                    (SlotModel { key: s[i].key, value: s[i].value, readers: s[i].readers + 1, writer: false }),
                )
            }),
    {
        self.typed.get_of(kind)
    }

    /// An exclusive hold on the typed slot of shape `kind`.
    pub fn get_of_mut(&mut self, kind: ValueKind) -> (r: Option<MapWriter>)
        requires
            old(self).wf(),
        ensures
            final(self).wf(),
            final(self).named_slots() == old(self).named_slots(),
            r is Some <==> slots_can_write(old(self).typed_slots(), kind),
            r is Some ==> slots_value_of(old(self).typed_slots(), kind).spec_kind() == kind,
            r is None ==> final(self).typed_slots() == old(self).typed_slots(),
            r matches Some(w) ==> ({
                let s = old(self).typed_slots();
                let i = slots_index_of(s, kind);
                &&& w.index() == i
                &&& w.is_locked()
                &&& final(self).typed_slots() == s.update(
                    i,
                    (SlotModel { key: s[i].key, value: s[i].value, readers: 0, writer: true }),
                )
            }),
    {
        self.typed.get_of_mut(kind)
    }

    /// The unsynchronized escape hatch on the type-keyed sub-table.
    pub fn get_of_mut_nonlock(&self, kind: ValueKind) -> (r: Option<MapWriter>)
        requires
            self.wf(),
            slots_quiescent(self.typed_slots()),
        ensures
            r is Some <==> slots_has_key(self.typed_slots(), kind),
            r matches Some(w) ==> w.index() == slots_index_of(self.typed_slots(), kind)
                && !w.is_locked(),
    {
        self.typed.get_of_mut_nonlock(kind)
    }

    /// Registers `value` under its own shape tag in the typed sub-table.
    pub fn insert_of(&mut self, value: Value)
        requires
            old(self).wf(),
            slots_quiescent(old(self).typed_slots()),
        ensures
            final(self).wf(),
            final(self).named_slots() == old(self).named_slots(),
            slots_quiescent(final(self).typed_slots()),
            final(self).typed_slots() == slots_after_insert(
                old(self).typed_slots(),
                value.spec_kind(),
                value,
            ),
    {
        self.typed.insert_of(value)
    }

    /// Reads the value a named shared-access handle holds.
    pub fn read<'a>(&'a self, r: &MapReader) -> (v: &'a Value)
        requires
            0 <= r.index() < self.named_slots().len(),
            self.named_slots()[r.index()].readers > 0,
        ensures
            *v == self.named_slots()[r.index()].value,
    {
        self.named.read(r)
    }

    /// Reads the value a named exclusive-access handle holds.
    pub fn peek<'a>(&'a self, w: &MapWriter) -> (v: &'a Value)
        requires
            0 <= w.index() < self.named_slots().len(),
            w.is_locked() ==> self.named_slots()[w.index()].writer,
            !w.is_locked() ==> self.named_slots()[w.index()].readers == 0 && !self.named_slots()[
                w.index()
            ].writer,
        ensures
            *v == self.named_slots()[w.index()].value,
    {
        self.named.peek(w)
    }

    /// Replaces the value under a named exclusive-access handle.
    pub fn write(&mut self, w: &MapWriter, value: Value)
        requires
            old(self).wf(),
            0 <= w.index() < old(self).named_slots().len(),
            w.is_locked() ==> old(self).named_slots()[w.index()].writer,
            !w.is_locked() ==> old(self).named_slots()[w.index()].readers == 0 && !old(
                self,
            ).named_slots()[w.index()].writer,
        ensures
            final(self).wf(),
            final(self).typed_slots() == old(self).typed_slots(),
            final(self).named_slots() == old(self).named_slots().update(
                w.index(),
                (SlotModel {
                    key: old(self).named_slots()[w.index()].key,
                    value: value,
                    readers: old(self).named_slots()[w.index()].readers,
                    writer: old(self).named_slots()[w.index()].writer,
                }),
            ),
    {
        self.named.write(w, value)
    }

    /// Gives back a named shared hold.
    pub fn release_reader(&mut self, r: MapReader)
        requires
            old(self).wf(),
            0 <= r.index() < old(self).named_slots().len(),
            old(self).named_slots()[r.index()].readers > 0,
        ensures
            final(self).wf(),
            final(self).typed_slots() == old(self).typed_slots(),
            final(self).named_slots() == old(self).named_slots().update(
                r.index(),
                (SlotModel {
                    key: old(self).named_slots()[r.index()].key,
                    value: old(self).named_slots()[r.index()].value,
                    readers: (old(self).named_slots()[r.index()].readers - 1) as nat,
                    writer: old(self).named_slots()[r.index()].writer,
                }),
            ),
    {
        self.named.release_reader(r)
    }

    /// Gives back a named exclusive hold.
    pub fn release_writer(&mut self, w: MapWriter)
        requires
            old(self).wf(),
            0 <= w.index() < old(self).named_slots().len(),
            w.is_locked() ==> old(self).named_slots()[w.index()].writer,
        ensures
            final(self).wf(),
            final(self).typed_slots() == old(self).typed_slots(),
            !w.is_locked() ==> final(self).named_slots() == old(self).named_slots(),
            w.is_locked() ==> final(self).named_slots() == old(self).named_slots().update(
                w.index(),
                (SlotModel {
                    key: old(self).named_slots()[w.index()].key,
                    value: old(self).named_slots()[w.index()].value,
                    readers: 0,
                    writer: false,
                }),
            ),
    {
        self.named.release_writer(w)
    }

    /// Reads the value a typed shared-access handle holds.
    pub fn read_of<'a>(&'a self, r: &MapReader) -> (v: &'a Value)
        requires
            0 <= r.index() < self.typed_slots().len(),
            self.typed_slots()[r.index()].readers > 0,
        ensures
            *v == self.typed_slots()[r.index()].value,
    {
        self.typed.read(r)
    }

    /// Reads the value a typed exclusive-access handle holds.
    pub fn peek_of<'a>(&'a self, w: &MapWriter) -> (v: &'a Value)
        requires
            0 <= w.index() < self.typed_slots().len(),
            w.is_locked() ==> self.typed_slots()[w.index()].writer,
            !w.is_locked() ==> self.typed_slots()[w.index()].readers == 0 && !self.typed_slots()[
                w.index()
            ].writer,
        ensures
            *v == self.typed_slots()[w.index()].value,
    {
        self.typed.peek(w)
    }

    /// Replaces the value under a typed exclusive-access handle; the new
    /// value must be of the slot's shape.
    pub fn write_of(&mut self, w: &MapWriter, value: Value)
        requires
            old(self).wf(),
            0 <= w.index() < old(self).typed_slots().len(),
            value.spec_kind() == old(self).typed_slots()[w.index()].key,
            w.is_locked() ==> old(self).typed_slots()[w.index()].writer,
            !w.is_locked() ==> old(self).typed_slots()[w.index()].readers == 0 && !old(
                self,
            ).typed_slots()[w.index()].writer,
        ensures
            final(self).wf(),
            final(self).named_slots() == old(self).named_slots(),
            final(self).typed_slots() == old(self).typed_slots().update(
                w.index(),
                (SlotModel {
                    key: old(self).typed_slots()[w.index()].key,
                    value: value,
                    readers: old(self).typed_slots()[w.index()].readers,
                    writer: old(self).typed_slots()[w.index()].writer,
                }),
            ),
    {
        self.typed.write(w, value)
    }

    /// Gives back a typed shared hold.
    pub fn release_reader_of(&mut self, r: MapReader)
        requires
            old(self).wf(),
            0 <= r.index() < old(self).typed_slots().len(),
            old(self).typed_slots()[r.index()].readers > 0,
        ensures
            final(self).wf(),
            final(self).named_slots() == old(self).named_slots(),
            final(self).typed_slots() == old(self).typed_slots().update(
                r.index(),
                (SlotModel {
                    key: old(self).typed_slots()[r.index()].key,
                    value: old(self).typed_slots()[r.index()].value,
                    readers: (old(self).typed_slots()[r.index()].readers - 1) as nat,
                    writer: old(self).typed_slots()[r.index()].writer,
                }),
            ),
    {
        self.typed.release_reader(r)
    }

    /// Gives back a typed exclusive hold.
    pub fn release_writer_of(&mut self, w: MapWriter)
        requires
            old(self).wf(),
            0 <= w.index() < old(self).typed_slots().len(),
            w.is_locked() ==> old(self).typed_slots()[w.index()].writer,
        ensures
            final(self).wf(),
            final(self).named_slots() == old(self).named_slots(),
            !w.is_locked() ==> final(self).typed_slots() == old(self).typed_slots(),
            w.is_locked() ==> final(self).typed_slots() == old(self).typed_slots().update(
                w.index(),
                (SlotModel {
                    key: old(self).typed_slots()[w.index()].key,
                    value: old(self).typed_slots()[w.index()].value,
                    readers: 0,
                    writer: false,
                }),
            ),
    {
        self.typed.release_writer(w)
    }
}

/// The shared handle around one composite. Ownership and synchronization are
/// separate concerns: the contents are mutated through the tables' own lock
/// discipline, while *structural* exclusive access to the composite is
/// available exactly when the holder is the sole owner — which an exclusive
/// borrow of this handle witnesses.
pub struct ArcRwMap(RwMap);

impl ArcRwMap {
    /// The composite this handle owns.
    pub closed spec fn inner(&self) -> RwMap {
        self.0
    }

    /// A fresh handle around an empty composite.
    pub fn new() -> (r: Self)
        ensures
            r.inner().wf(),
            r.inner().named_slots() == Seq::<SlotModel<Seq<char>>>::empty(),
            r.inner().typed_slots() == Seq::<SlotModel<ValueKind>>::empty(),
    {
        Self(RwMap::new())
    }

    /// Shared access to the composite, available to every holder.
    pub fn shared(&self) -> (r: &RwMap)
        ensures
            *r == self.inner(),
    {
        &self.0
    }

    /// Exclusive access to the composite, available only to a sole owner —
    /// here, to whoever holds the handle exclusively.
    pub fn exclusive(&mut self) -> (r: &mut RwMap)
        ensures
            *r == old(self).inner(),
            final(self).inner() == *final(r),
    {
        &mut self.0
    }
}

} // verus!
