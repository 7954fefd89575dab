//! A heterogeneous key-value store with explicit two-tier lock bookkeeping.
//!
//! The store keeps values of unrelated shapes (modelled by the closed sum type
//! [`Value`]) under one table, keyed either by an arbitrary name or by
//! the value's own shape tag. Every access goes through short-lived reader and
//! writer handles whose lock discipline is recorded in the table's state, so
//! that the classic guarantees of a two-tier reader/writer scheme are stated
//! and proved as contracts rather than trusted.

pub mod err_tostring;
mod err_util;
mod hashmap;
mod laws;
mod or_as_str;
mod text;
mod value;

pub use hashmap::{
    fresh_slot, lemma_index_of_unique, slots_after_insert, slots_can_read, slots_can_write,
    slots_has_key, slots_index_of, slots_quiescent, slots_value_of, slots_wf, typed_slots_wf,
    ArcRwMap, MapReader, MapWriter, RwHashMap, RwMap, RwTypedMap, SlotModel, TableKey,
};
pub use laws::{
    lemma_exclusion, lemma_insert_visibility, lemma_isolation, lemma_not_found_stability,
    lemma_reader_concurrency, lemma_typed_uniqueness,
};
pub use err_util::{ErrToString, HeadingError};
pub use or_as_str::OrAsStr;
pub use text::ToText;
pub use value::{Value, ValueKind};
