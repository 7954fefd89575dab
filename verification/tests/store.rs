//! End-to-end tests of the table engine: lock bookkeeping, insert
//! visibility, the typed view, and the shared handle.

use rwmap::{ArcRwMap, RwHashMap, RwMap, RwTypedMap, Value, ValueKind};

fn int_of(v: &Value) -> i64 {
    match v {
        Value::Int(i) => *i,
        _ => panic!("expected an Int"),
    }
}

fn uint_of(v: &Value) -> u64 {
    match v {
        Value::Uint(u) => *u,
        _ => panic!("expected a Uint"),
    }
}

#[test]
fn missing_key_before_any_insert() {
    // A lookup on an empty composite is an ordinary empty result, not a crash.
    let mut m = RwMap::new();
    assert!(m.get(&String::from("missing")).is_none());
    assert!(m.get_mut(&String::from("missing")).is_none());
    assert!(m.get_of(ValueKind::Flag).is_none());
}

#[test]
fn insert_then_get_observes_value() {
    let mut m = RwMap::new();
    assert_eq!(m.insert(String::from("score"), Value::Int(42)), Some(()));
    let h = m.get(&String::from("score")).expect("inserted key must be readable");
    assert_eq!(int_of(m.read(&h)), 42);
    m.release_reader(h);
}

#[test]
fn overwrite_replaces_value_and_discards_lock() {
    let mut m = RwHashMap::<String>::new();
    m.insert(String::from("k"), Value::Int(1));
    m.insert(String::from("k"), Value::Int(2));
    let h = m.get(&String::from("k")).unwrap();
    assert_eq!(int_of(m.read(&h)), 2);
    m.release_reader(h);
}

#[test]
fn writer_excludes_writers_and_readers() {
    // Exclusion: while one exclusive hold is outstanding, a second writer
    // and any reader on the same key are refused.
    let mut m = RwHashMap::<String>::new();
    m.insert(String::from("k"), Value::Int(0));
    let w = m.get_mut(&String::from("k")).unwrap();
    assert!(m.get_mut(&String::from("k")).is_none());
    assert!(m.get(&String::from("k")).is_none());
    m.release_writer(w);
    // Once released, the slot is free again.
    let w2 = m.get_mut(&String::from("k")).unwrap();
    m.release_writer(w2);
}

#[test]
fn readers_share_a_slot() {
    // Reader concurrency: three shared holds on one key, all live at once.
    let mut m = RwHashMap::<String>::new();
    m.insert(String::from("k"), Value::Int(5));
    let r1 = m.get(&String::from("k")).unwrap();
    let r2 = m.get(&String::from("k")).unwrap();
    let r3 = m.get(&String::from("k")).unwrap();
    assert_eq!(int_of(m.read(&r1)), 5);
    assert_eq!(int_of(m.read(&r2)), 5);
    assert_eq!(int_of(m.read(&r3)), 5);
    // A reader excludes a writer until every shared hold is gone.
    assert!(m.get_mut(&String::from("k")).is_none());
    m.release_reader(r1);
    m.release_reader(r2);
    m.release_reader(r3);
    let w = m.get_mut(&String::from("k")).unwrap();
    m.release_writer(w);
}

#[test]
fn writer_on_one_key_leaves_other_keys_free() {
    // Isolation: an exclusive hold on one key never blocks another key.
    let mut m = RwHashMap::<String>::new();
    m.insert(String::from("a"), Value::Int(1));
    m.insert(String::from("b"), Value::Int(2));
    let wa = m.get_mut(&String::from("a")).unwrap();
    let rb = m.get(&String::from("b")).unwrap();
    assert_eq!(int_of(m.read(&rb)), 2);
    m.release_reader(rb);
    let wb = m.get_mut(&String::from("b")).unwrap();
    assert_eq!(int_of(m.peek(&wb)), 2);
    m.release_writer(wb);
    m.release_writer(wa);
}

#[test]
fn absent_key_stays_absent_under_unrelated_inserts() {
    // Not-found stability: a key never inserted keeps returning empty while
    // unrelated keys are inserted.
    let mut m = RwHashMap::<String>::new();
    assert!(m.get(&String::from("ghostly")).is_none());
    m.insert(String::from("other"), Value::Flag(true));
    m.insert(String::from("another"), Value::Uint(9));
    assert!(m.get(&String::from("ghostly")).is_none());
    assert!(m.get_mut(&String::from("ghostly")).is_none());
}

#[test]
fn typed_view_keeps_one_slot_per_kind() {
    // Type-keyed uniqueness: a second value of the same shape replaces the
    // first; the slot count for that shape stays one.
    let mut t = RwTypedMap::new();
    t.insert_of(Value::Uint(1));
    t.insert_of(Value::Uint(2));
    let h = t.get_of(ValueKind::Uint).unwrap();
    assert_eq!(uint_of(t.read(&h)), 2);
    t.release_reader(h);
    // A different shape lives in its own slot.
    t.insert_of(Value::Flag(true));
    let h2 = t.get_of(ValueKind::Uint).unwrap();
    assert_eq!(uint_of(t.read(&h2)), 2);
    t.release_reader(h2);
}

#[test]
fn named_and_typed_increments() {
    // One value registered by name, one by shape; each incremented M times
    // through writer handles; the sub-tables never alias.
    let mut m = RwMap::new();
    m.insert(String::from("score"), Value::Int(42));
    m.insert_of(Value::Uint(0));
    let steps = 10;
    for _ in 0..steps {
        let w = m.get_mut(&String::from("score")).unwrap();
        let cur = int_of(m.peek(&w));
        m.write(&w, Value::Int(cur + 1));
        m.release_writer(w);

        let c = m.get_of_mut(ValueKind::Uint).unwrap();
        let cur = uint_of(m.peek_of(&c));
        m.write_of(&c, Value::Uint(cur + 1));
        m.release_writer_of(c);
    }
    let h = m.get(&String::from("score")).unwrap();
    assert_eq!(int_of(m.read(&h)), 42 + steps);
    m.release_reader(h);
    let h = m.get_of(ValueKind::Uint).unwrap();
    assert_eq!(uint_of(m.read_of(&h)), steps as u64);
    m.release_reader_of(h);
}

#[test]
fn named_and_typed_do_not_alias() {
    let mut m = RwMap::new();
    m.insert(String::from("n"), Value::Uint(7));
    m.insert_of(Value::Uint(8));
    let h = m.get(&String::from("n")).unwrap();
    assert_eq!(uint_of(m.read(&h)), 7);
    m.release_reader(h);
    let h = m.get_of(ValueKind::Uint).unwrap();
    assert_eq!(uint_of(m.read_of(&h)), 8);
    m.release_reader_of(h);
}

#[test]
fn nonlock_escape_hatch_mutates_without_locks() {
    let mut m = RwHashMap::<String>::new();
    m.insert(String::from("solo"), Value::Int(10));
    let w = m.get_mut_nonlock(&String::from("solo")).unwrap();
    assert_eq!(int_of(m.peek(&w)), 10);
    m.write(&w, Value::Int(11));
    // The escape hatch took no lock, so even a writer is still grantable;
    // release of the unsynchronized handle changes nothing.
    m.release_writer(w);
    let w2 = m.get_mut(&String::from("solo")).unwrap();
    assert_eq!(int_of(m.peek(&w2)), 11);
    m.release_writer(w2);
    assert!(m.get_mut_nonlock(&String::from("absent")).is_none());
}

#[test]
fn typed_nonlock_escape_hatch() {
    let mut m = RwMap::new();
    m.insert_of(Value::Flag(false));
    let w = m.get_of_mut_nonlock(ValueKind::Flag).unwrap();
    m.write_of(&w, Value::Flag(true));
    m.release_writer_of(w);
    let h = m.get_of(ValueKind::Flag).unwrap();
    assert!(matches!(m.read_of(&h), Value::Flag(true)));
    m.release_reader_of(h);
}

#[test]
fn shared_handle_round_trip() {
    let mut a = ArcRwMap::new();
    let table = a.exclusive();
    table.insert(String::from("x"), Value::Text(String::from("hello")));
    let h = table.get(&String::from("x")).unwrap();
    match table.read(&h) {
        Value::Text(s) => assert_eq!(s, "hello"),
        _ => panic!("expected Text"),
    }
    table.release_reader(h);
}

#[test]
fn value_kind_tags() {
    assert_eq!(Value::Int(1).kind(), ValueKind::Int);
    assert_eq!(Value::Uint(1).kind(), ValueKind::Uint);
    assert_eq!(Value::Flag(true).kind(), ValueKind::Flag);
    assert_eq!(Value::Text(String::new()).kind(), ValueKind::Text);
    let v = Value::Text(String::from("abc"));
    let w = v.clone();
    match (v, w) {
        (Value::Text(a), Value::Text(b)) => assert_eq!(a, b),
        _ => panic!("clone changed the variant"),
    }
}
