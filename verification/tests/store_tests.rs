use plushy::Id;
use plushy::Store;

#[test]
fn empty_store_is_okay() {
    let store = Store::new();

    assert!(store.iter::<i32>().is_empty());
    assert!(store.iter::<i64>().is_empty());
    assert!(store.iter::<bool>().is_empty());
    assert!(store.iter::<String>().is_empty());
}

#[test]
fn get_on_fresh_store_is_none() {
    let store = Store::new();

    assert_eq!(None, store.get(Id::<i32>::new(0, 0)));
    assert_eq!(None, store.get(Id::<String>::new(3, 7)));
}

#[test]
fn round_trip() {
    let mut store = Store::new();

    let id1 = store.spawn(3);
    let id2 = store.spawn(2);

    assert_eq!(Some(&3), store.get(id1));
    assert_eq!(Some(&2), store.get(id2));

    let idl = store.spawn(9_000_000_000i64);
    let idb = store.spawn(true);
    let ids = store.spawn(String::from("hello"));

    assert_eq!(Some(&9_000_000_000i64), store.get(idl));
    assert_eq!(Some(&true), store.get(idb));
    assert_eq!(Some(&String::from("hello")), store.get(ids));
}

#[test]
fn generation_invalidation() {
    let mut store = Store::new();

    let id1 = store.spawn(41);
    assert_eq!(Some(41), store.remove(id1));

    // The freed slot may be reused, but the stale handle must stay dead.
    let id2 = store.spawn(42);
    assert!(!(id1 == id2));
    assert_eq!(None, store.get(id1));
    assert_eq!(Some(&42), store.get(id2));

    // A second remove with the stale handle removes nothing.
    assert_eq!(None, store.remove(id1));
    assert_eq!(Some(&42), store.get(id2));
}

#[test]
fn type_isolation() {
    let mut store = Store::new();

    let id = store.spawn(7);

    // The value is visible to i32 queries alone.
    assert_eq!(1, store.iter::<i32>().len());
    assert!(store.iter::<i64>().is_empty());
    assert!(store.iter::<bool>().is_empty());
    assert!(store.iter::<String>().is_empty());

    // A handle with the same numbers but another type finds nothing.
    let foreign = Id::<i64>::new(id.slot, id.generation);
    assert_eq!(None, store.get(foreign));
}

#[test]
fn mutation_visibility() {
    let mut store = Store::new();

    let id1 = store.spawn(3);
    let id2 = store.spawn(2);

    assert_eq!(Some(&mut 3), store.get_mut(id1));

    *store.get_mut(id1).unwrap() = 4;
    *store.get_mut(id2).unwrap() = 5;

    assert_eq!(Some(&4), store.get(id1));
    assert_eq!(Some(&5), store.get(id2));

    let it = store.iter::<i32>();
    assert_eq!(2, it.len());
    assert_eq!(4, *it[0].1);
    assert_eq!(5, *it[1].1);
}

#[test]
fn iteration_scenario() {
    let mut store = Store::new();

    let id_a = store.spawn(3);
    let id_b = store.spawn(2);

    {
        let it = store.iter::<i32>();
        assert_eq!(2, it.len());
        assert!(it[0].0 == id_a);
        assert_eq!(3, *it[0].1);
        assert!(it[1].0 == id_b);
        assert_eq!(2, *it[1].1);
    }

    assert_eq!(Some(3), store.remove(id_a));

    {
        let it = store.iter::<i32>();
        assert_eq!(1, it.len());
        assert!(it[0].0 == id_b);
        assert_eq!(2, *it[0].1);
    }

    assert_eq!(None, store.get(id_a));
}

#[test]
fn iteration_order_is_slot_order_after_reuse() {
    let mut store = Store::new();

    let id_a = store.spawn(10);
    let id_b = store.spawn(20);
    let id_c = store.spawn(30);

    assert_eq!(Some(20), store.remove(id_b));

    // The freed middle slot is revisited on reuse, so the new value shows
    // up between the older neighbours, not at the end.
    let id_d = store.spawn(40);
    assert_eq!(id_b.slot, id_d.slot);

    let it = store.iter::<i32>();
    assert_eq!(3, it.len());
    assert!(it[0].0 == id_a);
    assert_eq!(10, *it[0].1);
    assert!(it[1].0 == id_d);
    assert_eq!(40, *it[1].1);
    assert!(it[2].0 == id_c);
    assert_eq!(30, *it[2].1);
}

#[test]
fn get2_mut_on_distinct_handles() {
    let mut store = Store::new();

    let id1 = store.spawn(3);
    let id2 = store.spawn(2);
    let _id3 = store.spawn(1);

    let (a, b) = store.get2_mut(id1, id2);

    let a = a.unwrap();
    let b = b.unwrap();

    assert_eq!(&3, a);
    assert_eq!(&2, b);

    *a = 4;
    *b = 5;

    assert_eq!(Some(&4), store.get(id1));
    assert_eq!(Some(&5), store.get(id2));
}

#[test]
fn get2_mut_with_stale_handle() {
    let mut store = Store::new();

    let id1 = store.spawn(3);
    assert_eq!(Some(3), store.remove(id1));
    let id2 = store.spawn(4);

    // Same slot, older generation: the stale side is None, the live side
    // still resolves.
    assert_eq!(id1.slot, id2.slot);
    let (a, b) = store.get2_mut(id1, id2);
    assert!(a.is_none());
    assert_eq!(Some(&mut 4), b);
}

#[test]
fn get2_mut_with_both_stale() {
    let mut store = Store::new();

    let id1 = store.spawn(3);
    let id2 = store.spawn(2);
    assert_eq!(Some(3), store.remove(id1));
    assert_eq!(Some(2), store.remove(id2));

    let (a, b) = store.get2_mut(id1, id2);
    assert!(a.is_none());
    assert!(b.is_none());
}

#[test]
fn iter_mut_handles_allow_updating_every_value() {
    let mut store = Store::new();

    store.spawn(3);
    store.spawn(2);

    let handles = store.iter_mut::<i32>();
    assert_eq!(2, handles.len());
    for id in handles {
        *store.get_mut(id).unwrap() += 1;
    }

    let it = store.iter::<i32>();
    assert_eq!(4, *it[0].1);
    assert_eq!(3, *it[1].1);
}

#[test]
fn stale_get_mut_is_none() {
    let mut store = Store::new();

    let id = store.spawn(String::from("gone"));
    assert_eq!(Some(String::from("gone")), store.remove(id));
    assert!(store.get_mut(id).is_none());
}

#[test]
fn id_copy_and_equality() {
    let mut store = Store::new();

    let id = store.spawn(5);
    let copy = id;
    let cloned = id.clone();

    assert!(id == copy);
    assert!(id == cloned);
    assert_eq!(Some(&5), store.get(copy));

    let other = store.spawn(6);
    assert!(!(id == other));
}

#[test]
fn default_store_is_empty() {
    let store = Store::default();

    assert!(store.iter::<i32>().is_empty());
    assert!(store.iter::<String>().is_empty());
}
