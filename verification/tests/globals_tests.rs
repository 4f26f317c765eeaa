use plushy::Storage;
use plushy::get_storage_mut;
use plushy::release_storage;

#[test]
fn test_storage_mut() {
    let mut storage = Storage::new(vec![1, 2, 3]);

    // Claiming the guard checks the values out; they can be read and
    // changed through it.
    let mut guard = get_storage_mut(&mut storage).unwrap();
    assert_eq!(&vec![1, 2, 3], guard.values());
    for v in guard.values_mut() {
        *v += 1;
    }
    assert_eq!(&vec![2, 3, 4], guard.values());

    // A second claim while the guard is outstanding is refused.
    assert!(get_storage_mut(&mut storage).is_none());

    // Releasing the guard hands the values back and reopens access.
    release_storage(&mut storage, guard);
    assert_eq!(vec![2, 3, 4], storage.data);
    assert!(!storage.borrowed);

    let guard2 = get_storage_mut(&mut storage).unwrap();
    assert_eq!(&vec![2, 3, 4], guard2.values());
}

#[test]
fn release_restores_access() {
    let mut storage = Storage::new(Vec::new());

    let guard = get_storage_mut(&mut storage).unwrap();
    assert!(get_storage_mut(&mut storage).is_none());
    release_storage(&mut storage, guard);

    let second = get_storage_mut(&mut storage);
    assert!(second.is_some());
}
