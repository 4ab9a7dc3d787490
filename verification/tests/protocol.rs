use movetex::Movetex;
use std::collections::HashMap;

#[test]
fn read_after_construct() {
    let cell = Movetex::new(String::from("initial"));
    assert_eq!(*cell.read(), "initial");
}

#[test]
fn write_visibility_persists_across_swap() {
    let mut cell = Movetex::new(10);
    assert!(cell.write(|v| v + 5));
    assert_eq!(*cell.read(), 15);
    assert_eq!(*cell.read(), 15);

    // A swap alone never reaches readers.
    assert_eq!(cell.swap(99), Some(15));
    assert_eq!(*cell.read(), 15);

    // Only the next successful write propagates the swapped-in value.
    assert!(cell.write(|v| v));
    assert_eq!(*cell.read(), 99);
}

#[test]
fn single_writer_exclusion() {
    let mut cell = Movetex::new(5);

    // A first writer holds the claim; a second write attempt must fail
    // and leave the cell untouched.
    let grant = cell.claim();
    assert_eq!(grant, Some(5));
    assert!(!cell.write(|v| v + 1));
    assert_eq!(*cell.read(), 5);

    // Once the claim is released, a write goes through again.
    cell.release(5);
    assert!(cell.write(|v| v + 1));
    assert_eq!(*cell.read(), 6);
}

#[test]
fn reader_isolation_during_mutation() {
    let mut cell = Movetex::new(String::from("before"));

    // Claim the write slot: the mutation phase has begun.
    let staged = cell.claim();
    assert_eq!(staged, Some(String::from("before")));

    // A read issued mid-mutation sees exactly the pre-write value.
    assert_eq!(*cell.read(), "before");

    // After the publish step, readers see exactly the finished value.
    let updated = String::from("after");
    cell.publish(&updated);
    assert_eq!(*cell.read(), "after");
    cell.release(updated);
}

#[test]
fn swap_returns_previous() {
    let mut cell = Movetex::new(1);
    assert_eq!(cell.swap(2), Some(1));
    assert_eq!(cell.swap(3), Some(2));
    assert_eq!(cell.swap(4), Some(3));
    // Swaps never touch what readers observe.
    assert_eq!(*cell.read(), 1);
}

#[test]
fn swap_busy_during_write() {
    let mut cell = Movetex::new(1);
    let grant = cell.claim();
    assert_eq!(grant, Some(1));

    // While a write holds the claim, a swap reports busy.
    assert_eq!(cell.swap(7), None);
}

#[test]
fn end_to_end() {
    let mut cell = Movetex::new(42);
    assert_eq!(*cell.read(), 42);

    // A first writer claims the slot and mutates the staged value; it has
    // not published yet, as if its mutator were still running.
    let staged = cell.claim();
    assert_eq!(staged, Some(42));
    let mutated = 43;

    // A second writer arriving meanwhile is rejected outright.
    assert!(!cell.write(|_v| 99));

    // The first writer completes: publish, then release.
    cell.publish(&mutated);
    cell.release(mutated);

    // Readers see the first writer's value; the rejected attempt left no trace.
    assert_eq!(*cell.read(), 43);
}

#[test]
fn bulk_write_consistency() {
    // Reference result, built by inserting every pair directly.
    let mut reference_map: HashMap<u64, String> = HashMap::new();
    let mut pairs: Vec<(u64, String)> = Vec::new();
    for i in 0..10u64 {
        for j in 0..100u64 {
            let key = i * 100 + j;
            let value = format!("value-{}", key);
            pairs.push((key, value.clone()));
            reference_map.insert(key, value);
        }
    }

    // The same pairs inserted through repeated write calls, retrying on
    // contention as a concurrent caller would.
    let mut cell = Movetex::new(HashMap::new());
    for (key, value) in pairs {
        loop {
            let k = key;
            let v = value.clone();
            if cell.write(move |mut map: HashMap<u64, String>| {
                map.insert(k, v);
                map
            }) {
                break;
            }
        }
    }

    // No write may be lost: the cell must end up with the reference mapping.
    assert_eq!(*cell.read(), reference_map);
}
