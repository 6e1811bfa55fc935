use alchemist_map::{
    alchemist_map_batch_set, alchemist_map_destroy, alchemist_map_iterator_destroy,
    alchemist_map_iterator_new, alchemist_map_iterator_next, alchemist_map_iterator_next_batch,
    alchemist_map_new, alchemist_map_remove, alchemist_map_set, AlchemistMap,
};

fn three_entries() -> AlchemistMap {
    let mut m = alchemist_map_new();
    alchemist_map_set(&mut m, 1, 10);
    alchemist_map_set(&mut m, 2, 20);
    alchemist_map_set(&mut m, 3, 30);
    m
}

#[test]
fn next_yields_each_entry_once_then_ends() {
    let m = three_entries();
    let mut it = alchemist_map_iterator_new(&m);
    let mut seen = Vec::new();
    while let Some(e) = alchemist_map_iterator_next(&mut it) {
        seen.push(e);
    }
    seen.sort();
    assert_eq!(seen, vec![(1, 10), (2, 20), (3, 30)]);
    assert_eq!(alchemist_map_iterator_next(&mut it), None);
    assert_eq!(alchemist_map_iterator_next(&mut it), None);
    alchemist_map_iterator_destroy(it);
}

#[test]
fn snapshot_of_empty_map_is_exhausted() {
    let m = alchemist_map_new();
    let mut it = alchemist_map_iterator_new(&m);
    assert_eq!(alchemist_map_iterator_next(&mut it), None);
    assert!(alchemist_map_iterator_next_batch(&mut it, 5).is_empty());
}

#[test]
fn next_batch_caps_at_max_n() {
    let m = three_entries();
    let mut it = alchemist_map_iterator_new(&m);
    let first = alchemist_map_iterator_next_batch(&mut it, 2);
    assert_eq!(first.len(), 2);
    let rest = alchemist_map_iterator_next_batch(&mut it, 2);
    assert_eq!(rest.len(), 1);
    let mut all = first;
    all.extend(rest);
    all.sort();
    assert_eq!(all, vec![(1, 10), (2, 20), (3, 30)]);
}

#[test]
fn next_batch_larger_than_remaining_drains() {
    let m = three_entries();
    let mut it = alchemist_map_iterator_new(&m);
    let one = alchemist_map_iterator_next(&mut it).unwrap();
    let rest = alchemist_map_iterator_next_batch(&mut it, 100);
    assert_eq!(rest.len(), 2);
    assert!(!rest.contains(&one));
    assert_eq!(alchemist_map_iterator_next(&mut it), None);
    assert!(alchemist_map_iterator_next_batch(&mut it, 100).is_empty());
    assert!(alchemist_map_iterator_next_batch(&mut it, 100).is_empty());
}

#[test]
fn next_batch_of_zero_returns_nothing() {
    let m = three_entries();
    let mut it = alchemist_map_iterator_new(&m);
    assert!(alchemist_map_iterator_next_batch(&mut it, 0).is_empty());
    assert_eq!(alchemist_map_iterator_next_batch(&mut it, 3).len(), 3);
}

#[test]
fn snapshot_survives_map_changes_and_destroy() {
    let mut m = three_entries();
    let mut it = alchemist_map_iterator_new(&m);
    alchemist_map_set(&mut m, 4, 40);
    assert_eq!(alchemist_map_remove(&mut m, 1), 10);
    alchemist_map_destroy(m);
    let mut all = alchemist_map_iterator_next_batch(&mut it, 1);
    while let Some(e) = alchemist_map_iterator_next(&mut it) {
        all.push(e);
    }
    all.sort();
    assert_eq!(all, vec![(1, 10), (2, 20), (3, 30)]);
}

#[test]
fn snapshot_size_matches_map_size() {
    let mut m = alchemist_map_new();
    let keys: Vec<usize> = (1..=50).collect();
    let vals: Vec<usize> = (1..=50).map(|k| k * 3).collect();
    alchemist_map_batch_set(&mut m, &keys, &vals);
    let mut it = alchemist_map_iterator_new(&m);
    let all = alchemist_map_iterator_next_batch(&mut it, 1000);
    assert_eq!(all.len(), 50);
    assert!(all.iter().all(|&(k, v)| v == k * 3));
}
