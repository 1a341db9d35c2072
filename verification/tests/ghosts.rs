use shooty::ghosts::EnemyGhosts;

#[test]
fn ghosts_insert_get_and_replace() {
    let mut g = EnemyGhosts::new();
    assert_eq!(g.len(), 0);
    g.insert(7, 700);
    g.insert(9, 900);
    assert_eq!(g.get(7), Some(700));
    assert_eq!(g.get(8), None);
    g.insert(7, 701);
    assert_eq!(g.get(7), Some(701));
    assert_eq!(g.len(), 2);
    g.clear();
    assert_eq!(g.len(), 0);
    assert_eq!(g.get(9), None);
}

#[test]
fn ghosts_missing_from_a_snapshot_are_handed_back() {
    let mut g = EnemyGhosts::new();
    for id in 1..=5u32 {
        g.insert(id, id as u64 * 10);
    }
    let mut gone = g.retain_seen(&vec![2, 4, 99]);
    gone.sort();
    assert_eq!(gone, vec![10, 30, 50]);
    assert_eq!(g.len(), 2);
    assert_eq!(g.get(2), Some(20));
    assert_eq!(g.get(4), Some(40));
    assert_eq!(g.get(1), None);
    // Retaining the same set again drops nothing.
    assert!(g.retain_seen(&vec![2, 4]).is_empty());
}
