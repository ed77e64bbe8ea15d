use bbb_queue::durable::DurableFile;
use bbb_queue::errors::PlayerError;
use bbb_queue::player_queue::PlayerQueue;

fn queue_of(ids: &[&str]) -> PlayerQueue {
    let lines: Vec<String> = ids.iter().map(|s| s.to_string()).collect();
    PlayerQueue::new(lines)
}

#[test]
fn empty_queue_circular_lookup_fails() {
    let q = queue_of(&[]);
    assert_eq!(q.size(), 0);
    assert_eq!(q.get_rel(0, 1), Err(PlayerError::OutOfRange));
    assert_eq!(q.get_rel(0, -1), Err(PlayerError::OutOfRange));
    assert_eq!(q.get_rel(3, 0), Err(PlayerError::OutOfRange));
    assert_eq!(q.get_next(0), Err(PlayerError::OutOfRange));
    assert_eq!(q.get_prev(0), Err(PlayerError::OutOfRange));
    assert_eq!(q.get_at(0), Err(PlayerError::OutOfRange));
}

#[test]
fn next_then_prev_returns_to_start() {
    let q = queue_of(&["a", "b", "c"]);
    for i in 0..3usize {
        let (ni, _) = q.get_next(i).unwrap();
        let (back, id) = q.get_prev(ni).unwrap();
        assert_eq!(back, i);
        assert_eq!(id, ["a", "b", "c"][i]);
    }
}

#[test]
fn get_rel_wraps_circularly() {
    let q = queue_of(&["a", "b", "c", "d"]);
    assert_eq!(q.get_rel(3, 1).unwrap(), (0, "a".to_string()));
    assert_eq!(q.get_rel(0, -1).unwrap(), (3, "d".to_string()));
    assert_eq!(q.get_rel(1, -5).unwrap(), (0, "a".to_string()));
    assert_eq!(q.get_rel(3, 7).unwrap(), (2, "c".to_string()));
    assert_eq!(q.get_rel(2, 0).unwrap(), (2, "c".to_string()));
    assert_eq!(q.get_rel(4, 1), Err(PlayerError::OutOfRange));
}

#[test]
fn get_rel_extreme_negative_step() {
    let q = queue_of(&["a", "b", "c"]);
    // isize::MIN is congruent to 1 modulo 3, so from index 1 we land on 2.
    assert_eq!(q.get_rel(1, isize::MIN).unwrap(), (2, "c".to_string()));
    assert_eq!(q.get_rel(0, isize::MAX).unwrap().0, 1);
}

#[test]
fn append_grows_by_one_at_the_tail() {
    let mut q = queue_of(&["a", "b"]);
    let before = q.size();
    q.append("x").unwrap();
    assert_eq!(q.size(), before + 1);
    assert_eq!(q.get_at(q.size() - 1).unwrap(), "x".to_string());
    assert_eq!(q.list_all(), vec!["a", "b", "x"]);
    // duplicates are not checked
    q.append("x").unwrap();
    assert_eq!(q.list_all(), vec!["a", "b", "x", "x"]);
}

#[test]
fn remove_at_validates_and_preserves_order() {
    let mut q = queue_of(&["a", "b", "a"]);
    assert_eq!(q.remove_at("b", 0), Err(PlayerError::Mismatch));
    assert_eq!(q.list_all(), vec!["a", "b", "a"]);
    assert_eq!(q.remove_at("a", 5), Err(PlayerError::OutOfRange));
    assert_eq!(q.list_all(), vec!["a", "b", "a"]);
    assert_eq!(q.remove_at("a", 2), Ok(()));
    assert_eq!(q.list_all(), vec!["a", "b"]);
    assert_eq!(q.remove_at("a", 0), Ok(()));
    assert_eq!(q.list_all(), vec!["b"]);
}

#[test]
fn move_entry_to_follow_another() {
    let mut q = queue_of(&["A", "B", "C", "D"]);
    assert_eq!(q.move_next_to_at("A", 0, "C", 2), Ok(()));
    assert_eq!(q.list_all(), vec!["B", "C", "A", "D"]);
}

#[test]
fn move_backward_and_validation_failures() {
    let mut q = queue_of(&["A", "B", "C", "D"]);
    assert_eq!(q.move_next_to_at("D", 3, "A", 0), Ok(()));
    assert_eq!(q.list_all(), vec!["A", "D", "B", "C"]);

    let mut q2 = queue_of(&["A", "B"]);
    assert_eq!(q2.move_next_to_at("B", 0, "A", 1), Err(PlayerError::Mismatch));
    assert_eq!(q2.move_next_to_at("A", 5, "B", 1), Err(PlayerError::OutOfRange));
    assert_eq!(q2.move_next_to_at("A", 0, "B", 5), Err(PlayerError::OutOfRange));
    assert_eq!(q2.move_next_to_at("A", 0, "A", 1), Err(PlayerError::Mismatch));
    assert_eq!(q2.list_all(), vec!["A", "B"]);
}

#[test]
fn staging_never_touches_committed_contents() {
    let mut d = DurableFile::new(vec!["a".to_string(), "b".to_string()]);
    d.stage(vec!["only".to_string()]);
    // a crash here would lose only the staged copy
    assert_eq!(d.lines().clone(), vec!["a", "b"]);
    d.commit();
    assert_eq!(d.lines().clone(), vec!["only"]);
}
