use cuelib::cue::CueNumber;
use cuelib::list::CueList;

fn ids(list: &CueList) -> Vec<u64> {
    let mut out = Vec::new();
    let mut i = 0;
    while i < list.len() {
        out.push(list.get(i).unwrap().id);
        i += 1;
    }
    out
}

fn labels(list: &CueList) -> Vec<String> {
    let mut out = Vec::new();
    let mut i = 0;
    while i < list.len() {
        out.push(list.get(i).unwrap().label.clone());
        i += 1;
    }
    out
}

#[test]
fn append_grows_length_with_distinct_ids() {
    let mut list = CueList::new();
    assert_eq!(list.len(), 0);
    let n = 8;
    for i in 0..n {
        assert!(list.can_create());
        list.create_cue(format!("cue {}", i));
        assert_eq!(list.len(), i + 1);
    }
    let ids = ids(&list);
    for i in 0..n {
        for j in 0..n {
            if i != j {
                assert_ne!(ids[i], ids[j]);
            }
        }
    }
}

#[test]
fn new_cue_has_unset_key_and_given_label() {
    let mut list = CueList::new();
    let id = list.create_cue("opening".to_string());
    let cue = list.get(0).unwrap();
    assert_eq!(cue.id, id);
    assert_eq!(cue.number, CueNumber(None, None));
    assert_eq!(cue.label, "opening");
}

#[test]
fn get_out_of_range_is_none() {
    let mut list = CueList::new();
    assert!(list.get(0).is_none());
    list.create_cue("a".to_string());
    assert!(list.get(0).is_some());
    assert!(list.get(1).is_none());
}

#[test]
fn move_to_front_at_zero_is_a_no_op() {
    let mut list = CueList::new();
    for name in ["a", "b", "c"] {
        list.create_cue(name.to_string());
    }
    let before = ids(&list);
    list.move_to_front(0);
    assert_eq!(ids(&list), before);
}

#[test]
fn move_to_front_rotates_prefix() {
    let mut list = CueList::new();
    for name in ["a", "b", "c", "d"] {
        list.create_cue(name.to_string());
    }
    list.move_to_front(2);
    assert_eq!(labels(&list), ["c", "a", "b", "d"]);
}

#[test]
fn move_up_then_move_down_restores_order() {
    let mut list = CueList::new();
    for name in ["a", "b", "c", "d"] {
        list.create_cue(name.to_string());
    }
    let before = ids(&list);
    for i in 1..3 {
        list.move_up(i);
        list.move_down(i - 1);
        assert_eq!(ids(&list), before);
    }
}

#[test]
fn boundary_moves_are_no_ops() {
    let mut list = CueList::new();
    for name in ["a", "b", "c"] {
        list.create_cue(name.to_string());
    }
    let before = ids(&list);
    list.move_up(0);
    assert_eq!(ids(&list), before);
    list.move_down(2);
    assert_eq!(ids(&list), before);
    list.move_up(3);
    assert_eq!(ids(&list), before);
    list.move_down(99);
    assert_eq!(ids(&list), before);
    list.move_to_front(3);
    assert_eq!(ids(&list), before);
}

#[test]
fn remove_out_of_range_is_a_no_op() {
    let mut list = CueList::new();
    list.remove_cue(0);
    assert_eq!(list.len(), 0);
    for name in ["a", "b"] {
        list.create_cue(name.to_string());
    }
    list.remove_cue(2);
    assert_eq!(list.len(), 2);
    assert_eq!(labels(&list), ["a", "b"]);
}

#[test]
fn remove_shifts_later_cues_down() {
    let mut list = CueList::new();
    for name in ["a", "b", "c"] {
        list.create_cue(name.to_string());
    }
    list.remove_cue(1);
    assert_eq!(labels(&list), ["a", "c"]);
}

#[test]
fn key_mutation_round_trips_and_keeps_position() {
    let mut list = CueList::new();
    for name in ["a", "b", "c"] {
        list.create_cue(name.to_string());
    }
    // Unset primary: increment then decrement returns to unset through 1.
    list.increment_key(1);
    assert_eq!(list.get(1).unwrap().number, CueNumber(Some(1), None));
    list.decrement_key(1);
    assert_eq!(list.get(1).unwrap().number, CueNumber(None, None));
    // Set primary of at least 1: the round trip is exact.
    list.increment_key(1);
    list.increment_key(1);
    list.increment_key(1);
    assert_eq!(list.get(1).unwrap().number, CueNumber(Some(3), None));
    list.increment_key(1);
    list.decrement_key(1);
    assert_eq!(list.get(1).unwrap().number, CueNumber(Some(3), None));
    // Keys never move cues.
    assert_eq!(labels(&list), ["a", "b", "c"]);
    // Out-of-range key mutations are no-ops.
    list.increment_key(3);
    list.decrement_key(99);
    assert_eq!(list.get(1).unwrap().number, CueNumber(Some(3), None));
}

#[test]
fn editor_scenario() {
    let mut list = CueList::new();
    assert_eq!(list.len(), 0);
    for name in ["a", "b", "c"] {
        list.create_cue(name.to_string());
    }
    assert_eq!(labels(&list), ["a", "b", "c"]);
    for i in 0..3 {
        assert_eq!(list.get(i).unwrap().number, CueNumber(None, None));
    }

    list.increment_key(1);
    assert_eq!(list.get(1).unwrap().number, CueNumber(Some(1), None));
    assert_eq!(list.get(1).unwrap().label, "b");

    list.move_to_front(2);
    assert_eq!(labels(&list), ["c", "a", "b"]);
    assert_eq!(list.get(2).unwrap().number, CueNumber(Some(1), None));

    list.move_up(2);
    assert_eq!(labels(&list), ["c", "b", "a"]);

    list.remove_cue(0);
    assert_eq!(labels(&list), ["b", "a"]);
    assert_eq!(list.len(), 2);
}
