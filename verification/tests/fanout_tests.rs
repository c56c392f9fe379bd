use keydisp::fanout::{frame_payload, prune_failed};

#[test]
fn failing_sink_is_removed_surviving_sink_kept() {
    // two viewer sinks; the second fails on write of 'x'
    let sinks: Vec<u64> = vec![7, 9];
    let write_ok = vec![true, false];
    let kept = prune_failed(sinks, &write_ok);
    assert_eq!(kept, vec![7]);

    // a subsequent delivery of 'y' goes only to the surviving sink
    let write_ok = vec![true];
    let kept = prune_failed(kept, &write_ok);
    assert_eq!(kept, vec![7]);
}

#[test]
fn all_writes_ok_keeps_every_sink_in_order() {
    let sinks: Vec<u64> = vec![1, 2, 3];
    let kept = prune_failed(sinks, &vec![true, true, true]);
    assert_eq!(kept, vec![1, 2, 3]);
}

#[test]
fn all_writes_failing_empties_the_list() {
    let sinks: Vec<u64> = vec![1, 2, 3];
    let kept = prune_failed(sinks, &vec![false, false, false]);
    assert_eq!(kept, Vec::<u64>::new());
}

#[test]
fn pruning_keeps_order_of_mixed_outcomes() {
    let sinks: Vec<u64> = vec![10, 20, 30, 40, 50];
    let kept = prune_failed(sinks, &vec![false, true, true, false, true]);
    assert_eq!(kept, vec![20, 30, 50]);
}

#[test]
fn no_sinks_no_survivors() {
    let kept = prune_failed(Vec::<u64>::new(), &Vec::new());
    assert_eq!(kept, Vec::<u64>::new());
}

#[test]
fn frame_holds_exactly_the_one_character() {
    assert_eq!(frame_payload('x'), "x".to_string());
    assert_eq!(frame_payload('\u{21E7}'), "\u{21E7}".to_string());
}
