use mantis::gait::{fabrik_syncer, FabrikSync, StepState};
use std::collections::HashMap;

fn state(stepping: bool, can_step: bool, just_finished_stepping: bool) -> StepState {
    StepState { stepping, can_step, just_finished_stepping }
}

#[test]
fn new_leg_rests_and_may_step() {
    assert_eq!(StepState::new(), state(false, true, false));
}

#[test]
fn step_begins_only_when_far_and_allowed() {
    let mut s = StepState::new();
    assert!(!s.begin_step(false));
    assert_eq!(s, state(false, true, false));
    assert!(s.begin_step(true));
    assert_eq!(s, state(true, true, false));
    // A step in progress restarts when the target runs away again.
    assert!(s.begin_step(true));
    assert_eq!(s, state(true, true, false));
    let mut locked = state(false, false, false);
    assert!(!locked.begin_step(true));
    assert_eq!(locked, state(false, false, false));
}

#[test]
fn step_finishes_when_target_reached() {
    let mut s = state(true, true, false);
    s.finish_step(false);
    assert_eq!(s, state(true, true, false));
    s.finish_step(true);
    assert_eq!(s, state(false, true, true));
    let mut idle = state(false, true, false);
    idle.finish_step(true);
    assert_eq!(idle, state(false, true, false));
}

#[test]
fn locked_leg_stays_planted_through_a_frame() {
    for far in [false, true] {
        for reached in [false, true] {
            for finished in [false, true] {
                let mut s = state(false, false, finished);
                s.begin_step(far);
                s.finish_step(reached);
                assert_eq!(s, state(false, false, finished));
            }
        }
    }
}

#[test]
fn new_pair_gives_left_the_first_turn() {
    assert_eq!(
        FabrikSync::new_with_default(7, 9),
        FabrikSync { left_joint: 7, right_joint: 9, current_joint: false }
    );
}

#[test]
fn finished_leg_hands_over_to_the_other() {
    let mut legs = HashMap::new();
    legs.insert(1u64, state(false, true, true));
    legs.insert(2u64, state(false, false, false));
    legs.insert(3u64, state(true, true, true));
    let mut syncs = vec![FabrikSync::new_with_default(1, 2)];
    assert_eq!(fabrik_syncer(&mut syncs, &mut legs), Ok(()));
    assert!(syncs[0].current_joint);
    assert_eq!(legs[&1], state(false, false, false));
    assert_eq!(legs[&2], state(false, true, false));
    assert_eq!(legs[&3], state(true, true, true));
    // Now the right leg holds the turn; when it finishes, the turn returns.
    legs.insert(2, state(false, true, true));
    assert_eq!(fabrik_syncer(&mut syncs, &mut legs), Ok(()));
    assert!(!syncs[0].current_joint);
    assert_eq!(legs[&1], state(false, true, false));
    assert_eq!(legs[&2], state(false, false, false));
}

#[test]
fn unfinished_leg_keeps_the_turn() {
    let mut legs = HashMap::new();
    legs.insert(1u64, state(true, true, false));
    legs.insert(2u64, state(false, true, false));
    let mut syncs = vec![FabrikSync::new_with_default(1, 2)];
    assert_eq!(fabrik_syncer(&mut syncs, &mut legs), Ok(()));
    assert_eq!(syncs[0], FabrikSync::new_with_default(1, 2));
    assert_eq!(legs[&1], state(true, true, false));
    assert_eq!(legs[&2], state(false, true, false));
}

#[test]
fn hand_over_keeps_a_step_in_progress() {
    // A leg that already restarted a step keeps stepping after losing its turn.
    let mut legs = HashMap::new();
    legs.insert(1u64, state(true, true, true));
    legs.insert(2u64, state(false, false, false));
    let mut syncs = vec![FabrikSync::new_with_default(1, 2)];
    assert_eq!(fabrik_syncer(&mut syncs, &mut legs), Ok(()));
    assert_eq!(legs[&1], state(true, false, false));
    assert_eq!(legs[&2], state(false, true, false));
}

#[test]
fn syncing_twice_is_syncing_once() {
    let mut legs = HashMap::new();
    legs.insert(1u64, state(false, true, true));
    legs.insert(2u64, state(false, false, false));
    let mut syncs = vec![FabrikSync::new_with_default(1, 2)];
    assert_eq!(fabrik_syncer(&mut syncs, &mut legs), Ok(()));
    let once = (syncs.clone(), legs.clone());
    assert_eq!(fabrik_syncer(&mut syncs, &mut legs), Ok(()));
    assert_eq!(syncs, once.0);
    assert_eq!(legs, once.1);
}

#[test]
fn pairs_are_checked_in_order() {
    // Two pairs share leg 2: the first hands the turn to leg 2, the second
    // sees leg 2 holding its turn without a finished step.
    let mut legs = HashMap::new();
    legs.insert(1u64, state(false, true, true));
    legs.insert(2u64, state(false, false, false));
    legs.insert(3u64, state(false, true, false));
    let mut syncs = vec![FabrikSync::new_with_default(1, 2), FabrikSync::new_with_default(2, 3)];
    assert_eq!(fabrik_syncer(&mut syncs, &mut legs), Ok(()));
    assert_eq!(syncs[0].current_joint, true);
    assert_eq!(syncs[1].current_joint, false);
    assert_eq!(legs[&2], state(false, true, false));
    assert_eq!(legs[&3], state(false, true, false));
}

#[test]
fn pair_of_one_leg_keeps_it_free_to_step() {
    let mut legs = HashMap::new();
    legs.insert(5u64, state(false, true, true));
    let mut syncs = vec![FabrikSync::new_with_default(5, 5)];
    assert_eq!(fabrik_syncer(&mut syncs, &mut legs), Ok(()));
    assert!(syncs[0].current_joint);
    assert_eq!(legs[&5], state(false, true, false));
}

#[test]
fn no_pairs_change_nothing() {
    let mut legs = HashMap::new();
    legs.insert(1u64, state(false, true, true));
    let mut syncs: Vec<FabrikSync> = Vec::new();
    assert_eq!(fabrik_syncer(&mut syncs, &mut legs), Ok(()));
    assert_eq!(legs[&1], state(false, true, true));
}

#[test]
fn missing_turn_holder_is_reported() {
    let mut legs = HashMap::new();
    legs.insert(2u64, state(false, true, true));
    let mut syncs = vec![FabrikSync::new_with_default(1, 2)];
    assert_eq!(fabrik_syncer(&mut syncs, &mut legs), Err(1));
}

#[test]
fn missing_waiting_leg_matters_only_on_hand_over() {
    let mut legs = HashMap::new();
    legs.insert(1u64, state(true, true, false));
    let mut syncs = vec![FabrikSync::new_with_default(1, 2)];
    assert_eq!(fabrik_syncer(&mut syncs, &mut legs), Ok(()));
    assert_eq!(legs[&1], state(true, true, false));
    legs.insert(1, state(false, true, true));
    assert_eq!(fabrik_syncer(&mut syncs, &mut legs), Err(2));
}

#[test]
fn failure_stops_at_the_first_broken_pair() {
    let mut legs = HashMap::new();
    legs.insert(1u64, state(false, true, true));
    legs.insert(2u64, state(false, false, false));
    let mut syncs = vec![FabrikSync::new_with_default(9, 1), FabrikSync::new_with_default(1, 2)];
    assert_eq!(fabrik_syncer(&mut syncs, &mut legs), Err(9));
}

#[test]
fn legs_alternate_after_the_first_hand_over() {
    let mut legs = HashMap::new();
    legs.insert(1u64, StepState::new());
    legs.insert(2u64, StepState::new());
    let mut syncs = vec![FabrikSync::new_with_default(1, 2)];
    let mut alternating = false;
    // Each frame: every leg may begin and finish a step, then the pair syncs.
    let frames: [(bool, bool); 8] =
        [(true, false), (false, true), (true, true), (false, false), (true, true), (true, false), (false, true), (true, true)];
    for (far, reached) in frames {
        for id in [1u64, 2] {
            let mut leg = legs[&id];
            leg.begin_step(far);
            leg.finish_step(reached);
            legs.insert(id, leg);
        }
        if alternating {
            let (holder, waiter) = if syncs[0].current_joint { (2, 1) } else { (1, 2) };
            assert!(legs[&holder].can_step && !legs[&waiter].can_step);
        }
        let before = syncs[0].current_joint;
        assert_eq!(fabrik_syncer(&mut syncs, &mut legs), Ok(()));
        if syncs[0].current_joint != before {
            alternating = true;
        }
        if alternating {
            let (holder, waiter) = if syncs[0].current_joint { (2, 1) } else { (1, 2) };
            assert!(legs[&holder].can_step && !legs[&waiter].can_step);
        }
    }
    assert!(alternating);
}
