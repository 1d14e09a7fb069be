use mantis::body::override_axes;
use mantis::fabrik::{backward_pass, forward_pass, BackStep, FrontStep};

#[test]
fn backward_pass_of_a_leg() {
    assert_eq!(
        backward_pass(4),
        vec![
            BackStep { moved: 2, anchor: 3, segment: 2, previous: None },
            BackStep { moved: 1, anchor: 2, segment: 1, previous: Some(3) },
            BackStep { moved: 0, anchor: 1, segment: 0, previous: Some(2) },
        ]
    );
}

#[test]
fn forward_pass_of_a_leg() {
    assert_eq!(
        forward_pass(4),
        vec![
            FrontStep { moved: 1, anchor: 0, segment: 0, before_anchor: None },
            FrontStep { moved: 2, anchor: 1, segment: 1, before_anchor: Some(0) },
            FrontStep { moved: 3, anchor: 2, segment: 2, before_anchor: Some(1) },
        ]
    );
}

#[test]
fn single_node_chain_has_no_moves() {
    assert!(backward_pass(1).is_empty());
    assert!(forward_pass(1).is_empty());
}

#[test]
fn two_node_chain() {
    assert_eq!(backward_pass(2), vec![BackStep { moved: 0, anchor: 1, segment: 0, previous: None }]);
    assert_eq!(forward_pass(2), vec![FrontStep { moved: 1, anchor: 0, segment: 0, before_anchor: None }]);
}

#[test]
fn passes_cover_every_node_but_the_pinned_one() {
    let n = 7;
    let back: Vec<usize> = backward_pass(n).iter().map(|s| s.moved).collect();
    let front: Vec<usize> = forward_pass(n).iter().map(|s| s.moved).collect();
    assert_eq!(back, (0..n - 1).rev().collect::<Vec<_>>());
    assert_eq!(front, (1..n).collect::<Vec<_>>());
}

#[test]
fn offset_replaces_only_given_axes() {
    assert_eq!(override_axes([1.0f32, 2.0, 3.0], [None, Some(0.4), None]), [1.0, 0.4, 3.0]);
    assert_eq!(override_axes([1, 2, 3], [Some(7), None, Some(9)]), [7, 2, 9]);
    assert_eq!(override_axes([1, 2, 3], [None, None, None]), [1, 2, 3]);
}
