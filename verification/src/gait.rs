use vstd::prelude::*;
use std::collections::HashMap;

verus! {

broadcast use vstd::std_specs::hash::group_hash_axioms;

/// The stepping state of one leg (a FABRIK joint whose foot walks).
///
/// A leg `stepping` is moving its foot toward a new target; it may only
/// start a step while `can_step` holds; `just_finished_stepping` reports a
/// completed step until the leg pair hands the turn over.
#[derive(PartialEq, Eq, Structural, Clone, Copy, Debug)]
pub struct StepState {
    pub stepping: bool,
    pub can_step: bool,
    pub just_finished_stepping: bool,
}

/// Two legs that take turns stepping: `current_joint` false means the left
/// one has the turn, true the right one. Legs are named by entity ids.
#[derive(PartialEq, Eq, Structural, Clone, Copy, Debug)]
pub struct FabrikSync {
    pub left_joint: u64,
    pub right_joint: u64,
    pub current_joint: bool,
}

impl StepState {
    /// A leg at rest that is allowed to step.
    pub fn new() -> (state: Self)
        ensures
            !state.stepping,
            state.can_step,
            !state.just_finished_stepping,
    {
        StepState { stepping: false, can_step: true, just_finished_stepping: false }
    }

    /// The state once the frame has decided whether a new step begins.
    pub open spec fn after_begin(self, far_from_target: bool) -> StepState {
        if far_from_target && self.can_step {
            StepState { stepping: true, ..self }
        } else {
            self
        }
    }

    /// The state once the frame has advanced the current step.
    pub open spec fn after_finish(self, target_reached: bool) -> StepState {
        if self.stepping && target_reached {
            StepState { stepping: false, just_finished_stepping: true, ..self }
        } else {
            self
        }
    }

    /// Starts a new step when the foot has fallen too far behind its target
    /// and the leg may step. Returns whether a step (re)started, in which
    /// case the caller resets the step's progress and retargets it.
    pub fn begin_step(&mut self, far_from_target: bool) -> (started: bool)
        ensures
            started == (far_from_target && old(self).can_step),
            *final(self) == old(self).after_begin(far_from_target),
            started ==> final(self).stepping,
            !started ==> *final(self) == *old(self),
            final(self).can_step == old(self).can_step,
            final(self).just_finished_stepping == old(self).just_finished_stepping,
    {
        if far_from_target && self.can_step {
            self.stepping = true;
            true
        } else {
            false
        }
    }

    /// Ends the step in progress when its progress has reached the target,
    /// and reports the completion.
    pub fn finish_step(&mut self, target_reached: bool)
        ensures
            *final(self) == old(self).after_finish(target_reached),
            old(self).stepping && target_reached ==> !final(self).stepping
                && final(self).just_finished_stepping,
            !(old(self).stepping && target_reached) ==> *final(self) == *old(self),
            final(self).can_step == old(self).can_step,
    {
        if self.stepping && target_reached {
            self.just_finished_stepping = true;
            self.stepping = false;
        }
    }
}

impl FabrikSync {
    /// A pair in which the left leg has the first turn.
    pub fn new_with_default(left_joint: u64, right_joint: u64) -> (sync: Self)
        ensures
            sync == (FabrikSync { left_joint, right_joint, current_joint: false }),
    {
        FabrikSync { left_joint, right_joint, current_joint: false }
    }

    /// The leg whose turn it is.
    pub open spec fn turn_holder(self) -> u64 {
        if self.current_joint {
            self.right_joint
        } else {
            self.left_joint
        }
    }

    /// The leg that steps next.
    pub open spec fn turn_waiter(self) -> u64 {
        if self.turn_holder() == self.left_joint {
            self.right_joint
        } else {
            self.left_joint
        }
    }

    /// Both legs of the pair have a state in `legs`.
    pub open spec fn legs_known(self, legs: Map<u64, StepState>) -> bool {
        legs.contains_key(self.left_joint) && legs.contains_key(self.right_joint)
    }
}

/// The turn passing on in a pair: when the leg holding the turn has just
/// finished a step, it may no longer step, the other leg may, and the turn
/// passes to it; otherwise nothing changes.
pub open spec fn hand_over(sync: FabrikSync, legs: Map<u64, StepState>) -> (
    FabrikSync,
    Map<u64, StepState>,
) {
    let holder = sync.turn_holder();
    let waiter = sync.turn_waiter();
    if legs[holder].just_finished_stepping {
        let legs1 = legs.insert(
            holder,
            StepState { can_step: false, just_finished_stepping: false, ..legs[holder] },
        );
        let legs2 = legs1.insert(
            waiter,
            StepState { can_step: true, just_finished_stepping: false, ..legs1[waiter] },
        );
        (FabrikSync { current_joint: !sync.current_joint, ..sync }, legs2)
    } else {
        (sync, legs)
    }
}

/// One hand-over check of a pair against the known legs: it fails with the
/// id of the leg it needs and cannot find (the leg holding the turn, or,
/// once that one has finished, the other leg).
pub open spec fn sync_step(sync: FabrikSync, legs: Map<u64, StepState>) -> Result<
    (FabrikSync, Map<u64, StepState>),
    u64,
> {
    let holder = sync.turn_holder();
    let waiter = sync.turn_waiter();
    if !legs.contains_key(holder) {
        Err(holder)
    } else if legs[holder].just_finished_stepping && !legs.contains_key(waiter) {
        Err(waiter)
    } else {
        Ok(hand_over(sync, legs))
    }
}

/// The hand-over checks of all pairs, in order, up to the first failure.
pub open spec fn sync_all(syncs: Seq<FabrikSync>, legs: Map<u64, StepState>) -> Result<
    (Seq<FabrikSync>, Map<u64, StepState>),
    u64,
>
    decreases syncs.len(),
{
    if syncs.len() == 0 {
        Ok((syncs, legs))
    } else {
        match sync_all(syncs.drop_last(), legs) {
            Err(missing) => Err(missing),
            Ok((done, legs1)) => match sync_step(syncs.last(), legs1) {
                Err(missing) => Err(missing),
                Ok((last, legs2)) => Ok((done.push(last), legs2)),
            },
        }
    }
}

/// A successful hand-over check keeps the set of known legs and the pair's legs.
proof fn sync_step_keeps_legs(sync: FabrikSync, legs: Map<u64, StepState>)
    requires
        sync_step(sync, legs) is Ok,
    ensures
        hand_over(sync, legs).1.dom() == legs.dom(),
        hand_over(sync, legs).0.left_joint == sync.left_joint,
        hand_over(sync, legs).0.right_joint == sync.right_joint,
{
    let holder = sync.turn_holder();
    let waiter = sync.turn_waiter();
    if legs[holder].just_finished_stepping {
        let legs1 = legs.insert(
            holder,
            StepState { can_step: false, just_finished_stepping: false, ..legs[holder] },
        );
        assert(legs1.dom() =~= legs.dom());
        let legs2 = legs1.insert(
            waiter,
            StepState { can_step: true, just_finished_stepping: false, ..legs1[waiter] },
        );
        assert(legs2.dom() =~= legs.dom());
    }
}

/// Once a prefix of the pairs fails, the whole run fails the same way.
proof fn sync_all_failure_persists(syncs: Seq<FabrikSync>, legs: Map<u64, StepState>, upto: int)
    requires
        0 <= upto <= syncs.len(),
        sync_all(syncs.take(upto), legs) is Err,
    ensures
        sync_all(syncs, legs) == sync_all(syncs.take(upto), legs),
    decreases syncs.len() - upto,
{
    if upto == syncs.len() {
        assert(syncs.take(upto) =~= syncs);
    } else {
        let shorter = syncs.drop_last();
        assert(shorter.take(upto) =~= syncs.take(upto));
        sync_all_failure_persists(shorter, legs, upto);
    }
}

/// With both legs of the pair known, the check cannot fail.
pub proof fn known_legs_always_sync(sync: FabrikSync, legs: Map<u64, StepState>)
    requires
        sync.legs_known(legs),
    ensures
        sync_step(sync, legs) == Ok::<(FabrikSync, Map<u64, StepState>), u64>(hand_over(sync, legs)),
{
}

/// Starting a step only ever starts one: when the foot is far from its
/// target and the leg may step, the leg is stepping afterwards; otherwise
/// nothing changes, so a step already under way goes on while the foot is
/// near its target. Neither `can_step` nor the finished report is touched.
pub proof fn begin_step_only_starts_steps(state: StepState, far_from_target: bool)
    ensures
        far_from_target && state.can_step ==> state.after_begin(far_from_target).stepping,
        !(far_from_target && state.can_step) ==> state.after_begin(far_from_target) == state,
        state.stepping ==> state.after_begin(far_from_target).stepping,
        state.after_begin(far_from_target).can_step == state.can_step,
        state.after_begin(far_from_target).just_finished_stepping == state.just_finished_stepping,
{
}

/// A step ends exactly when it is under way and its progress has reached
/// the target; it then reports its completion. Otherwise nothing changes,
/// and a report of an earlier step is never cleared here.
pub proof fn finish_step_only_ends_steps(state: StepState, target_reached: bool)
    ensures
        state.stepping && target_reached ==> !state.after_finish(target_reached).stepping
            && state.after_finish(target_reached).just_finished_stepping,
        !(state.stepping && target_reached) ==> state.after_finish(target_reached) == state,
        state.just_finished_stepping ==> state.after_finish(target_reached).just_finished_stepping,
        state.after_finish(target_reached).can_step == state.can_step,
{
}

/// A leg that may not step and is not stepping stays planted through a
/// whole frame, whatever the distance to its target and the progress
/// reported: it neither starts a step nor reports one as finished.
pub proof fn locked_leg_stays_planted(state: StepState, far_from_target: bool, target_reached: bool)
    requires
        !state.can_step,
        !state.stepping,
    ensures
        state.after_begin(far_from_target).after_finish(target_reached) == state,
{
}

/// When the leg holding the turn has just finished a step, the turn passes
/// to the other leg of a pair of distinct legs: the finished leg may no
/// longer step, the other may, neither reports a finished step, and no
/// other leg changes.
pub proof fn finished_leg_hands_over(sync: FabrikSync, legs: Map<u64, StepState>)
    requires
        sync.legs_known(legs),
        sync.left_joint != sync.right_joint,
        legs[sync.turn_holder()].just_finished_stepping,
    ensures
        ({
            let (next, legs2) = hand_over(sync, legs);
            &&& next.turn_holder() == sync.turn_waiter()
            &&& next.turn_waiter() == sync.turn_holder()
            &&& !legs2[sync.turn_holder()].can_step
            &&& !legs2[sync.turn_holder()].just_finished_stepping
            &&& legs2[sync.turn_waiter()].can_step
            &&& !legs2[sync.turn_waiter()].just_finished_stepping
            &&& legs2.dom() == legs.dom()
            &&& forall|k: u64|
                k != sync.left_joint && k != sync.right_joint && legs.contains_key(k) ==> #[trigger] legs2[k]
                    == legs[k]
        }),
{
    sync_step_keeps_legs(sync, legs);
}

/// While the leg holding the turn has not finished a step, the hand-over
/// check changes nothing.
pub proof fn unfinished_leg_keeps_turn(sync: FabrikSync, legs: Map<u64, StepState>)
    requires
        sync.legs_known(legs),
        !legs[sync.turn_holder()].just_finished_stepping,
    ensures
        hand_over(sync, legs) == (sync, legs),
{
}

/// The hand-over check never starts or stops a step, and only touches the
/// two legs of its pair.
pub proof fn sync_only_passes_the_turn(sync: FabrikSync, legs: Map<u64, StepState>, k: u64)
    requires
        sync.legs_known(legs),
        legs.contains_key(k),
    ensures
        hand_over(sync, legs).1[k].stepping == legs[k].stepping,
        k != sync.left_joint && k != sync.right_joint ==> hand_over(sync, legs).1[k] == legs[k],
{
}

/// A "pair" made of one leg only gives the turn back to that same leg when
/// it finishes a step: the leg stays free to step, its report is cleared,
/// and the turn marker flips.
pub proof fn single_leg_pair_stays_free(sync: FabrikSync, legs: Map<u64, StepState>)
    requires
        sync.legs_known(legs),
        sync.left_joint == sync.right_joint,
        legs[sync.left_joint].just_finished_stepping,
    ensures
        hand_over(sync, legs).0.current_joint == !sync.current_joint,
        hand_over(sync, legs).1[sync.left_joint] == (StepState {
            stepping: legs[sync.left_joint].stepping,
            can_step: true,
            just_finished_stepping: false,
        }),
{
}

/// Checking a pair twice in a row is the same as checking it once.
pub proof fn sync_is_idempotent(sync: FabrikSync, legs: Map<u64, StepState>)
    requires
        sync.legs_known(legs),
    ensures
        hand_over(hand_over(sync, legs).0, hand_over(sync, legs).1) == hand_over(sync, legs),
{
    sync_step_keeps_legs(sync, legs);
    let (next, legs2) = hand_over(sync, legs);
    if legs[sync.turn_holder()].just_finished_stepping {
        assert(next.turn_holder() == sync.turn_waiter() || sync.left_joint == sync.right_joint);
        assert(!legs2[next.turn_holder()].just_finished_stepping);
    }
}

/// The legs of a pair of distinct legs alternate: the leg holding the turn
/// may step and the other may not.
pub open spec fn legs_alternate(sync: FabrikSync, legs: Map<u64, StepState>) -> bool {
    &&& sync.legs_known(legs)
    &&& sync.left_joint != sync.right_joint
    &&& legs[sync.turn_holder()].can_step
    &&& !legs[sync.turn_waiter()].can_step
}

/// The first hand-over in a pair of distinct legs makes them alternate,
/// whatever they could do before.
pub proof fn first_hand_over_starts_alternation(sync: FabrikSync, legs: Map<u64, StepState>)
    requires
        sync.legs_known(legs),
        sync.left_joint != sync.right_joint,
        legs[sync.turn_holder()].just_finished_stepping,
    ensures
        legs_alternate(hand_over(sync, legs).0, hand_over(sync, legs).1),
        sync_all(seq![sync], legs) == Ok::<(Seq<FabrikSync>, Map<u64, StepState>), u64>(
            (seq![hand_over(sync, legs).0], hand_over(sync, legs).1),
        ),
{
    sync_step_keeps_legs(sync, legs);
    reveal_with_fuel(sync_all, 2);
    assert(seq![sync].drop_last() =~= Seq::<FabrikSync>::empty());
    assert(Seq::<FabrikSync>::empty().push(hand_over(sync, legs).0) =~= seq![hand_over(sync, legs).0]);
}

/// Once the legs of a pair alternate, they keep alternating after every
/// later frame: the pair's hand-over check (which then cannot fail), and
/// the start and the end of a step of any leg, each keep the leg holding
/// the turn free to step and the other one held back.
pub proof fn alternation_is_kept(
    sync: FabrikSync,
    legs: Map<u64, StepState>,
    leg: u64,
    far_from_target: bool,
    target_reached: bool,
)
    requires
        legs_alternate(sync, legs),
    ensures
        sync_step(sync, legs) == Ok::<(FabrikSync, Map<u64, StepState>), u64>(hand_over(sync, legs)),
        sync_all(seq![sync], legs) == Ok::<(Seq<FabrikSync>, Map<u64, StepState>), u64>(
            (seq![hand_over(sync, legs).0], hand_over(sync, legs).1),
        ),
        legs_alternate(hand_over(sync, legs).0, hand_over(sync, legs).1),
        legs.contains_key(leg) ==> legs_alternate(
            sync,
            legs.insert(leg, legs[leg].after_begin(far_from_target)),
        ),
        legs.contains_key(leg) ==> legs_alternate(
            sync,
            legs.insert(leg, legs[leg].after_finish(target_reached)),
        ),
        legs.contains_key(leg) ==> legs_alternate(
            sync,
            legs.insert(leg, legs[leg].after_begin(far_from_target).after_finish(target_reached)),
        ),
{
    sync_step_keeps_legs(sync, legs);
    reveal_with_fuel(sync_all, 2);
    assert(seq![sync].drop_last() =~= Seq::<FabrikSync>::empty());
    assert(Seq::<FabrikSync>::empty().push(hand_over(sync, legs).0) =~= seq![hand_over(sync, legs).0]);
}

/// Whether `leg` is one of the two legs of the pair.
pub open spec fn pair_uses(sync: FabrikSync, leg: u64) -> bool {
    leg == sync.left_joint || leg == sync.right_joint
}

/// No leg belongs to two different pairs of the list.
pub open spec fn pairs_share_no_leg(syncs: Seq<FabrikSync>) -> bool {
    forall|i: int, j: int, leg: u64|
        0 <= i < syncs.len() && 0 <= j < syncs.len() && i != j && #[trigger] pair_uses(syncs[i], leg)
            ==> !#[trigger] pair_uses(syncs[j], leg)
}

/// Both legs of every pair of the list have a state in `legs`.
pub open spec fn all_legs_known(syncs: Seq<FabrikSync>, legs: Map<u64, StepState>) -> bool {
    forall|i: int| 0 <= i < syncs.len() ==> #[trigger] syncs[i].legs_known(legs)
}

/// The hand-over of a pair reads and writes only the pair's own legs.
proof fn hand_over_is_local(sync: FabrikSync, legs: Map<u64, StepState>, other: Map<u64, StepState>)
    requires
        sync.legs_known(legs),
        sync.legs_known(other),
        legs[sync.left_joint] == other[sync.left_joint],
        legs[sync.right_joint] == other[sync.right_joint],
    ensures
        hand_over(sync, legs).0 == hand_over(sync, other).0,
        hand_over(sync, legs).1[sync.left_joint] == hand_over(sync, other).1[sync.left_joint],
        hand_over(sync, legs).1[sync.right_joint] == hand_over(sync, other).1[sync.right_joint],
        forall|leg: u64| !pair_uses(sync, leg) ==> #[trigger] hand_over(sync, legs).1[leg] == legs[leg],
        hand_over(sync, legs).1.dom() == legs.dom(),
{
    sync_step_keeps_legs(sync, legs);
}

/// Checking the pairs of a list that is one pair longer is checking the
/// shorter list, then the added pair against the legs as they now are:
/// every pair of the list is checked, in order.
pub proof fn every_pair_is_checked_in_order(syncs: Seq<FabrikSync>, legs: Map<u64, StepState>, j: int)
    requires
        0 <= j < syncs.len(),
    ensures
        sync_all(syncs.take(j + 1), legs) == match sync_all(syncs.take(j), legs) {
            Err(missing) => Err(missing),
            Ok((done, legs1)) => match sync_step(syncs[j], legs1) {
                Err(missing) => Err(missing),
                Ok((pair, legs2)) => Ok((done.push(pair), legs2)),
            },
        },
{
    assert(syncs.take(j + 1).drop_last() =~= syncs.take(j));
}

/// When no leg belongs to two pairs and every leg is known, checking the
/// whole list succeeds and each pair ends up exactly as if it had been
/// checked alone against the starting legs: its own turn and its own two
/// legs are those of its hand-over, and legs of no pair are untouched.
pub proof fn pairs_without_shared_legs_hand_over_independently(
    syncs: Seq<FabrikSync>,
    legs: Map<u64, StepState>,
)
    requires
        all_legs_known(syncs, legs),
        pairs_share_no_leg(syncs),
    ensures
        sync_all(syncs, legs) is Ok,
        sync_all(syncs, legs)->Ok_0.0.len() == syncs.len(),
        sync_all(syncs, legs)->Ok_0.1.dom() == legs.dom(),
        forall|j: int|
            0 <= j < syncs.len() ==> #[trigger] sync_all(syncs, legs)->Ok_0.0[j] == hand_over(
                syncs[j],
                legs,
            ).0,
        forall|j: int, leg: u64|
            0 <= j < syncs.len() && #[trigger] pair_uses(syncs[j], leg) ==> sync_all(
                syncs,
                legs,
            )->Ok_0.1[leg] == hand_over(syncs[j], legs).1[leg],
        forall|leg: u64|
            (forall|j: int| 0 <= j < syncs.len() ==> !#[trigger] pair_uses(syncs[j], leg)) ==> #[trigger] sync_all(
                syncs,
                legs,
            )->Ok_0.1[leg] == legs[leg],
    decreases syncs.len(),
{
    if syncs.len() > 0 {
        let shorter = syncs.drop_last();
        let last = syncs.last();
        let n = syncs.len() - 1;
        assert(all_legs_known(shorter, legs)) by {
            assert forall|i: int| 0 <= i < shorter.len() implies #[trigger] shorter[i].legs_known(legs) by {
                assert(shorter[i] == syncs[i]);
                assert(syncs[i].legs_known(legs));
            }
        }
        assert(pairs_share_no_leg(shorter)) by {
            assert forall|i: int, j: int, leg: u64|
                0 <= i < shorter.len() && 0 <= j < shorter.len() && i != j && #[trigger] pair_uses(
                    shorter[i],
                    leg,
                ) implies !#[trigger] pair_uses(shorter[j], leg) by {
                assert(shorter[i] == syncs[i]);
                assert(shorter[j] == syncs[j]);
                assert(pair_uses(syncs[i], leg));
            }
        }
        pairs_without_shared_legs_hand_over_independently(shorter, legs);
        let done = sync_all(shorter, legs)->Ok_0.0;
        let legs1 = sync_all(shorter, legs)->Ok_0.1;
        assert(syncs[n] == last);
        assert(last.legs_known(legs));
        assert forall|j: int| 0 <= j < shorter.len() implies !#[trigger] pair_uses(
            shorter[j],
            last.left_joint,
        ) by {
            assert(shorter[j] == syncs[j]);
            assert(pair_uses(syncs[n], last.left_joint));
        }
        assert forall|j: int| 0 <= j < shorter.len() implies !#[trigger] pair_uses(
            shorter[j],
            last.right_joint,
        ) by {
            assert(shorter[j] == syncs[j]);
            assert(pair_uses(syncs[n], last.right_joint));
        }
        assert(legs1[last.left_joint] == legs[last.left_joint]);
        assert(legs1[last.right_joint] == legs[last.right_joint]);
        hand_over_is_local(last, legs1, legs);
        hand_over_is_local(last, legs, legs);
        known_legs_always_sync(last, legs1);
        let legs2 = hand_over(last, legs1).1;
        assert forall|j: int| 0 <= j < syncs.len() implies #[trigger] sync_all(syncs, legs)->Ok_0.0[j]
            == hand_over(syncs[j], legs).0 by {
            if j < n {
                assert(syncs[j] == shorter[j]);
                assert(sync_all(shorter, legs)->Ok_0.0[j] == hand_over(shorter[j], legs).0);
            }
        }
        assert forall|j: int, leg: u64|
            0 <= j < syncs.len() && #[trigger] pair_uses(syncs[j], leg) implies sync_all(
                syncs,
                legs,
            )->Ok_0.1[leg] == hand_over(syncs[j], legs).1[leg] by {
            if j < n {
                assert(syncs[j] == shorter[j]);
                assert(pair_uses(shorter[j], leg));
                assert(!pair_uses(syncs[n], leg));
                assert(legs2[leg] == legs1[leg]);
            } else {
                assert(leg == last.left_joint || leg == last.right_joint);
            }
        }
        assert forall|leg: u64|
            (forall|j: int| 0 <= j < syncs.len() ==> !#[trigger] pair_uses(syncs[j], leg)) implies #[trigger] sync_all(
                syncs,
                legs,
            )->Ok_0.1[leg] == legs[leg] by {
            assert(!pair_uses(syncs[n], leg));
            assert forall|j: int| 0 <= j < shorter.len() implies !#[trigger] pair_uses(shorter[j], leg) by {
                assert(shorter[j] == syncs[j]);
            }
            assert(legs2[leg] == legs1[leg]);
        }
    }
}

/// A successful run over a list of pairs keeps every pair (with its legs)
/// and the set of known legs.
proof fn sync_all_keeps_shape(syncs: Seq<FabrikSync>, legs: Map<u64, StepState>)
    requires
        sync_all(syncs, legs) is Ok,
    ensures
        sync_all(syncs, legs)->Ok_0.0.len() == syncs.len(),
        sync_all(syncs, legs)->Ok_0.1.dom() == legs.dom(),
    decreases syncs.len(),
{
    if syncs.len() > 0 {
        sync_all_keeps_shape(syncs.drop_last(), legs);
        let legs1 = sync_all(syncs.drop_last(), legs)->Ok_0.1;
        sync_step_keeps_legs(syncs.last(), legs1);
    }
}

/// A check fails only for a leg that one of the pairs names and that has no
/// state; a pair whose turn holder is unknown always fails on that leg.
pub proof fn failed_check_names_a_missing_leg(syncs: Seq<FabrikSync>, legs: Map<u64, StepState>)
    ensures
        sync_all(syncs, legs) matches Err(missing) ==> !legs.contains_key(missing) && exists|j: int|
            0 <= j < syncs.len() && #[trigger] pair_uses(syncs[j], missing),
        forall|sync: FabrikSync|
            !legs.contains_key(#[trigger] sync.turn_holder()) ==> sync_step(sync, legs) == Err::<
                (FabrikSync, Map<u64, StepState>),
                u64,
            >(sync.turn_holder()),
    decreases syncs.len(),
{
    if syncs.len() > 0 {
        let shorter = syncs.drop_last();
        failed_check_names_a_missing_leg(shorter, legs);
        if let Err(missing) = sync_all(syncs, legs) {
            if let Err(m2) = sync_all(shorter, legs) {
                let j = choose|j: int| 0 <= j < shorter.len() && #[trigger] pair_uses(shorter[j], m2);
                assert(shorter[j] == syncs[j]);
                assert(pair_uses(syncs[j], missing));
            } else {
                sync_all_keeps_shape(shorter, legs);
                assert(syncs[syncs.len() - 1] == syncs.last());
                assert(pair_uses(syncs[syncs.len() - 1], missing));
            }
        }
    }
}

/// Runs the hand-over check of every pair in `syncs`, in order, against the
/// leg states in `legs` (keyed by entity id). Fails with the id of the
/// first leg a check needs and cannot find.
pub fn fabrik_syncer(syncs: &mut Vec<FabrikSync>, legs: &mut HashMap<u64, StepState>) -> (outcome:
    Result<(), u64>)
    ensures
        match outcome {
            Ok(()) => sync_all(old(syncs)@, old(legs)@) == Ok::<
                (Seq<FabrikSync>, Map<u64, StepState>),
                u64,
            >((final(syncs)@, final(legs)@)),
            Err(missing) => sync_all(old(syncs)@, old(legs)@) == Err::<
                (Seq<FabrikSync>, Map<u64, StepState>),
                u64,
            >(missing),
        },
        final(syncs)@.len() == old(syncs)@.len(),
        final(legs)@.dom() == old(legs)@.dom(),
{
    let ghost syncs0 = syncs@;
    let ghost legs0 = legs@;
    let n = syncs.len();
    let mut i: usize = 0;
    while i < n
        invariant
            0 <= i <= n,
            syncs0 == old(syncs)@,
            legs0 == old(legs)@,
            n == syncs0.len(),
            syncs@.len() == n,
            forall|j: int| i <= j < n ==> syncs@[j] == syncs0[j],
            legs@.dom() == legs0.dom(),
            sync_all(syncs0.take(i as int), legs0) == Ok::<
                (Seq<FabrikSync>, Map<u64, StepState>),
                u64,
            >((syncs@.take(i as int), legs@)),
        decreases n - i,
    {
        let sync = syncs[i];
        let ghost legs_before = legs@;
        let ghost prefix_before = syncs@.take(i as int);
        assert(syncs0.take(i + 1).drop_last() =~= syncs0.take(i as int));
        assert(syncs0.take(i + 1).last() == sync);
        let holder = if sync.current_joint {
            sync.right_joint
        } else {
            sync.left_joint
        };
        let waiter = if holder == sync.left_joint {
            sync.right_joint
        } else {
            sync.left_joint
        };
        let held = match legs.get(&holder) {
            Some(state) => *state,
            None => {
                proof {
                    sync_all_failure_persists(syncs0, legs0, i + 1);
                }
                return Err(holder);
            },
        };
        if held.just_finished_stepping {
            let waiting = match legs.get(&waiter) {
                Some(state) => *state,
                None => {
                    proof {
                        sync_all_failure_persists(syncs0, legs0, i + 1);
                    }
                    return Err(waiter);
                },
            };
            proof {
                sync_step_keeps_legs(sync, legs_before);
            }
            legs.insert(
                holder,
                StepState { can_step: false, just_finished_stepping: false, stepping: held.stepping },
            );
            legs.insert(
                waiter,
                StepState { can_step: true, just_finished_stepping: false, stepping: waiting.stepping },
            );
            syncs.set(
                i,
                FabrikSync {
                    left_joint: sync.left_joint,
                    right_joint: sync.right_joint,
                    current_joint: !sync.current_joint,
                },
            );
        }
        assert(syncs@.take(i + 1) =~= prefix_before.push(hand_over(sync, legs_before).0));
        i = i + 1;
    }
    assert(syncs0.take(n as int) =~= syncs0);
    assert(syncs@.take(n as int) =~= syncs@);
    Ok(())
}

} // verus!
