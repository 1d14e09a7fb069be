use vstd::prelude::*;

verus! {

/// The coordinate that stays after an override: the given value, or the
/// old one when there is none.
pub open spec fn overridden<T>(base: T, replacement: Option<T>) -> T {
    match replacement {
        Some(v) => v,
        None => base,
    }
}

fn pick<T: Copy>(base: T, replacement: Option<T>) -> (v: T)
    ensures
        v == overridden(base, replacement),
{
    match replacement {
        Some(v) => v,
        None => base,
    }
}

/// Applies a segment offset of a dynamic body to a node position: each of
/// the three coordinates for which the offset holds a value takes that
/// value, the others are kept.
pub fn override_axes<T: Copy>(point: [T; 3], offset: [Option<T>; 3]) -> (moved: [T; 3])
    ensures
        forall|i: int| 0 <= i < 3 ==> #[trigger] moved@[i] == overridden(point@[i], offset@[i]),
        forall|i: int|
            0 <= i < 3 ==> (offset@[i] matches Some(v) ==> #[trigger] moved@[i] == v) && (offset@[i] is None
                ==> moved@[i] == point@[i]),
{
    let moved = [pick(point[0], offset[0]), pick(point[1], offset[1]), pick(point[2], offset[2])];
    assert(moved@[0] == overridden(point@[0], offset@[0]));
    assert(moved@[1] == overridden(point@[1], offset@[1]));
    assert(moved@[2] == overridden(point@[2], offset@[2]));
    moved
}

} // verus!
