//! The placement that every drawable object carries.

use vstd::prelude::*;
use crate::types::vector2int::fits_i32;
use crate::types::vector2int::Vector2Int;

verus! {

/// A position on the character grid together with a lock on it.
///
/// A static object keeps its position: requests to move it are ignored.
#[derive(Clone, Copy)]
pub struct GameObject {
    is_static: bool,
    position: Vector2Int,
}

/// The position that a request to move by `delta` leaves an object at.
pub open spec fn moved_by(is_static: bool, position: Vector2Int, delta: Vector2Int) -> Vector2Int {
    if is_static {
        position
    } else {
        Vector2Int { x: (position.x + delta.x) as i32, y: (position.y + delta.y) as i32 }
    }
}

/// The position that a request to move to `target` leaves an object at.
pub open spec fn moved_to(is_static: bool, position: Vector2Int, target: Vector2Int) -> Vector2Int {
    if is_static {
        position
    } else {
        target
    }
}

/// Whether a request to move by `delta` from `position` stays within the
/// coordinates that an `i32` can hold. A static object never leaves them.
pub open spec fn can_move_by(is_static: bool, position: Vector2Int, delta: Vector2Int) -> bool {
    is_static || (fits_i32(position.x + delta.x) && fits_i32(position.y + delta.y))
}

/// A request to move an object.
pub enum Motion {
    /// Put the object at a position.
    To(Vector2Int),
    /// Shift the object by a vector.
    By(Vector2Int),
}

/// The position that one request leaves an object at.
pub open spec fn after_motion(is_static: bool, position: Vector2Int, motion: Motion) -> Vector2Int {
    match motion {
        Motion::To(target) => moved_to(is_static, position, target),
        Motion::By(delta) => moved_by(is_static, position, delta),
    }
}

/// The position that a run of requests, made one after the other, leaves
/// an object at.
pub open spec fn after_motions(is_static: bool, position: Vector2Int, motions: Seq<Motion>)
    -> Vector2Int
    decreases motions.len(),
{
    if motions.len() == 0 {
        position
    } else {
        after_motion(
            is_static,
            after_motions(is_static, position, motions.drop_last()),
            motions.last(),
        )
    }
}

/// The position that shifting by each of `deltas` in turn leaves an object
/// at.
pub open spec fn after_shifts(is_static: bool, position: Vector2Int, deltas: Seq<Vector2Int>)
    -> Vector2Int
    decreases deltas.len(),
{
    if deltas.len() == 0 {
        position
    } else {
        moved_by(is_static, after_shifts(is_static, position, deltas.drop_last()), deltas.last())
    }
}

/// Whether every one of the shifts by `deltas`, made in turn from
/// `position`, can be made.
pub open spec fn can_shift(is_static: bool, position: Vector2Int, deltas: Seq<Vector2Int>) -> bool
    decreases deltas.len(),
{
    deltas.len() > 0 ==> can_shift(is_static, position, deltas.drop_last()) && can_move_by(
        is_static,
        after_shifts(is_static, position, deltas.drop_last()),
        deltas.last(),
    )
}

/// The sum of the `x` parts of `deltas`.
pub open spec fn sum_x(deltas: Seq<Vector2Int>) -> int
    decreases deltas.len(),
{
    if deltas.len() == 0 {
        0
    } else {
        sum_x(deltas.drop_last()) + deltas.last().x
    }
}

/// The sum of the `y` parts of `deltas`.
pub open spec fn sum_y(deltas: Seq<Vector2Int>) -> int
    decreases deltas.len(),
{
    if deltas.len() == 0 {
        0
    } else {
        sum_y(deltas.drop_last()) + deltas.last().y
    }
}

/// Shifting a movable object by one vector after the other leaves it where
/// it began plus the sum of the vectors.
pub proof fn lemma_shifts_add_up(position: Vector2Int, deltas: Seq<Vector2Int>)
    requires
        can_shift(false, position, deltas),
    ensures
        after_shifts(false, position, deltas).x == position.x + sum_x(deltas),
        after_shifts(false, position, deltas).y == position.y + sum_y(deltas),
    decreases deltas.len(),
{
    if deltas.len() > 0 {
        lemma_shifts_add_up(position, deltas.drop_last());
    }
}

/// A static object stays where it is, whatever it is asked to move to or
/// by, and however often.
pub proof fn lemma_static_stays(position: Vector2Int, motions: Seq<Motion>)
    ensures
        after_motions(true, position, motions) == position,
    decreases motions.len(),
{
    if motions.len() > 0 {
        lemma_static_stays(position, motions.drop_last());
    }
}

impl GameObject {
    /// Whether the object is locked in place.
    pub closed spec fn spec_static(self) -> bool {
        self.is_static
    }

    /// Where the object stands.
    pub closed spec fn spec_position(self) -> Vector2Int {
        self.position
    }

    /// A movable object at the origin.
    pub fn new() -> (object: GameObject)
        ensures
            !object.spec_static(),
            object.spec_position() == (Vector2Int { x: 0, y: 0 }),
    {
        GameObject { is_static: false, position: Vector2Int::zero() }
    }

    /// Whether the object is locked in place.
    pub fn get_static(&self) -> (is_static: bool)
        ensures
            is_static == self.spec_static(),
    {
        self.is_static
    }

    /// Locks or unlocks the position and returns the object as it now is.
    pub fn set_static(&mut self, value: bool) -> (now: GameObject)
        ensures
            final(self).spec_static() == value,
            final(self).spec_position() == old(self).spec_position(),
            now == *final(self),
    {
        self.is_static = value;
        *self
    }

    /// Where the object stands.
    pub fn get_position(&self) -> (position: Vector2Int)
        ensures
            position == self.spec_position(),
    {
        self.position
    }

    /// Puts the object at `new_position` unless it is static, and returns the
    /// object as it now is.
    pub fn move_to(&mut self, new_position: Vector2Int) -> (now: GameObject)
        ensures
            final(self).spec_static() == old(self).spec_static(),
            final(self).spec_position() == moved_to(
                old(self).spec_static(),
                old(self).spec_position(),
                new_position,
            ),
            now == *final(self),
    {
        if self.is_static {
            return *self;
        }
        self.position = new_position;
        *self
    }

    /// Shifts the object by `delta` unless it is static, and returns the
    /// object as it now is.
    pub fn move_by(&mut self, delta: Vector2Int) -> (now: GameObject)
        requires
            can_move_by(old(self).spec_static(), old(self).spec_position(), delta),
        ensures
            final(self).spec_static() == old(self).spec_static(),
            final(self).spec_position() == moved_by(
                old(self).spec_static(),
                old(self).spec_position(),
                delta,
            ),
            now == *final(self),
    {
        if self.is_static {
            return *self;
        }
        self.position.translate(delta);
        *self
    }
}

} // verus!
