use vstd::prelude::*;

use crate::vector::Vector;

verus! {

/// Strength of the impulse that one pressed movement key applies.
pub const PUSH: i64 = 100000;

/// The four movement keys, as they are held down in one frame.
#[derive(Clone, Copy, Debug, PartialEq, Eq, Structural)]
pub struct MovementKeys {
    /// Push up.
    pub up: bool,
    /// Push left.
    pub left: bool,
    /// Push down.
    pub down: bool,
    /// Push right.
    pub right: bool,
}

/// The impulse a body carries after one frame of input.
///
/// The keys are looked at in the order up, down, left, right, and each
/// pressed one replaces the impulse, so the last pressed key in that order
/// wins. With no key pressed the body keeps the impulse it had.
pub open spec fn spec_next_impulse(keys: MovementKeys, current: Vector) -> Vector {
    if keys.right {
        Vector { x: PUSH, y: 0 }
    } else if keys.left {
        Vector { x: (-PUSH) as i64, y: 0 }
    } else if keys.down {
        Vector { x: 0, y: (-PUSH) as i64 }
    } else if keys.up {
        Vector { x: 0, y: PUSH }
    } else {
        current
    }
}

impl MovementKeys {
    /// No key held.
    pub fn none() -> (r: MovementKeys)
        ensures
            !r.up && !r.left && !r.down && !r.right,
    {
        MovementKeys { up: false, left: false, down: false, right: false }
    }

    /// Whether any of the four keys is held.
    pub fn any(&self) -> (r: bool)
        ensures
            r == (self.up || self.left || self.down || self.right),
    {
        self.up || self.left || self.down || self.right
    }
}

/// The impulse a body carries after this frame's input; see `spec_next_impulse`.
pub fn next_impulse(keys: MovementKeys, current: Vector) -> (r: Vector)
    ensures
        r == spec_next_impulse(keys, current),
{
    let mut impulse = current;
    if keys.up {
        impulse = Vector::new(0, PUSH);
    }
    if keys.down {
        impulse = Vector::new(0, -PUSH);
    }
    if keys.left {
        impulse = Vector::new(-PUSH, 0);
    }
    if keys.right {
        impulse = Vector::new(PUSH, 0);
    }
    impulse
}

/// Applies this frame's input to every controlled body, given as the list of
/// their impulses.
pub fn push_bodies(impulses: &mut Vec<Vector>, keys: MovementKeys)
    ensures
        final(impulses)@.len() == old(impulses)@.len(),
        forall|i: int|
            0 <= i < old(impulses)@.len() ==> #[trigger] final(impulses)@[i] == spec_next_impulse(
                keys,
                old(impulses)@[i],
            ),
{
    let n = impulses.len();
    let mut i: usize = 0;
    while i < n
        invariant
            n == old(impulses)@.len(),
            impulses@.len() == n,
            i <= n,
            forall|j: int| 0 <= j < i ==> #[trigger] impulses@[j] == spec_next_impulse(keys, old(impulses)@[j]),
            forall|j: int| i <= j < n ==> #[trigger] impulses@[j] == old(impulses)@[j],
        decreases n - i,
    {
        let next = next_impulse(keys, impulses[i]);
        impulses.set(i, next);
        i += 1;
    }
}

} // verus!
