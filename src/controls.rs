//! What one tick of held controls asks of the ball.
use vstd::prelude::*;

verus! {

/// Which controls are held during a tick.
#[derive(Debug, Clone, Copy, PartialEq, Eq, Structural, Default)]
pub struct Controls {
    /// Move away from the camera.
    pub forward: bool,
    /// Move towards the camera.
    pub back: bool,
    /// Move left.
    pub left: bool,
    /// Move right.
    pub right: bool,
    /// Climb.
    pub rise: bool,
    /// Dive.
    pub dive: bool,
    /// Move faster.
    pub sprint: bool,
    /// Speed up the orbiting cubes.
    pub power: bool,
}

/// How the horizontal velocity changes.
#[derive(Debug, Clone, Copy, PartialEq, Eq, Structural)]
pub enum Steer {
    /// Accelerate along `(x, 0, z)` in the ball's own frame; each component is -1, 0 or 1,
    /// and not both are 0.
    Accelerate { x: i8, z: i8 },
    /// No direction is held: slow down.
    Decelerate,
}

/// How the vertical velocity is set.
#[derive(Debug, Clone, Copy, PartialEq, Eq, Structural)]
pub enum Climb {
    /// Move up at climbing speed.
    Rise,
    /// Move down at climbing speed.
    Dive,
    /// Keep the height.
    Hold,
}

/// What a tick of controls asks for.
#[derive(Debug, Clone, Copy, PartialEq, Eq, Structural)]
pub struct MovePlan {
    /// The change of horizontal velocity.
    pub steer: Steer,
    /// The vertical velocity.
    pub climb: Climb,
    /// Whether the horizontal velocity is multiplied by the sprint factor.
    pub sprint: bool,
    /// Whether the orbit speed steps up (else it steps down).
    pub orbit_faster: bool,
}

/// `1` if `b` holds, else `0`.
pub open spec fn flag(b: bool) -> int {
    if b {
        1
    } else {
        0
    }
}

/// Sideways component of the held direction: right counts +1, left -1.
pub open spec fn steer_x(c: Controls) -> int {
    flag(c.right) - flag(c.left)
}

/// Depth component of the held direction: back counts +1, forward -1.
pub open spec fn steer_z(c: Controls) -> int {
    flag(c.back) - flag(c.forward)
}

/// The plan for a tick of controls `c`.
pub open spec fn spec_plan(c: Controls) -> MovePlan {
    let (x, z) = (steer_x(c), steer_z(c));
    MovePlan {
        steer: if x == 0 && z == 0 {
            Steer::Decelerate
        } else {
            Steer::Accelerate { x: x as i8, z: z as i8 }
        },
        climb: if c.rise {
            Climb::Rise
        } else if c.dive {
            Climb::Dive
        } else {
            Climb::Hold
        },
        sprint: c.sprint,
        orbit_faster: c.power,
    }
}

/// Decides what a tick of held controls does: opposite directions cancel, the
/// ball accelerates while some direction remains and slows down otherwise,
/// climbing wins over diving, and the cubes orbit faster while power is held.
pub fn plan_movement(c: Controls) -> (r: MovePlan)
    ensures
        r == spec_plan(c),
{
    let x: i8 = (if c.right { 1i8 } else { 0i8 }) - (if c.left { 1i8 } else { 0i8 });
    let z: i8 = (if c.back { 1i8 } else { 0i8 }) - (if c.forward { 1i8 } else { 0i8 });
    let steer = if x == 0 && z == 0 {
        Steer::Decelerate
    } else {
        Steer::Accelerate { x, z }
    };
    let climb = if c.rise {
        Climb::Rise
    } else if c.dive {
        Climb::Dive
    } else {
        Climb::Hold
    };
    MovePlan { steer, climb, sprint: c.sprint, orbit_faster: c.power }
}

} // verus!
