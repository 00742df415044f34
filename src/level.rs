use vstd::prelude::*;

use crate::vector::Vector;

verus! {

/// Number of player bodies the level starts with.
pub const PLAYER_COUNT: usize = 11;

/// Downward pull of gravity, in world units per second squared.
pub const GRAVITY_PULL: i64 = 900;

/// World units per physics meter.
pub const UNITS_PER_METER: u32 = 1;

/// How a body takes part in the physics simulation.
#[derive(Clone, Copy, Debug, PartialEq, Eq, Structural)]
pub enum BodyKind {
    /// Moved by forces, impulses and collisions.
    Dynamic,
    /// Never moves; others collide with it.
    Fixed,
}

/// What a body is in the level; this decides its display name.
#[derive(Clone, Copy, Debug, PartialEq, Eq, Structural)]
pub enum Role {
    Player,
    Floor,
    LeftWall,
    RightWall,
    Ceiling,
}

/// Movement parameters of a body that the keys steer.
#[derive(Clone, Copy, Debug, PartialEq, Eq, Structural)]
pub struct MovementController {
    /// The direction the body wants to move in.
    pub intent: Vector,
    /// Largest speed, in world units per second.
    pub max_speed: i64,
}

/// One body to spawn: its role, physics kind, position, collider box and
/// optional steering.
#[derive(Clone, Copy, Debug, PartialEq, Eq, Structural)]
pub struct BodyPlan {
    pub role: Role,
    pub kind: BodyKind,
    /// Centre of the body.
    pub position: Vector,
    /// Half the width and half the height of its box collider.
    pub half_extents: Vector,
    /// Present on bodies that the movement keys push.
    pub controller: Option<MovementController>,
    /// A restitution coefficient of one (fully elastic bounces) when true;
    /// the engine's default restitution otherwise.
    pub elastic: bool,
}

pub open spec fn spec_role_name(role: Role) -> Seq<char> {
    match role {
        Role::Player => "Player1"@,
        Role::Floor => "Floor"@,
        Role::LeftWall => "Wall1"@,
        Role::RightWall => "Wall2"@,
        Role::Ceiling => "Wall3"@,
    }
}

impl Role {
    /// The display name of a body with this role. Every player shares one name.
    pub fn name(&self) -> (r: &'static str)
        ensures
            r@ == spec_role_name(*self),
    {
        match self {
            Role::Player => "Player1",
            Role::Floor => "Floor",
            Role::LeftWall => "Wall1",
            Role::RightWall => "Wall2",
            Role::Ceiling => "Wall3",
        }
    }
}

/// The texture that every body of the level is drawn with.
pub open spec fn spec_sprite_path() -> Seq<char> {
    "ducky.png"@
}

/// The texture that every body of the level is drawn with.
pub fn sprite_path() -> (r: &'static str)
    ensures
        r@ == spec_sprite_path(),
{
    "ducky.png"
}

/// Gravity of the simulated world: straight down.
pub fn gravity() -> (r: Vector)
    ensures
        r.x == 0,
        r.y == -GRAVITY_PULL,
{
    Vector::new(0, -GRAVITY_PULL)
}

pub open spec fn spec_player() -> BodyPlan {
    BodyPlan {
        role: Role::Player,
        kind: BodyKind::Dynamic,
        position: Vector { x: 0, y: 0 },
        half_extents: Vector { x: 16, y: 16 },
        controller: Some(MovementController { intent: Vector { x: 0, y: 0 }, max_speed: 1 }),
        elastic: true,
    }
}

pub open spec fn spec_fixed(role: Role, x: i64, y: i64, half_width: i64, half_height: i64) -> BodyPlan {
    BodyPlan {
        role,
        kind: BodyKind::Fixed,
        position: Vector { x, y },
        half_extents: Vector { x: half_width, y: half_height },
        controller: None,
        elastic: false,
    }
}

/// The level: the players, all at the origin, then the floor, the left and
/// right walls and the ceiling that box them in.
pub open spec fn spec_level() -> Seq<BodyPlan> {
    Seq::new(PLAYER_COUNT as nat, |i: int| spec_player()) + seq![
        spec_fixed(Role::Floor, 0, -300i64, 800, 16),
        spec_fixed(Role::LeftWall, -600i64, 0, 16, 400),
        spec_fixed(Role::RightWall, 600, 0, 16, 400),
        spec_fixed(Role::Ceiling, 0, 300, 800, 16),
    ]
}

/// A player body: dynamic, a 32 by 32 box at the origin, steered with
/// no intent and a top speed of one, bouncing fully elastically.
pub fn player() -> (r: BodyPlan)
    ensures
        r == spec_player(),
{
    BodyPlan {
        role: Role::Player,
        kind: BodyKind::Dynamic,
        position: Vector::zero(),
        half_extents: Vector::new(16, 16),
        controller: Some(MovementController { intent: Vector::zero(), max_speed: 1 }),
        elastic: true,
    }
}

/// A fixed box with the given centre and half extents.
pub fn fixed_box(role: Role, x: i64, y: i64, half_width: i64, half_height: i64) -> (r: BodyPlan)
    ensures
        r == spec_fixed(role, x, y, half_width, half_height),
{
    BodyPlan {
        role,
        kind: BodyKind::Fixed,
        position: Vector::new(x, y),
        half_extents: Vector::new(half_width, half_height),
        controller: None,
        elastic: false,
    }
}

/// Every body of the level, in spawn order.
pub fn level() -> (r: Vec<BodyPlan>)
    ensures
        r@ == spec_level(),
{
    let mut bodies: Vec<BodyPlan> = Vec::new();
    let mut i: usize = 0;
    while i < PLAYER_COUNT
        invariant
            i <= PLAYER_COUNT,
            bodies@ =~= Seq::new(i as nat, |j: int| spec_player()),
        decreases PLAYER_COUNT - i,
    {
        bodies.push(player());
        i += 1;
    }
    bodies.push(fixed_box(Role::Floor, 0, -300, 800, 16));
    bodies.push(fixed_box(Role::LeftWall, -600, 0, 16, 400));
    bodies.push(fixed_box(Role::RightWall, 600, 0, 16, 400));
    bodies.push(fixed_box(Role::Ceiling, 0, 300, 800, 16));
    assert(bodies@ =~= spec_level());
    bodies
}

} // verus!
