//! The data attached to entities: plain-value components and their
//! constructors. Coordinates and velocities are integer units; images and
//! sounds appear only as opaque handles, looked up by the shell around the
//! simulation.
use vstd::prelude::*;

verus! {

/// Positions, hitboxes and screen dimensions are kept within this bound so
/// that all rectangle and reflection arithmetic stays inside `i64`.
pub const COORD_LIMIT: i64 = 32768;

/// Velocities entering the collision system are kept within this bound.
pub const VEL_LIMIT: i64 = 1048576;

/// Bound on positions and velocities at the start of a whole frame: one
/// movement step then keeps positions within `COORD_LIMIT`.
pub const FRAME_LIMIT: i64 = 16384;

/// Velocities coming out of a deflection stay within this bound; the
/// bullet-behavior systems accept any velocity within it.
pub const VEL_WORK_LIMIT: i64 = 0x1000_0000_0000_0000;

pub open spec fn coord_ok(x: int) -> bool {
    -COORD_LIMIT <= x <= COORD_LIMIT
}

pub open spec fn vel_ok(x: int) -> bool {
    -VEL_LIMIT <= x <= VEL_LIMIT
}

pub open spec fn frame_ok(x: int) -> bool {
    -FRAME_LIMIT <= x <= FRAME_LIMIT
}

pub open spec fn vel_work_ok(x: int) -> bool {
    -VEL_WORK_LIMIT <= x <= VEL_WORK_LIMIT
}

/// Bound on velocities and on the input intent at the start of a whole
/// frame; damping plus intent then keeps the player's velocity within
/// `FRAME_LIMIT`.
pub const FRAME_VEL_LIMIT: i64 = 8192;

pub open spec fn frame_vel_ok(x: int) -> bool {
    -FRAME_VEL_LIMIT <= x <= FRAME_VEL_LIMIT
}

/// A two-dimensional integer vector.
#[derive(Clone, Copy, Debug, PartialEq, Eq, Structural)]
pub struct Vec2 {
    pub x: i64,
    pub y: i64,
}

/// An entity's location.
#[derive(Clone, Copy, Debug, PartialEq, Eq, Structural)]
pub struct Position(pub Vec2);

/// An entity's per-frame displacement.
#[derive(Clone, Copy, Debug, PartialEq, Eq, Structural)]
pub struct Velocity(pub Vec2);

impl Default for Velocity {
    fn default() -> (r: Self)
        ensures
            r == Velocity(Vec2 { x: 0, y: 0 }),
    {
        Velocity(Vec2 { x: 0, y: 0 })
    }
}

/// An opaque image handle; the rendering shell resolves it.
#[derive(Clone, Copy, Debug, PartialEq, Eq, Structural)]
pub struct Sprite(pub u32);

/// A flat-colored rectangle, drawn by the shell; `color` is a packed RGBA
/// handle value.
#[derive(Clone, Copy, Debug, PartialEq, Eq, Structural)]
pub struct ColorRect {
    pub color: u32,
    pub w: i64,
    pub h: i64,
}

/// Hit points plus the invincibility-frame counter that follows a hit.
#[derive(Clone, Copy, Debug, PartialEq, Eq, Structural)]
pub struct HP {
    pub remaining: u32,
    pub iframes: u32,
}

/// Which faction a bullet is allowed to damage.
#[derive(Clone, Copy, Debug, PartialEq, Eq, Structural)]
pub enum DamagesWho {
    Player,
    Enemy,
}

#[derive(Clone, Copy, Debug, PartialEq, Eq, Structural)]
pub enum BulletType {
    BasicBullet,
    BouncingBullet(u32),
    TrackingBullet(u32),
}

#[derive(Clone, Copy, Debug, PartialEq, Eq, Structural)]
pub struct Bullet {
    pub damage: u32,
    pub ty: BulletType,
    pub damages_who: DamagesWho,
}

impl Bullet {
    pub fn damages_player(&self) -> (r: bool)
        ensures
            r == (self.damages_who == DamagesWho::Player),
    {
        matches!(self.damages_who, DamagesWho::Player)
    }

    pub fn damages_enemy(&self) -> (r: bool)
        ensures
            r == (self.damages_who == DamagesWho::Enemy),
    {
        matches!(self.damages_who, DamagesWho::Enemy)
    }
}

/// An axis-aligned collision rectangle, offset `(dx, dy)` from the owning
/// entity's position. Invariant: `w` and `h` are nonnegative.
#[derive(Clone, Copy, Debug, PartialEq, Eq, Structural)]
pub struct Hitbox {
    pub dx: i64,
    pub dy: i64,
    pub w: i64,
    pub h: i64,
}

/// A marker attached to a bullet once the player has reflected it.
#[derive(Clone, Copy, Debug, PartialEq, Eq, Structural, Default)]
pub struct Deflected;

#[derive(Clone, Copy, Debug, PartialEq, Eq, Structural)]
pub enum Enemy {
    BasicEnemy,
}

#[derive(Clone, Copy, Debug, PartialEq, Eq, Structural)]
pub struct Player {
    pub bullet_type: BulletType,
    pub reload_speed: u32,
    pub reload_timer: u32,
    pub deflector_timer: u32,
    pub deflector_frames: u32,
}

impl Default for Player {
    fn default() -> (r: Self)
        ensures
            r == (Player {
                bullet_type: BulletType::BasicBullet,
                reload_speed: 10,
                reload_timer: 10,
                deflector_timer: 0,
                deflector_frames: 10,
            }),
    {
        Player {
            bullet_type: BulletType::BasicBullet,
            reload_speed: 10,
            reload_timer: 10,
            deflector_timer: 0,
            deflector_frames: 10,
        }
    }
}

/// Frame-stepped animation state. `sheet` is the opaque handle of the image
/// sequence the shell draws from; the simulation only advances the index.
/// Invariant: `current_frame < num_frames`.
#[derive(Clone, Copy, Debug, PartialEq, Eq, Structural)]
pub struct AnimatedSprite {
    pub sheet: u32,
    pub current_frame: u32,
    pub num_frames: u32,
    pub temporary: bool,
}

/// A purely cosmetic background entity; only the movement system touches it.
#[derive(Clone, Copy, Debug, PartialEq, Eq, Structural, Default)]
pub struct Star;

/// Parameters for spawning background stars.
#[derive(Clone, Copy, Debug, PartialEq, Eq, Structural, Default)]
pub struct StarInfo {
    pub num_stars: usize,
    pub size: i64,
    pub size_variance: i64,
    pub vel: i64,
    pub vel_variance: i64,
}

/// An entity identity: a slot index plus the generation that was current when
/// the entity was created, so that handles to deleted entities go stale.
#[derive(Clone, Copy, Debug, PartialEq, Eq, Structural)]
pub struct EntityId {
    pub index: usize,
    pub generation: u64,
}

/// The player's entity identity, shared with every system.
#[derive(Clone, Copy, Debug, PartialEq, Eq, Structural)]
pub struct PlayerEntity(pub EntityId);

pub type BulletTuple = (Position, Velocity, Bullet);

/// Build the components of a freshly fired bullet: it starts 16 units above
/// `pos`, flies upward at the base speed plus any upward motion of the
/// shooter, and may damage enemies.
pub fn new_bullet(ty: BulletType, pos: Vec2, start_vel: Vec2) -> (r: BulletTuple)
    requires
        coord_ok(pos.x as int),
        coord_ok(pos.y as int),
        vel_ok(start_vel.y as int),
    ensures
        r.0 == Position(Vec2 { x: pos.x, y: (pos.y - 16) as i64 }),
        r.1 == Velocity(
            Vec2 { x: 0, y: (-8 + (if start_vel.y < 0 { start_vel.y as int } else { 0 })) as i64 },
        ),
        r.2 == (Bullet { damage: 1, ty, damages_who: DamagesWho::Enemy }),
{
    let damage: u32 = 1;
    let speed: i64 = -8;
    let bullet = Bullet { damage, ty, damages_who: DamagesWho::Enemy };
    let rise: i64 = if start_vel.y < 0 {
        start_vel.y
    } else {
        0
    };
    (
        Position(Vec2 { x: pos.x, y: pos.y - 16 }),
        Velocity(Vec2 { x: 0, y: speed + rise }),
        bullet,
    )
}

pub type EnemyTuple = (Position, Velocity, Enemy, HP);

/// Build the components of a new enemy at `pos`: at rest, with the hit points
/// of its kind.
pub fn new_enemy(enemy_type: Enemy, pos: Vec2) -> (r: EnemyTuple)
    ensures
        r.0 == Position(pos),
        r.1 == Velocity(Vec2 { x: 0, y: 0 }),
        r.2 == enemy_type,
        r.3 == (HP { remaining: 1, iframes: 0 }),
{
    let hp: u32 = match enemy_type {
        Enemy::BasicEnemy => 1,
    };
    (Position(pos), Velocity::default(), enemy_type, HP { remaining: hp, iframes: 0 })
}

pub type PlayerTuple = (Position, Velocity, HP, Sprite, Player);

/// Build the components of the player: centered horizontally (less half the
/// ship's width), three quarters of the way down the screen, at rest.
pub fn new_player(sprite: Sprite, hp: u32, screen_width: i64, screen_height: i64) -> (r:
    PlayerTuple)
    requires
        0 <= screen_width <= COORD_LIMIT,
        0 <= screen_height <= COORD_LIMIT,
    ensures
        r.0 == Position(
            Vec2 {
                x: (screen_width as int / 2 - 25) as i64,
                y: (screen_height as int * 3 / 4) as i64,
            },
        ),
        r.1 == Velocity(Vec2 { x: 0, y: 0 }),
        r.2 == (HP { remaining: hp, iframes: 0 }),
        r.3 == sprite,
        r.4 == (Player {
            bullet_type: BulletType::BasicBullet,
            reload_speed: 10,
            reload_timer: 10,
            deflector_timer: 0,
            deflector_frames: 10,
        }),
{
    let half: u64 = (screen_width as u64) / 2;
    let three_quarters: u64 = (screen_height as u64) * 3 / 4;
    let pos = Position(Vec2 { x: half as i64 - 25, y: three_quarters as i64 });
    (pos, Velocity::default(), HP { remaining: hp, iframes: 0 }, sprite, Player::default())
}

} // verus!
