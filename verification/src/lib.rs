//! The per-frame simulation core of an arcade shooter: entity storage,
//! movement, invincibility timers, bullet-versus-actor combat (including the
//! deflection mechanic), homing and bouncing bullet behavior, death handling
//! and sprite animation. Rendering, audio playback, asset loading and input
//! polling are collaborators around this core: they hand in plain values
//! (handles, dimensions, an input intent) and drain plain values back out.
pub mod bullets;
pub mod combat;
pub mod components;
pub mod game;
pub mod math;
pub mod resources;
pub mod stars;
pub mod store;
pub mod systems;

pub use components::{
    AnimatedSprite, Bullet, BulletTuple, BulletType, ColorRect, DamagesWho, Deflected, Enemy,
    EnemyTuple, EntityId, Player, PlayerEntity, PlayerTuple, Position, Sprite, Star, StarInfo,
    Velocity, Vec2, HP, Hitbox, COORD_LIMIT, FRAME_LIMIT, VEL_LIMIT,
};
pub use components::{new_bullet, new_enemy, new_player};
pub use math::{div_trunc, isqrt_u64, sdiv, sqrt_floor};
pub use resources::{Assets, FrameCtx};
pub use store::{
    create_enemy, create_player, ComponentSet, Slot, Store, StoreError,
};
pub use bullets::{BounceBulletSys, BulletTrackingSys};
pub use combat::BulletCollSys;
pub use game::GameState;
pub use systems::{AnimationSys, HPKillSys, IFrameSys, IntegrateSys};
