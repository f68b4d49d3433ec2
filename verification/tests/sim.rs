//! End-to-end scenarios for the simulation core: movement, timers, combat,
//! deflection, bullet behavior, death and animation.
use shooter_core::{
    AnimatedSprite, AnimationSys, Assets, Bullet, BulletCollSys, BulletTrackingSys, BulletType,
    BounceBulletSys, ComponentSet, DamagesWho, Deflected, EntityId, FrameCtx, GameState, HPKillSys, Hitbox,
    IFrameSys, IntegrateSys, Player, PlayerEntity, Position, Store, Vec2, Velocity, HP,
};

fn no_assets() -> Assets {
    Assets { explosion: None, boom_sound: None, deflect_sound: None, dead_sound: None }
}

fn full_assets() -> Assets {
    Assets {
        explosion: Some(AnimatedSprite {
            sheet: 7,
            current_frame: 0,
            num_frames: 4,
            temporary: true,
        }),
        boom_sound: Some(100),
        deflect_sound: Some(101),
        dead_sound: Some(102),
    }
}

fn ctx_with(player: EntityId, assets: Assets) -> FrameCtx {
    FrameCtx {
        player: PlayerEntity(player),
        screen_width: 800,
        screen_height: 600,
        assets,
        queued_sounds: Vec::new(),
        dead: false,
        hp_needs_redraw: false,
    }
}

fn square_hitbox() -> Hitbox {
    Hitbox { dx: 0, dy: 0, w: 10, h: 10 }
}

fn actor(pos: Vec2, vel: Vec2, hp: u32) -> ComponentSet {
    let mut c = ComponentSet::empty();
    c.position = Some(Position(pos));
    c.velocity = Some(Velocity(vel));
    c.hp = Some(HP { remaining: hp, iframes: 0 });
    c.hitbox = Some(square_hitbox());
    c
}

fn player_comps(pos: Vec2, hp: u32, deflector_timer: u32) -> ComponentSet {
    let mut c = actor(pos, Vec2 { x: 0, y: 0 }, hp);
    c.player = Some(Player {
        bullet_type: BulletType::BasicBullet,
        reload_speed: 10,
        reload_timer: 10,
        deflector_timer,
        deflector_frames: 10,
    });
    c
}

fn bullet_comps(pos: Vec2, vel: Vec2, damage: u32, ty: BulletType, who: DamagesWho) -> ComponentSet {
    let mut c = ComponentSet::empty();
    c.position = Some(Position(pos));
    c.velocity = Some(Velocity(vel));
    c.bullet = Some(Bullet { damage, ty, damages_who: who });
    c.hitbox = Some(square_hitbox());
    c
}

#[test]
fn movement_adds_velocity() {
    let mut store = Store::new();
    let id = store.create_entity(actor(Vec2 { x: 1, y: 2 }, Vec2 { x: 3, y: -4 }, 1));
    IntegrateSys::run(&mut store);
    let slot = store.slots[id.index];
    assert_eq!(slot.comps.position.unwrap().0, Vec2 { x: 4, y: -2 });
    assert_eq!(slot.comps.velocity.unwrap().0, Vec2 { x: 3, y: -4 });
}

#[test]
fn iframes_decrement_once_and_stop_at_zero() {
    let mut store = Store::new();
    let mut c = ComponentSet::empty();
    c.hp = Some(HP { remaining: 3, iframes: 5 });
    let a = store.create_entity(c);
    let mut c0 = ComponentSet::empty();
    c0.hp = Some(HP { remaining: 3, iframes: 0 });
    let b = store.create_entity(c0);
    IFrameSys::run(&mut store);
    assert_eq!(store.slots[a.index].comps.hp.unwrap().iframes, 4);
    assert_eq!(store.slots[b.index].comps.hp.unwrap().iframes, 0);
    assert_eq!(store.slots[a.index].comps.hp.unwrap().remaining, 3);
}

#[test]
fn damage_saturates_at_zero() {
    let mut store = Store::new();
    let player = store.create_entity(player_comps(Vec2 { x: 400, y: 400 }, 10, 0));
    let _enemy = store.create_entity(actor(Vec2 { x: 100, y: 100 }, Vec2 { x: 0, y: 0 }, 2));
    let _bullet = store.create_entity(bullet_comps(
        Vec2 { x: 100, y: 100 },
        Vec2 { x: 0, y: 0 },
        5,
        BulletType::BasicBullet,
        DamagesWho::Enemy,
    ));
    let mut ctx = ctx_with(player, full_assets());
    BulletCollSys::run(&mut store, &mut ctx);
    assert_eq!(store.slots[1].comps.hp.unwrap().remaining, 0);
}

#[test]
fn faction_mismatch_never_damages() {
    let mut store = Store::new();
    let player = store.create_entity(player_comps(Vec2 { x: 400, y: 400 }, 10, 0));
    let _enemy = store.create_entity(actor(Vec2 { x: 100, y: 100 }, Vec2 { x: 0, y: 0 }, 5));
    // A player-damaging bullet sitting right on the enemy: it may not touch it.
    let _bullet = store.create_entity(bullet_comps(
        Vec2 { x: 100, y: 100 },
        Vec2 { x: 0, y: 0 },
        3,
        BulletType::BasicBullet,
        DamagesWho::Player,
    ));
    let mut ctx = ctx_with(player, full_assets());
    BulletCollSys::run(&mut store, &mut ctx);
    assert_eq!(store.slots[1].comps.hp.unwrap().remaining, 5);
    assert!(store.pending_deletes.is_empty());
    assert!(ctx.queued_sounds.is_empty());
}

#[test]
fn basic_hit_on_player() {
    // Player (HP 10, deflector down) at rest under a Basic enemy bullet with
    // damage 3: HP drops to 7, the bullet goes, one boom cue, redraw set.
    let mut store = Store::new();
    let player = store.create_entity(player_comps(Vec2 { x: 100, y: 100 }, 10, 0));
    let bullet = store.create_entity(bullet_comps(
        Vec2 { x: 100, y: 100 },
        Vec2 { x: 0, y: 0 },
        3,
        BulletType::BasicBullet,
        DamagesWho::Player,
    ));
    let mut ctx = ctx_with(player, full_assets());
    BulletCollSys::run(&mut store, &mut ctx);
    assert_eq!(store.slots[player.index].comps.hp.unwrap().remaining, 7);
    assert_eq!(ctx.queued_sounds, vec![100]);
    assert!(ctx.hp_needs_redraw);
    assert_eq!(store.pending_deletes, vec![bullet]);
    store.commit();
    assert!(!store.contains(bullet));
    assert!(store.contains(player));
}

#[test]
fn deflection_reflects_and_rearms() {
    // Player with deflector_timer 5 hit by a Basic bullet (damage 2,
    // damages the player): the bullet survives, is tagged, flips faction,
    // damage becomes 6, the timer re-arms to twice deflector_frames, one
    // deflect cue is queued and the player's HP is untouched.
    let mut store = Store::new();
    let player = store.create_entity(player_comps(Vec2 { x: 0, y: 0 }, 10, 5));
    let bullet = store.create_entity(bullet_comps(
        Vec2 { x: 0, y: -10 },
        Vec2 { x: 0, y: 8 },
        2,
        BulletType::BasicBullet,
        DamagesWho::Player,
    ));
    let mut ctx = ctx_with(player, full_assets());
    BulletCollSys::run(&mut store, &mut ctx);
    let b = store.slots[bullet.index].comps.bullet.unwrap();
    assert_eq!(b.damage, 6);
    assert_eq!(b.damages_who, DamagesWho::Enemy);
    assert_eq!(store.slots[player.index].comps.hp.unwrap().remaining, 10);
    assert_eq!(store.slots[player.index].comps.player.unwrap().deflector_timer, 20);
    assert_eq!(ctx.queued_sounds, vec![101]);
    assert!(store.pending_deletes.is_empty());
    assert_eq!(store.pending_deflects, vec![bullet]);
    // The reflection reverses the velocity's component along the center-to-
    // center normal exactly: straight down becomes straight up.
    assert_eq!(store.slots[bullet.index].comps.velocity.unwrap().0, Vec2 { x: 0, y: -8 });
    store.commit();
    assert!(store.slots[bullet.index].comps.deflected.is_some());
}

#[test]
fn deflected_kill_heals_player() {
    // A deflected bullet (damage 6, originally 2) kills an enemy: the player
    // is healed by (6 / 3) * 2 == 4 once the frame's collisions are done.
    let mut store = Store::new();
    let player = store.create_entity(player_comps(Vec2 { x: 400, y: 400 }, 10, 0));
    let _enemy = store.create_entity(actor(Vec2 { x: 100, y: 100 }, Vec2 { x: 0, y: 0 }, 1));
    let mut bc = bullet_comps(
        Vec2 { x: 100, y: 100 },
        Vec2 { x: 0, y: 0 },
        6,
        BulletType::BasicBullet,
        DamagesWho::Enemy,
    );
    bc.deflected = Some(Deflected);
    let _bullet = store.create_entity(bc);
    let mut ctx = ctx_with(player, full_assets());
    BulletCollSys::run(&mut store, &mut ctx);
    assert_eq!(store.slots[1].comps.hp.unwrap().remaining, 0);
    assert_eq!(store.slots[player.index].comps.hp.unwrap().remaining, 14);
    assert!(ctx.hp_needs_redraw);
}

#[test]
fn offscreen_bullet_is_culled() {
    let mut store = Store::new();
    let player = store.create_entity(player_comps(Vec2 { x: 400, y: 400 }, 10, 0));
    let bullet = store.create_entity(bullet_comps(
        Vec2 { x: 815, y: 100 },
        Vec2 { x: 0, y: 0 },
        1,
        BulletType::BasicBullet,
        DamagesWho::Enemy,
    ));
    let mut ctx = ctx_with(player, full_assets());
    BulletCollSys::run(&mut store, &mut ctx);
    assert_eq!(store.pending_deletes, vec![bullet]);
    assert!(ctx.queued_sounds.is_empty());
}

#[test]
fn expired_tracking_bullet_explodes_once() {
    // A tracking bullet with no frames left is removed, produces exactly one
    // explosion and one boom cue, and its velocity is never updated.
    let mut store = Store::new();
    let player = store.create_entity(player_comps(Vec2 { x: 400, y: 400 }, 10, 0));
    let bullet = store.create_entity(bullet_comps(
        Vec2 { x: 100, y: 100 },
        Vec2 { x: 2, y: 3 },
        1,
        BulletType::TrackingBullet(0),
        DamagesWho::Player,
    ));
    let mut ctx = ctx_with(player, full_assets());
    BulletTrackingSys::run(&mut store, &mut ctx);
    assert_eq!(store.pending_deletes, vec![bullet]);
    assert_eq!(store.pending_creates.len(), 1);
    assert_eq!(store.pending_creates[0].position, Some(Position(Vec2 { x: 100, y: 100 })));
    assert_eq!(ctx.queued_sounds, vec![100]);
    assert_eq!(store.slots[bullet.index].comps.velocity.unwrap().0, Vec2 { x: 2, y: 3 });
    assert_eq!(
        store.slots[bullet.index].comps.bullet.unwrap().ty,
        BulletType::TrackingBullet(0)
    );
}

#[test]
fn live_tracking_bullet_steers_and_burns_fuse() {
    let mut store = Store::new();
    let player = store.create_entity(player_comps(Vec2 { x: 100, y: 200 }, 10, 0));
    let bullet = store.create_entity(bullet_comps(
        Vec2 { x: 100, y: 100 },
        Vec2 { x: 0, y: 0 },
        1,
        BulletType::TrackingBullet(60),
        DamagesWho::Player,
    ));
    let mut ctx = ctx_with(player, full_assets());
    BulletTrackingSys::run(&mut store, &mut ctx);
    // Target velocity is (0, 7); one fiftieth of the way rounds to zero in
    // x and to zero in y (7 / 50 truncates), so velocity stays put while the
    // fuse burns down.
    assert_eq!(
        store.slots[bullet.index].comps.bullet.unwrap().ty,
        BulletType::TrackingBullet(59)
    );
    assert_eq!(store.slots[bullet.index].comps.velocity.unwrap().0, Vec2 { x: 0, y: 0 });
    assert!(store.pending_deletes.is_empty());
}

#[test]
fn tracking_bullet_turns_toward_player() {
    // A bullet flying away at (0, -60) against a target velocity of (0, 7)
    // gains (7 - (-60)) / 50 == 1 upward this frame.
    let mut store = Store::new();
    let player = store.create_entity(player_comps(Vec2 { x: 100, y: 200 }, 10, 0));
    let bullet = store.create_entity(bullet_comps(
        Vec2 { x: 100, y: 100 },
        Vec2 { x: 0, y: -60 },
        1,
        BulletType::TrackingBullet(30),
        DamagesWho::Player,
    ));
    let mut ctx = ctx_with(player, full_assets());
    BulletTrackingSys::run(&mut store, &mut ctx);
    assert_eq!(store.slots[bullet.index].comps.velocity.unwrap().0, Vec2 { x: 0, y: -59 });
    assert_eq!(
        store.slots[bullet.index].comps.bullet.unwrap().ty,
        BulletType::TrackingBullet(29)
    );
}

#[test]
fn player_velocity_damps_by_twenty_over_twentynine() {
    let mut store = Store::new();
    let mut c = player_comps(Vec2 { x: 400, y: 400 }, 10, 0);
    c.velocity = Some(Velocity(Vec2 { x: 29, y: -29 }));
    let player = store.create_entity(c);
    let ctx = ctx_with(player, full_assets());
    let mut game = GameState::new(store, ctx);
    game.update(Vec2 { x: 0, y: 0 });
    assert_eq!(game.world.slots[player.index].comps.velocity.unwrap().0, Vec2 { x: 20, y: -20 });
    assert_eq!(
        game.world.slots[player.index].comps.position.unwrap().0,
        Vec2 { x: 420, y: 380 }
    );
}

#[test]
fn overbounced_bullet_is_deleted_not_bounced() {
    // A bouncing bullet with no bounces left reaching a boundary is deleted.
    let mut store = Store::new();
    let player = store.create_entity(player_comps(Vec2 { x: 400, y: 400 }, 10, 0));
    let bullet = store.create_entity(bullet_comps(
        Vec2 { x: 801, y: 100 },
        Vec2 { x: 3, y: 0 },
        1,
        BulletType::BouncingBullet(0),
        DamagesWho::Enemy,
    ));
    let ctx = ctx_with(player, full_assets());
    BounceBulletSys::run(&mut store, &ctx);
    assert_eq!(store.pending_deletes, vec![bullet]);
    store.commit();
    assert!(!store.contains(bullet));
}

#[test]
fn bouncing_bullet_reflects_off_edge() {
    // Bouncing(2) at x == screen_width + 1 moving outward: velocity flips,
    // one bounce is spent, the entity survives.
    let mut store = Store::new();
    let player = store.create_entity(player_comps(Vec2 { x: 400, y: 400 }, 10, 0));
    let bullet = store.create_entity(bullet_comps(
        Vec2 { x: 801, y: 100 },
        Vec2 { x: 3, y: 0 },
        1,
        BulletType::BouncingBullet(2),
        DamagesWho::Enemy,
    ));
    let ctx = ctx_with(player, full_assets());
    BounceBulletSys::run(&mut store, &ctx);
    assert_eq!(store.slots[bullet.index].comps.velocity.unwrap().0, Vec2 { x: -3, y: 0 });
    assert_eq!(
        store.slots[bullet.index].comps.bullet.unwrap().ty,
        BulletType::BouncingBullet(1)
    );
    assert!(store.pending_deletes.is_empty());
    store.commit();
    assert!(store.contains(bullet));
}

#[test]
fn player_death_raises_flag_and_cue() {
    let mut store = Store::new();
    let player = store.create_entity(player_comps(Vec2 { x: 400, y: 400 }, 0, 0));
    let mut ctx = ctx_with(player, full_assets());
    HPKillSys::run(&mut store, &mut ctx);
    assert!(ctx.dead);
    assert_eq!(ctx.queued_sounds, vec![102]);
    assert_eq!(store.pending_deletes, vec![player]);
    store.commit();
    assert!(!store.contains(player));
}

#[test]
fn enemy_death_is_silent() {
    let mut store = Store::new();
    let player = store.create_entity(player_comps(Vec2 { x: 400, y: 400 }, 5, 0));
    let enemy = store.create_entity(actor(Vec2 { x: 100, y: 100 }, Vec2 { x: 0, y: 0 }, 0));
    let mut ctx = ctx_with(player, full_assets());
    HPKillSys::run(&mut store, &mut ctx);
    assert!(!ctx.dead);
    assert!(ctx.queued_sounds.is_empty());
    assert_eq!(store.pending_deletes, vec![enemy]);
}

#[test]
fn finished_one_shot_animation_is_deleted() {
    // num_frames 4, temporary, current_frame 3: one animation tick deletes
    // the entity.
    let mut store = Store::new();
    let mut c = ComponentSet::empty();
    c.animated_sprite = Some(AnimatedSprite {
        sheet: 1,
        current_frame: 3,
        num_frames: 4,
        temporary: true,
    });
    let id = store.create_entity(c);
    AnimationSys::run(&mut store);
    assert_eq!(store.pending_deletes, vec![id]);
    store.commit();
    assert!(!store.contains(id));
}

#[test]
fn looping_animation_wraps() {
    let mut store = Store::new();
    let mut c = ComponentSet::empty();
    c.animated_sprite = Some(AnimatedSprite {
        sheet: 1,
        current_frame: 3,
        num_frames: 4,
        temporary: false,
    });
    let id = store.create_entity(c);
    AnimationSys::run(&mut store);
    assert_eq!(store.slots[id.index].comps.animated_sprite.unwrap().current_frame, 0);
    assert!(store.pending_deletes.is_empty());
}

#[test]
fn whole_frame_through_game_state() {
    let mut store = Store::new();
    let player = store.create_entity(player_comps(Vec2 { x: 100, y: 100 }, 10, 0));
    let bullet = store.create_entity(bullet_comps(
        Vec2 { x: 100, y: 80 },
        Vec2 { x: 0, y: 10 },
        3,
        BulletType::BasicBullet,
        DamagesWho::Player,
    ));
    let ctx = ctx_with(player, full_assets());
    let mut game = GameState::new(store, ctx);
    // Movement brings the bullet onto the player; combat then removes it.
    game.update(Vec2 { x: 0, y: 0 });
    assert_eq!(game.world.slots[player.index].comps.hp.unwrap().remaining, 7);
    assert!(!game.world.contains(bullet));
    assert_eq!(game.ctx.queued_sounds, vec![100]);
    assert!(game.ctx.hp_needs_redraw);
    assert!(!game.ctx.dead);
}

#[test]
fn missing_assets_skip_cues_but_not_damage() {
    let mut store = Store::new();
    let player = store.create_entity(player_comps(Vec2 { x: 100, y: 100 }, 10, 0));
    let bullet = store.create_entity(bullet_comps(
        Vec2 { x: 100, y: 100 },
        Vec2 { x: 0, y: 0 },
        3,
        BulletType::BasicBullet,
        DamagesWho::Player,
    ));
    let mut ctx = ctx_with(player, no_assets());
    BulletCollSys::run(&mut store, &mut ctx);
    assert_eq!(store.slots[player.index].comps.hp.unwrap().remaining, 7);
    assert!(ctx.queued_sounds.is_empty());
    assert_eq!(store.pending_deletes, vec![bullet]);
    assert!(store.pending_creates.is_empty());
}
