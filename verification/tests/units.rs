//! Unit tests: entity-store bookkeeping, the arithmetic helpers, the
//! component constructors and the star roller.
use shooter_core::{
    create_enemy, create_player, div_trunc, isqrt_u64, new_bullet, new_enemy, new_player,
    BulletType, ComponentSet, DamagesWho, Enemy, Position, Sprite, Star, StarInfo, Store, StoreError,
    Vec2, Velocity, HP,
};

#[test]
fn store_create_then_delete() {
    let mut store = Store::new();
    let id = store.create_entity(ComponentSet::empty());
    assert!(store.contains(id));
    assert_eq!(store.delete_entity(id), Ok(()));
    assert!(!store.contains(id));
    assert_eq!(store.delete_entity(id), Err(StoreError::EntityNotFound));
}

#[test]
fn store_reuses_slots_with_fresh_generation() {
    let mut store = Store::new();
    let first = store.create_entity(ComponentSet::empty());
    store.delete_entity(first).unwrap();
    let second = store.create_entity(ComponentSet::empty());
    assert_eq!(second.index, first.index);
    assert_ne!(second.generation, first.generation);
    assert!(!store.contains(first));
    assert!(store.contains(second));
}

#[test]
fn queue_delete_of_absent_entity_fails() {
    let mut store = Store::new();
    let id = store.create_entity(ComponentSet::empty());
    store.delete_entity(id).unwrap();
    assert_eq!(store.queue_delete(id), Err(StoreError::EntityNotFound));
    assert!(store.pending_deletes.is_empty());
}

#[test]
fn commit_applies_queued_changes_in_order() {
    let mut store = Store::new();
    let a = store.create_entity(ComponentSet::empty());
    let b = store.create_entity(ComponentSet::empty());
    store.queue_delete(a).unwrap();
    let mut c = ComponentSet::empty();
    c.star = Some(Star);
    store.queue_create(c);
    store.queue_deflect(b);
    store.commit();
    assert!(!store.contains(a));
    assert!(store.contains(b));
    assert!(store.slots[b.index].comps.deflected.is_some());
    // The queued creation reuses the slot the deletion freed.
    assert_eq!(store.slots.len(), 2);
    assert!(store.slots[a.index].alive);
    assert!(store.slots[a.index].comps.star.is_some());
    assert!(store.pending_creates.is_empty());
    assert!(store.pending_deletes.is_empty());
    assert!(store.pending_deflects.is_empty());
}

#[test]
fn div_trunc_rounds_toward_zero() {
    assert_eq!(div_trunc(7, 2), 3);
    assert_eq!(div_trunc(-7, 2), -3);
    assert_eq!(div_trunc(0, 5), 0);
    assert_eq!(div_trunc(1600, 100), 16);
}

#[test]
fn isqrt_brackets_the_root() {
    assert_eq!(isqrt_u64(0), 0);
    assert_eq!(isqrt_u64(1), 1);
    assert_eq!(isqrt_u64(63), 7);
    assert_eq!(isqrt_u64(64), 8);
    assert_eq!(isqrt_u64(10000), 100);
    assert_eq!(isqrt_u64(u64::MAX), 0xFFFF_FFFF);
}

#[test]
fn new_bullet_flies_up_and_damages_enemies() {
    let (pos, vel, bullet) = new_bullet(
        BulletType::BasicBullet,
        Vec2 { x: 50, y: 40 },
        Vec2 { x: 2, y: -3 },
    );
    assert_eq!(pos, Position(Vec2 { x: 50, y: 24 }));
    assert_eq!(vel, Velocity(Vec2 { x: 0, y: -11 }));
    assert_eq!(bullet.damage, 1);
    assert_eq!(bullet.damages_who, DamagesWho::Enemy);
    // A shooter moving downward adds nothing to the bullet's speed.
    let (_, vel2, _) = new_bullet(
        BulletType::BasicBullet,
        Vec2 { x: 0, y: 0 },
        Vec2 { x: 0, y: 5 },
    );
    assert_eq!(vel2, Velocity(Vec2 { x: 0, y: -8 }));
}

#[test]
fn new_enemy_and_create_enemy() {
    let tuple = new_enemy(Enemy::BasicEnemy, Vec2 { x: 30, y: 60 });
    assert_eq!(tuple.0, Position(Vec2 { x: 30, y: 60 }));
    assert_eq!(tuple.1, Velocity(Vec2 { x: 0, y: 0 }));
    assert_eq!(tuple.3, HP { remaining: 1, iframes: 0 });
    let mut store = Store::new();
    let id = create_enemy(&mut store, &tuple, Sprite(9));
    assert!(store.contains(id));
    assert_eq!(store.slots[id.index].comps.sprite, Some(Sprite(9)));
    assert_eq!(store.slots[id.index].comps.hp, Some(HP { remaining: 1, iframes: 0 }));
}

#[test]
fn new_player_stands_three_quarters_down() {
    let tuple = new_player(Sprite(3), 10, 800, 600);
    assert_eq!(tuple.0, Position(Vec2 { x: 375, y: 450 }));
    assert_eq!(tuple.2, HP { remaining: 10, iframes: 0 });
    let player = tuple.4;
    assert_eq!(player.reload_speed, 10);
    assert_eq!(player.deflector_timer, 0);
    let mut store = Store::new();
    let id = create_player(&mut store, tuple);
    assert!(store.contains(id));
    assert!(store.slots[id.index].comps.player.is_some());
}

#[test]
fn new_star_lands_in_its_ranges() {
    let info = StarInfo { num_stars: 100, size: 4, size_variance: 2, vel: 6, vel_variance: 3 };
    for _ in 0..200 {
        let (pos, vel, rect) = info.new_star(800);
        assert!(0 <= pos.0.x && pos.0.x < 800);
        assert!(-800 <= pos.0.y && pos.0.y < 0);
        assert_eq!(vel.0.x, 0);
        assert!(3 <= vel.0.y && vel.0.y < 9);
        assert!(2 <= rect.w && rect.w < 6);
        assert_eq!(rect.h, rect.w);
    }
}
