//! The collision and combat system: bullet-versus-hitbox overlap, damage,
//! the deflection mechanic, explosion spawning and sound cues. This is the
//! core of the frame: one pass over every bullet, and per bullet one pass
//! over every hit-point-bearing target.
use vstd::prelude::*;

use crate::components::{
    coord_ok, vel_ok, vel_work_ok, AnimatedSprite, Bullet, BulletType, DamagesWho, EntityId,
    Player, Position, Vec2, Velocity, COORD_LIMIT,
};
use crate::math::{div_trunc, isqrt_u64, lemma_sdiv_mag, sdiv, sqrt_floor};
use crate::resources::{Assets, FrameCtx};
use crate::store::{id_of, id_valid, ComponentSet, Slot, Store};

verus! {

/// The horizontal margin beyond the screen edges inside which a bullet
/// survives culling.
pub const CULL_MARGIN: i64 = 10;

/// An axis-aligned rectangle over unbounded integers, used to state the
/// collision geometry.
pub struct RectI {
    pub x: int,
    pub y: int,
    pub w: int,
    pub h: int,
}

/// The absolute collision rectangle of an entity: its position plus its
/// hitbox offset and extent.
pub open spec fn rect_of(p: Position, hb: crate::components::Hitbox) -> RectI {
    RectI { x: p.0.x + hb.dx, y: p.0.y + hb.dy, w: hb.w as int, h: hb.h as int }
}

/// Axis-aligned rectangle overlap, edges touching included; `y` grows
/// downward, so `y` is the top edge and `y + h` the bottom edge.
pub open spec fn rects_overlap(a: RectI, b: RectI) -> bool {
    &&& a.x <= b.x + b.w
    &&& a.x + a.w >= b.x
    &&& a.y <= b.y + b.h
    &&& a.y + a.h >= b.y
}

/// A bullet outside the expanded screen rectangle is culled: ten units of
/// margin on either side horizontally, ten above, none below.
pub open spec fn offscreen(p: Position, screen_width: i64, screen_height: i64) -> bool {
    ||| !(-CULL_MARGIN <= p.0.x < screen_width + CULL_MARGIN)
    ||| !(-CULL_MARGIN <= p.0.y < screen_height)
}

/// This slot takes part in the bullet pass: a live entity with a bullet, a
/// position and a hitbox.
pub open spec fn bullet_slot(s: Slot) -> bool {
    &&& s.alive
    &&& s.comps.bullet is Some
    &&& s.comps.position is Some
    &&& s.comps.hitbox is Some
}

/// This slot can be hit: a live entity with hit points, a position and a
/// hitbox.
pub open spec fn target_slot(s: Slot) -> bool {
    &&& s.alive
    &&& s.comps.hp is Some
    &&& s.comps.position is Some
    &&& s.comps.hitbox is Some
}

/// The faction-and-alive gate on a potential hit. Note the asymmetry, kept
/// deliberately: the target-still-alive test guards only the enemy-target
/// clause, not the player-target clause.
pub open spec fn may_hit(b: Bullet, t_is_player: bool, remaining: u32) -> bool {
    ||| (b.damages_who == DamagesWho::Player && t_is_player)
    ||| (b.damages_who == DamagesWho::Enemy && !t_is_player && remaining > 0)
}

/// `a + b` capped at the top of `u32`.
pub open spec fn sat_add_u32(a: u32, b: int) -> u32 {
    if a + b > u32::MAX {
        u32::MAX
    } else {
        (a + b) as u32
    }
}

/// The velocity of a bullet the player deflects. The bullet's velocity is
/// reflected across the line from the player's center to the bullet's
/// center, the player's own velocity is added, near-zero horizontal drift is
/// clamped to exactly zero, and a speed below eight is scaled back up to
/// about eight. Two degenerate inputs are left unscaled: coinciding centers
/// (no direction to reflect across) and a zero velocity after clamping (no
/// direction to scale along).
pub open spec fn deflected_velocity(v: Vec2, pv: Vec2, bcx: int, bcy: int, pcx: int, pcy: int) -> Vec2 {
    let nx = bcx - pcx;
    let ny = bcy - pcy;
    let nn = nx * nx + ny * ny;
    let dot = v.x * nx + v.y * ny;
    let v1x = if nn == 0 {
        v.x as int
    } else {
        v.x - sdiv(2 * dot * nx, nn)
    };
    let v1y = if nn == 0 {
        v.y as int
    } else {
        v.y - sdiv(2 * dot * ny, nn)
    };
    let v2x = v1x + pv.x;
    let v2y = v1y + pv.y;
    let v3x = if -8 < v2x < 8 {
        0int
    } else {
        v2x
    };
    let sq = v3x * v3x + v2y * v2y;
    if 0 < sq < 64 {
        let sp = sqrt_floor(sq);
        Vec2 { x: sdiv(v3x * 8, sp) as i64, y: sdiv(v2y * 8, sp) as i64 }
    } else {
        Vec2 { x: v3x as i64, y: v2y as i64 }
    }
}

/// What a deflection does to the bullet itself: a tracking bullet keeps its
/// faction and damage but has a long fuse shortened to ten frames; any other
/// bullet turns on its firer's enemies with tripled damage.
pub open spec fn deflected_bullet(b: Bullet) -> Bullet {
    if b.ty is TrackingBullet {
        let f = b.ty->TrackingBullet_0;
        if f > 10 {
            Bullet { ty: BulletType::TrackingBullet(10), ..b }
        } else {
            b
        }
    } else {
        Bullet { damage: (b.damage * 3) as u32, damages_who: DamagesWho::Enemy, ..b }
    }
}

/// The whole mutable state the combat pass threads through: the slot table,
/// the three structural-change buffers, the heal accumulated from deflected
/// kills, and the per-frame flags.
#[verifier::ext_equal]
pub struct CombatState {
    pub slots: Seq<Slot>,
    pub creates: Seq<ComponentSet>,
    pub deletes: Seq<EntityId>,
    pub deflects: Seq<EntityId>,
    pub heal: u32,
    pub explosion: bool,
    pub deflection: bool,
    pub redraw: bool,
}

/// The deflection branch of a hit on the player: reflect and re-arm.
pub open spec fn deflect_step(st: CombatState, player: EntityId, b: int) -> CombatState {
    let p = player.index as int;
    let bs = st.slots[b];
    let ps = st.slots[p];
    let bv = bs.comps.velocity->Some_0.0;
    let pv = ps.comps.velocity->Some_0.0;
    let brect = rect_of(bs.comps.position->Some_0, bs.comps.hitbox->Some_0);
    let prect = rect_of(ps.comps.position->Some_0, ps.comps.hitbox->Some_0);
    let nv = deflected_velocity(
        bv,
        pv,
        brect.x + brect.w / 2,
        brect.y + brect.h / 2,
        prect.x + prect.w / 2,
        prect.y + prect.h / 2,
    );
    let nb = deflected_bullet(bs.comps.bullet->Some_0);
    let slots1 = st.slots.update(
        b,
        Slot {
            comps: ComponentSet {
                velocity: Some(Velocity(nv)),
                bullet: Some(nb),
                ..bs.comps
            },
            ..bs
        },
    );
    let ps1 = slots1[p];
    let pl = ps1.comps.player->Some_0;
    let slots2 = slots1.update(
        p,
        Slot {
            comps: ComponentSet {
                player: Some(
                    Player { deflector_timer: (pl.deflector_frames * 2) as u32, ..pl },
                ),
                ..ps1.comps
            },
            ..ps1
        },
    );
    CombatState {
        slots: slots2,
        deflects: st.deflects.push(id_of(st.slots, b)),
        deflection: true,
        ..st
    }
}

/// The normal-hit branch: the bullet is queued for deletion, an explosion is
/// queued at its position (when the template asset is present), a deflected
/// bullet's kill banks healing for the player, and the target's hit points
/// drop by the damage, saturating at zero.
pub open spec fn normal_hit_step(
    st: CombatState,
    template: Option<AnimatedSprite>,
    b: int,
    t: int,
) -> CombatState {
    let bs = st.slots[b];
    let ts = st.slots[t];
    let bullet = bs.comps.bullet->Some_0;
    let creates1 = if template is Some {
        st.creates.push(
            crate::bullets::explosion_components(bs.comps.position->Some_0, template->Some_0),
        )
    } else {
        st.creates
    };
    let heal1 = if bs.comps.deflected is Some {
        sat_add_u32(st.heal, bullet.damage as int / 3 * 2)
    } else {
        st.heal
    };
    let hp = ts.comps.hp->Some_0;
    let dealt = if bullet.damage < hp.remaining {
        bullet.damage
    } else {
        hp.remaining
    };
    let slots1 = st.slots.update(
        t,
        Slot {
            comps: ComponentSet {
                hp: Some(
                    crate::components::HP {
                        remaining: (hp.remaining - dealt) as u32,
                        iframes: hp.iframes,
                    },
                ),
                ..ts.comps
            },
            ..ts
        },
    );
    CombatState {
        slots: slots1,
        deletes: st.deletes.push(id_of(st.slots, b)),
        creates: creates1,
        heal: heal1,
        explosion: true,
        ..st
    }
}

/// One bullet-versus-target encounter: gate on components, faction and
/// overlap; then either the deflection branch (a hit on a player whose
/// deflector is armed) or the normal-hit branch. A hit on the player always
/// marks the hit-point display for redraw.
pub open spec fn combat_pair(
    st: CombatState,
    player: EntityId,
    template: Option<AnimatedSprite>,
    b: int,
    t: int,
) -> CombatState {
    let bs = st.slots[b];
    let ts = st.slots[t];
    if !(bullet_slot(bs) && target_slot(ts)) {
        st
    } else {
        let bullet = bs.comps.bullet->Some_0;
        let t_is_player = id_of(st.slots, t) == player;
        if !may_hit(bullet, t_is_player, ts.comps.hp->Some_0.remaining) {
            st
        } else {
            let brect = rect_of(bs.comps.position->Some_0, bs.comps.hitbox->Some_0);
            let trect = rect_of(ts.comps.position->Some_0, ts.comps.hitbox->Some_0);
            if !rects_overlap(brect, trect) {
                st
            } else {
                let st1 = if t_is_player {
                    CombatState { redraw: true, ..st }
                } else {
                    st
                };
                if t_is_player && st1.slots[player.index as int].comps.player->Some_0.deflector_timer
                    > 0 {
                    deflect_step(st1, player, b)
                } else {
                    normal_hit_step(st1, template, b, t)
                }
            }
        }
    }
}

/// The first `t` targets tried against bullet `b`, in slot order.
pub open spec fn combat_pairs(
    st: CombatState,
    player: EntityId,
    template: Option<AnimatedSprite>,
    b: int,
    t: int,
) -> CombatState
    decreases t,
{
    if t <= 0 {
        st
    } else {
        combat_pair(combat_pairs(st, player, template, b, t - 1), player, template, b, t - 1)
    }
}

/// One whole bullet: culled (queued for deletion) when offscreen, otherwise
/// tried against every target.
pub open spec fn combat_bullet(
    st: CombatState,
    player: EntityId,
    screen_width: i64,
    screen_height: i64,
    template: Option<AnimatedSprite>,
    b: int,
) -> CombatState {
    let bs = st.slots[b];
    if !bullet_slot(bs) {
        st
    } else if offscreen(bs.comps.position->Some_0, screen_width, screen_height) {
        CombatState { deletes: st.deletes.push(id_of(st.slots, b)), ..st }
    } else {
        combat_pairs(st, player, template, b, st.slots.len() as int)
    }
}

/// The first `b` bullets processed, in slot order.
pub open spec fn combat_bullets(
    st: CombatState,
    player: EntityId,
    screen_width: i64,
    screen_height: i64,
    template: Option<AnimatedSprite>,
    b: int,
) -> CombatState
    decreases b,
{
    if b <= 0 {
        st
    } else {
        combat_bullet(
            combat_bullets(st, player, screen_width, screen_height, template, b - 1),
            player,
            screen_width,
            screen_height,
            template,
            b - 1,
        )
    }
}

/// The banked deflection heal paid out to the player once all collisions are
/// processed; a player entity that is gone (or has lost its hit points
/// component) simply misses the heal.
pub open spec fn heal_applied(st: CombatState, player: EntityId) -> CombatState {
    if st.heal > 0 {
        if id_valid(st.slots, player) && st.slots[player.index as int].comps.hp is Some {
            let p = player.index as int;
            let ps = st.slots[p];
            let hp = ps.comps.hp->Some_0;
            CombatState {
                slots: st.slots.update(
                    p,
                    Slot {
                        comps: ComponentSet {
                            hp: Some(
                                crate::components::HP {
                                    remaining: sat_add_u32(hp.remaining, st.heal as int),
                                    iframes: hp.iframes,
                                },
                            ),
                            ..ps.comps
                        },
                        ..ps
                    },
                ),
                redraw: true,
                ..st
            }
        } else {
            st
        }
    } else {
        st
    }
}

/// The sound cues the combat pass appends: the boom cue once if any
/// explosion happened, then the deflect cue once if any deflection happened
/// (each only when its asset is present).
pub open spec fn combat_sounds(st: CombatState, assets: Assets) -> Seq<u32> {
    (if st.explosion && assets.boom_sound is Some {
        seq![assets.boom_sound->Some_0]
    } else {
        Seq::<u32>::empty()
    }) + (if st.deflection && assets.deflect_sound is Some {
        seq![assets.deflect_sound->Some_0]
    } else {
        Seq::<u32>::empty()
    })
}

/// The combat pass's starting state, read off the store and context.
pub open spec fn combat_initial(store: Store, redraw: bool) -> CombatState {
    CombatState {
        slots: store.slots@,
        creates: store.pending_creates@,
        deletes: store.pending_deletes@,
        deflects: store.pending_deflects@,
        heal: 0,
        explosion: false,
        deflection: false,
        redraw: redraw,
    }
}

/// Everything the combat pass leaves behind, except the sound cues: every
/// bullet processed in slot order, then the banked heal paid out.
pub open spec fn combat_spec(store: Store, ctx: FrameCtx) -> CombatState {
    heal_applied(
        combat_bullets(
            combat_initial(store, ctx.hp_needs_redraw),
            ctx.player.0,
            ctx.screen_width,
            ctx.screen_height,
            ctx.assets.explosion,
            store.slots@.len() as int,
        ),
        ctx.player.0,
    )
}

/// What combat never touches of any slot: liveness, generation, position,
/// hitbox, markers, and every component other than velocity, bullet, hit
/// points and the player record; velocities stay within the working range,
/// and non-bullets keep their velocity entirely.
pub open spec fn combat_frame_shape(cur: Seq<Slot>, orig: Seq<Slot>) -> bool {
    &&& cur.len() == orig.len()
    &&& forall|j: int|
        0 <= j < orig.len() ==> {
            let c = #[trigger] cur[j];
            let o = orig[j];
            &&& c.alive == o.alive
            &&& c.generation == o.generation
            &&& c.comps.position == o.comps.position
            &&& c.comps.hitbox == o.comps.hitbox
            &&& c.comps.deflected == o.comps.deflected
            &&& c.comps.animated_sprite == o.comps.animated_sprite
            &&& c.comps.enemy == o.comps.enemy
            &&& c.comps.sprite == o.comps.sprite
            &&& c.comps.color_rect == o.comps.color_rect
            &&& c.comps.star == o.comps.star
            &&& (c.comps.velocity is Some) == (o.comps.velocity is Some)
            &&& (c.comps.bullet is Some) == (o.comps.bullet is Some)
            &&& (c.comps.hp is Some) == (o.comps.hp is Some)
            &&& (c.comps.player is Some) == (o.comps.player is Some)
            &&& (c.comps.bullet is None ==> c.comps.velocity == o.comps.velocity)
            &&& (c.comps.velocity is Some ==> vel_work_ok(c.comps.velocity->Some_0.0.x as int)
                && vel_work_ok(c.comps.velocity->Some_0.0.y as int))
            &&& (c.comps.player is Some ==> c.comps.player->Some_0.deflector_frames
                == o.comps.player->Some_0.deflector_frames)
            &&& (c.comps.bullet is Some && c.comps.bullet->Some_0.damages_who
                == DamagesWho::Player ==> o.comps.bullet->Some_0.damages_who == DamagesWho::Player
                && c.comps.bullet->Some_0.damage == o.comps.bullet->Some_0.damage)
        }
}

/// The bounds combat needs of every slot: positions and hitboxes within the
/// coordinate range, entry velocities within the velocity range, and every
/// bullet carrying a velocity.
pub open spec fn combat_slot_ok(s: Slot) -> bool {
    &&& s.comps.position is Some ==> coord_ok(s.comps.position->Some_0.0.x as int) && coord_ok(
        s.comps.position->Some_0.0.y as int,
    )
    &&& s.comps.hitbox is Some ==> {
        let hb = s.comps.hitbox->Some_0;
        coord_ok(hb.dx as int) && coord_ok(hb.dy as int) && 0 <= hb.w <= COORD_LIMIT && 0 <= hb.h
            <= COORD_LIMIT
    }
    &&& s.comps.velocity is Some ==> vel_ok(s.comps.velocity->Some_0.0.x as int) && vel_ok(
        s.comps.velocity->Some_0.0.y as int,
    )
    &&& s.comps.bullet is Some ==> s.comps.velocity is Some
    &&& s.comps.bullet is Some && s.comps.bullet->Some_0.damages_who == DamagesWho::Player
        ==> s.comps.bullet->Some_0.damage <= 0x5555_5555
}

/// What combat expects of the player's entity: if it is live it is a proper
/// actor — it carries the player record, a velocity and hit points, it is
/// not itself a bullet, and its deflector window fits when doubled.
pub open spec fn combat_player_ok(slots: Seq<Slot>, player: EntityId) -> bool {
    id_valid(slots, player) ==> {
        let s = slots[player.index as int];
        &&& s.comps.player is Some
        &&& s.comps.velocity is Some
        &&& s.comps.hp is Some
        &&& s.comps.bullet is None
        &&& s.comps.player->Some_0.deflector_frames <= 0x7FFF_FFFF
    }
}

} // verus!

verus! {

/// One executable deflection of a bullet's velocity, equal to the
/// `deflected_velocity` form.
fn deflect_exec(v: Vec2, pv: Vec2, bcx: i64, bcy: i64, pcx: i64, pcy: i64) -> (r: Vec2)
    requires
        -131072 <= bcx <= 131072,
        -131072 <= bcy <= 131072,
        -131072 <= pcx <= 131072,
        -131072 <= pcy <= 131072,
        vel_ok(v.x as int),
        vel_ok(v.y as int),
        vel_ok(pv.x as int),
        vel_ok(pv.y as int),
    ensures
        r == deflected_velocity(v, pv, bcx as int, bcy as int, pcx as int, pcy as int),
        vel_work_ok(r.x as int),
        vel_work_ok(r.y as int),
{
    let nx = bcx - pcx;
    let ny = bcy - pcy;
    assert(0 <= nx * nx <= 0x1_0000_0000_0000i64 && 0 <= ny * ny <= 0x1_0000_0000_0000i64)
        by (nonlinear_arith)
        requires
            -262144 <= nx <= 262144,
            -262144 <= ny <= 262144,
    ;
    let nn = nx * nx + ny * ny;
    assert(-0x40_0000_0000i64 <= v.x * nx <= 0x40_0000_0000i64 && -0x40_0000_0000i64 <= v.y * ny
        <= 0x40_0000_0000i64) by (nonlinear_arith)
        requires
            -1048576 <= v.x <= 1048576,
            -1048576 <= v.y <= 1048576,
            -262144 <= nx <= 262144,
            -262144 <= ny <= 262144,
    ;
    let dot = v.x * nx + v.y * ny;
    let (v1x, v1y): (i64, i64) = if nn == 0 {
        (v.x, v.y)
    } else {
        assert(-0x400_0000_0000_0000i64 <= 2 * dot * nx <= 0x400_0000_0000_0000i64
            && -0x400_0000_0000_0000i64 <= 2 * dot * ny <= 0x400_0000_0000_0000i64)
            by (nonlinear_arith)
            requires
                -0x80_0000_0000i64 <= dot <= 0x80_0000_0000i64,
                -262144 <= nx <= 262144,
                -262144 <= ny <= 262144,
        ;
        let numx = 2 * dot * nx;
        let numy = 2 * dot * ny;
        let qx = div_trunc(numx, nn);
        let qy = div_trunc(numy, nn);
        proof {
            lemma_sdiv_mag(numx as int, nn as int);
            lemma_sdiv_mag(numy as int, nn as int);
        }
        (v.x - qx, v.y - qy)
    };
    let v2x = v1x + pv.x;
    let v2y = v1y + pv.y;
    let v3x: i64 = if -8 < v2x && v2x < 8 {
        0
    } else {
        v2x
    };
    assert(0 <= (v3x as i128) * (v3x as i128) <= 0x1000_0000_0000_0000_0000_0000_0000_0000i128
        && 0 <= (v2y as i128) * (v2y as i128) <= 0x1000_0000_0000_0000_0000_0000_0000_0000i128
        && (v3x as int) * (v3x as int) + (v2y as int) * (v2y as int) == (v3x as i128) * (
    v3x as i128) + (v2y as i128) * (v2y as i128)) by (nonlinear_arith)
        requires
            -0x2000_0000_0000_0000i128 <= v3x as i128 <= 0x2000_0000_0000_0000i128,
            -0x2000_0000_0000_0000i128 <= v2y as i128 <= 0x2000_0000_0000_0000i128,
    ;
    let sq128: i128 = (v3x as i128) * (v3x as i128) + (v2y as i128) * (v2y as i128);
    if 0 < sq128 && sq128 < 64 {
        assert(-7 <= v3x <= 7 && -7 <= v2y <= 7) by (nonlinear_arith)
            requires
                (v3x as int) * (v3x as int) + (v2y as int) * (v2y as int) < 64,
                (v3x as int) * (v3x as int) >= 0,
                (v2y as int) * (v2y as int) >= 0,
        ;
        let squ: u64 = sq128 as u64;
        assert(squ as i128 == sq128);
        let sp = isqrt_u64(squ);
        assert(sp >= 1) by (nonlinear_arith)
            requires
                squ >= 1,
                (squ as int) < ((sp as int) + 1) * ((sp as int) + 1),
        ;
        assert(sp <= 7) by (nonlinear_arith)
            requires
                (sp as int) * (sp as int) <= 63,
        ;
        let rx = div_trunc(v3x * 8, sp as i64);
        let ry = div_trunc(v2y * 8, sp as i64);
        proof {
            lemma_sdiv_mag((v3x * 8) as int, sp as int);
            lemma_sdiv_mag((v2y * 8) as int, sp as int);
        }
        Vec2 { x: rx, y: ry }
    } else {
        Vec2 { x: v3x, y: v2y }
    }
}

} // verus!

verus! {

/// One executable bullet-versus-target encounter, equal to `combat_pair` on
/// the state read off the store, the context and the three accumulators.
/// Returns the updated heal accumulator and explosion and deflection flags.
#[verifier::rlimit(80)]
fn run_pair(
    store: &mut Store,
    ctx: &mut FrameCtx,
    heal: u32,
    explosion: bool,
    deflection: bool,
    b: usize,
    t: usize,
    Ghost(orig): Ghost<Seq<Slot>>,
) -> (r: (u32, bool, bool))
    requires
        (b as int) < old(store).slots@.len(),
        (t as int) < old(store).slots@.len(),
        combat_frame_shape(old(store).slots@, orig),
        forall|j: int| 0 <= j < orig.len() ==> combat_slot_ok(#[trigger] orig[j]),
        combat_player_ok(orig, old(ctx).player.0),
        bullet_slot(old(store).slots@[b as int]),
        id_of(old(store).slots@, t as int) == old(ctx).player.0 ==> old(store).slots@[b
            as int].comps.velocity == orig[b as int].comps.velocity,
    ensures
        ({
            let st = CombatState {
                slots: old(store).slots@,
                creates: old(store).pending_creates@,
                deletes: old(store).pending_deletes@,
                deflects: old(store).pending_deflects@,
                heal: heal,
                explosion: explosion,
                deflection: deflection,
                redraw: old(ctx).hp_needs_redraw,
            };
            let st2 = combat_pair(st, old(ctx).player.0, old(ctx).assets.explosion, b as int, t as int);
            &&& final(store).slots@ == st2.slots
            &&& final(store).pending_creates@ == st2.creates
            &&& final(store).pending_deletes@ == st2.deletes
            &&& final(store).pending_deflects@ == st2.deflects
            &&& r.0 == st2.heal
            &&& r.1 == st2.explosion
            &&& r.2 == st2.deflection
            &&& final(ctx).hp_needs_redraw == st2.redraw
            &&& combat_frame_shape(st2.slots, orig)
            &&& forall|j: int|
                0 <= j < orig.len() && j != b ==> st2.slots[j].comps.velocity == old(
                    store,
                ).slots@[j].comps.velocity
            &&& (id_of(old(store).slots@, t as int) != old(ctx).player.0 ==> st2.slots[b
                as int].comps.velocity == old(store).slots@[b as int].comps.velocity)
        }),
        final(ctx).player == old(ctx).player,
        final(ctx).screen_width == old(ctx).screen_width,
        final(ctx).screen_height == old(ctx).screen_height,
        final(ctx).assets == old(ctx).assets,
        final(ctx).dead == old(ctx).dead,
        final(ctx).queued_sounds@ == old(ctx).queued_sounds@,
{
    let ghost st = CombatState {
        slots: store.slots@,
        creates: store.pending_creates@,
        deletes: store.pending_deletes@,
        deflects: store.pending_deflects@,
        heal: heal,
        explosion: explosion,
        deflection: deflection,
        redraw: ctx.hp_needs_redraw,
    };
    let ts = store.slots[t];
    if !ts.alive {
        return (heal, explosion, deflection);
    }
    let (hp_t, pos_t, hb_t) = match (ts.comps.hp, ts.comps.position, ts.comps.hitbox) {
        (Some(a), Some(p), Some(h)) => (a, p, h),
        _ => {
            return (heal, explosion, deflection);
        },
    };
    let bs = store.slots[b];
    let bullet = match bs.comps.bullet {
        Some(x) => x,
        None => vstd::pervasive::unreached(),
    };
    let (pos_b, hb_b) = match (bs.comps.position, bs.comps.hitbox) {
        (Some(p), Some(h)) => (p, h),
        _ => vstd::pervasive::unreached(),
    };
    let pid = ctx.player.0;
    let t_is_player = t == pid.index && ts.generation == pid.generation;
    proof {
        assert(t_is_player == (id_of(st.slots, t as int) == pid));
    }
    let may = (bullet.damages_player() && t_is_player) || (bullet.damages_enemy() && !t_is_player
        && hp_t.remaining > 0);
    if !may {
        return (heal, explosion, deflection);
    }
    proof {
        assert(combat_slot_ok(orig[b as int]));
        assert(combat_slot_ok(orig[t as int]));
    }
    let brx = pos_b.0.x + hb_b.dx;
    let bry = pos_b.0.y + hb_b.dy;
    let trx = pos_t.0.x + hb_t.dx;
    let try_y = pos_t.0.y + hb_t.dy;
    let overlap = brx <= trx + hb_t.w && brx + hb_b.w >= trx && bry <= try_y + hb_t.h && bry
        + hb_b.h >= try_y;
    if !overlap {
        return (heal, explosion, deflection);
    }
    if t_is_player {
        ctx.hp_needs_redraw = true;
    }
    let ghost st1 = if t_is_player {
        CombatState { redraw: true, ..st }
    } else {
        st
    };
    if t_is_player {
        proof {
            assert(id_valid(orig, pid));
        }
        let pl = match store.slots[pid.index].comps.player {
            Some(p) => p,
            None => vstd::pervasive::unreached(),
        };
        if pl.deflector_timer > 0 {
            proof {
                assert((b as int) != (pid.index as int));
            }
            let pv = match store.slots[pid.index].comps.velocity {
                Some(v) => v.0,
                None => vstd::pervasive::unreached(),
            };
            let bv = match bs.comps.velocity {
                Some(v) => v.0,
                None => vstd::pervasive::unreached(),
            };
            let bw2 = ((hb_b.w as u64) / 2) as i64;
            let bh2 = ((hb_b.h as u64) / 2) as i64;
            let pw2 = ((hb_t.w as u64) / 2) as i64;
            let ph2 = ((hb_t.h as u64) / 2) as i64;
            let nv = deflect_exec(bv, pv, brx + bw2, bry + bh2, trx + pw2, try_y + ph2);
            proof {
                assert(bullet.damage <= 0x5555_5555);
            }
            let nb = match bullet.ty {
                BulletType::TrackingBullet(f) => if f > 10 {
                    Bullet { ty: BulletType::TrackingBullet(10), ..bullet }
                } else {
                    bullet
                },
                _ => Bullet { damage: bullet.damage * 3, damages_who: DamagesWho::Enemy, ..bullet },
            };
            store.slots[b] = Slot {
                comps: ComponentSet { velocity: Some(Velocity(nv)), bullet: Some(nb), ..bs.comps },
                ..bs
            };
            let ps1 = store.slots[pid.index];
            let pl1 = match ps1.comps.player {
                Some(p) => p,
                None => vstd::pervasive::unreached(),
            };
            store.slots[pid.index] = Slot {
                comps: ComponentSet {
                    player: Some(
                        Player { deflector_timer: pl1.deflector_frames * 2, ..pl1 },
                    ),
                    ..ps1.comps
                },
                ..ps1
            };
            store.queue_deflect(EntityId { index: b, generation: bs.generation });
            proof {
                let st2 = combat_pair(st, pid, ctx.assets.explosion, b as int, t as int);
                assert(st2 == deflect_step(st1, pid, b as int));
                assert(store.slots@ =~= st2.slots);
            }
            return (heal, explosion, true);
        }
    }
    let id = EntityId { index: b, generation: bs.generation };
    let _ = store.queue_delete(id);
    if let Some(template) = ctx.assets.explosion {
        let mut comps = ComponentSet::empty();
        comps.position = Some(pos_b);
        comps.animated_sprite = Some(template);
        store.queue_create(comps);
    }
    let new_heal: u32 = if bs.comps.deflected.is_some() {
        let bonus: u64 = (bullet.damage as u64) / 3 * 2;
        let sum: u64 = (heal as u64) + bonus;
        if sum > 0xFFFF_FFFFu64 {
            u32::MAX
        } else {
            sum as u32
        }
    } else {
        heal
    };
    let dealt: u32 = if bullet.damage < hp_t.remaining {
        bullet.damage
    } else {
        hp_t.remaining
    };
    store.slots[t] = Slot {
        comps: ComponentSet {
            hp: Some(
                crate::components::HP { remaining: hp_t.remaining - dealt, iframes: hp_t.iframes },
            ),
            ..ts.comps
        },
        ..ts
    };
    proof {
        let st2 = combat_pair(st, pid, ctx.assets.explosion, b as int, t as int);
        assert(st2 == normal_hit_step(st1, ctx.assets.explosion, b as int, t as int));
        assert(store.slots@ =~= st2.slots);
    }
    (new_heal, true, deflection)
}

} // verus!

verus! {

/// The collision and combat system.
pub struct BulletCollSys;

impl BulletCollSys {
    #[verifier::loop_isolation(false)]
    #[verifier::rlimit(100)]
    pub fn run(store: &mut Store, ctx: &mut FrameCtx)
        requires
            forall|j: int|
                0 <= j < old(store).slots@.len() ==> combat_slot_ok(
                    #[trigger] old(store).slots@[j],
                ),
            combat_player_ok(old(store).slots@, old(ctx).player.0),
            -COORD_LIMIT <= old(ctx).screen_width <= COORD_LIMIT,
            -COORD_LIMIT <= old(ctx).screen_height <= COORD_LIMIT,
        ensures
            ({
                let stf = combat_spec(*old(store), *old(ctx));
                let stl = combat_bullets(
                    combat_initial(*old(store), old(ctx).hp_needs_redraw),
                    old(ctx).player.0,
                    old(ctx).screen_width,
                    old(ctx).screen_height,
                    old(ctx).assets.explosion,
                    old(store).slots@.len() as int,
                );
                &&& final(store).slots@ == stf.slots
                &&& final(store).pending_creates@ == stf.creates
                &&& final(store).pending_deletes@ == stf.deletes
                &&& final(store).pending_deflects@ == stf.deflects
                &&& final(ctx).hp_needs_redraw == stf.redraw
                &&& final(ctx).queued_sounds@ == old(ctx).queued_sounds@ + combat_sounds(
                    stl,
                    old(ctx).assets,
                )
                &&& combat_frame_shape(stf.slots, old(store).slots@)
            }),
            final(ctx).player == old(ctx).player,
            final(ctx).screen_width == old(ctx).screen_width,
            final(ctx).screen_height == old(ctx).screen_height,
            final(ctx).assets == old(ctx).assets,
            final(ctx).dead == old(ctx).dead,
    {
        let ghost orig = store.slots@;
        let ghost init = combat_initial(*store, ctx.hp_needs_redraw);
        let mut heal: u32 = 0;
        let mut explosion = false;
        let mut deflection = false;
        let n = store.slots.len();
        let mut b: usize = 0;
        while b < n
            invariant
                0 <= b <= n,
                n == orig.len(),
                store.slots@.len() == n,
                combat_frame_shape(store.slots@, orig),
                forall|j: int|
                    b <= j < n ==> (#[trigger] store.slots@[j]).comps.velocity
                        == orig[j].comps.velocity,
                ({
                    let st = combat_bullets(
                        init,
                        old(ctx).player.0,
                        old(ctx).screen_width,
                        old(ctx).screen_height,
                        old(ctx).assets.explosion,
                        b as int,
                    );
                    &&& store.slots@ == st.slots
                    &&& store.pending_creates@ == st.creates
                    &&& store.pending_deletes@ == st.deletes
                    &&& store.pending_deflects@ == st.deflects
                    &&& heal == st.heal
                    &&& explosion == st.explosion
                    &&& deflection == st.deflection
                    &&& ctx.hp_needs_redraw == st.redraw
                }),
                ctx.player == old(ctx).player,
                ctx.screen_width == old(ctx).screen_width,
                ctx.screen_height == old(ctx).screen_height,
                ctx.assets == old(ctx).assets,
                ctx.dead == old(ctx).dead,
                ctx.queued_sounds@ == old(ctx).queued_sounds@,
            decreases n - b,
        {
            let ghost st_b = combat_bullets(
                init,
                old(ctx).player.0,
                old(ctx).screen_width,
                old(ctx).screen_height,
                old(ctx).assets.explosion,
                b as int,
            );
            let s = store.slots[b];
            if s.alive {
                if let (Some(_bul), Some(pos), Some(_hb)) = (
                    s.comps.bullet,
                    s.comps.position,
                    s.comps.hitbox,
                ) {
                    let x_in = -CULL_MARGIN <= pos.0.x && pos.0.x < ctx.screen_width + CULL_MARGIN;
                    let y_in = -CULL_MARGIN <= pos.0.y && pos.0.y < ctx.screen_height;
                    if !x_in || !y_in {
                        let _ = store.queue_delete(
                            EntityId { index: b, generation: s.generation },
                        );
                    } else {
                        let mut t: usize = 0;
                        while t < n
                            invariant
                                0 <= t <= n,
                                store.slots@.len() == n,
                                combat_frame_shape(store.slots@, orig),
                                bullet_slot(orig[b as int]),
                                b < n,
                                !offscreen(
                                    orig[b as int].comps.position->Some_0,
                                    old(ctx).screen_width,
                                    old(ctx).screen_height,
                                ),
                                forall|j: int|
                                    b < j < n ==> (#[trigger] store.slots@[j]).comps.velocity
                                        == orig[j].comps.velocity,
                                store.slots@[b as int].comps.velocity == orig[b
                                    as int].comps.velocity || (old(ctx).player.0.index as int) < t,
                                ({
                                    let st = combat_pairs(
                                        st_b,
                                        old(ctx).player.0,
                                        old(ctx).assets.explosion,
                                        b as int,
                                        t as int,
                                    );
                                    &&& store.slots@ == st.slots
                                    &&& store.pending_creates@ == st.creates
                                    &&& store.pending_deletes@ == st.deletes
                                    &&& store.pending_deflects@ == st.deflects
                                    &&& heal == st.heal
                                    &&& explosion == st.explosion
                                    &&& deflection == st.deflection
                                    &&& ctx.hp_needs_redraw == st.redraw
                                }),
                                ctx.player == old(ctx).player,
                                ctx.screen_width == old(ctx).screen_width,
                                ctx.screen_height == old(ctx).screen_height,
                                ctx.assets == old(ctx).assets,
                                ctx.dead == old(ctx).dead,
                                ctx.queued_sounds@ == old(ctx).queued_sounds@,
                            decreases n - t,
                        {
                            let r = run_pair(
                                store,
                                ctx,
                                heal,
                                explosion,
                                deflection,
                                b,
                                t,
                                Ghost(orig),
                            );
                            heal = r.0;
                            explosion = r.1;
                            deflection = r.2;
                            t = t + 1;
                        }
                    }
                }
            }
            b = b + 1;
        }

        let ghost stl = combat_bullets(
            init,
            old(ctx).player.0,
            old(ctx).screen_width,
            old(ctx).screen_height,
            old(ctx).assets.explosion,
            n as int,
        );
        if explosion {
            if let Some(sound) = ctx.assets.boom_sound {
                ctx.queued_sounds.push(sound);
            }
        }
        if deflection {
            if let Some(sound) = ctx.assets.deflect_sound {
                ctx.queued_sounds.push(sound);
            }
        }
        proof {
            assert(ctx.queued_sounds@ =~= old(ctx).queued_sounds@ + combat_sounds(
                stl,
                old(ctx).assets,
            ));
        }
        if heal > 0 {
            let pid = ctx.player.0;
            if pid.index < store.slots.len() && store.slots[pid.index].generation
                == pid.generation && store.slots[pid.index].alive {
                let ps = store.slots[pid.index];
                if let Some(hp) = ps.comps.hp {
                    let sum: u64 = (hp.remaining as u64) + (heal as u64);
                    let nr: u32 = if sum > 0xFFFF_FFFFu64 {
                        u32::MAX
                    } else {
                        sum as u32
                    };
                    store.slots[pid.index] = Slot {
                        comps: ComponentSet {
                            hp: Some(
                                crate::components::HP { remaining: nr, iframes: hp.iframes },
                            ),
                            ..ps.comps
                        },
                        ..ps
                    };
                    ctx.hp_needs_redraw = true;
                }
            }
        }
        proof {
            let stf = combat_spec(*old(store), *old(ctx));
            assert(store.slots@ =~= stf.slots);
        }
    }
}

} // verus!

verus! {

/// Hit points never go negative under damage: a normal hit subtracts
/// exactly `min(damage, remaining)`, so the result is `remaining - damage`
/// saturated at zero.
pub proof fn lemma_damage_saturates(
    st: CombatState,
    template: Option<AnimatedSprite>,
    b: int,
    t: int,
)
    requires
        0 <= b < st.slots.len(),
        0 <= t < st.slots.len(),
        st.slots[t].comps.hp is Some,
    ensures
        ({
            let before = st.slots[t].comps.hp->Some_0.remaining;
            let damage = st.slots[b].comps.bullet->Some_0.damage;
            let after = normal_hit_step(st, template, b, t).slots[t].comps.hp->Some_0.remaining;
            &&& after == if damage < before {
                before - damage
            } else {
                0int
            }
            &&& after >= 0
        }),
{
}

/// Faction exclusivity: a bullet whose faction matches its target — one that
/// damages the player meeting a non-player target, or one that damages
/// enemies meeting the player — leaves the encounter without any effect, so
/// it can never reduce that target's hit points.
pub proof fn lemma_faction_exclusivity(
    st: CombatState,
    player: EntityId,
    template: Option<AnimatedSprite>,
    b: int,
    t: int,
)
    requires
        0 <= b < st.slots.len(),
        0 <= t < st.slots.len(),
        ({
            let bullet = st.slots[b].comps.bullet->Some_0;
            ||| (bullet.damages_who == DamagesWho::Player && id_of(st.slots, t) != player)
            ||| (bullet.damages_who == DamagesWho::Enemy && id_of(st.slots, t) == player)
        }),
    ensures
        combat_pair(st, player, template, b, t) == st,
{
}

} // verus!
