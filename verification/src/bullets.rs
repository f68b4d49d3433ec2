//! The bullet-behavior systems: homing of tracking bullets toward the
//! player, and bouncing bullets reflecting off the horizontal screen edges.
use vstd::prelude::*;

use crate::components::{
    coord_ok, vel_work_ok, AnimatedSprite, Bullet, BulletType, EntityId, Position, Vec2, Velocity,
};
use crate::math::{div_trunc, isqrt_u64, lemma_sdiv_mag, sdiv, sqrt_floor};
use crate::resources::FrameCtx;
use crate::store::{id_of, id_valid, ComponentSet, Slot, Store};

verus! {

/// The speed a tracking bullet steers toward; this pass homes on the player
/// at 7 units per frame.
pub const HOMING_SPEED: i64 = 7;

/// The divisor of the exponential steering smoothing: each frame the
/// velocity moves one fiftieth of the way toward the homing target.
pub const HOMING_SMOOTHING: i64 = 50;

/// This slot is a bouncing bullet crossing the left or right screen edge
/// while moving outward.
pub open spec fn bounce_applies(s: Slot, screen_width: i64) -> bool {
    &&& s.alive
    &&& s.comps.bullet is Some
    &&& s.comps.bullet->Some_0.ty is BouncingBullet
    &&& s.comps.position is Some
    &&& s.comps.velocity is Some
    &&& {
        let p = s.comps.position->Some_0.0;
        let v = s.comps.velocity->Some_0.0;
        (p.x > screen_width && v.x > 0) || (p.x < 0 && v.x < 0)
    }
}

/// One bounce step of a single slot: an outward-moving bouncing bullet at an
/// edge has its horizontal velocity inverted and its remaining bounce count
/// lowered by one (never below zero).
pub open spec fn bounced_slot(s: Slot, screen_width: i64) -> Slot {
    if bounce_applies(s, screen_width) {
        let b = s.comps.bullet->Some_0;
        let nb = b.ty->BouncingBullet_0;
        let v = s.comps.velocity->Some_0.0;
        Slot {
            comps: ComponentSet {
                velocity: Some(Velocity(Vec2 { x: (-v.x) as i64, y: v.y })),
                bullet: Some(
                    Bullet {
                        ty: BulletType::BouncingBullet(
                            if nb > 0 {
                                (nb - 1) as u32
                            } else {
                                0u32
                            },
                        ),
                        ..b
                    },
                ),
                ..s.comps
            },
            ..s
        }
    } else {
        s
    }
}

pub open spec fn bounced_slots(slots: Seq<Slot>, screen_width: i64) -> Seq<Slot> {
    slots.map_values(|s: Slot| bounced_slot(s, screen_width))
}

/// The bullets the bounce system queues for deletion, in slot order: those
/// that reach an edge with no bounces left.
pub open spec fn bounce_deletes(slots: Seq<Slot>, screen_width: i64, n: int) -> Seq<EntityId>
    decreases n,
{
    if n <= 0 {
        Seq::empty()
    } else {
        bounce_deletes(slots, screen_width, n - 1) + if bounce_applies(slots[n - 1], screen_width)
            && slots[n - 1].comps.bullet->Some_0.ty->BouncingBullet_0 == 0 {
            seq![id_of(slots, n - 1)]
        } else {
            Seq::empty()
        }
    }
}

/// The bouncing-bullet system: inverts the horizontal velocity of a bouncing
/// bullet that crosses a horizontal screen edge moving outward, spending one
/// bounce; one that had no bounces left is queued for deletion instead of
/// surviving the bounce.
pub struct BounceBulletSys;

impl BounceBulletSys {
    #[verifier::loop_isolation(false)]
    pub fn run(store: &mut Store, ctx: &FrameCtx)
        requires
            forall|j: int|
                0 <= j < old(store).slots@.len()
                    ==> (#[trigger] old(store).slots@[j]).comps.velocity is Some ==> old(
                    store,
                ).slots@[j].comps.velocity->Some_0.0.x > i64::MIN,
        ensures
            final(store).slots@ == bounced_slots(old(store).slots@, ctx.screen_width),
            final(store).pending_deletes@ == old(store).pending_deletes@ + bounce_deletes(
                old(store).slots@,
                ctx.screen_width,
                old(store).slots@.len() as int,
            ),
            final(store).pending_creates@ == old(store).pending_creates@,
            final(store).pending_deflects@ == old(store).pending_deflects@,
    {
        let n = store.slots.len();
        let mut i: usize = 0;
        while i < n
            invariant
                0 <= i <= n,
                store.slots@.len() == n,
                forall|j: int|
                    0 <= j < i ==> store.slots@[j] == bounced_slot(
                        #[trigger] old(store).slots@[j],
                        ctx.screen_width,
                    ),
                forall|j: int| i <= j < n ==> store.slots@[j] == old(store).slots@[j],
                store.pending_deletes@ == old(store).pending_deletes@ + bounce_deletes(
                    old(store).slots@,
                    ctx.screen_width,
                    i as int,
                ),
                store.pending_creates@ == old(store).pending_creates@,
                store.pending_deflects@ == old(store).pending_deflects@,
            decreases n - i,
        {
            let s = store.slots[i];
            if s.alive {
                if let (Some(bullet), Some(pos), Some(vel)) = (
                    s.comps.bullet,
                    s.comps.position,
                    s.comps.velocity,
                ) {
                    if let BulletType::BouncingBullet(num_bounces) = bullet.ty {
                        if (pos.0.x > ctx.screen_width && vel.0.x > 0) || (pos.0.x < 0 && vel.0.x
                            < 0) {
                            let new_vel = Velocity(Vec2 { x: -vel.0.x, y: vel.0.y });
                            let new_bounces: u32 = if num_bounces > 0 {
                                num_bounces - 1
                            } else {
                                0
                            };
                            store.slots[i] = Slot {
                                comps: ComponentSet {
                                    velocity: Some(new_vel),
                                    bullet: Some(
                                        Bullet {
                                            ty: BulletType::BouncingBullet(new_bounces),
                                            ..bullet
                                        },
                                    ),
                                    ..s.comps
                                },
                                ..s
                            };
                            if num_bounces == 0 {
                                let id = EntityId { index: i, generation: s.generation };
                                let _ = store.queue_delete(id);
                            }
                        }
                    }
                }
            }
            i = i + 1;
            proof {
                assert(store.pending_deletes@ =~= old(store).pending_deletes@ + bounce_deletes(
                    old(store).slots@,
                    ctx.screen_width,
                    i as int,
                ));
            }
        }
        proof {
            assert(store.slots@ =~= bounced_slots(old(store).slots@, ctx.screen_width));
        }
    }
}

/// A bouncing bullet that reaches a boundary with no bounces left is queued
/// for deletion, not bounced again: its identity is queued, and its bounce
/// count stays zero.
pub proof fn lemma_overbounced_bullet_deleted(slots: Seq<Slot>, screen_width: i64, i: int)
    requires
        0 <= i < slots.len(),
        bounce_applies(slots[i], screen_width),
        slots[i].comps.bullet->Some_0.ty->BouncingBullet_0 == 0,
    ensures
        bounce_deletes(slots, screen_width, slots.len() as int).contains(id_of(slots, i)),
        bounced_slot(slots[i], screen_width).comps.bullet->Some_0.ty->BouncingBullet_0 == 0,
{
    lemma_bounce_deletes_contains(slots, screen_width, i, slots.len() as int);
}

proof fn lemma_bounce_deletes_contains(slots: Seq<Slot>, screen_width: i64, i: int, n: int)
    requires
        0 <= i < n <= slots.len(),
        bounce_applies(slots[i], screen_width),
        slots[i].comps.bullet->Some_0.ty->BouncingBullet_0 == 0,
    ensures
        bounce_deletes(slots, screen_width, n).contains(id_of(slots, i)),
    decreases n,
{
    let pre = bounce_deletes(slots, screen_width, n - 1);
    if i == n - 1 {
        assert(bounce_deletes(slots, screen_width, n)[pre.len() as int] == id_of(slots, i));
    } else {
        lemma_bounce_deletes_contains(slots, screen_width, i, n - 1);
        let k = choose|k: int| 0 <= k < pre.len() && pre[k] == id_of(slots, i);
        assert(bounce_deletes(slots, screen_width, n)[k] == id_of(slots, i));
    }
}

/// Where the player is, if the player entity is live and placed; tracking
/// bullets home on this.
pub open spec fn homing_target(slots: Seq<Slot>, player: EntityId) -> Option<Vec2> {
    if id_valid(slots, player) && slots[player.index as int].comps.position is Some {
        Some(slots[player.index as int].comps.position->Some_0.0)
    } else {
        None
    }
}

/// One steering step: the velocity moves one fiftieth of the way toward the
/// homing target, which points at the player with magnitude `speed`. A
/// bullet exactly on the player keeps its velocity (there is no direction to
/// steer toward).
pub open spec fn steered(v: Vec2, pos: Vec2, ppos: Vec2, speed: int) -> Vec2 {
    let dx = ppos.x - pos.x;
    let dy = ppos.y - pos.y;
    let dd = dx * dx + dy * dy;
    if dd == 0 {
        v
    } else {
        let l = sqrt_floor(dd);
        let tx = sdiv(dx * speed, l);
        let ty = sdiv(dy * speed, l);
        Vec2 {
            x: (v.x + sdiv(tx - v.x, HOMING_SMOOTHING as int)) as i64,
            y: (v.y + sdiv(ty - v.y, HOMING_SMOOTHING as int)) as i64,
        }
    }
}

/// This slot is a tracking bullet whose fuse has run out.
pub open spec fn tracking_expired(s: Slot) -> bool {
    &&& s.alive
    &&& s.comps.velocity is Some
    &&& s.comps.position is Some
    &&& s.comps.bullet is Some
    &&& s.comps.bullet->Some_0.ty is TrackingBullet
    &&& s.comps.bullet->Some_0.ty->TrackingBullet_0 == 0
}

/// One tracking step of a single slot: a live tracking bullet burns one
/// frame of its fuse and steers toward the player; an expired one is left
/// untouched here (it is deleted, never steered).
pub open spec fn tracked_slot(s: Slot, ppos: Vec2) -> Slot {
    if s.alive && s.comps.velocity is Some && s.comps.position is Some && s.comps.bullet is Some
        && s.comps.bullet->Some_0.ty is TrackingBullet {
        let b = s.comps.bullet->Some_0;
        let f = b.ty->TrackingBullet_0;
        if f == 0 {
            s
        } else {
            let v = s.comps.velocity->Some_0.0;
            let p = s.comps.position->Some_0.0;
            Slot {
                comps: ComponentSet {
                    velocity: Some(Velocity(steered(v, p, ppos, HOMING_SPEED as int))),
                    bullet: Some(
                        Bullet { ty: BulletType::TrackingBullet((f - 1) as u32), ..b },
                    ),
                    ..s.comps
                },
                ..s
            }
        }
    } else {
        s
    }
}

pub open spec fn tracked_slots(slots: Seq<Slot>, ppos: Vec2) -> Seq<Slot> {
    slots.map_values(|s: Slot| tracked_slot(s, ppos))
}

/// The expired tracking bullets, queued for deletion in slot order.
pub open spec fn tracking_deletes(slots: Seq<Slot>, n: int) -> Seq<EntityId>
    decreases n,
{
    if n <= 0 {
        Seq::empty()
    } else {
        tracking_deletes(slots, n - 1) + if tracking_expired(slots[n - 1]) {
            seq![id_of(slots, n - 1)]
        } else {
            Seq::empty()
        }
    }
}

/// The components of an explosion entity: the template animation at the
/// given position.
pub open spec fn explosion_components(pos: Position, template: AnimatedSprite) -> ComponentSet {
    ComponentSet {
        position: Some(pos),
        animated_sprite: Some(template),
        ..ComponentSet::empty_spec()
    }
}

/// The explosions the tracking system queues, in slot order: one per expired
/// bullet, at the bullet's position — provided the explosion template asset
/// is present (a missing asset skips the spawn).
pub open spec fn tracking_creates(
    slots: Seq<Slot>,
    template: Option<AnimatedSprite>,
    n: int,
) -> Seq<ComponentSet>
    decreases n,
{
    if n <= 0 {
        Seq::empty()
    } else {
        tracking_creates(slots, template, n - 1) + if tracking_expired(slots[n - 1])
            && template is Some {
            seq![explosion_components(slots[n - 1].comps.position->Some_0, template->Some_0)]
        } else {
            Seq::empty()
        }
    }
}

pub open spec fn any_tracking_expired(slots: Seq<Slot>) -> bool {
    exists|j: int| 0 <= j < slots.len() && tracking_expired(#[trigger] slots[j])
}

/// The tracking-bullet system: while the player is live and placed, every
/// tracking bullet either expires (queued for deletion, an explosion queued
/// in its place, the boom cue requested) or burns a frame of its fuse and
/// steers toward the player.
pub struct BulletTrackingSys;

impl BulletTrackingSys {
    #[verifier::loop_isolation(false)]
    #[verifier::rlimit(60)]
    pub fn run(store: &mut Store, ctx: &mut FrameCtx)
        requires
            forall|j: int|
                0 <= j < old(store).slots@.len() ==> slot_arith_ok(
                    #[trigger] old(store).slots@[j],
                ),
        ensures
            homing_target(old(store).slots@, old(ctx).player.0) is None ==> final(store).slots@
                == old(store).slots@ && final(store).pending_deletes@ == old(
                store,
            ).pending_deletes@ && final(store).pending_creates@ == old(store).pending_creates@
                && final(ctx).queued_sounds@ == old(ctx).queued_sounds@,
            homing_target(old(store).slots@, old(ctx).player.0) matches Some(ppos) ==> {
                &&& final(store).slots@ == tracked_slots(old(store).slots@, ppos)
                &&& final(store).pending_deletes@ == old(store).pending_deletes@
                    + tracking_deletes(old(store).slots@, old(store).slots@.len() as int)
                &&& final(store).pending_creates@ == old(store).pending_creates@
                    + tracking_creates(
                    old(store).slots@,
                    old(ctx).assets.explosion,
                    old(store).slots@.len() as int,
                )
                &&& final(ctx).queued_sounds@ == if any_tracking_expired(old(store).slots@) && old(
                    ctx,
                ).assets.boom_sound is Some {
                    old(ctx).queued_sounds@.push(old(ctx).assets.boom_sound->Some_0)
                } else {
                    old(ctx).queued_sounds@
                }
            },
            final(store).pending_deflects@ == old(store).pending_deflects@,
            forall|j: int|
                0 <= j < final(store).slots@.len()
                    ==> (#[trigger] final(store).slots@[j]).comps.velocity is Some ==> vel_work_ok(
                    final(store).slots@[j].comps.velocity->Some_0.0.x as int,
                ) && vel_work_ok(final(store).slots@[j].comps.velocity->Some_0.0.y as int),
            final(ctx).player == old(ctx).player,
            final(ctx).screen_width == old(ctx).screen_width,
            final(ctx).screen_height == old(ctx).screen_height,
            final(ctx).assets == old(ctx).assets,
            final(ctx).dead == old(ctx).dead,
            final(ctx).hp_needs_redraw == old(ctx).hp_needs_redraw,
    {
        let pid = ctx.player.0;
        if !(pid.index < store.slots.len() && store.slots[pid.index].generation == pid.generation
            && store.slots[pid.index].alive) {
            return ;
        }
        let ppos_opt = store.slots[pid.index].comps.position;
        let ppos = match ppos_opt {
            Some(p) => p.0,
            None => { return ; },
        };

        let mut atleast_one_explosion = false;
        let n = store.slots.len();
        let mut i: usize = 0;
        while i < n
            invariant
                0 <= i <= n,
                store.slots@.len() == n,
                homing_target(old(store).slots@, old(ctx).player.0) == Some(ppos),
                forall|j: int|
                    0 <= j < i ==> store.slots@[j] == tracked_slot(
                        #[trigger] old(store).slots@[j],
                        ppos,
                    ),
                forall|j: int| i <= j < n ==> store.slots@[j] == old(store).slots@[j],
                store.pending_deletes@ == old(store).pending_deletes@ + tracking_deletes(
                    old(store).slots@,
                    i as int,
                ),
                store.pending_creates@ == old(store).pending_creates@ + tracking_creates(
                    old(store).slots@,
                    old(ctx).assets.explosion,
                    i as int,
                ),
                store.pending_deflects@ == old(store).pending_deflects@,
                atleast_one_explosion == exists|j: int|
                    0 <= j < i && tracking_expired(#[trigger] old(store).slots@[j]),
                forall|j: int|
                    0 <= j < n ==> (#[trigger] store.slots@[j]).comps.velocity is Some
                        ==> vel_work_ok(store.slots@[j].comps.velocity->Some_0.0.x as int)
                        && vel_work_ok(store.slots@[j].comps.velocity->Some_0.0.y as int),
                ctx == old(ctx),
            decreases n - i,
        {
            let s = store.slots[i];
            if s.alive {
                if let (Some(vel), Some(pos), Some(bullet)) = (
                    s.comps.velocity,
                    s.comps.position,
                    s.comps.bullet,
                ) {
                    if let BulletType::TrackingBullet(frames_remaining) = bullet.ty {
                        if frames_remaining == 0 {
                            if let Some(template) = ctx.assets.explosion {
                                let mut comps = ComponentSet::empty();
                                comps.position = Some(pos);
                                comps.animated_sprite = Some(template);
                                store.queue_create(comps);
                            }
                            let id = EntityId { index: i, generation: s.generation };
                            let _ = store.queue_delete(id);
                            atleast_one_explosion = true;
                        } else {
                            let nv = steer_exec(vel.0, pos.0, ppos);
                            store.slots[i] = Slot {
                                comps: ComponentSet {
                                    velocity: Some(Velocity(nv)),
                                    bullet: Some(
                                        Bullet {
                                            ty: BulletType::TrackingBullet(frames_remaining - 1),
                                            ..bullet
                                        },
                                    ),
                                    ..s.comps
                                },
                                ..s
                            };
                        }
                    }
                }
            }
            i = i + 1;
            proof {
                assert(store.pending_deletes@ =~= old(store).pending_deletes@ + tracking_deletes(
                    old(store).slots@,
                    i as int,
                ));
                assert(store.pending_creates@ =~= old(store).pending_creates@ + tracking_creates(
                    old(store).slots@,
                    old(ctx).assets.explosion,
                    i as int,
                ));
            }
        }
        if atleast_one_explosion {
            if let Some(sound) = ctx.assets.boom_sound {
                ctx.queued_sounds.push(sound);
            }
        }
        proof {
            assert(store.slots@ =~= tracked_slots(old(store).slots@, ppos));
        }
    }
}

/// The position is within the coordinate range and the velocity within the
/// working range, where the steering arithmetic cannot overflow.
pub open spec fn slot_arith_ok(s: Slot) -> bool {
    &&& s.comps.position is Some ==> coord_ok(s.comps.position->Some_0.0.x as int) && coord_ok(
        s.comps.position->Some_0.0.y as int,
    )
    &&& s.comps.velocity is Some ==> vel_work_ok(s.comps.velocity->Some_0.0.x as int)
        && vel_work_ok(s.comps.velocity->Some_0.0.y as int)
}

/// One executable steering step, equal to the `steered` form.
fn steer_exec(v: Vec2, pos: Vec2, ppos: Vec2) -> (r: Vec2)
    requires
        coord_ok(pos.x as int),
        coord_ok(pos.y as int),
        coord_ok(ppos.x as int),
        coord_ok(ppos.y as int),
        vel_work_ok(v.x as int),
        vel_work_ok(v.y as int),
    ensures
        r == steered(v, pos, ppos, HOMING_SPEED as int),
        vel_work_ok(r.x as int),
        vel_work_ok(r.y as int),
{
    let dx = ppos.x - pos.x;
    let dy = ppos.y - pos.y;
    assert(dx * dx <= 65536 * 65536 && dy * dy <= 65536 * 65536 && dx * dx >= 0 && dy * dy >= 0)
        by (nonlinear_arith)
        requires
            -65536 <= dx <= 65536,
            -65536 <= dy <= 65536,
    ;
    let dd = dx * dx + dy * dy;
    if dd == 0 {
        return v;
    }
    let ddu: u64 = dd as u64;
    assert(ddu == dd);
    let l = isqrt_u64(ddu);
    assert(l >= 1) by {
        if l == 0 {
            assert(ddu < (0 + 1) * (0 + 1));
        }
    }
    assert(l <= 92682) by (nonlinear_arith)
        requires
            (l as int) * (l as int) <= 8589934592int,
    ;
    assert(l as int == sqrt_floor(dd as int));
    let li: i64 = l as i64;
    let tx = div_trunc(dx * 7, li);
    let ty = div_trunc(dy * 7, li);
    proof {
        lemma_sdiv_mag((dx * 7) as int, l as int);
        lemma_sdiv_mag((dy * 7) as int, l as int);
    }
    let sx = div_trunc(tx - v.x, HOMING_SMOOTHING);
    let sy = div_trunc(ty - v.y, HOMING_SMOOTHING);
    proof {
        lemma_sdiv_mag((tx - v.x) as int, HOMING_SMOOTHING as int);
        lemma_sdiv_mag((ty - v.y) as int, HOMING_SMOOTHING as int);
    }
    Vec2 { x: v.x + sx, y: v.y + sy }
}

/// A tracking bullet whose fuse has run out is queued for deletion and
/// queues exactly one explosion (when the template is present), and its
/// velocity is never updated.
pub proof fn lemma_expired_tracking_bullet(
    slots: Seq<Slot>,
    template: Option<AnimatedSprite>,
    ppos: Vec2,
    i: int,
)
    requires
        0 <= i < slots.len(),
        tracking_expired(slots[i]),
        forall|j: int| 0 <= j < slots.len() && j != i ==> !tracking_expired(#[trigger] slots[j]),
        template is Some,
    ensures
        tracking_deletes(slots, slots.len() as int) == seq![id_of(slots, i)],
        tracking_creates(slots, template, slots.len() as int) == seq![
            explosion_components(slots[i].comps.position->Some_0, template->Some_0),
        ],
        tracked_slot(slots[i], ppos) == slots[i],
        any_tracking_expired(slots),
{
    lemma_single_expired(slots, template, i, slots.len() as int);
    assert(tracking_deletes(slots, slots.len() as int) =~= seq![id_of(slots, i)]);
    assert(tracking_creates(slots, template, slots.len() as int) =~= seq![
        explosion_components(slots[i].comps.position->Some_0, template->Some_0),
    ]);
}

proof fn lemma_single_expired(
    slots: Seq<Slot>,
    template: Option<AnimatedSprite>,
    i: int,
    n: int,
)
    requires
        0 <= i < slots.len(),
        n <= slots.len(),
        tracking_expired(slots[i]),
        forall|j: int| 0 <= j < slots.len() && j != i ==> !tracking_expired(#[trigger] slots[j]),
        template is Some,
    ensures
        i < n ==> tracking_deletes(slots, n) =~= seq![id_of(slots, i)] && tracking_creates(
            slots,
            template,
            n,
        ) =~= seq![explosion_components(slots[i].comps.position->Some_0, template->Some_0)],
        i >= n ==> tracking_deletes(slots, n) =~= Seq::<EntityId>::empty() && tracking_creates(
            slots,
            template,
            n,
        ) =~= Seq::<ComponentSet>::empty(),
    decreases n,
{
    if n > 0 {
        lemma_single_expired(slots, template, i, n - 1);
    }
}

} // verus!
