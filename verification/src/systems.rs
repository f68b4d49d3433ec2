//! The simple per-entity systems: movement integration, invincibility-timer
//! countdown, death handling, and sprite animation.
use vstd::prelude::*;

use crate::components::{EntityId, Position, Vec2};
use crate::resources::FrameCtx;
use crate::store::{id_of, id_valid, ComponentSet, Slot, Store};

verus! {

/// The sums `position + velocity` of this slot stay inside `i64`.
pub open spec fn move_fits(s: Slot) -> bool {
    s.alive && s.comps.position is Some && s.comps.velocity is Some ==> {
        let p = s.comps.position->Some_0.0;
        let v = s.comps.velocity->Some_0.0;
        &&& i64::MIN <= p.x + v.x <= i64::MAX
        &&& i64::MIN <= p.y + v.y <= i64::MAX
    }
}

/// One movement step of a single slot: entities with both a position and a
/// velocity move by their velocity; everything else is untouched.
pub open spec fn moved_slot(s: Slot) -> Slot {
    if s.alive && s.comps.position is Some && s.comps.velocity is Some {
        let p = s.comps.position->Some_0.0;
        let v = s.comps.velocity->Some_0.0;
        Slot {
            comps: ComponentSet {
                position: Some(Position(Vec2 { x: (p.x + v.x) as i64, y: (p.y + v.y) as i64 })),
                ..s.comps
            },
            ..s
        }
    } else {
        s
    }
}

pub open spec fn moved_slots(slots: Seq<Slot>) -> Seq<Slot> {
    slots.map_values(|s: Slot| moved_slot(s))
}

/// The movement system: integrates velocity into position for every entity
/// with both.
pub struct IntegrateSys;

impl IntegrateSys {
    #[verifier::loop_isolation(false)]
    pub fn run(store: &mut Store)
        requires
            forall|j: int|
                0 <= j < old(store).slots@.len() ==> move_fits(#[trigger] old(store).slots@[j]),
        ensures
            final(store).slots@ == moved_slots(old(store).slots@),
            final(store).pending_creates@ == old(store).pending_creates@,
            final(store).pending_deletes@ == old(store).pending_deletes@,
            final(store).pending_deflects@ == old(store).pending_deflects@,
    {
        let n = store.slots.len();
        let mut i: usize = 0;
        while i < n
            invariant
                0 <= i <= n,
                store.slots@.len() == n,
                forall|j: int|
                    0 <= j < i ==> store.slots@[j] == moved_slot(#[trigger] old(store).slots@[j]),
                forall|j: int| i <= j < n ==> store.slots@[j] == old(store).slots@[j],
                store.pending_creates@ == old(store).pending_creates@,
                store.pending_deletes@ == old(store).pending_deletes@,
                store.pending_deflects@ == old(store).pending_deflects@,
            decreases n - i,
        {
            let s = store.slots[i];
            if s.alive {
                if let (Some(p), Some(v)) = (s.comps.position, s.comps.velocity) {
                    let np = Position(Vec2 { x: p.0.x + v.0.x, y: p.0.y + v.0.y });
                    store.slots[i] = Slot {
                        comps: ComponentSet { position: Some(np), ..s.comps },
                        ..s
                    };
                }
            }
            i = i + 1;
        }
        proof {
            assert(store.slots@ =~= moved_slots(old(store).slots@));
        }
    }
}

/// After one movement tick, every entity with a position and a velocity
/// stands at its old position plus its velocity, and its velocity is
/// unchanged.
pub proof fn lemma_movement_adds_velocity(slots: Seq<Slot>, i: int)
    requires
        0 <= i < slots.len(),
        slots[i].alive,
        slots[i].comps.position is Some,
        slots[i].comps.velocity is Some,
        move_fits(slots[i]),
    ensures
        moved_slots(slots)[i].comps.position->Some_0.0.x == slots[i].comps.position->Some_0.0.x
            + slots[i].comps.velocity->Some_0.0.x,
        moved_slots(slots)[i].comps.position->Some_0.0.y == slots[i].comps.position->Some_0.0.y
            + slots[i].comps.velocity->Some_0.0.y,
        moved_slots(slots)[i].comps.velocity == slots[i].comps.velocity,
{
}

/// One invincibility-timer step of a single slot: a positive `iframes`
/// counter drops by exactly one; a zero counter stays zero.
pub open spec fn iframe_slot(s: Slot) -> Slot {
    if s.alive && s.comps.hp is Some {
        let hp = s.comps.hp->Some_0;
        if hp.iframes > 0 {
            Slot {
                comps: ComponentSet {
                    hp: Some(
                        crate::components::HP {
                            remaining: hp.remaining,
                            iframes: (hp.iframes - 1) as u32,
                        },
                    ),
                    ..s.comps
                },
                ..s
            }
        } else {
            s
        }
    } else {
        s
    }
}

pub open spec fn iframe_slots(slots: Seq<Slot>) -> Seq<Slot> {
    slots.map_values(|s: Slot| iframe_slot(s))
}

/// The invincibility-timer system: counts down each entity's `iframes`.
pub struct IFrameSys;

impl IFrameSys {
    #[verifier::loop_isolation(false)]
    pub fn run(store: &mut Store)
        ensures
            final(store).slots@ == iframe_slots(old(store).slots@),
            final(store).pending_creates@ == old(store).pending_creates@,
            final(store).pending_deletes@ == old(store).pending_deletes@,
            final(store).pending_deflects@ == old(store).pending_deflects@,
    {
        let n = store.slots.len();
        let mut i: usize = 0;
        while i < n
            invariant
                0 <= i <= n,
                store.slots@.len() == n,
                forall|j: int|
                    0 <= j < i ==> store.slots@[j] == iframe_slot(#[trigger] old(store).slots@[j]),
                forall|j: int| i <= j < n ==> store.slots@[j] == old(store).slots@[j],
                store.pending_creates@ == old(store).pending_creates@,
                store.pending_deletes@ == old(store).pending_deletes@,
                store.pending_deflects@ == old(store).pending_deflects@,
            decreases n - i,
        {
            let s = store.slots[i];
            if s.alive {
                if let Some(hp) = s.comps.hp {
                    if hp.iframes > 0 {
                        store.slots[i] = Slot {
                            comps: ComponentSet {
                                hp: Some(
                                    crate::components::HP {
                                        remaining: hp.remaining,
                                        iframes: hp.iframes - 1,
                                    },
                                ),
                                ..s.comps
                            },
                            ..s
                        };
                    }
                }
            }
            i = i + 1;
        }
        proof {
            assert(store.slots@ =~= iframe_slots(old(store).slots@));
        }
    }
}

/// Invincibility frames never go negative, and are decremented exactly once
/// per tick while positive.
pub proof fn lemma_iframes_decrement_once(slots: Seq<Slot>, i: int)
    requires
        0 <= i < slots.len(),
        slots[i].alive,
        slots[i].comps.hp is Some,
    ensures
        iframe_slots(slots)[i].comps.hp->Some_0.iframes == if slots[i].comps.hp->Some_0.iframes
            > 0 {
            slots[i].comps.hp->Some_0.iframes - 1
        } else {
            0int
        },
        iframe_slots(slots)[i].comps.hp->Some_0.iframes >= 0,
        iframe_slots(slots)[i].comps.hp->Some_0.remaining == slots[i].comps.hp->Some_0.remaining,
{
}

/// The entities the death system queues for deletion this frame, in slot
/// order: every live entity whose hit points have reached zero.
pub open spec fn dead_ids(slots: Seq<Slot>, n: int) -> Seq<EntityId>
    decreases n,
{
    if n <= 0 {
        Seq::empty()
    } else {
        dead_ids(slots, n - 1) + if slots[n - 1].alive && slots[n - 1].comps.hp is Some && slots[n
            - 1].comps.hp->Some_0.remaining == 0 {
            seq![id_of(slots, n - 1)]
        } else {
            Seq::empty()
        }
    }
}

/// The player is live this frame and out of hit points.
pub open spec fn player_dead(slots: Seq<Slot>, player: EntityId) -> bool {
    &&& id_valid(slots, player)
    &&& slots[player.index as int].comps.hp is Some
    &&& slots[player.index as int].comps.hp->Some_0.remaining == 0
}

/// The death system: queues deletion of every entity with zero hit points;
/// if that entity is the player, raises the dead flag and cues the death
/// sound.
pub struct HPKillSys;

impl HPKillSys {
    #[verifier::loop_isolation(false)]
    pub fn run(store: &mut Store, ctx: &mut FrameCtx)
        ensures
            final(store).slots@ == old(store).slots@,
            final(store).pending_creates@ == old(store).pending_creates@,
            final(store).pending_deflects@ == old(store).pending_deflects@,
            final(store).pending_deletes@ == old(store).pending_deletes@ + dead_ids(
                old(store).slots@,
                old(store).slots@.len() as int,
            ),
            final(ctx).dead == (old(ctx).dead || player_dead(old(store).slots@, old(ctx).player.0)),
            final(ctx).queued_sounds@ == if player_dead(old(store).slots@, old(ctx).player.0)
                && old(ctx).assets.dead_sound is Some {
                old(ctx).queued_sounds@.push(old(ctx).assets.dead_sound->Some_0)
            } else {
                old(ctx).queued_sounds@
            },
            final(ctx).player == old(ctx).player,
            final(ctx).screen_width == old(ctx).screen_width,
            final(ctx).screen_height == old(ctx).screen_height,
            final(ctx).assets == old(ctx).assets,
            final(ctx).hp_needs_redraw == old(ctx).hp_needs_redraw,
    {
        let n = store.slots.len();
        let mut i: usize = 0;
        while i < n
            invariant
                0 <= i <= n,
                store.slots@ == old(store).slots@,
                store.pending_creates@ == old(store).pending_creates@,
                store.pending_deflects@ == old(store).pending_deflects@,
                store.pending_deletes@ == old(store).pending_deletes@ + dead_ids(
                    old(store).slots@,
                    i as int,
                ),
                ctx.dead == (old(ctx).dead || (player_dead(old(store).slots@, old(ctx).player.0)
                    && (old(ctx).player.0.index as int) < i)),
                ctx.queued_sounds@ == if player_dead(old(store).slots@, old(ctx).player.0) && old(
                    ctx,
                ).assets.dead_sound is Some && (old(ctx).player.0.index as int) < i {
                    old(ctx).queued_sounds@.push(old(ctx).assets.dead_sound->Some_0)
                } else {
                    old(ctx).queued_sounds@
                },
                ctx.player == old(ctx).player,
                ctx.screen_width == old(ctx).screen_width,
                ctx.screen_height == old(ctx).screen_height,
                ctx.assets == old(ctx).assets,
                ctx.hp_needs_redraw == old(ctx).hp_needs_redraw,
            decreases n - i,
        {
            let s = store.slots[i];
            if s.alive {
                if let Some(hp) = s.comps.hp {
                    if hp.remaining == 0 {
                        let id = EntityId { index: i, generation: s.generation };
                        let _ = store.queue_delete(id);
                        if id.index == ctx.player.0.index && id.generation
                            == ctx.player.0.generation {
                            ctx.dead = true;
                            if let Some(sound) = ctx.assets.dead_sound {
                                ctx.queued_sounds.push(sound);
                            }
                        }
                    }
                }
            }
            i = i + 1;
        }
    }
}

} // verus!

verus! {

/// Every live animated sprite advances one frame and stays within its frame
/// count.
pub open spec fn anim_ok(s: Slot) -> bool {
    s.alive && s.comps.animated_sprite is Some ==> s.comps.animated_sprite->Some_0.current_frame
        < s.comps.animated_sprite->Some_0.num_frames
}

/// One animation step of a single slot: the frame index advances; a looping
/// animation that has just finished wraps back to its first frame, while a
/// finished one-shot animation keeps the final index (its entity is about to
/// be deleted).
pub open spec fn anim_slot(s: Slot) -> Slot {
    if s.alive && s.comps.animated_sprite is Some {
        let a = s.comps.animated_sprite->Some_0;
        let f1 = (a.current_frame + 1) as u32;
        let nf = if f1 == a.num_frames && !a.temporary {
            0u32
        } else {
            f1
        };
        Slot {
            comps: ComponentSet {
                animated_sprite: Some(
                    crate::components::AnimatedSprite { current_frame: nf, ..a },
                ),
                ..s.comps
            },
            ..s
        }
    } else {
        s
    }
}

pub open spec fn anim_slots(slots: Seq<Slot>) -> Seq<Slot> {
    slots.map_values(|s: Slot| anim_slot(s))
}

/// This slot is a one-shot animation completing its cycle this frame.
pub open spec fn anim_finished(s: Slot) -> bool {
    &&& s.alive
    &&& s.comps.animated_sprite is Some
    &&& s.comps.animated_sprite->Some_0.current_frame + 1
        == s.comps.animated_sprite->Some_0.num_frames
    &&& s.comps.animated_sprite->Some_0.temporary
}

/// The one-shot animations that finish this frame, queued for deletion in
/// slot order.
pub open spec fn anim_deletes(slots: Seq<Slot>, n: int) -> Seq<EntityId>
    decreases n,
{
    if n <= 0 {
        Seq::empty()
    } else {
        anim_deletes(slots, n - 1) + if anim_finished(slots[n - 1]) {
            seq![id_of(slots, n - 1)]
        } else {
            Seq::empty()
        }
    }
}

/// The animation system: advances every animated sprite by one frame;
/// completed one-shot animations are queued for deletion, completed looping
/// animations wrap around.
pub struct AnimationSys;

impl AnimationSys {
    #[verifier::loop_isolation(false)]
    pub fn run(store: &mut Store)
        requires
            forall|j: int|
                0 <= j < old(store).slots@.len() ==> anim_ok(#[trigger] old(store).slots@[j]),
        ensures
            final(store).slots@ == anim_slots(old(store).slots@),
            final(store).pending_deletes@ == old(store).pending_deletes@ + anim_deletes(
                old(store).slots@,
                old(store).slots@.len() as int,
            ),
            final(store).pending_creates@ == old(store).pending_creates@,
            final(store).pending_deflects@ == old(store).pending_deflects@,
    {
        let n = store.slots.len();
        let mut i: usize = 0;
        while i < n
            invariant
                0 <= i <= n,
                store.slots@.len() == n,
                forall|j: int|
                    0 <= j < i ==> store.slots@[j] == anim_slot(#[trigger] old(store).slots@[j]),
                forall|j: int| i <= j < n ==> store.slots@[j] == old(store).slots@[j],
                store.pending_deletes@ == old(store).pending_deletes@ + anim_deletes(
                    old(store).slots@,
                    i as int,
                ),
                store.pending_creates@ == old(store).pending_creates@,
                store.pending_deflects@ == old(store).pending_deflects@,
            decreases n - i,
        {
            let s = store.slots[i];
            if s.alive {
                if let Some(a) = s.comps.animated_sprite {
                    let f1 = a.current_frame + 1;
                    let finished = f1 == a.num_frames;
                    let nf: u32 = if finished && !a.temporary {
                        0
                    } else {
                        f1
                    };
                    store.slots[i] = Slot {
                        comps: ComponentSet {
                            animated_sprite: Some(
                                crate::components::AnimatedSprite { current_frame: nf, ..a },
                            ),
                            ..s.comps
                        },
                        ..s
                    };
                    if finished && a.temporary {
                        let _ = store.queue_delete(
                            EntityId { index: i, generation: s.generation },
                        );
                    }
                }
            }
            i = i + 1;
            proof {
                assert(store.pending_deletes@ =~= old(store).pending_deletes@ + anim_deletes(
                    old(store).slots@,
                    i as int,
                ));
            }
        }
        proof {
            assert(store.slots@ =~= anim_slots(old(store).slots@));
        }
    }
}

/// A finished one-shot animated sprite's entity is queued for deletion: with
/// `current_frame + 1 == num_frames` and `temporary` set, its identity is in
/// the queued deletions.
pub proof fn lemma_finished_animation_deleted(slots: Seq<Slot>, i: int)
    requires
        0 <= i < slots.len(),
        anim_finished(slots[i]),
    ensures
        anim_deletes(slots, slots.len() as int).contains(id_of(slots, i)),
    decreases slots.len(),
{
    lemma_anim_deletes_contains(slots, i, slots.len() as int);
}

proof fn lemma_anim_deletes_contains(slots: Seq<Slot>, i: int, n: int)
    requires
        0 <= i < n <= slots.len(),
        anim_finished(slots[i]),
    ensures
        anim_deletes(slots, n).contains(id_of(slots, i)),
    decreases n,
{
    let pre = anim_deletes(slots, n - 1);
    if i == n - 1 {
        assert(anim_deletes(slots, n)[pre.len() as int] == id_of(slots, i));
    } else {
        lemma_anim_deletes_contains(slots, i, n - 1);
        let k = choose|k: int| 0 <= k < pre.len() && pre[k] == id_of(slots, i);
        assert(anim_deletes(slots, n)[k] == id_of(slots, i));
    }
}

} // verus!
