//! The frame driver: the game state is the entity store plus the per-frame
//! context, and one update applies the player's input intent, runs each
//! system in the frame order, and commits the deferred structural changes.
use vstd::prelude::*;

use crate::bullets::{
    any_tracking_expired, bounce_deletes, bounced_slots, homing_target, tracked_slots,
    tracking_creates, tracking_deletes, BounceBulletSys, BulletTrackingSys,
};
use crate::combat::{
    combat_bullets, combat_frame_shape, combat_player_ok, combat_slot_ok, combat_sounds,
    heal_applied, CombatState, BulletCollSys,
};
use crate::components::{
    coord_ok, frame_ok, frame_vel_ok, EntityId, Vec2, Velocity, COORD_LIMIT, FRAME_VEL_LIMIT,
};
use crate::math::{div_trunc, lemma_damp_bound, sdiv};
use crate::resources::{Assets, FrameCtx};
use crate::store::{committed_slots, id_valid, ComponentSet, Slot, Store};
use crate::systems::{
    anim_deletes, anim_ok, anim_slots, dead_ids, iframe_slots, move_fits, moved_slots,
    player_dead, AnimationSys, HPKillSys, IFrameSys, IntegrateSys,
};

verus! {

/// The per-frame state as the contracts see it: the slot table, the
/// deferred-change buffers, the queued sounds and the two flags.
#[verifier::ext_equal]
pub struct FrameState {
    pub slots: Seq<Slot>,
    pub creates: Seq<ComponentSet>,
    pub deletes: Seq<EntityId>,
    pub deflects: Seq<EntityId>,
    pub sounds: Seq<u32>,
    pub dead: bool,
    pub redraw: bool,
}

pub open spec fn frame_state_of(store: Store, ctx: FrameCtx) -> FrameState {
    FrameState {
        slots: store.slots@,
        creates: store.pending_creates@,
        deletes: store.pending_deletes@,
        deflects: store.pending_deflects@,
        sounds: ctx.queued_sounds@,
        dead: ctx.dead,
        redraw: ctx.hp_needs_redraw,
    }
}

/// The player's velocity after input: damped by the exact ratio twenty
/// twenty-ninths (one over 1.45), then the frame's intent added.
pub open spec fn input_vel(v: Vec2, intent: Vec2) -> Vec2 {
    Vec2 {
        x: (sdiv(20 * v.x, 29) + intent.x) as i64,
        y: (sdiv(20 * v.y, 29) + intent.y) as i64,
    }
}

/// The slot table after the input phase: only the player's velocity changes.
pub open spec fn input_applied(slots: Seq<Slot>, player: EntityId, intent: Vec2) -> Seq<Slot> {
    let p = player.index as int;
    let ps = slots[p];
    slots.update(
        p,
        Slot {
            comps: ComponentSet {
                velocity: Some(Velocity(input_vel(ps.comps.velocity->Some_0.0, intent))),
                ..ps.comps
            },
            ..ps
        },
    )
}

pub open spec fn movement_stage(fs: FrameState) -> FrameState {
    FrameState { slots: moved_slots(fs.slots), ..fs }
}

pub open spec fn iframe_stage(fs: FrameState) -> FrameState {
    FrameState { slots: iframe_slots(fs.slots), ..fs }
}

pub open spec fn combat_stage(
    fs: FrameState,
    player: EntityId,
    screen_width: i64,
    screen_height: i64,
    assets: Assets,
) -> FrameState {
    let st0 = CombatState {
        slots: fs.slots,
        creates: fs.creates,
        deletes: fs.deletes,
        deflects: fs.deflects,
        heal: 0,
        explosion: false,
        deflection: false,
        redraw: fs.redraw,
    };
    let stl = combat_bullets(
        st0,
        player,
        screen_width,
        screen_height,
        assets.explosion,
        fs.slots.len() as int,
    );
    let stf = heal_applied(stl, player);
    FrameState {
        slots: stf.slots,
        creates: stf.creates,
        deletes: stf.deletes,
        deflects: stf.deflects,
        sounds: fs.sounds + combat_sounds(stl, assets),
        redraw: stf.redraw,
        ..fs
    }
}

pub open spec fn tracking_stage(fs: FrameState, player: EntityId, assets: Assets) -> FrameState {
    match homing_target(fs.slots, player) {
        Some(ppos) => FrameState {
            slots: tracked_slots(fs.slots, ppos),
            deletes: fs.deletes + tracking_deletes(fs.slots, fs.slots.len() as int),
            creates: fs.creates + tracking_creates(
                fs.slots,
                assets.explosion,
                fs.slots.len() as int,
            ),
            sounds: if any_tracking_expired(fs.slots) && assets.boom_sound is Some {
                fs.sounds.push(assets.boom_sound->Some_0)
            } else {
                fs.sounds
            },
            ..fs
        },
        None => fs,
    }
}

pub open spec fn bounce_stage(fs: FrameState, screen_width: i64) -> FrameState {
    FrameState {
        slots: bounced_slots(fs.slots, screen_width),
        deletes: fs.deletes + bounce_deletes(fs.slots, screen_width, fs.slots.len() as int),
        ..fs
    }
}

pub open spec fn death_stage(fs: FrameState, player: EntityId, assets: Assets) -> FrameState {
    FrameState {
        deletes: fs.deletes + dead_ids(fs.slots, fs.slots.len() as int),
        dead: fs.dead || player_dead(fs.slots, player),
        sounds: if player_dead(fs.slots, player) && assets.dead_sound is Some {
            fs.sounds.push(assets.dead_sound->Some_0)
        } else {
            fs.sounds
        },
        ..fs
    }
}

pub open spec fn anim_stage(fs: FrameState) -> FrameState {
    FrameState {
        slots: anim_slots(fs.slots),
        deletes: fs.deletes + anim_deletes(fs.slots, fs.slots.len() as int),
        ..fs
    }
}

pub open spec fn commit_stage(fs: FrameState) -> FrameState {
    FrameState {
        slots: committed_slots(fs.slots, fs.deflects, fs.deletes, fs.creates),
        creates: Seq::empty(),
        deletes: Seq::empty(),
        deflects: Seq::empty(),
        ..fs
    }
}

/// One whole frame: input applied to the player's velocity, then movement,
/// invincibility timers, collision and combat, tracking, bouncing, death and
/// animation, then the deferred-change commit.
pub open spec fn update_spec(
    fs: FrameState,
    player: EntityId,
    screen_width: i64,
    screen_height: i64,
    assets: Assets,
    intent: Vec2,
) -> FrameState {
    let fs0 = FrameState { slots: input_applied(fs.slots, player, intent), ..fs };
    commit_stage(
        anim_stage(
            death_stage(
                bounce_stage(
                    tracking_stage(
                        combat_stage(
                            iframe_stage(movement_stage(fs0)),
                            player,
                            screen_width,
                            screen_height,
                            assets,
                        ),
                        player,
                        assets,
                    ),
                    screen_width,
                ),
                player,
                assets,
            ),
        ),
    )
}

/// The bounds a slot must satisfy at the start of a frame.
pub open spec fn frame_slot_ok(s: Slot) -> bool {
    &&& s.comps.position is Some ==> frame_ok(s.comps.position->Some_0.0.x as int) && frame_ok(
        s.comps.position->Some_0.0.y as int,
    )
    &&& s.comps.velocity is Some ==> frame_vel_ok(s.comps.velocity->Some_0.0.x as int)
        && frame_vel_ok(s.comps.velocity->Some_0.0.y as int)
    &&& s.comps.hitbox is Some ==> {
        let hb = s.comps.hitbox->Some_0;
        coord_ok(hb.dx as int) && coord_ok(hb.dy as int) && 0 <= hb.w <= COORD_LIMIT && 0 <= hb.h
            <= COORD_LIMIT
    }
    &&& s.comps.bullet is Some ==> s.comps.velocity is Some
    &&& s.comps.bullet is Some && s.comps.bullet->Some_0.damages_who
        == crate::components::DamagesWho::Player ==> s.comps.bullet->Some_0.damage <= 0x5555_5555
    &&& anim_ok(s)
    &&& s.generation < u64::MAX
}

/// Everything a frame needs on entry: every slot within bounds, a live and
/// properly equipped player, screen dimensions and intent within range.
pub open spec fn update_ready(store: Store, ctx: FrameCtx, intent: Vec2) -> bool {
    &&& forall|j: int|
        0 <= j < store.slots@.len() ==> frame_slot_ok(#[trigger] store.slots@[j])
    &&& id_valid(store.slots@, ctx.player.0)
    &&& store.slots@[ctx.player.0.index as int].comps.velocity is Some
    &&& combat_player_ok(store.slots@, ctx.player.0)
    &&& -COORD_LIMIT <= ctx.screen_width <= COORD_LIMIT
    &&& -COORD_LIMIT <= ctx.screen_height <= COORD_LIMIT
    &&& frame_vel_ok(intent.x as int)
    &&& frame_vel_ok(intent.y as int)
}

/// The whole simulation: the entity store and the per-frame resources.
pub struct GameState {
    pub world: Store,
    pub ctx: FrameCtx,
}

impl GameState {
    pub fn new(world: Store, ctx: FrameCtx) -> (r: GameState)
        ensures
            r.world == world,
            r.ctx == ctx,
    {
        GameState { world, ctx }
    }

    /// Advance the simulation by one frame under the given input intent.
    #[verifier::rlimit(100)]
    pub fn update(&mut self, intent: Vec2)
        requires
            update_ready(old(self).world, old(self).ctx, intent),
        ensures
            frame_state_of(final(self).world, final(self).ctx) == update_spec(
                frame_state_of(old(self).world, old(self).ctx),
                old(self).ctx.player.0,
                old(self).ctx.screen_width,
                old(self).ctx.screen_height,
                old(self).ctx.assets,
                intent,
            ),
            final(self).ctx.player == old(self).ctx.player,
            final(self).ctx.screen_width == old(self).ctx.screen_width,
            final(self).ctx.screen_height == old(self).ctx.screen_height,
            final(self).ctx.assets == old(self).ctx.assets,
    {
        let ghost fs_in = frame_state_of(self.world, self.ctx);
        let ghost player = self.ctx.player.0;
        let pid = self.ctx.player.0;
        let ps = self.world.slots[pid.index];
        let pv = match ps.comps.velocity {
            Some(v) => v.0,
            None => vstd::pervasive::unreached(),
        };
        proof {
            lemma_damp_bound(pv.x as int);
            lemma_damp_bound(pv.y as int);
        }
        let dx = div_trunc(pv.x * 20, 29);
        let dy = div_trunc(pv.y * 20, 29);
        let nv = Vec2 { x: dx + intent.x, y: dy + intent.y };
        self.world.slots[pid.index] = Slot {
            comps: ComponentSet { velocity: Some(Velocity(nv)), ..ps.comps },
            ..ps
        };
        let ghost s1 = self.world.slots@;
        proof {
            assert(s1 =~= input_applied(fs_in.slots, player, intent));
            assert forall|j: int| 0 <= j < s1.len() implies move_fits(#[trigger] s1[j]) by {
                assert(frame_slot_ok(fs_in.slots[j]));
            }
        }

        IntegrateSys::run(&mut self.world);
        let ghost s2 = self.world.slots@;
        proof {
            assert forall|j: int|
                0 <= j < iframe_slots(s2).len() implies combat_slot_ok(
                #[trigger] iframe_slots(s2)[j],
            ) by {
                assert(s2[j] == crate::systems::moved_slot(s1[j]));
                assert(iframe_slots(s2)[j] == crate::systems::iframe_slot(s2[j]));
                assert(frame_slot_ok(fs_in.slots[j]));
            }
        }

        IFrameSys::run(&mut self.world);
        let ghost s3 = self.world.slots@;
        proof {
            assert forall|j: int|
                0 <= j < s3.len() implies combat_slot_ok(#[trigger] s3[j]) by {
                assert(s3[j] == crate::systems::iframe_slot(s2[j]));
            }
            assert forall|j: int|
                0 <= j < s3.len() implies (#[trigger] s3[j]).alive == fs_in.slots[j].alive && s3[
                j].generation == fs_in.slots[j].generation && s3[j].comps.player
                == fs_in.slots[j].comps.player && s3[j].comps.hp is Some == (
            fs_in.slots[j].comps.hp is Some) && s3[j].comps.velocity is Some == (
            fs_in.slots[j].comps.velocity is Some) && s3[j].comps.bullet
                == fs_in.slots[j].comps.bullet && s3[j].comps.animated_sprite
                == fs_in.slots[j].comps.animated_sprite && s3[j].comps.position is Some == (
            fs_in.slots[j].comps.position is Some) by {
                assert(s3[j] == crate::systems::iframe_slot(s2[j]));
                assert(s2[j] == crate::systems::moved_slot(s1[j]));
            }
            assert(combat_player_ok(s3, player));
        }

        BulletCollSys::run(&mut self.world, &mut self.ctx);
        let ghost s4 = self.world.slots@;
        proof {
            assert(combat_frame_shape(s4, s3));
            assert forall|j: int|
                0 <= j < s4.len() implies crate::bullets::slot_arith_ok(#[trigger] s4[j]) by {
                assert(combat_slot_ok(s3[j]));
            }
        }

        BulletTrackingSys::run(&mut self.world, &mut self.ctx);
        let ghost s5 = self.world.slots@;
        proof {
            assert forall|j: int|
                0 <= j < s5.len() && (#[trigger] s5[j]).comps.velocity is Some implies s5[
            j].comps.velocity->Some_0.0.x > i64::MIN by {
                assert(crate::components::vel_work_ok(s5[j].comps.velocity->Some_0.0.x as int));
            }
        }

        BounceBulletSys::run(&mut self.world, &self.ctx);
        let ghost s6 = self.world.slots@;

        HPKillSys::run(&mut self.world, &mut self.ctx);
        let ghost s7 = self.world.slots@;
        proof {
            assert forall|j: int|
                0 <= j < s7.len() implies anim_ok(#[trigger] s7[j]) && s7[j].generation
                    < u64::MAX by {
                assert(s7[j] == s6[j]);
                assert(s6[j] == crate::bullets::bounced_slot(s5[j], self.ctx.screen_width));
                if homing_target(s4, player) is Some {
                    assert(s5[j] == crate::bullets::tracked_slot(
                        s4[j],
                        homing_target(s4, player)->Some_0,
                    ));
                } else {
                    assert(s5[j] == s4[j]);
                }
                assert(s4[j].comps.animated_sprite == s3[j].comps.animated_sprite && s4[j].alive
                    == s3[j].alive && s4[j].generation == s3[j].generation);
                assert(frame_slot_ok(fs_in.slots[j]));
            }
        }

        AnimationSys::run(&mut self.world);
        let ghost s8 = self.world.slots@;
        proof {
            assert forall|j: int|
                0 <= j < s8.len() implies (#[trigger] s8[j]).generation < u64::MAX by {
                assert(s8[j] == crate::systems::anim_slot(s7[j]));
            }
        }

        self.world.commit();
        proof {
            assert(frame_state_of(self.world, self.ctx) =~= update_spec(
                fs_in,
                player,
                old(self).ctx.screen_width,
                old(self).ctx.screen_height,
                old(self).ctx.assets,
                intent,
            ));
        }
    }
}

} // verus!
