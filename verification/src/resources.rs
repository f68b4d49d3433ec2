//! The per-frame shared resources: the player's identity, screen dimensions,
//! asset handles the systems may cue, the queued sound effects, and the
//! process-wide flags read by the surrounding shell.
use vstd::prelude::*;

use crate::components::{AnimatedSprite, PlayerEntity};

verus! {

/// The handles the simulation needs from the asset tables: the explosion
/// animation template and the three sound cues. A missing asset is
/// non-fatal; the corresponding spawn or cue is skipped.
#[derive(Clone, Copy, Debug, PartialEq, Eq, Structural)]
pub struct Assets {
    pub explosion: Option<AnimatedSprite>,
    pub boom_sound: Option<u32>,
    pub deflect_sound: Option<u32>,
    pub dead_sound: Option<u32>,
}

/// The per-frame simulation context passed to every system: singleton
/// resources with single-writer-per-phase discipline.
pub struct FrameCtx {
    /// The player's entity identity.
    pub player: PlayerEntity,
    /// Screen width, used for culling and bounce boundaries.
    pub screen_width: i64,
    /// Screen height, used for culling.
    pub screen_height: i64,
    /// Asset handles available this frame.
    pub assets: Assets,
    /// Sound handles queued this frame, drained by the audio collaborator.
    pub queued_sounds: Vec<u32>,
    /// Set when the player's entity dies; read by the game-over transition.
    pub dead: bool,
    /// Set when the player's hit points changed; read by the UI collaborator.
    pub hp_needs_redraw: bool,
}

} // verus!
