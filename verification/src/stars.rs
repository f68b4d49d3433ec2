//! Spawning of the cosmetic background stars: random placement above the
//! screen with a randomized size and fall speed.
use vstd::prelude::*;

use crate::components::{ColorRect, Position, StarInfo, Vec2, Velocity, COORD_LIMIT};

verus! {

/// The packed RGBA value of plain white, the color every star is drawn in.
pub const WHITE: u32 = 0xFFFF_FFFF;

/// Relies on `rand::random_range` over the thread-local generator: a uniform
/// sample from the half-open range `lo..hi`. It panics only on an empty
/// range, which the precondition rules out.
#[verifier::external_body]
fn random_in_range(lo: i64, hi: i64) -> (r: i64)
    requires
        lo < hi,
    ensures
        lo <= r < hi,
{
    rand::random_range(lo..hi)
}

impl StarInfo {
    /// Roll a new star: somewhere across the screen horizontally, up to one
    /// screen-width above the top edge, falling at `vel` give or take
    /// `vel_variance`, sized `size` give or take `size_variance`.
    pub fn new_star(&self, screen_width: i64) -> (r: (Position, Velocity, ColorRect))
        requires
            1 <= screen_width <= COORD_LIMIT,
            0 < self.vel_variance <= COORD_LIMIT,
            0 < self.size_variance <= COORD_LIMIT,
            -COORD_LIMIT <= self.vel <= COORD_LIMIT,
            -COORD_LIMIT <= self.size <= COORD_LIMIT,
        ensures
            0 <= r.0.0.x < screen_width,
            -screen_width <= r.0.0.y < 0,
            r.1.0.x == 0,
            self.vel - self.vel_variance <= r.1.0.y < self.vel + self.vel_variance,
            r.2.color == WHITE,
            self.size - self.size_variance <= r.2.w < self.size + self.size_variance,
            r.2.h == r.2.w,
    {
        let x = random_in_range(0, screen_width);
        let y = random_in_range(-screen_width, 0);
        let y_vel = random_in_range(self.vel - self.vel_variance, self.vel + self.vel_variance);
        let size = random_in_range(self.size - self.size_variance, self.size + self.size_variance);

        let pos = Position(Vec2 { x, y });
        let vel = Velocity(Vec2 { x: 0, y: y_vel });
        let color_rect = ColorRect { color: WHITE, w: size, h: size };
        (pos, vel, color_rect)
    }
}

} // verus!
