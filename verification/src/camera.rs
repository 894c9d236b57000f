//! The camera: a linear map from world coordinates to screen coordinates.
//! It is used for drawing only and never touches the simulation.

use vstd::prelude::*;
use crate::arith::{
    lemma_quotient_bounds, lemma_trunc_div_by_magnitudes, magnitude, quotient_toward_zero, saturate,
    saturate_i32, trunc_div,
};

verus! {

/// A viewport of fixed width onto a window of the world. The host moves
/// `world_position` between frames; nothing in this module writes it.
#[derive(Clone, Copy, Debug, PartialEq, Eq, Structural)]
pub struct Camera {
    /// The width of the viewport.
    pub screen_size: i32,
    /// The width of the window of the world that the viewport shows.
    pub world_size: i32,
    /// The camera's anchor in world coordinates.
    pub world_position: i32,
}

/// A camera over the mathematical integers.
pub struct CameraView {
    pub screen_size: int,
    pub world_size: int,
    pub world_position: int,
}

impl View for Camera {
    type V = CameraView;

    open spec fn view(&self) -> CameraView {
        CameraView {
            screen_size: self.screen_size as int,
            world_size: self.world_size as int,
            world_position: self.world_position as int,
        }
    }
}

/// The screen coordinate at which camera `c` shows the world coordinate
/// `target`: the distance from `target` to the point half a window ahead of
/// the camera, scaled from world width to screen width. Both divisions round
/// toward zero.
pub open spec fn projection(c: CameraView, target: int) -> int
    recommends
        c.world_size != 0,
{
    trunc_div(
        c.screen_size * (c.world_position + trunc_div(c.world_size, 2) - target),
        c.world_size,
    )
}

impl Camera {
    /// A camera that shows `world_size` units of the world on `screen_size`
    /// units of screen, anchored at world position zero.
    pub fn new(screen_size: i32, world_size: i32) -> (c: Camera)
        ensures
            c@ == (CameraView {
                screen_size: screen_size as int,
                world_size: world_size as int,
                world_position: 0,
            }),
    {
        Camera { screen_size, world_size, world_position: 0 }
    }

    /// The screen coordinate of `world_position`. The camera must show a
    /// window of the world that is not empty: with `world_size` zero there
    /// is nothing to divide by. The coordinate is computed exactly, however
    /// large the numbers in between grow; one that an `i32` cannot hold
    /// saturates.
    pub fn project(&self, world_position: i32) -> (screen_position: i32)
        requires
            self.world_size != 0,
        ensures
            screen_position == saturate_i32(projection(self@, world_position as int)),
            i32::MIN <= projection(self@, world_position as int) <= i32::MAX ==> screen_position
                == projection(self@, world_position as int),
    {
        let half: i64 = (self.world_size / 2) as i64;
        let offset: i64 = self.world_position as i64 + half - world_position as i64;
        assert(-0x1_0000_0000_0000_0000 <= self.screen_size * offset
            <= 0x1_0000_0000_0000_0000) by (nonlinear_arith)
            requires
                -0x8000_0000 <= self.screen_size <= 0x8000_0000,
                -0x2_0000_0000 <= offset <= 0x2_0000_0000,
        ;
        let scaled: i128 = self.screen_size as i128 * offset as i128;
        saturate(quotient_toward_zero(scaled, self.world_size as i128))
    }
}

/// A target half a window ahead of the camera appears at screen coordinate
/// zero.
pub proof fn lemma_half_window_ahead_projects_to_zero(c: Camera)
    requires
        c.world_size != 0,
    ensures
        projection(c@, c.world_position + trunc_div(c.world_size as int, 2)) == 0,
{
    let offset = c.world_position + trunc_div(c.world_size as int, 2) - (c.world_position
        + trunc_div(c.world_size as int, 2));
    assert(c.screen_size * offset == 0) by (nonlinear_arith)
        requires
            offset == 0,
    ;
}

/// Whether camera `c` shows a target at its own position at the middle of
/// the screen. It does for every world window of even width. Half of an odd
/// width is rounded before it is scaled, which moves the image off the
/// middle unless the screen is empty or its width is odd and no larger than
/// the window's.
pub open spec fn centers_own_position(c: CameraView) -> bool {
    let s = magnitude(c.screen_size);
    let w = magnitude(c.world_size);
    w % 2 == 0 || s == 0 || (s % 2 == 1 && s <= w)
}

/// A target at the camera's own position appears at the middle of the
/// screen, half the screen's width rounded toward zero, for every camera
/// that `centers_own_position` admits; every world window of even width is
/// among them.
pub proof fn lemma_own_position_projects_to_center(c: Camera)
    requires
        c.world_size != 0,
        centers_own_position(c@),
    ensures
        projection(c@, c.world_position as int) == trunc_div(c.screen_size as int, 2),
        saturate_i32(projection(c@, c.world_position as int)) == trunc_div(
            c.screen_size as int,
            2,
        ),
{
    lemma_projection_of_own_position(c@);
    lemma_scaled_half(magnitude(c.screen_size as int), magnitude(c.world_size as int));
}

/// For every other camera a target at the camera's own position is shown
/// off the middle of the screen.
pub proof fn lemma_own_position_off_center(c: Camera)
    requires
        c.world_size != 0,
        !centers_own_position(c@),
    ensures
        projection(c@, c.world_position as int) != trunc_div(c.screen_size as int, 2),
{
    lemma_projection_of_own_position(c@);
    lemma_scaled_half(magnitude(c.screen_size as int), magnitude(c.world_size as int));
}

/// The projection of the camera's own position, over magnitudes: the
/// screen's width times half the window's, divided by the window's width,
/// with the sign of the screen's width.
proof fn lemma_projection_of_own_position(c: CameraView)
    requires
        c.world_size != 0,
    ensures
        projection(c, c.world_position) == ({
            let s = magnitude(c.screen_size);
            let w = magnitude(c.world_size);
            if c.screen_size < 0 {
                -((s * (w / 2)) / w)
            } else {
                (s * (w / 2)) / w
            }
        }),
{
    let s = magnitude(c.screen_size);
    let w = magnitude(c.world_size);
    let h = trunc_div(c.world_size, 2);
    let scaled = c.screen_size * h;
    assert(c.world_position + h - c.world_position == h);
    assert(magnitude(h) == w / 2);
    assert(magnitude(scaled) == s * (w / 2) && (scaled < 0 ==> (c.screen_size < 0) != (h < 0))
        && (scaled > 0 ==> (c.screen_size < 0) == (h < 0))) by (nonlinear_arith)
        requires
            scaled == c.screen_size * h,
            s == magnitude(c.screen_size),
            magnitude(h) == w / 2,
    ;
    assert(h != 0 ==> (h < 0) == (c.world_size < 0));
    lemma_quotient_bounds(s * (w / 2), w, 0);
    lemma_trunc_div_by_magnitudes(scaled, c.world_size);
}

/// Scaling by half a width: `s` times half of `w`, divided by `w`, is half
/// of `s` exactly for the pairs that the last disjuncts name.
proof fn lemma_scaled_half(s: int, w: int)
    requires
        0 <= s,
        0 < w,
    ensures
        (s * (w / 2)) / w == s / 2 <==> (w % 2 == 0 || s == 0 || (s % 2 == 1 && s <= w)),
{
    let h = w / 2;
    let k = s / 2;
    assert(s * h - w * k == (s % 2) * h - (w % 2) * k) by (nonlinear_arith)
        requires
            s == 2 * k + s % 2,
            w == 2 * h + w % 2,
    ;
    assert((s % 2) * h == (if s % 2 == 0 { 0 } else { h })) by (nonlinear_arith)
        requires
            0 <= s % 2 <= 1,
    ;
    assert((w % 2) * k == (if w % 2 == 0 { 0 } else { k })) by (nonlinear_arith)
        requires
            0 <= w % 2 <= 1,
    ;
    lemma_quotient_bounds(s * h, w, k);
}

} // verus!
