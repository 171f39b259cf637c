//! View state: what one render pass needs to know of the camera, for one
//! eye and one frame.

use vstd::prelude::*;
use glam::{Mat4, Vec3};
use crate::math::{
    forward_of,
    mat4_inverse,
    mat4_inverse_of,
    mat4_mul,
    mat4_product,
    mat4_third_axis,
    vec3_neg,
};
use crate::stereo_camera::Eye;

verus! {

/// A rectangle of the framebuffer: x, y, width, height.
pub type Viewport = (i32, i32, i32, i32);

/// Immutable view state for one render pass (one eye, or mono).
///
/// Velocity and temporal reprojection use the matrices without jitter, so
/// that motion is not mixed with the sub-pixel offset.
#[derive(Clone, Copy, Debug)]
pub struct ViewState {
    pub view: Mat4,
    /// Projection, with jitter.
    pub projection: Mat4,
    pub inverse_view: Mat4,
    pub view_projection: Mat4,
    pub previous_view_projection: Mat4,
    /// As `view_projection`, without the sub-pixel jitter.
    pub view_projection_no_jitter: Mat4,
    /// As `previous_view_projection`, without the sub-pixel jitter.
    pub previous_view_projection_no_jitter: Mat4,
    /// Vertical field of view in radians, as the bits of a single-precision number.
    pub fovy: u32,
    pub eye: Eye,
    /// Rectangle of the framebuffer that this view covers.
    pub viewport: Viewport,
}

impl ViewState {
    /// Bundles the given matrices with the inverse of `view` and the
    /// product of `projection` and `view`.
    pub fn from_matrices(
        view: Mat4,
        projection: Mat4,
        previous_view_projection: Mat4,
        view_projection_no_jitter: Mat4,
        previous_view_projection_no_jitter: Mat4,
        fovy: u32,
        eye: Eye,
        viewport: Viewport,
    ) -> (state: Self)
        ensures
            state == (ViewState {
                view,
                projection,
                inverse_view: mat4_inverse_of(view),
                view_projection: mat4_product(projection, view),
                previous_view_projection,
                view_projection_no_jitter,
                previous_view_projection_no_jitter,
                fovy,
                eye,
                viewport,
            }),
    {
        let inverse_view = mat4_inverse(view);
        let view_projection = mat4_mul(projection, view);
        ViewState {
            view,
            projection,
            inverse_view,
            view_projection,
            previous_view_projection,
            view_projection_no_jitter,
            previous_view_projection_no_jitter,
            fovy,
            eye,
            viewport,
        }
    }

    /// The direction the view looks in, in world space: the third axis
    /// of the camera's frame, negated.
    pub fn direction(&self) -> (forward: Vec3)
        ensures
            forward == forward_of(self.inverse_view),
    {
        vec3_neg(mat4_third_axis(self.inverse_view))
    }
}

/// Truncating half of `w`: the width of the left half of a framebuffer
/// that is `w` wide.
pub open spec fn half_width(w: int) -> int {
    if w >= 0 {
        w / 2
    } else {
        -((-w) / 2)
    }
}

/// The rectangle of the left eye in a framebuffer of `w` by `h`.
pub open spec fn left_half(w: i32, h: i32) -> Viewport {
    (0, 0, half_width(w as int) as i32, h)
}

/// The rectangle of the right eye in a framebuffer of `w` by `h`.
pub open spec fn right_half(w: i32, h: i32) -> Viewport {
    (half_width(w as int) as i32, 0, (w - half_width(w as int)) as i32, h)
}

/// Splits a framebuffer of `viewport_full.0` by `viewport_full.1` into the
/// rectangles of the left and of the right eye.
pub fn split_viewport(viewport_full: (i32, i32)) -> (halves: (Viewport, Viewport))
    ensures
        halves.0 == left_half(viewport_full.0, viewport_full.1),
        halves.1 == right_half(viewport_full.0, viewport_full.1),
{
    let (w, h) = viewport_full;
    let half_w: i32 = w / 2;
    ((0, 0, half_w, h), (half_w, 0, w - half_w, h))
}

/// The two halves lie side by side and together are as wide as the whole.
pub proof fn lemma_halves_tile(w: i32, h: i32)
    ensures
        left_half(w, h).0 == 0,
        right_half(w, h).0 == left_half(w, h).2,
        left_half(w, h).2 + right_half(w, h).2 == w,
        left_half(w, h).3 == h && right_half(w, h).3 == h,
        w >= 0 ==> 0 <= left_half(w, h).2 <= right_half(w, h).2 <= left_half(w, h).2 + 1,
{
}

} // verus!
