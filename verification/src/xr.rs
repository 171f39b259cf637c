//! View states from the views of a headset frame.
//!
//! The session hands out, per view, which eye it is for, a projection
//! matrix and the transform of the eye. Here these become the pair of
//! view states that the renderer runs on.

use vstd::prelude::*;
use glam::Mat4;
use crate::math::{mat4_inverse, mat4_inverse_of, mat4_mul, mat4_product};
use crate::stereo_camera::Eye;
use crate::view::{left_half, right_half, split_viewport, ViewState, Viewport};

verus! {

/// Number of entries in a 4x4 matrix.
pub const MAT4_LEN: usize = 16;

/// The eye a headset view is for.
#[derive(Clone, Copy, Debug, PartialEq, Eq, Structural)]
pub enum XrEye {
    /// Not tied to an eye; such a view is passed over.
    Neither,
    Left,
    Right,
}

/// One view of a headset frame.
#[derive(Clone, Copy, Debug)]
pub struct XrView {
    pub eye: XrEye,
    pub projection: Mat4,
    /// The transform of the eye; the view matrix is its inverse.
    pub transform: Mat4,
    /// Vertical field of view of the projection, as bits.
    pub fovy: u32,
}

/// The first sixteen entries of `a`, with zeros where `a` is shorter.
pub open spec fn padded(a: Seq<u32>) -> Seq<u32> {
    Seq::new(
        MAT4_LEN as nat,
        |i: int|
            if i < a.len() {
                a[i]
            } else {
                0u32
            },
    )
}

/// Takes the bits of a column-major 4x4 matrix from a slice of any
/// length: what is missing is zero, what is beyond sixteen is left out.
pub fn mat4_from_slice(a: &[u32]) -> (m: [u32; 16])
    ensures
        m@ == padded(a@),
{
    let mut arr: [u32; 16] = [0u32; 16];
    let mut i: usize = 0;
    while i < MAT4_LEN && i < a.len()
        invariant
            i <= MAT4_LEN,
            i <= a.len(),
            forall|k: int| 0 <= k < i ==> arr@[k] == a@[k],
            forall|k: int| i <= k < MAT4_LEN ==> arr@[k] == 0,
        decreases MAT4_LEN - i,
    {
        arr[i] = a[i];
        i = i + 1;
    }
    assert(arr@ =~= padded(a@));
    arr
}

/// The eye and the rectangle that a headset view is rendered with, where
/// it is rendered at all.
pub open spec fn placement(eye: XrEye, w: i32, h: i32) -> Option<(Eye, Viewport)> {
    match eye {
        XrEye::Neither => None,
        XrEye::Left => Some((Eye::Left, left_half(w, h))),
        XrEye::Right => Some((Eye::Right, right_half(w, h))),
    }
}

/// The positions, among the first `n` views, of those tied to an eye.
pub open spec fn tied(views: Seq<XrView>, n: int) -> Seq<int>
    decreases n,
{
    if n <= 0 {
        seq![]
    } else if views[n - 1].eye == XrEye::Neither {
        tied(views, n - 1)
    } else {
        tied(views, n - 1).push(n - 1)
    }
}

/// The view state of a headset view for an eye and a rectangle. The view
/// matrix is the inverse of the eye's transform. A headset keeps no
/// history and applies no jitter: the previous view-projection and both
/// matrices without jitter are the current view-projection.
pub open spec fn headset_state(view: XrView, eye: Eye, viewport: Viewport) -> ViewState {
    let view_matrix = mat4_inverse_of(view.transform);
    let view_projection = mat4_product(view.projection, view_matrix);
    ViewState {
        view: view_matrix,
        projection: view.projection,
        inverse_view: mat4_inverse_of(view_matrix),
        view_projection,
        previous_view_projection: view_projection,
        view_projection_no_jitter: view_projection,
        previous_view_projection_no_jitter: view_projection,
        fovy: view.fovy,
        eye,
        viewport,
    }
}

/// Whether `state` is what view `view` becomes in a framebuffer of `w` by `h`.
pub open spec fn state_of(state: ViewState, view: XrView, w: i32, h: i32) -> bool {
    &&& placement(view.eye, w, h) == Some((state.eye, state.viewport))
    &&& state == headset_state(view, state.eye, state.viewport)
}

/// Builds the view state of one headset view for the rectangle `viewport`.
fn view_state_of(view: &XrView, eye: Eye, viewport: Viewport) -> (state: ViewState)
    ensures
        state == headset_state(*view, eye, viewport),
{
    let view_matrix = mat4_inverse(view.transform);
    let view_projection = mat4_mul(view.projection, view_matrix);
    ViewState::from_matrices(
        view_matrix,
        view.projection,
        view_projection,
        view_projection,
        view_projection,
        view.fovy,
        eye,
        viewport,
    )
}

/// The view states for the views of a headset frame, in the order of the
/// views: left eyes get the left half of the framebuffer, right eyes the
/// rest, views tied to no eye are passed over. `None` where no view is
/// left.
pub fn view_states_from_frame(views: &Vec<XrView>, viewport_full: (i32, i32)) -> (states: Option<
    Vec<ViewState>,
>)
    ensures
        states.is_none() <==> tied(views@, views@.len() as int).len() == 0,
        states matches Some(found) ==> {
            &&& found@.len() == tied(views@, views@.len() as int).len()
            &&& forall|k: int|
                0 <= k < found@.len() ==> state_of(
                    #[trigger] found@[k],
                    views@[tied(views@, views@.len() as int)[k]],
                    viewport_full.0,
                    viewport_full.1,
                )
        },
{
    let (left_rect, right_rect) = split_viewport(viewport_full);
    let mut states: Vec<ViewState> = Vec::new();
    let mut i: usize = 0;
    while i < views.len()
        invariant
            i <= views.len(),
            left_rect == left_half(viewport_full.0, viewport_full.1),
            right_rect == right_half(viewport_full.0, viewport_full.1),
            states@.len() == tied(views@, i as int).len(),
            forall|k: int|
                0 <= k < states@.len() ==> state_of(
                    #[trigger] states@[k],
                    views@[tied(views@, i as int)[k]],
                    viewport_full.0,
                    viewport_full.1,
                ),
        decreases views.len() - i,
    {
        let view = &views[i];
        match view.eye {
            XrEye::Neither => {},
            XrEye::Left => {
                states.push(view_state_of(view, Eye::Left, left_rect));
            },
            XrEye::Right => {
                states.push(view_state_of(view, Eye::Right, right_rect));
            },
        }
        i = i + 1;
    }
    if states.len() == 0 {
        None
    } else {
        Some(states)
    }
}

} // verus!
