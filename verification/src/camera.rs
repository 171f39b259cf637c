//! Mono camera: pose, projection and the pairing of this frame's matrices
//! with those of the frame before.

use vstd::prelude::*;
use glam::{Mat4, Vec3};
use crate::jitter::JitterOffset;
use crate::math::{
    look_at_matrix,
    identity_matrix,
    mat4_diagonal,
    mat4_inverse,
    mat4_inverse_of,
    mat4_look_at_rh,
    mat4_mul,
    mat4_product,
};
use crate::stereo_camera::Eye;
use crate::view::{ViewState, Viewport};

verus! {

/// What a projection was worked out to for a camera's field of view,
/// aspect, near plane and jitter.
#[derive(Clone, Copy, Debug)]
pub struct Optics {
    /// Vertical field of view in radians, as the bits of a single-precision number.
    pub fovy: u32,
    /// Projection with the jitter applied.
    pub projection: Mat4,
    /// The same projection without jitter.
    pub projection_no_jitter: Mat4,
}

/// The state of a [`Camera`].
pub struct CameraModel {
    pub view: Mat4,
    pub inverse_view: Mat4,
    pub fov: u32,
    pub aspect: u32,
    pub near: u32,
    pub jitter: JitterOffset,
    pub optics: Optics,
    pub view_projection: Mat4,
    pub view_projection_no_jitter: Mat4,
    pub previous_view_projection: Mat4,
    pub previous_view_projection_no_jitter: Mat4,
}

impl CameraModel {
    /// The state of a camera that was never moved and never stepped: every
    /// matrix but the projection is the identity, and there is no jitter.
    pub open spec fn fresh(fov: u32, aspect: u32, near: u32, optics: Optics) -> Self {
        CameraModel {
            view: identity_matrix(),
            inverse_view: identity_matrix(),
            fov,
            aspect,
            near,
            jitter: JitterOffset { x_num: 0, x_den: 1, y_num: 0, y_den: 1 },
            optics,
            view_projection: identity_matrix(),
            view_projection_no_jitter: identity_matrix(),
            previous_view_projection: identity_matrix(),
            previous_view_projection_no_jitter: identity_matrix(),
        }
    }

    /// The state after one frame step that found the products
    /// `view_projection` and `view_projection_no_jitter`: what was current
    /// becomes previous.
    pub open spec fn advanced(self, view_projection: Mat4, view_projection_no_jitter: Mat4) -> Self {
        CameraModel {
            view_projection,
            view_projection_no_jitter,
            previous_view_projection: self.view_projection,
            previous_view_projection_no_jitter: self.view_projection_no_jitter,
            ..self
        }
    }

    /// The state after a frame step: the current view-projections become
    /// the previous ones and are computed anew as projection times view.
    pub open spec fn updated(self) -> Self {
        self.advanced(
            mat4_product(self.optics.projection, self.view),
            mat4_product(self.optics.projection_no_jitter, self.view),
        )
    }

    /// The state after the camera was moved to look from `position` at
    /// `target`.
    pub open spec fn moved(self, position: Vec3, target: Vec3, up: Vec3) -> Self {
        CameraModel {
            view: look_at_matrix(position, target, up),
            inverse_view: mat4_inverse_of(look_at_matrix(position, target, up)),
            ..self
        }
    }

    /// The view state that the camera hands out for `viewport`.
    pub open spec fn view_state(self, viewport: Viewport) -> ViewState {
        ViewState {
            view: self.view,
            projection: self.optics.projection,
            inverse_view: self.inverse_view,
            view_projection: self.view_projection,
            previous_view_projection: self.previous_view_projection,
            view_projection_no_jitter: self.view_projection_no_jitter,
            previous_view_projection_no_jitter: self.previous_view_projection_no_jitter,
            fovy: self.optics.fovy,
            eye: Eye::Mono,
            viewport,
        }
    }

    /// Whether `later` can be reached from `self` by moving the camera and
    /// changing its projection, without a frame step in between.
    pub open spec fn same_frame(self, later: Self) -> bool {
        &&& later.view_projection == self.view_projection
        &&& later.view_projection_no_jitter == self.view_projection_no_jitter
        &&& later.previous_view_projection == self.previous_view_projection
        &&& later.previous_view_projection_no_jitter == self.previous_view_projection_no_jitter
    }
}

/// Mono camera with an infinite far plane and reversed depth.
///
/// Fields of view, aspect and near plane are kept as the bits of
/// single-precision numbers. The projection that belongs to them is worked
/// out by the caller and handed in with every change, so that the camera
/// always holds a projection for its current parameters.
#[derive(Clone, Copy, Debug)]
pub struct Camera {
    view: Mat4,
    inverse_view: Mat4,
    fov: u32,
    aspect: u32,
    near: u32,
    jitter: JitterOffset,
    optics: Optics,
    view_projection: Mat4,
    view_projection_no_jitter: Mat4,
    previous_view_projection: Mat4,
    previous_view_projection_no_jitter: Mat4,
}

impl View for Camera {
    type V = CameraModel;

    closed spec fn view(&self) -> CameraModel {
        CameraModel {
            view: self.view,
            inverse_view: self.inverse_view,
            fov: self.fov,
            aspect: self.aspect,
            near: self.near,
            jitter: self.jitter,
            optics: self.optics,
            view_projection: self.view_projection,
            view_projection_no_jitter: self.view_projection_no_jitter,
            previous_view_projection: self.previous_view_projection,
            previous_view_projection_no_jitter: self.previous_view_projection_no_jitter,
        }
    }
}

impl Camera {
    /// A camera with horizontal field of view `fov`, the given aspect and
    /// near plane, no jitter, and `optics` as the projection worked out for
    /// them. It has taken its first frame step.
    pub fn new(fov: u32, aspect: u32, near: u32, optics: Optics) -> (camera: Self)
        ensures
            camera@ == CameraModel::fresh(fov, aspect, near, optics).updated(),
            camera@.view == identity_matrix(),
            camera@.inverse_view == identity_matrix(),
            camera@.previous_view_projection == identity_matrix(),
            camera@.previous_view_projection_no_jitter == identity_matrix(),
            camera@.view_projection == mat4_product(optics.projection, identity_matrix()),
            camera@.view_projection_no_jitter == mat4_product(
                optics.projection_no_jitter,
                identity_matrix(),
            ),
    {
        let identity = mat4_diagonal(1, 1, 1, 1);
        let mut camera = Camera {
            view: identity,
            inverse_view: identity,
            fov,
            aspect,
            near,
            jitter: JitterOffset { x_num: 0, x_den: 1, y_num: 0, y_den: 1 },
            optics,
            view_projection: identity,
            view_projection_no_jitter: identity,
            previous_view_projection: identity,
            previous_view_projection_no_jitter: identity,
        };
        camera.update();
        camera
    }

    /// Sets the aspect, with the projection worked out for it.
    pub fn set_aspect(&mut self, aspect: u32, optics: Optics)
        ensures
            final(self)@ == (CameraModel { aspect, optics, ..old(self)@ }),
            old(self)@.same_frame(final(self)@),
    {
        self.aspect = aspect;
        self.optics = optics;
    }

    /// Sets the horizontal field of view, with the projection worked out for it.
    pub fn set_fov(&mut self, fov: u32, optics: Optics)
        ensures
            final(self)@ == (CameraModel { fov, optics, ..old(self)@ }),
            old(self)@.same_frame(final(self)@),
    {
        self.fov = fov;
        self.optics = optics;
    }

    /// Sets the jitter offset, with the projection worked out for it.
    pub fn set_jitter(&mut self, jitter: JitterOffset, optics: Optics)
        ensures
            final(self)@ == (CameraModel { jitter, optics, ..old(self)@ }),
            old(self)@.same_frame(final(self)@),
    {
        self.jitter = jitter;
        self.optics = optics;
    }

    /// Moves the camera: recomputes the view matrix and its inverse, and
    /// leaves the projection and every view-projection as they are.
    pub fn look_at(&mut self, position: Vec3, target: Vec3, up: Vec3)
        ensures
            final(self)@ == old(self)@.moved(position, target, up),
            old(self)@.same_frame(final(self)@),
    {
        let view = mat4_look_at_rh(position, target, up);
        self.place(view, mat4_inverse(view));
    }

    /// Takes `view` as the view matrix and `inverse_view` as its inverse.
    pub fn place(&mut self, view: Mat4, inverse_view: Mat4)
        ensures
            final(self)@ == (CameraModel { view, inverse_view, ..old(self)@ }),
            old(self)@.same_frame(final(self)@),
    {
        self.view = view;
        self.inverse_view = inverse_view;
    }

    /// The frame step, to be taken once per frame after the camera was
    /// moved: what was the current view-projection becomes the previous
    /// one, with and without jitter, and the current ones are computed anew
    /// as projection times view.
    pub fn update(&mut self)
        ensures
            final(self)@ == old(self)@.updated(),
            final(self)@.previous_view_projection == old(self)@.view_projection,
            final(self)@.previous_view_projection_no_jitter == old(self)@.view_projection_no_jitter,
    {
        let view_projection = mat4_mul(self.optics.projection, self.view);
        let view_projection_no_jitter = mat4_mul(self.optics.projection_no_jitter, self.view);
        self.advance(view_projection, view_projection_no_jitter);
    }

    /// The frame step with the two products handed in.
    pub fn advance(&mut self, view_projection: Mat4, view_projection_no_jitter: Mat4)
        ensures
            final(self)@ == old(self)@.advanced(view_projection, view_projection_no_jitter),
    {
        self.previous_view_projection = self.view_projection;
        self.previous_view_projection_no_jitter = self.view_projection_no_jitter;
        self.view_projection = view_projection;
        self.view_projection_no_jitter = view_projection_no_jitter;
    }

    /// The state of the camera as a view state for `viewport`. Reads only.
    pub fn to_view_state(&self, viewport: Viewport) -> (state: ViewState)
        ensures
            state == self@.view_state(viewport),
    {
        ViewState {
            view: self.view,
            projection: self.optics.projection,
            inverse_view: self.inverse_view,
            view_projection: self.view_projection,
            previous_view_projection: self.previous_view_projection,
            view_projection_no_jitter: self.view_projection_no_jitter,
            previous_view_projection_no_jitter: self.previous_view_projection_no_jitter,
            fovy: self.optics.fovy,
            eye: Eye::Mono,
            viewport,
        }
    }

    /// Horizontal field of view, as bits.
    pub fn fov(&self) -> (fov: u32)
        ensures
            fov == self@.fov,
    {
        self.fov
    }

    /// Aspect, as bits.
    pub fn aspect(&self) -> (aspect: u32)
        ensures
            aspect == self@.aspect,
    {
        self.aspect
    }

    /// Near plane, as bits.
    pub fn near(&self) -> (near: u32)
        ensures
            near == self@.near,
    {
        self.near
    }

    /// Current jitter offset.
    pub fn jitter(&self) -> (jitter: JitterOffset)
        ensures
            jitter == self@.jitter,
    {
        self.jitter
    }
}

/// Right after a frame step the view state is consistent: its
/// view-projection is its projection times its view, and the one without
/// jitter is the projection without jitter times its view.
pub proof fn lemma_view_state_after_update(camera: CameraModel, viewport: Viewport)
    ensures
        camera.updated().view_state(viewport).view_projection == mat4_product(
            camera.updated().view_state(viewport).projection,
            camera.updated().view_state(viewport).view,
        ),
        camera.updated().view_state(viewport).view_projection_no_jitter == mat4_product(
            camera.optics.projection_no_jitter,
            camera.updated().view_state(viewport).view,
        ),
{
}

/// What a view state reports as the previous view-projection without
/// jitter at one frame is what the view state of the frame before reported
/// as the current one: between the two lie any changes of pose and
/// projection, then exactly one frame step.
pub proof fn lemma_temporal_pairing(
    before: CameraModel,
    moved: CameraModel,
    view_projection: Mat4,
    view_projection_no_jitter: Mat4,
    viewport_before: Viewport,
    viewport_after: Viewport,
)
    requires
        before.same_frame(moved),
    ensures
        moved.advanced(view_projection, view_projection_no_jitter).view_state(
            viewport_after,
        ).previous_view_projection_no_jitter == before.view_state(
            viewport_before,
        ).view_projection_no_jitter,
        moved.advanced(view_projection, view_projection_no_jitter).view_state(
            viewport_after,
        ).previous_view_projection == before.view_state(viewport_before).view_projection,
{
}

} // verus!
