//! Stereo camera: two eye views that share one pose and one field of view,
//! and differ only in where the eye stands and how its frustum is shifted.

use vstd::prelude::*;
use glam::{Mat4, Vec3};
use crate::math::{
    look_to_matrix,
    identity_matrix,
    mat4_diagonal,
    mat4_inverse,
    mat4_inverse_of,
    mat4_look_to_rh,
    mat4_mul,
    mat4_product,
    mat4_translation,
    translation_of,
    vec3_cross,
    vec3_cross_product,
    vec3_difference,
    vec3_normalize_or_zero,
    vec3_normalized,
    vec3_sub,
    vec3_of_whole,
    vec3_whole,
};
use crate::scalar::{
    at_least,
    clamp_at_least,
    lemma_constants_ordered,
    clamp_magnitude_at_most,
    magnitude_at_most,
    BELOW_QUARTER_TURN,
    HUNDREDTH,
    TENTH,
    TWO,
    ZERO,
};
use crate::view::{left_half, right_half, split_viewport, ViewState};

verus! {

/// Which eye a view is rendered for.
#[derive(Clone, Copy, Debug, PartialEq, Eq, Structural)]
pub enum Eye {
    /// Single view (not stereo).
    Mono,
    /// Left eye.
    Left,
    /// Right eye.
    Right,
}

impl Eye {
    /// Whether the view is one of a stereo pair.
    pub fn is_stereo(self) -> (stereo: bool)
        ensures
            stereo == (self == Eye::Left || self == Eye::Right),
    {
        match self {
            Eye::Mono => false,
            Eye::Left => true,
            Eye::Right => true,
        }
    }
}

/// One matrix for each eye.
#[derive(Clone, Copy, Debug)]
pub struct EyeMatrices {
    pub left: Mat4,
    pub right: Mat4,
}

impl EyeMatrices {
    /// The matrix for `eye`; a mono view takes that of the left eye.
    pub open spec fn of(self, eye: Eye) -> Mat4 {
        match eye {
            Eye::Right => self.right,
            _ => self.left,
        }
    }
}

/// Where each eye stands in world space.
#[derive(Clone, Copy, Debug)]
pub struct EyePositions {
    pub left: Vec3,
    pub right: Vec3,
}

/// Where a new camera stands: the origin.
pub open spec fn default_position() -> Vec3 {
    vec3_of_whole(0, 0, 0)
}

/// What a new camera looks at: one unit down the negative z axis.
pub open spec fn default_target() -> Vec3 {
    vec3_of_whole(0, 0, -1i32)
}

/// What is up for a new camera: the y axis.
pub open spec fn default_up() -> Vec3 {
    vec3_of_whole(0, 1, 0)
}

/// Forward direction of a pose: from the position towards the target,
/// normalized.
pub open spec fn forward_between(position: Vec3, target: Vec3) -> Vec3 {
    vec3_normalized(vec3_difference(target, position))
}

/// The axis along which the eyes of a pose are set apart: forward crossed
/// with up, normalized.
pub open spec fn right_between(position: Vec3, target: Vec3, up: Vec3) -> Vec3 {
    vec3_normalized(vec3_cross_product(forward_between(position, target), up))
}

/// The state of a [`StereoCamera`].
pub struct StereoModel {
    pub position: Vec3,
    pub target: Vec3,
    pub up: Vec3,
    pub fovy: u32,
    pub aspect: u32,
    pub near: u32,
    pub far: u32,
    pub ipd: u32,
    pub convergence_distance: u32,
    pub view: EyeMatrices,
    pub inverse_view: EyeMatrices,
    pub projection: EyeMatrices,
    pub view_projection: EyeMatrices,
    pub previous_view_projection: EyeMatrices,
}

impl StereoModel {
    /// The state of a camera in the default pose that was never stepped:
    /// 0.1 between the eyes, convergence at 2.0, and every matrix but the
    /// projections the identity.
    pub open spec fn fresh(
        fovy: u32,
        aspect: u32,
        near: u32,
        far: u32,
        projection: EyeMatrices,
    ) -> Self {
        let both = EyeMatrices { left: identity_matrix(), right: identity_matrix() };
        StereoModel {
            position: default_position(),
            target: default_target(),
            up: default_up(),
            fovy,
            aspect,
            near,
            far,
            ipd: TENTH,
            convergence_distance: TWO,
            view: both,
            inverse_view: both,
            projection,
            view_projection: both,
            previous_view_projection: both,
        }
    }

    /// The state after one frame step that found the products in
    /// `view_projection`: for both eyes, what was current becomes previous.
    pub open spec fn advanced(self, view_projection: EyeMatrices) -> Self {
        StereoModel { view_projection, previous_view_projection: self.view_projection, ..self }
    }

    /// The state after a frame step: for both eyes, the current
    /// view-projection becomes the previous one and is computed anew as
    /// projection times view.
    pub open spec fn updated(self) -> Self {
        self.advanced(
            EyeMatrices {
                left: mat4_product(self.projection.left, self.view.left),
                right: mat4_product(self.projection.right, self.view.right),
            },
        )
    }

    /// The state with the eyes standing at `eyes`. Both eyes look in the
    /// forward direction of the pose.
    pub open spec fn seen_from(self, eyes: EyePositions) -> Self {
        StereoModel {
            view: EyeMatrices { left: self.eye_view(eyes.left), right: self.eye_view(eyes.right) },
            inverse_view: EyeMatrices {
                left: mat4_inverse_of(self.eye_view(eyes.left)),
                right: mat4_inverse_of(self.eye_view(eyes.right)),
            },
            ..self
        }
    }

    /// Forward direction: from the position towards the target, normalized.
    pub open spec fn forward(self) -> Vec3 {
        forward_between(self.position, self.target)
    }

    /// The view matrix of an eye that stands at `eye`: it looks in the
    /// forward direction of the pose, not at the target, so that an eye is
    /// moved and never turned.
    pub open spec fn eye_view(self, eye: Vec3) -> Mat4 {
        look_to_matrix(eye, self.forward(), self.up)
    }

    /// The axis along which the eyes are set apart.
    pub open spec fn right_axis(self) -> Vec3 {
        right_between(self.position, self.target, self.up)
    }

    /// The view state of one eye for the rectangle `viewport`.
    pub open spec fn view_state(self, eye: Eye, viewport: crate::view::Viewport) -> ViewState {
        ViewState {
            view: self.view.of(eye),
            projection: self.projection.of(eye),
            inverse_view: self.inverse_view.of(eye),
            view_projection: self.view_projection.of(eye),
            previous_view_projection: self.previous_view_projection.of(eye),
            view_projection_no_jitter: self.view_projection.of(eye),
            previous_view_projection_no_jitter: self.previous_view_projection.of(eye),
            fovy: self.fovy,
            eye,
            viewport,
        }
    }

    /// The pair of view states for a framebuffer of `w` by `h`: left eye in
    /// the left half, right eye in the right half.
    pub open spec fn view_states(self, w: i32, h: i32) -> Seq<ViewState> {
        seq![
            self.view_state(Eye::Left, left_half(w, h)),
            self.view_state(Eye::Right, right_half(w, h)),
        ]
    }

    /// Whether `later` can be reached from `self` without a frame step.
    pub open spec fn same_frame(self, later: Self) -> bool {
        &&& later.view_projection == self.view_projection
        &&& later.previous_view_projection == self.previous_view_projection
    }
}

/// Stereo camera: two eye views with a distance between the eyes and a
/// distance at which the two views converge.
///
/// Angles and distances are kept as the bits of single-precision numbers.
/// Where an eye stands and what its projection is are worked out by the
/// caller for the camera's current parameters and handed in with every
/// change.
#[derive(Clone, Copy, Debug)]
pub struct StereoCamera {
    position: Vec3,
    target: Vec3,
    up: Vec3,
    fovy: u32,
    aspect: u32,
    near: u32,
    far: u32,
    ipd: u32,
    convergence_distance: u32,
    view: EyeMatrices,
    inverse_view: EyeMatrices,
    projection: EyeMatrices,
    view_projection: EyeMatrices,
    previous_view_projection: EyeMatrices,
}

impl StereoCamera {
    /// The state of the camera.
    pub closed spec fn model(&self) -> StereoModel {
        StereoModel {
            position: self.position,
            target: self.target,
            up: self.up,
            fovy: self.fovy,
            aspect: self.aspect,
            near: self.near,
            far: self.far,
            ipd: self.ipd,
            convergence_distance: self.convergence_distance,
            view: self.view,
            inverse_view: self.inverse_view,
            projection: self.projection,
            view_projection: self.view_projection,
            previous_view_projection: self.previous_view_projection,
        }
    }
}

fn pick(pair: EyeMatrices, eye: Eye) -> (m: Mat4)
    ensures
        m == pair.of(eye),
{
    match eye {
        Eye::Mono => pair.left,
        Eye::Left => pair.left,
        Eye::Right => pair.right,
    }
}

impl StereoCamera {
    /// The distance between the eyes that a request for `ipd` leads to:
    /// `ipd`, or zero where `ipd` is negative or not a number.
    pub fn clamp_eye_distance(ipd: u32) -> (clamped: u32)
        ensures
            clamped == at_least(ipd, ZERO),
    {
        proof {
            lemma_constants_ordered();
        }
        clamp_at_least(ipd, ZERO)
    }

    /// The convergence distance that a request for `distance` leads to:
    /// `distance`, and no less than 0.01.
    pub fn clamp_convergence_distance(distance: u32) -> (clamped: u32)
        ensures
            clamped == at_least(distance, HUNDREDTH),
    {
        proof {
            lemma_constants_ordered();
        }
        clamp_at_least(distance, HUNDREDTH)
    }

    /// The half-angle that a request for a convergence angle of `angle`
    /// leads to: the magnitude of `angle`, kept below a quarter turn.
    pub fn clamp_convergence_angle(angle: u32) -> (clamped: u32)
        ensures
            clamped == magnitude_at_most(angle, BELOW_QUARTER_TURN),
    {
        proof {
            lemma_constants_ordered();
        }
        clamp_magnitude_at_most(angle, BELOW_QUARTER_TURN)
    }

    /// The pose of a new camera: at the origin, looking at the point one
    /// unit down the negative z axis, with the y axis up.
    pub fn default_pose() -> (pose: (Vec3, Vec3, Vec3))
        ensures
            pose == (default_position(), default_target(), default_up()),
    {
        (vec3_whole(0, 0, 0), vec3_whole(0, 0, -1), vec3_whole(0, 1, 0))
    }

    /// The axis along which the eyes of a pose are set apart: forward
    /// crossed with up, normalized. An eye stands on this axis through the
    /// position, half the distance between the eyes to either side.
    pub fn right_axis_for(position: Vec3, target: Vec3, up: Vec3) -> (axis: Vec3)
        ensures
            axis == right_between(position, target, up),
    {
        let forward = vec3_normalize_or_zero(vec3_sub(target, position));
        vec3_normalize_or_zero(vec3_cross(forward, up))
    }

    /// A camera at the origin that looks down the negative z axis with y up,
    /// with 0.1 between the eyes and convergence at 2.0. `eyes` is where
    /// the eyes stand for that pose, `projection` the projection of each
    /// eye. The camera has taken its first frame step.
    pub fn new(
        fovy: u32,
        aspect: u32,
        near: u32,
        far: u32,
        eyes: EyePositions,
        projection: EyeMatrices,
    ) -> (camera: Self)
        ensures
            camera.model() == StereoModel::fresh(fovy, aspect, near, far, projection).seen_from(
                eyes,
            ).updated(),
            camera.model().position == default_position(),
            camera.model().target == default_target(),
            camera.model().up == default_up(),
            camera.model().fovy == fovy,
            camera.model().aspect == aspect,
            camera.model().near == near,
            camera.model().far == far,
            camera.model().ipd == TENTH,
            camera.model().convergence_distance == TWO,
            camera.model().projection == projection,
            camera.model().view.left == camera.model().eye_view(eyes.left),
            camera.model().view.right == camera.model().eye_view(eyes.right),
            camera.model().inverse_view.left == mat4_inverse_of(camera.model().view.left),
            camera.model().inverse_view.right == mat4_inverse_of(camera.model().view.right),
            camera.model().view_projection.left == mat4_product(
                projection.left,
                camera.model().view.left,
            ),
            camera.model().view_projection.right == mat4_product(
                projection.right,
                camera.model().view.right,
            ),
            camera.model().previous_view_projection.left == identity_matrix(),
            camera.model().previous_view_projection.right == identity_matrix(),
    {
        let identity = mat4_diagonal(1, 1, 1, 1);
        let both = EyeMatrices { left: identity, right: identity };
        let (position, target, up) = Self::default_pose();
        let mut camera = StereoCamera {
            position,
            target,
            up,
            fovy,
            aspect,
            near,
            far,
            ipd: TENTH,
            convergence_distance: TWO,
            view: both,
            inverse_view: both,
            projection,
            view_projection: both,
            previous_view_projection: both,
        };
        camera.update_view(eyes);
        camera.update();
        camera
    }

    /// Sets the distance between the eyes, no less than zero, with where the
    /// eyes then stand and the projection of each.
    pub fn set_eye_distance(&mut self, ipd: u32, eyes: EyePositions, projection: EyeMatrices)
        ensures
            final(self).model() == (StereoModel {
                ipd: at_least(ipd, ZERO),
                projection,
                ..old(self).model().seen_from(eyes)
            }),
            old(self).model().same_frame(final(self).model()),
    {
        self.ipd = Self::clamp_eye_distance(ipd);
        self.update_view(eyes);
        self.projection = projection;
    }

    /// Distance between the eyes, as bits.
    pub fn eye_distance(&self) -> (ipd: u32)
        ensures
            ipd == self.model().ipd,
    {
        self.ipd
    }

    /// Sets the distance at which the two views converge, no less than
    /// 0.01, with the projection of each eye for it.
    pub fn set_convergence_distance(&mut self, distance: u32, projection: EyeMatrices)
        ensures
            final(self).model() == (StereoModel {
                convergence_distance: at_least(distance, HUNDREDTH),
                projection,
                ..old(self).model()
            }),
            old(self).model().same_frame(final(self).model()),
    {
        self.convergence_distance = Self::clamp_convergence_distance(distance);
        self.projection = projection;
    }

    /// Convergence distance, as bits.
    pub fn convergence_distance(&self) -> (distance: u32)
        ensures
            distance == self.model().convergence_distance,
    {
        self.convergence_distance
    }

    /// Sets the aspect of each eye, with the projection of each eye for it.
    pub fn set_aspect(&mut self, aspect: u32, projection: EyeMatrices)
        ensures
            final(self).model() == (StereoModel { aspect, projection, ..old(self).model() }),
            old(self).model().same_frame(final(self).model()),
    {
        self.aspect = aspect;
        self.projection = projection;
    }

    /// Aspect of each eye, as bits.
    pub fn aspect(&self) -> (aspect: u32)
        ensures
            aspect == self.model().aspect,
    {
        self.aspect
    }

    /// Sets the vertical field of view, with the projection of each eye for it.
    pub fn set_fovy(&mut self, fovy: u32, projection: EyeMatrices)
        ensures
            final(self).model() == (StereoModel { fovy, projection, ..old(self).model() }),
            old(self).model().same_frame(final(self).model()),
    {
        self.fovy = fovy;
        self.projection = projection;
    }

    /// Vertical field of view, as bits.
    pub fn fovy(&self) -> (fovy: u32)
        ensures
            fovy == self.model().fovy,
    {
        self.fovy
    }

    /// Near plane, as bits.
    pub fn near(&self) -> (near: u32)
        ensures
            near == self.model().near,
    {
        self.near
    }

    /// Moves the camera, with where the eyes stand for the new pose:
    /// recomputes the view matrix of each eye and its inverse, and leaves
    /// projections and view-projections as they are.
    pub fn look_at(&mut self, position: Vec3, target: Vec3, up: Vec3, eyes: EyePositions)
        ensures
            final(self).model() == (StereoModel {
                position,
                target,
                up,
                ..old(self).model()
            }).seen_from(eyes),
            old(self).model().same_frame(final(self).model()),
    {
        self.position = position;
        self.target = target;
        self.up = up;
        self.update_view(eyes);
    }

    /// The frame step, to be taken once per frame after the camera was
    /// moved: for both eyes at once, what was the current view-projection
    /// becomes the previous one, and the current one is computed anew as
    /// projection times view.
    pub fn update(&mut self)
        ensures
            final(self).model() == old(self).model().updated(),
            final(self).model().previous_view_projection == old(self).model().view_projection,
    {
        let left = mat4_mul(self.projection.left, self.view.left);
        let right = mat4_mul(self.projection.right, self.view.right);
        self.advance(EyeMatrices { left, right });
    }

    /// The frame step with the two products handed in.
    pub fn advance(&mut self, view_projection: EyeMatrices)
        ensures
            final(self).model() == old(self).model().advanced(view_projection),
    {
        self.previous_view_projection = self.view_projection;
        self.view_projection = view_projection;
    }

    fn update_view(&mut self, eyes: EyePositions)
        ensures
            final(self).model() == old(self).model().seen_from(eyes),
    {
        let forward = vec3_normalize_or_zero(vec3_sub(self.target, self.position));
        let left = mat4_look_to_rh(eyes.left, forward, self.up);
        let right = mat4_look_to_rh(eyes.right, forward, self.up);
        self.view = EyeMatrices { left, right };
        self.inverse_view = EyeMatrices { left: mat4_inverse(left), right: mat4_inverse(right) };
    }

    /// The axis along which the eyes are set apart: forward crossed with up,
    /// normalized.
    pub fn right_axis(&self) -> (axis: Vec3)
        ensures
            axis == self.model().right_axis(),
    {
        Self::right_axis_for(self.position, self.target, self.up)
    }

    /// The pose: position, target and up.
    pub fn pose(&self) -> (pose: (Vec3, Vec3, Vec3))
        ensures
            pose == (self.model().position, self.model().target, self.model().up),
    {
        (self.position, self.target, self.up)
    }

    /// View matrix of an eye; a mono view takes that of the left eye.
    pub fn view(&self, eye: Eye) -> (m: Mat4)
        ensures
            m == self.model().view.of(eye),
    {
        pick(self.view, eye)
    }

    /// Inverse view matrix of an eye; a mono view takes that of the left eye.
    pub fn inverse_view(&self, eye: Eye) -> (m: Mat4)
        ensures
            m == self.model().inverse_view.of(eye),
    {
        pick(self.inverse_view, eye)
    }

    /// Projection of an eye; a mono view takes that of the left eye.
    pub fn projection(&self, eye: Eye) -> (m: Mat4)
        ensures
            m == self.model().projection.of(eye),
    {
        pick(self.projection, eye)
    }

    /// View-projection of an eye; a mono view takes that of the left eye.
    pub fn view_projection(&self, eye: Eye) -> (m: Mat4)
        ensures
            m == self.model().view_projection.of(eye),
    {
        pick(self.view_projection, eye)
    }

    /// Where an eye stands in world space: the origin of the frame that
    /// the inverse of its view matrix describes.
    pub fn position(&self, eye: Eye) -> (position: Vec3)
        ensures
            position == translation_of(self.model().inverse_view.of(eye)),
    {
        mat4_translation(self.inverse_view(eye))
    }

    /// Forward direction, the same for both eyes.
    pub fn direction(&self) -> (forward: Vec3)
        ensures
            forward == self.model().forward(),
    {
        vec3_normalize_or_zero(vec3_sub(self.target, self.position))
    }

    /// The view states of the left and of the right eye for a framebuffer
    /// of `viewport_full.0` by `viewport_full.1`: the left eye gets the left
    /// half, the right eye the rest. Reads only.
    pub fn to_view_states(&self, viewport_full: (i32, i32)) -> (states: Vec<ViewState>)
        ensures
            states@ == self.model().view_states(viewport_full.0, viewport_full.1),
    {
        let (left_rect, right_rect) = split_viewport(viewport_full);
        let mut states: Vec<ViewState> = Vec::new();
        states.push(
            ViewState {
                view: self.view.left,
                projection: self.projection.left,
                inverse_view: self.inverse_view.left,
                view_projection: self.view_projection.left,
                previous_view_projection: self.previous_view_projection.left,
                view_projection_no_jitter: self.view_projection.left,
                previous_view_projection_no_jitter: self.previous_view_projection.left,
                fovy: self.fovy,
                eye: Eye::Left,
                viewport: left_rect,
            },
        );
        states.push(
            ViewState {
                view: self.view.right,
                projection: self.projection.right,
                inverse_view: self.inverse_view.right,
                view_projection: self.view_projection.right,
                previous_view_projection: self.previous_view_projection.right,
                view_projection_no_jitter: self.view_projection.right,
                previous_view_projection_no_jitter: self.previous_view_projection.right,
                fovy: self.fovy,
                eye: Eye::Right,
                viewport: right_rect,
            },
        );
        assert(states@ =~= self.model().view_states(viewport_full.0, viewport_full.1));
        states
    }
}

/// However the eyes stand, both look the same way: the view matrix of each
/// is that of its own position with the one forward direction and the one
/// up direction of the pose. The eyes differ by where they stand and by
/// their projections, and by nothing else.
pub proof fn lemma_eyes_are_not_turned(camera: StereoModel, eyes: EyePositions)
    ensures
        camera.seen_from(eyes).view.left == look_to_matrix(eyes.left, camera.forward(), camera.up),
        camera.seen_from(eyes).view.right == look_to_matrix(
            eyes.right,
            camera.forward(),
            camera.up,
        ),
        camera.seen_from(eyes).forward() == camera.forward(),
        camera.seen_from(eyes).up == camera.up,
        eyes.left == eyes.right ==> camera.seen_from(eyes).view.left == camera.seen_from(
            eyes,
        ).view.right,
{
}

/// With no distance between the eyes, with both eyes standing at one place
/// and with one projection for both, the two eyes are one: after the
/// distance was set and after the frame step that follows, the view, its
/// inverse, the projection and the view-projection of the left eye are
/// those of the right eye.
pub proof fn lemma_eyes_coincide(camera: StereoModel, ipd: u32, at: Vec3, projection: Mat4)
    ensures
        ({
            let eyes = EyePositions { left: at, right: at };
            let both = EyeMatrices { left: projection, right: projection };
            let set = StereoModel { ipd: at_least(ipd, ZERO), projection: both, ..camera.seen_from(eyes) };
            &&& set.view.left == set.view.right
            &&& set.inverse_view.left == set.inverse_view.right
            &&& set.projection.left == set.projection.right
            &&& set.updated().view_projection.left == set.updated().view_projection.right
            &&& set.updated().view.left == set.updated().view.right
            &&& set.updated().projection.left == set.updated().projection.right
        }),
{
}

/// For each eye, what a view state reports as previous at one frame is
/// what the view state of the frame before reported as current: between
/// the two lie any changes of pose and projection, then exactly one frame
/// step, which moves both eyes together.
pub proof fn lemma_stereo_pairing(
    before: StereoModel,
    moved: StereoModel,
    view_projection: EyeMatrices,
    w: i32,
    h: i32,
    eye: int,
)
    requires
        before.same_frame(moved),
        0 <= eye < 2,
    ensures
        moved.advanced(view_projection).view_states(
            w,
            h,
        )[eye].previous_view_projection_no_jitter == before.view_states(
            w,
            h,
        )[eye].view_projection_no_jitter,
        moved.advanced(view_projection).view_states(w, h)[eye].previous_view_projection
            == before.view_states(w, h)[eye].view_projection,
{
}

} // verus!
