//! The orchestrator's bookkeeping: what the presentation surface was last
//! configured for, which history target is read next, which target set
//! exists, and what a tick records.
//!
//! A tick runs `begin_tick`, then the caller asks the surface for its next
//! image, then `record_tick`. The plan that comes back is carried out by
//! the caller as it stands.

use vstd::prelude::*;
use crate::gpu::passes::{
    bloom_passes,
    clear_pass,
    conforms,
    direct_pass,
    gbuffer_pass,
    lemma_bloom_passes_conform,
    lemma_final_passes_conform,
    lemma_fixed_passes_conform,
    pass_models,
    pipeline_of,
    present_pass,
    push_bloom_chain,
    push_pass,
    run_clear_pass,
    run_direct_pass,
    run_gbuffer_pass,
    run_present_pass,
    run_screen_pass,
    run_taa_pass,
    screen_pass,
    taa_pass,
    Binding,
    ColorAttachment,
    LoadOp,
    PassDesc,
    PassModel,
    BLOOM_PASS_COUNT,
};
use crate::gpu::targets::{bloom_size, textures_for, GbufferSet, Target};
use crate::stereo_camera::Eye;
use crate::view::{ViewState, Viewport};

verus! {

/// Which stages of the pipeline are switched on. Set once, before the
/// first tick.
#[derive(Clone, Copy, Debug, PartialEq, Eq, Structural)]
pub struct FeatureFlags {
    /// Render a single view through the G-buffer instead of straight to
    /// the presented image.
    pub gbuffer_path: bool,
    /// Resolve the G-buffer against the history of earlier frames.
    pub taa: bool,
    /// Run the bloom chain and compose it over the resolve.
    pub post_processing: bool,
}

/// What the caller does to the presentation surface before it asks for
/// the next image.
#[derive(Clone, Copy, Debug, PartialEq, Eq, Structural)]
pub enum SurfaceAction {
    /// The surface is configured for this size already.
    Keep,
    /// Configure the surface for this size and recreate the main depth
    /// buffer with it.
    Reconfigure,
}

/// How a tick opens.
#[derive(Clone, Copy, Debug, PartialEq, Eq, Structural)]
pub enum TickStart {
    /// Width or height is zero: the tick is over, nothing is recorded.
    Skip,
    /// Act on the surface as told, ask it for its next image, then record.
    Acquire(SurfaceAction),
}

/// The route a tick took.
#[derive(Clone, Copy, Debug, PartialEq, Eq, Structural)]
pub enum FramePath {
    /// Nothing is recorded or presented.
    Skipped,
    /// Every view is drawn straight to the presented image.
    Direct,
    /// The one view is drawn into the G-buffer and post-processed.
    GBuffer,
    /// The presented image is cleared and nothing is drawn.
    Clear,
}

/// One call of the scene's draw callback.
#[derive(Clone, Copy, Debug, PartialEq, Eq)]
pub struct ViewDraw {
    /// Index of the view among those handed to the tick.
    pub index: usize,
    pub eye: Eye,
    /// Rectangle the pass viewport is set to for this view.
    pub viewport: Viewport,
    /// Whether the open pass is the G-buffer pass.
    pub gbuffer: bool,
}

/// What a tick records.
#[derive(Debug)]
pub struct FramePlan {
    /// Number of this tick.
    pub frame: u32,
    pub path: FramePath,
    /// Whether a new target set was planned for this tick.
    pub targets_recreated: bool,
    /// The history target that the temporal resolve reads, where it runs.
    pub history_read: Option<usize>,
    /// The scene draws, all of them inside the first pass.
    pub draws: Vec<ViewDraw>,
    /// The passes in recording order. Where there is any, the presented
    /// image is shown after the last.
    pub passes: Vec<PassDesc>,
}

/// The mathematical content of a [`FramePlan`].
pub struct FramePlanModel {
    pub frame: u32,
    pub path: FramePath,
    pub targets_recreated: bool,
    pub history_read: Option<usize>,
    pub draws: Seq<ViewDraw>,
    pub passes: Seq<PassModel>,
}

impl View for FramePlan {
    type V = FramePlanModel;

    open spec fn view(&self) -> FramePlanModel {
        FramePlanModel {
            frame: self.frame,
            path: self.path,
            targets_recreated: self.targets_recreated,
            history_read: self.history_read,
            draws: self.draws@,
            passes: pass_models(self.passes@),
        }
    }
}

/// The scene draws for `views`, one per view and in their order.
pub open spec fn draws_for(views: Seq<ViewState>, gbuffer: bool) -> Seq<ViewDraw> {
    Seq::new(
        views.len(),
        |i: int|
            ViewDraw { index: i as usize, eye: views[i].eye, viewport: views[i].viewport, gbuffer },
    )
}

/// The passes of the G-buffer path for targets of `width` by `height`
/// when history `read` is the one to read.
///
/// The G-buffer pass comes first. With temporal resolve on, the resolve
/// follows, and after it either the bloom chain and the composition, or a
/// plain copy of the resolve. With temporal resolve off, the scene color
/// is copied as it is, whatever post-processing is set to.
pub open spec fn gbuffer_path_passes(flags: FeatureFlags, read: int, width: u32, height: u32) -> Seq<
    PassModel,
> {
    if flags.taa {
        if flags.post_processing {
            seq![gbuffer_pass(), taa_pass(read)] + bloom_passes(width, height) + seq![
                screen_pass(Target::Resolve, Target::BloomMip(0), Target::Swapchain),
            ]
        } else {
            seq![gbuffer_pass(), taa_pass(read), present_pass(Target::Resolve, Target::Swapchain)]
        }
    } else {
        seq![gbuffer_pass(), present_pass(Target::Color, Target::Swapchain)]
    }
}

/// The frame number after `frame`; the count starts over after the last.
pub open spec fn next_frame(frame: u32) -> u32 {
    if frame == u32::MAX {
        0
    } else {
        (frame + 1) as u32
    }
}

/// The state of a [`GpuContext`].
pub struct ContextModel {
    pub flags: FeatureFlags,
    /// Size the surface was last configured for; `(0, 0)` before the first.
    pub config_size: (u32, u32),
    /// The history target that the next temporal resolve reads.
    pub taa_history_index: usize,
    /// Size of the target set, where there is one.
    pub targets: Option<(u32, u32)>,
    /// Number of ticks so far.
    pub frame: u32,
    /// Size of the tick that was begun and not yet recorded.
    pub open_tick: Option<(u32, u32)>,
}

impl ContextModel {
    /// What `configure_surface` tells the caller to do for a size.
    pub open spec fn surface_action(self, width: u32, height: u32) -> SurfaceAction {
        if width == 0 || height == 0 || self.config_size == (width, height) {
            SurfaceAction::Keep
        } else {
            SurfaceAction::Reconfigure
        }
    }

    /// The state after `configure_surface` for a size.
    pub open spec fn configured(self, width: u32, height: u32) -> Self {
        if width == 0 || height == 0 {
            self
        } else {
            ContextModel { config_size: (width, height), ..self }
        }
    }

    /// The state after a target set was ensured for a size.
    pub open spec fn ensured(self, width: u32, height: u32) -> Self {
        ContextModel { targets: Some((width, height)), ..self }
    }

    /// The state after `begin_tick` for a size.
    pub open spec fn begun(self, width: u32, height: u32) -> Self {
        if width == 0 || height == 0 {
            ContextModel { frame: next_frame(self.frame), open_tick: None, ..self }
        } else {
            ContextModel { open_tick: Some((width, height)), ..self.configured(width, height) }
        }
    }

    /// The route that `record_tick` takes.
    pub open spec fn path(self, views: Seq<ViewState>, acquired: bool) -> FramePath {
        if self.open_tick.is_none() || !acquired {
            FramePath::Skipped
        } else if self.flags.gbuffer_path && views.len() == 1 {
            FramePath::GBuffer
        } else {
            FramePath::Direct
        }
    }

    /// Whether `record_tick` runs the temporal resolve.
    pub open spec fn resolves(self, views: Seq<ViewState>, acquired: bool) -> bool {
        self.path(views, acquired) == FramePath::GBuffer && self.flags.taa
    }

    /// The state after `record_tick`.
    pub open spec fn recorded(self, views: Seq<ViewState>, acquired: bool) -> Self {
        match self.open_tick {
            None => self,
            Some(size) => ContextModel {
                frame: next_frame(self.frame),
                open_tick: None,
                targets: if self.path(views, acquired) == FramePath::GBuffer {
                    Some(size)
                } else {
                    self.targets
                },
                taa_history_index: if self.resolves(views, acquired) {
                    (1 - self.taa_history_index) as usize
                } else {
                    self.taa_history_index
                },
                ..self
            },
        }
    }

    /// What `record_tick` hands back.
    pub open spec fn plan(self, views: Seq<ViewState>, acquired: bool) -> FramePlanModel {
        match self.path(views, acquired) {
            FramePath::GBuffer => FramePlanModel {
                frame: self.frame,
                path: FramePath::GBuffer,
                targets_recreated: self.targets != self.open_tick,
                history_read: if self.flags.taa {
                    Some(self.taa_history_index)
                } else {
                    None
                },
                draws: draws_for(views, true),
                passes: gbuffer_path_passes(
                    self.flags,
                    self.taa_history_index as int,
                    self.open_tick.unwrap().0,
                    self.open_tick.unwrap().1,
                ),
            },
            FramePath::Direct => FramePlanModel {
                frame: self.frame,
                path: FramePath::Direct,
                targets_recreated: false,
                history_read: None,
                draws: draws_for(views, false),
                passes: seq![direct_pass()],
            },
            _ => FramePlanModel {
                frame: self.frame,
                path: FramePath::Skipped,
                targets_recreated: false,
                history_read: None,
                draws: seq![],
                passes: seq![],
            },
        }
    }

    /// What `render_clear` hands back.
    pub open spec fn clear_plan(self, acquired: bool) -> FramePlanModel {
        if self.open_tick.is_some() && acquired {
            FramePlanModel {
                frame: self.frame,
                path: FramePath::Clear,
                targets_recreated: false,
                history_read: None,
                draws: seq![],
                passes: seq![clear_pass()],
            }
        } else {
            FramePlanModel {
                frame: self.frame,
                path: FramePath::Skipped,
                targets_recreated: false,
                history_read: None,
                draws: seq![],
                passes: seq![],
            }
        }
    }

    /// The state after `render_clear`.
    pub open spec fn cleared(self) -> Self {
        match self.open_tick {
            None => self,
            Some(_) => ContextModel { frame: next_frame(self.frame), open_tick: None, ..self },
        }
    }
}

/// The history index after `flips` flips.
pub open spec fn flipped(index: int, flips: nat) -> int
    decreases flips,
{
    if flips == 0 {
        index
    } else {
        1 - flipped(index, (flips - 1) as nat)
    }
}

/// The orchestrator's state, one for the lifetime of the run.
#[derive(Debug)]
pub struct GpuContext {
    flags: FeatureFlags,
    config_size: (u32, u32),
    taa_history_index: usize,
    gbuffer: Option<GbufferSet>,
    frame: u32,
    open_tick: Option<(u32, u32)>,
}

impl View for GpuContext {
    type V = ContextModel;

    closed spec fn view(&self) -> ContextModel {
        ContextModel {
            flags: self.flags,
            config_size: self.config_size,
            taa_history_index: self.taa_history_index,
            targets: match self.gbuffer {
                Some(set) => Some(set.size()),
                None => None,
            },
            frame: self.frame,
            open_tick: self.open_tick,
        }
    }
}

fn draws_of(views: &Vec<ViewState>, gbuffer: bool) -> (draws: Vec<ViewDraw>)
    ensures
        draws@ == draws_for(views@, gbuffer),
{
    let mut draws: Vec<ViewDraw> = Vec::new();
    let mut i: usize = 0;
    while i < views.len()
        invariant
            i <= views.len(),
            draws@ == draws_for(views@, gbuffer).subrange(0, i as int),
        decreases views.len() - i,
    {
        draws.push(ViewDraw { index: i, eye: views[i].eye, viewport: views[i].viewport, gbuffer });
        assert(draws@ =~= draws_for(views@, gbuffer).subrange(0, i + 1));
        i = i + 1;
    }
    assert(draws@ =~= draws_for(views@, gbuffer));
    draws
}

fn skipped_plan(frame: u32) -> (plan: FramePlan)
    ensures
        plan@ == (FramePlanModel {
            frame,
            path: FramePath::Skipped,
            targets_recreated: false,
            history_read: None,
            draws: seq![],
            passes: seq![],
        }),
{
    let plan = FramePlan {
        frame,
        path: FramePath::Skipped,
        targets_recreated: false,
        history_read: None,
        draws: Vec::new(),
        passes: Vec::new(),
    };
    assert(plan@.draws =~= Seq::<ViewDraw>::empty());
    assert(plan@.passes =~= Seq::<PassModel>::empty());
    plan
}

impl GpuContext {
    #[verifier::type_invariant]
    spec fn inv(self) -> bool {
        self.taa_history_index < 2
    }

    /// The history target that the next temporal resolve reads, 0 or 1.
    /// Reads only.
    pub fn next_history_read(&self) -> (index: usize)
        ensures
            index == self@.taa_history_index,
            index < 2,
    {
        proof {
            use_type_invariant(self);
        }
        self.taa_history_index
    }

    /// A context for which nothing was configured, planned or recorded yet.
    pub fn new(flags: FeatureFlags) -> (context: Self)
        ensures
            context@ == (ContextModel {
                flags,
                config_size: (0, 0),
                taa_history_index: 0,
                targets: None,
                frame: 0,
                open_tick: None,
            }),
    {
        GpuContext {
            flags,
            config_size: (0, 0),
            taa_history_index: 0,
            gbuffer: None,
            frame: 0,
            open_tick: None,
        }
    }

    /// The feature flags.
    pub fn flags(&self) -> (flags: FeatureFlags)
        ensures
            flags == self@.flags,
    {
        self.flags
    }

    /// Number of ticks so far.
    pub fn frame(&self) -> (frame: u32)
        ensures
            frame == self@.frame,
    {
        self.frame
    }

    /// Size the surface was last configured for.
    pub fn config_size(&self) -> (size: (u32, u32))
        ensures
            size == self@.config_size,
    {
        self.config_size
    }

    /// Whether the main depth buffer exists: it is made with the first
    /// configuration of the surface and always has the configured size.
    pub fn main_depth_view(&self) -> (size: Option<(u32, u32)>)
        ensures
            size == if self@.config_size == (0u32, 0u32) {
                None
            } else {
                Some(self@.config_size)
            },
    {
        if self.config_size.0 == 0 && self.config_size.1 == 0 {
            None
        } else {
            Some(self.config_size)
        }
    }

    /// The target set, where there is one.
    pub fn targets(&self) -> (set: Option<&GbufferSet>)
        ensures
            match set {
                Some(s) => self@.targets == Some(s.size()) && s@ == textures_for(
                    s.size().0,
                    s.size().1,
                ),
                None => self@.targets.is_none(),
            },
    {
        match &self.gbuffer {
            Some(s) => {
                let _ = s.textures();
                Some(s)
            },
            None => None,
        }
    }

    /// Makes sure the surface is configured for the given size: tells the
    /// caller to reconfigure where the size is not degenerate and differs
    /// from the last one configured, and remembers it.
    pub fn configure_surface(&mut self, width: u32, height: u32) -> (action: SurfaceAction)
        ensures
            final(self)@ == old(self)@.configured(width, height),
            action == old(self)@.surface_action(width, height),
    {
        proof {
            use_type_invariant(&*self);
        }
        if width == 0 || height == 0 {
            return SurfaceAction::Keep;
        }
        if self.config_size.0 == width && self.config_size.1 == height {
            return SurfaceAction::Keep;
        }
        self.config_size = (width, height);
        SurfaceAction::Reconfigure
    }

    /// Makes sure a target set exists for the given size: keeps the one
    /// there is where its size matches, and replaces it whole where not.
    /// Tells whether a new set was planned.
    pub fn ensure_gbuffer(&mut self, width: u32, height: u32) -> (recreated: bool)
        requires
            width > 0,
            height > 0,
        ensures
            final(self)@ == old(self)@.ensured(width, height),
            recreated == (old(self)@.targets != Some((width, height))),
    {
        proof {
            use_type_invariant(&*self);
        }
        let need_new = match &self.gbuffer {
            Some(set) => set.width() != width || set.height() != height,
            None => true,
        };
        if need_new {
            self.gbuffer = Some(GbufferSet::new(width, height));
        }
        need_new
    }

    /// The history target to read this frame; the next call returns the
    /// other one.
    pub fn taa_history_index(&mut self) -> (index: usize)
        ensures
            index == old(self)@.taa_history_index,
            index < 2,
            final(self)@ == (ContextModel {
                taa_history_index: (1 - index) as usize,
                ..old(self)@
            }),
    {
        proof {
            use_type_invariant(&*self);
        }
        let i = self.taa_history_index;
        self.taa_history_index = 1 - self.taa_history_index;
        i
    }

    /// Opens a tick for a framebuffer of the given size.
    ///
    /// A degenerate size ends the tick at once: it is counted and nothing
    /// else happens. Any other size configures the surface for it.
    pub fn begin_tick(&mut self, width: u32, height: u32) -> (start: TickStart)
        ensures
            final(self)@ == old(self)@.begun(width, height),
            start == if width == 0 || height == 0 {
                TickStart::Skip
            } else {
                TickStart::Acquire(old(self)@.surface_action(width, height))
            },
    {
        proof {
            use_type_invariant(&*self);
        }
        if width == 0 || height == 0 {
            self.count();
            self.open_tick = None;
            return TickStart::Skip;
        }
        let action = self.configure_surface(width, height);
        self.open_tick = Some((width, height));
        TickStart::Acquire(action)
    }

    fn count(&mut self)
        ensures
            final(self)@ == (ContextModel { frame: next_frame(old(self)@.frame), ..old(self)@ }),
    {
        proof {
            use_type_invariant(&*self);
        }
        self.frame = if self.frame == u32::MAX {
            0
        } else {
            self.frame + 1
        };
    }

    /// Closes the open tick: counts it and plans what is recorded for
    /// `views`, given whether the surface had an image to hand out.
    ///
    /// Without an image nothing is recorded. With exactly one view and the
    /// G-buffer path switched on, the view goes through the G-buffer, the
    /// temporal resolve and the bloom chain as far as they are switched
    /// on. Otherwise every view is drawn straight to the presented image.
    /// Without an open tick nothing happens at all.
    pub fn record_tick(&mut self, views: &Vec<ViewState>, acquired: bool) -> (plan: FramePlan)
        ensures
            final(self)@ == old(self)@.recorded(views@, acquired),
            plan@ == old(self)@.plan(views@, acquired),
    {
        proof {
            use_type_invariant(&*self);
        }
        let frame = self.frame;
        let (width, height) = match self.open_tick {
            Some(size) => size,
            None => {
                return skipped_plan(frame);
            },
        };
        self.count();
        self.open_tick = None;
        let mut passes: Vec<PassDesc> = Vec::new();
        assert(pass_models(passes@) =~= Seq::<PassModel>::empty());
        if !acquired {
            return skipped_plan(frame);
        }
        if !(self.flags.gbuffer_path && views.len() == 1) {
            push_pass(&mut passes, run_direct_pass());
            assert(pass_models(passes@) =~= seq![direct_pass()]);
            return FramePlan {
                frame,
                path: FramePath::Direct,
                targets_recreated: false,
                history_read: None,
                draws: draws_of(views, false),
                passes,
            };
        }
        let ghost before = old(self)@;
        let need_new = match &self.gbuffer {
            Some(set) => set.width() != width || set.height() != height,
            None => true,
        };
        if need_new {
            self.gbuffer = Some(GbufferSet::new(width, height));
        }
        push_pass(&mut passes, run_gbuffer_pass());
        let mut history_read: Option<usize> = None;
        if self.flags.taa {
            let read = self.taa_history_index;
            self.taa_history_index = 1 - read;
            history_read = Some(read);
            push_pass(&mut passes, run_taa_pass(read));
            if self.flags.post_processing {
                match &self.gbuffer {
                    Some(set) => {
                        push_bloom_chain(&mut passes, set);
                    },
                    None => {},
                }
                push_pass(
                    &mut passes,
                    run_screen_pass(Target::Resolve, Target::BloomMip(0), Target::Swapchain),
                );
            } else {
                push_pass(&mut passes, run_present_pass(Target::Resolve, Target::Swapchain));
            }
        } else {
            push_pass(&mut passes, run_present_pass(Target::Color, Target::Swapchain));
        }
        assert(pass_models(passes@) =~= gbuffer_path_passes(
            before.flags,
            before.taa_history_index as int,
            width,
            height,
        ));
        FramePlan {
            frame,
            path: FramePath::GBuffer,
            targets_recreated: need_new,
            history_read,
            draws: draws_of(views, true),
            passes,
        }
    }

    /// Closes the open tick with a frame that only clears the presented
    /// image, for when nothing else is drawn.
    pub fn render_clear(&mut self, acquired: bool) -> (plan: FramePlan)
        ensures
            final(self)@ == old(self)@.cleared(),
            plan@ == old(self)@.clear_plan(acquired),
    {
        proof {
            use_type_invariant(&*self);
        }
        let frame = self.frame;
        let mut passes: Vec<PassDesc> = Vec::new();
        assert(pass_models(passes@) =~= Seq::<PassModel>::empty());
        let open = self.open_tick.is_some();
        if open {
            self.count();
            self.open_tick = None;
        }
        if !(open && acquired) {
            return skipped_plan(frame);
        }
        push_pass(&mut passes, run_clear_pass());
        assert(pass_models(passes@) =~= seq![clear_pass()]);
        let plan = FramePlan {
            frame,
            path: FramePath::Clear,
            targets_recreated: false,
            history_read: None,
            draws: Vec::new(),
            passes,
        };
        assert(plan@.draws =~= Seq::<ViewDraw>::empty());
        plan
    }
}

/// The temporal resolve of a tick writes the history target that the
/// resolve of the next tick reads: whatever the route of the ticks in
/// between, the index moves only when a resolve runs, and then to the
/// target just written.
pub proof fn lemma_read_follows_write(state: ContextModel, views: Seq<ViewState>, acquired: bool)
    requires
        state.taa_history_index < 2,
        state.resolves(views, acquired),
    ensures
        state.recorded(views, acquired).taa_history_index == flipped(
            state.taa_history_index as int,
            1,
        ),
        state.plan(views, acquired).history_read == Some(state.taa_history_index),
        state.plan(views, acquired).passes[1] == taa_pass(state.taa_history_index as int),
        state.plan(views, acquired).passes[1].colors[1].target == Target::History(
            state.recorded(views, acquired).taa_history_index,
        ),
        state.recorded(views, acquired).taa_history_index != state.taa_history_index,
        state.recorded(views, acquired).taa_history_index < 2,
{
    reveal_with_fuel(flipped, 2);
}

/// Every pass of every plan can be recorded with the pipelines of its
/// kind, and no pass samples a target that it renders into.
pub proof fn lemma_plan_conforms(state: ContextModel, views: Seq<ViewState>, acquired: bool, i: int)
    requires
        state.taa_history_index < 2,
        0 <= i < state.plan(views, acquired).passes.len(),
    ensures
        conforms(
            state.plan(views, acquired).passes[i],
            pipeline_of(state.plan(views, acquired).passes[i].kind),
        ),
        state.plan(views, acquired).passes[i].reads().disjoint(
            state.plan(views, acquired).passes[i].writes(),
        ),
{
    let passes = state.plan(views, acquired).passes;
    let pass = passes[i];
    if state.path(views, acquired) == FramePath::GBuffer {
        let size = state.open_tick.unwrap();
        lemma_fixed_passes_conform(state.taa_history_index as int);
        lemma_final_passes_conform(Target::Resolve, Target::BloomMip(0));
        lemma_final_passes_conform(Target::Color, Target::BloomMip(0));
        if state.flags.taa && state.flags.post_processing && 2 <= i < 2 + BLOOM_PASS_COUNT {
            lemma_bloom_passes_conform(size.0, size.1, i - 2);
            assert(pass == bloom_passes(size.0, size.1)[i - 2]);
        }
    } else {
        lemma_fixed_passes_conform(0);
    }
    assert forall|t: Target| !(pass.reads().contains(t) && pass.writes().contains(t)) by {
        if pass.reads().contains(t) && pass.writes().contains(t) {
            let slot = choose|slot: int|
                0 <= slot < pass.bindings.len() && pass.bindings[slot] == Binding::Texture(t);
            if pass.depth != Some(t) {
                let load = choose|load: LoadOp|
                    pass.colors.contains(ColorAttachment { target: t, load });
                let location = choose|location: int|
                    0 <= location < pass.colors.len() && pass.colors[location] == (
                        ColorAttachment { target: t, load }
                    );
                assert(pass.bindings[slot] != Binding::Texture(pass.colors[location].target));
            }
            assert(false);
        }
    }
}

/// A tick that runs no temporal resolve leaves the history index alone.
pub proof fn lemma_index_rests(state: ContextModel, views: Seq<ViewState>, acquired: bool)
    requires
        !state.resolves(views, acquired),
    ensures
        state.recorded(views, acquired).taa_history_index == state.taa_history_index,
        state.plan(views, acquired).history_read.is_none(),
{
}

/// From index 0, the resolve of the `n`-th frame (counted from 0) reads
/// history target `n` modulo 2: 0, 1, 0, 1 and so on.
pub proof fn lemma_history_ping_pong(n: nat)
    ensures
        flipped(0, n) == (n % 2) as int,
    decreases n,
{
    if n > 0 {
        lemma_history_ping_pong((n - 1) as nat);
    }
}

/// Ensuring targets for one size and then for another leaves a set whose
/// textures all have the extents that belong to the second size, whatever
/// the first was; ensuring the same size twice keeps the set.
pub proof fn lemma_resize_reallocates(
    state: ContextModel,
    first: (u32, u32),
    second: (u32, u32),
    slot: int,
)
    requires
        0 <= slot < 12,
    ensures
        state.ensured(first.0, first.1).ensured(second.0, second.1) == state.ensured(
            second.0,
            second.1,
        ),
        state.ensured(second.0, second.1).targets == Some(second),
        slot < 6 ==> textures_for(second.0, second.1)[slot].width == second.0 && textures_for(
            second.0,
            second.1,
        )[slot].height == second.1,
        slot >= 6 ==> (
            textures_for(second.0, second.1)[slot].width,
            textures_for(second.0, second.1)[slot].height,
        ) == bloom_size(second.0, second.1, slot - 6),
        state.ensured(second.0, second.1).ensured(second.0, second.1) == state.ensured(
            second.0,
            second.1,
        ),
{
}

} // verus!
