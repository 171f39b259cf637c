//! Descriptions of the render passes of a frame: what each binds, what it
//! writes, and how the bloom chain strings them together.

use vstd::prelude::*;
use crate::gpu::targets::{bloom_size, GbufferSet, Target, BLOOM_MIP_LEVELS};

verus! {

/// Number of passes in the bloom chain.
pub const BLOOM_PASS_COUNT: usize = 10;

/// The stage of the frame that a pass belongs to.
#[derive(Clone, Copy, Debug, PartialEq, Eq, Structural)]
pub enum PassKind {
    /// Scene color, velocity and depth; scene draws are recorded into it.
    GBuffer,
    /// Scene draws straight to the presented image, one viewport per view.
    Direct,
    /// Clears the presented image and draws nothing.
    Clear,
    /// Temporal resolve.
    Taa,
    /// Brightness extraction into the first bloom level.
    Brightness,
    /// One step down the bloom chain.
    Downsample,
    /// Lens pass from the last downsample level into the lens level.
    Lens,
    /// One step up the bloom chain, blended over what the level holds.
    Upsample,
    /// Composition of resolve and bloom into the presented image.
    Screen,
    /// Plain copy of one target into the presented image.
    Present,
}

/// What occupies a binding slot of a pass.
#[derive(Clone, Copy, Debug, PartialEq, Eq, Structural)]
pub enum Binding {
    Texture(Target),
    Sampler,
}

/// What a color attachment holds when the pass begins.
#[derive(Clone, Copy, Debug, PartialEq, Eq, Structural)]
pub enum LoadOp {
    /// Cleared to transparent black.
    ClearBlack,
    /// Cleared to the backdrop color of the presented image.
    ClearBackdrop,
    /// What the target already holds.
    Load,
}

/// A target written by a pass.
#[derive(Clone, Copy, Debug, PartialEq, Eq, Structural)]
pub struct ColorAttachment {
    pub target: Target,
    pub load: LoadOp,
}

/// One render pass, as plain data.
#[derive(Debug)]
pub struct PassDesc {
    pub kind: PassKind,
    /// Bindings in slot order, slot 0 first.
    pub bindings: Vec<Binding>,
    /// Color attachments in location order.
    pub colors: Vec<ColorAttachment>,
    /// Depth attachment; reversed-Z, so it is cleared to 0.
    pub depth: Option<Target>,
    /// Width and height of the viewport at the origin, where the pass sets one.
    pub viewport: Option<(u32, u32)>,
}

/// The mathematical content of a [`PassDesc`].
pub struct PassModel {
    pub kind: PassKind,
    pub bindings: Seq<Binding>,
    pub colors: Seq<ColorAttachment>,
    pub depth: Option<Target>,
    pub viewport: Option<(u32, u32)>,
}

impl View for PassDesc {
    type V = PassModel;

    open spec fn view(&self) -> PassModel {
        PassModel {
            kind: self.kind,
            bindings: self.bindings@,
            colors: self.colors@,
            depth: self.depth,
            viewport: self.viewport,
        }
    }
}

impl PassModel {
    /// The targets the pass samples.
    pub open spec fn reads(self) -> Set<Target> {
        Set::new(|t: Target| self.bindings.contains(Binding::Texture(t)))
    }

    /// The targets the pass renders into.
    pub open spec fn writes(self) -> Set<Target> {
        Set::new(
            |t: Target|
                self.depth == Some(t) || exists|load: LoadOp|
                    self.colors.contains(ColorAttachment { target: t, load }),
        )
    }
}

/// The views of a sequence of passes.
pub open spec fn pass_models(passes: Seq<PassDesc>) -> Seq<PassModel> {
    Seq::new(passes.len(), |i: int| passes[i]@)
}

/// The G-buffer pass: color and velocity with reversed-Z depth.
pub open spec fn gbuffer_pass() -> PassModel {
    PassModel {
        kind: PassKind::GBuffer,
        bindings: seq![],
        colors: seq![
            ColorAttachment { target: Target::Color, load: LoadOp::ClearBlack },
            ColorAttachment { target: Target::Velocity, load: LoadOp::ClearBlack },
        ],
        depth: Some(Target::Depth),
        viewport: None,
    }
}

/// The single pass of the direct path.
pub open spec fn direct_pass() -> PassModel {
    PassModel {
        kind: PassKind::Direct,
        bindings: seq![],
        colors: seq![ColorAttachment { target: Target::Swapchain, load: LoadOp::ClearBackdrop }],
        depth: Some(Target::MainDepth),
        viewport: None,
    }
}

/// The pass that only clears the presented image.
pub open spec fn clear_pass() -> PassModel {
    PassModel {
        kind: PassKind::Clear,
        bindings: seq![],
        colors: seq![ColorAttachment { target: Target::Swapchain, load: LoadOp::ClearBackdrop }],
        depth: None,
        viewport: None,
    }
}

/// The temporal resolve that reads history `read` and writes the other one.
pub open spec fn taa_pass(read: int) -> PassModel {
    PassModel {
        kind: PassKind::Taa,
        bindings: seq![
            Binding::Texture(Target::Color),
            Binding::Texture(Target::Velocity),
            Binding::Texture(Target::History(read as usize)),
            Binding::Sampler,
        ],
        colors: seq![
            ColorAttachment { target: Target::Resolve, load: LoadOp::ClearBlack },
            ColorAttachment { target: Target::History((1 - read) as usize), load: LoadOp::ClearBlack },
        ],
        depth: None,
        viewport: None,
    }
}

/// A pass that samples `source` and draws into `dest` with the given viewport.
pub open spec fn filter_pass(
    kind: PassKind,
    source: Target,
    dest: Target,
    load: LoadOp,
    size: (u32, u32),
) -> PassModel {
    PassModel {
        kind,
        bindings: seq![Binding::Texture(source), Binding::Sampler],
        colors: seq![ColorAttachment { target: dest, load }],
        depth: None,
        viewport: Some(size),
    }
}

/// The composition of `resolve` and `bloom` into `dest`.
pub open spec fn screen_pass(resolve: Target, bloom: Target, dest: Target) -> PassModel {
    PassModel {
        kind: PassKind::Screen,
        bindings: seq![Binding::Texture(resolve), Binding::Texture(bloom), Binding::Sampler],
        colors: seq![ColorAttachment { target: dest, load: LoadOp::ClearBackdrop }],
        depth: None,
        viewport: None,
    }
}

/// The copy of `source` into `dest`.
pub open spec fn present_pass(source: Target, dest: Target) -> PassModel {
    PassModel {
        kind: PassKind::Present,
        bindings: seq![Binding::Texture(source), Binding::Sampler],
        colors: seq![ColorAttachment { target: dest, load: LoadOp::ClearBackdrop }],
        depth: None,
        viewport: None,
    }
}

/// Pass `i` of the bloom chain over targets of full size `width` by `height`:
/// brightness into level 0, four steps down to level 4, the lens pass into
/// level 5, then up from the lens level into level 3 and on to level 0.
pub open spec fn bloom_pass_at(width: u32, height: u32, i: int) -> PassModel {
    if i == 0 {
        filter_pass(
            PassKind::Brightness,
            Target::Resolve,
            Target::BloomMip(0),
            LoadOp::ClearBlack,
            bloom_size(width, height, 0),
        )
    } else if i < BLOOM_MIP_LEVELS {
        filter_pass(
            PassKind::Downsample,
            Target::BloomMip((i - 1) as usize),
            Target::BloomMip(i as usize),
            LoadOp::ClearBlack,
            bloom_size(width, height, i),
        )
    } else if i == BLOOM_MIP_LEVELS {
        filter_pass(
            PassKind::Lens,
            Target::BloomMip((BLOOM_MIP_LEVELS - 1) as usize),
            Target::BloomMip(BLOOM_MIP_LEVELS),
            LoadOp::ClearBlack,
            bloom_size(width, height, BLOOM_MIP_LEVELS as int),
        )
    } else if i == BLOOM_MIP_LEVELS + 1 {
        filter_pass(
            PassKind::Upsample,
            Target::BloomMip(BLOOM_MIP_LEVELS),
            Target::BloomMip((BLOOM_MIP_LEVELS - 2) as usize),
            LoadOp::Load,
            bloom_size(width, height, BLOOM_MIP_LEVELS - 2),
        )
    } else {
        filter_pass(
            PassKind::Upsample,
            Target::BloomMip((BLOOM_PASS_COUNT - i) as usize),
            Target::BloomMip((BLOOM_PASS_COUNT - i - 1) as usize),
            LoadOp::Load,
            bloom_size(width, height, BLOOM_PASS_COUNT - i - 1),
        )
    }
}

/// The whole bloom chain, in recording order.
pub open spec fn bloom_passes(width: u32, height: u32) -> Seq<PassModel> {
    Seq::new(BLOOM_PASS_COUNT as nat, |i: int| bloom_pass_at(width, height, i))
}

/// Builds the G-buffer pass.
pub fn run_gbuffer_pass() -> (pass: PassDesc)
    ensures
        pass@ == gbuffer_pass(),
{
    let bindings: Vec<Binding> = Vec::new();
    let mut colors: Vec<ColorAttachment> = Vec::new();
    colors.push(ColorAttachment { target: Target::Color, load: LoadOp::ClearBlack });
    colors.push(ColorAttachment { target: Target::Velocity, load: LoadOp::ClearBlack });
    let pass = PassDesc {
        kind: PassKind::GBuffer,
        bindings,
        colors,
        depth: Some(Target::Depth),
        viewport: None,
    };
    assert(pass@.bindings =~= gbuffer_pass().bindings);
    assert(pass@.colors =~= gbuffer_pass().colors);
    pass
}

/// Builds the single pass of the direct path.
pub fn run_direct_pass() -> (pass: PassDesc)
    ensures
        pass@ == direct_pass(),
{
    let bindings: Vec<Binding> = Vec::new();
    let mut colors: Vec<ColorAttachment> = Vec::new();
    colors.push(ColorAttachment { target: Target::Swapchain, load: LoadOp::ClearBackdrop });
    let pass = PassDesc {
        kind: PassKind::Direct,
        bindings,
        colors,
        depth: Some(Target::MainDepth),
        viewport: None,
    };
    assert(pass@.bindings =~= direct_pass().bindings);
    assert(pass@.colors =~= direct_pass().colors);
    pass
}

/// Builds the pass that only clears the presented image.
pub fn run_clear_pass() -> (pass: PassDesc)
    ensures
        pass@ == clear_pass(),
{
    let bindings: Vec<Binding> = Vec::new();
    let mut colors: Vec<ColorAttachment> = Vec::new();
    colors.push(ColorAttachment { target: Target::Swapchain, load: LoadOp::ClearBackdrop });
    let pass = PassDesc { kind: PassKind::Clear, bindings, colors, depth: None, viewport: None };
    assert(pass@.bindings =~= clear_pass().bindings);
    assert(pass@.colors =~= clear_pass().colors);
    pass
}

/// Builds the temporal resolve: reads color, velocity and history
/// `history_read_index`, writes resolve and the other history target.
pub fn run_taa_pass(history_read_index: usize) -> (pass: PassDesc)
    requires
        history_read_index < 2,
    ensures
        pass@ == taa_pass(history_read_index as int),
{
    let history_write_index: usize = 1 - history_read_index;
    let mut bindings: Vec<Binding> = Vec::new();
    bindings.push(Binding::Texture(Target::Color));
    bindings.push(Binding::Texture(Target::Velocity));
    bindings.push(Binding::Texture(Target::History(history_read_index)));
    bindings.push(Binding::Sampler);
    let mut colors: Vec<ColorAttachment> = Vec::new();
    colors.push(ColorAttachment { target: Target::Resolve, load: LoadOp::ClearBlack });
    colors.push(
        ColorAttachment { target: Target::History(history_write_index), load: LoadOp::ClearBlack },
    );
    let pass = PassDesc { kind: PassKind::Taa, bindings, colors, depth: None, viewport: None };
    assert(pass@.bindings =~= taa_pass(history_read_index as int).bindings);
    assert(pass@.colors =~= taa_pass(history_read_index as int).colors);
    pass
}

fn run_filter_pass(
    kind: PassKind,
    source: Target,
    dest: Target,
    load: LoadOp,
    viewport_w: u32,
    viewport_h: u32,
) -> (pass: PassDesc)
    ensures
        pass@ == filter_pass(kind, source, dest, load, (viewport_w, viewport_h)),
{
    let mut bindings: Vec<Binding> = Vec::new();
    bindings.push(Binding::Texture(source));
    bindings.push(Binding::Sampler);
    let mut colors: Vec<ColorAttachment> = Vec::new();
    colors.push(ColorAttachment { target: dest, load });
    let pass = PassDesc {
        kind,
        bindings,
        colors,
        depth: None,
        viewport: Some((viewport_w, viewport_h)),
    };
    assert(pass@.bindings =~= filter_pass(
        kind,
        source,
        dest,
        load,
        (viewport_w, viewport_h),
    ).bindings);
    assert(pass@.colors =~= filter_pass(kind, source, dest, load, (viewport_w, viewport_h)).colors);
    pass
}

/// Builds the brightness pass from `source` into `bloom`, whose size is
/// `viewport_w` by `viewport_h`.
pub fn run_brightness_pass(source: Target, bloom: Target, viewport_w: u32, viewport_h: u32) -> (pass:
    PassDesc)
    ensures
        pass@ == filter_pass(
            PassKind::Brightness,
            source,
            bloom,
            LoadOp::ClearBlack,
            (viewport_w, viewport_h),
        ),
{
    run_filter_pass(PassKind::Brightness, source, bloom, LoadOp::ClearBlack, viewport_w, viewport_h)
}

/// Builds a step of the bloom chain from `source` into `dest`, whose size is
/// `viewport_w` by `viewport_h`; a step up blends, every other step clears.
pub fn run_blur_pass(
    kind: PassKind,
    source: Target,
    dest: Target,
    viewport_w: u32,
    viewport_h: u32,
) -> (pass: PassDesc)
    ensures
        pass@ == filter_pass(
            kind,
            source,
            dest,
            if kind == PassKind::Upsample {
                LoadOp::Load
            } else {
                LoadOp::ClearBlack
            },
            (viewport_w, viewport_h),
        ),
{
    let load = if kind == PassKind::Upsample {
        LoadOp::Load
    } else {
        LoadOp::ClearBlack
    };
    run_filter_pass(kind, source, dest, load, viewport_w, viewport_h)
}

/// Builds the composition of `resolve` and `bloom` into `dest`.
pub fn run_screen_pass(resolve: Target, bloom: Target, dest: Target) -> (pass: PassDesc)
    ensures
        pass@ == screen_pass(resolve, bloom, dest),
{
    let mut bindings: Vec<Binding> = Vec::new();
    bindings.push(Binding::Texture(resolve));
    bindings.push(Binding::Texture(bloom));
    bindings.push(Binding::Sampler);
    let mut colors: Vec<ColorAttachment> = Vec::new();
    colors.push(ColorAttachment { target: dest, load: LoadOp::ClearBackdrop });
    let pass = PassDesc { kind: PassKind::Screen, bindings, colors, depth: None, viewport: None };
    assert(pass@.bindings =~= screen_pass(resolve, bloom, dest).bindings);
    assert(pass@.colors =~= screen_pass(resolve, bloom, dest).colors);
    pass
}

/// Builds the copy of `source` into `dest`.
pub fn run_present_pass(source: Target, dest: Target) -> (pass: PassDesc)
    ensures
        pass@ == present_pass(source, dest),
{
    let mut bindings: Vec<Binding> = Vec::new();
    bindings.push(Binding::Texture(source));
    bindings.push(Binding::Sampler);
    let mut colors: Vec<ColorAttachment> = Vec::new();
    colors.push(ColorAttachment { target: dest, load: LoadOp::ClearBackdrop });
    let pass = PassDesc { kind: PassKind::Present, bindings, colors, depth: None, viewport: None };
    assert(pass@.bindings =~= present_pass(source, dest).bindings);
    assert(pass@.colors =~= present_pass(source, dest).colors);
    pass
}

/// Appends `pass` to `passes`.
pub fn push_pass(passes: &mut Vec<PassDesc>, pass: PassDesc)
    ensures
        pass_models(final(passes)@) == pass_models(old(passes)@).push(pass@),
{
    proof {
        lemma_push_model(passes@, pass);
    }
    passes.push(pass);
}

proof fn lemma_push_model(passes: Seq<PassDesc>, pass: PassDesc)
    ensures
        pass_models(passes.push(pass)) == pass_models(passes).push(pass@),
{
    assert(pass_models(passes.push(pass)) =~= pass_models(passes).push(pass@));
}

proof fn lemma_extend_prefix(before: Seq<PassModel>, chain: Seq<PassModel>, k: int)
    requires
        0 <= k < chain.len(),
    ensures
        (before + chain.subrange(0, k)).push(chain[k]) == before + chain.subrange(0, k + 1),
{
    assert((before + chain.subrange(0, k)).push(chain[k]) =~= before + chain.subrange(0, k + 1));
}

/// Appends the bloom chain for `targets` to `passes`.
pub fn push_bloom_chain(passes: &mut Vec<PassDesc>, targets: &GbufferSet)
    ensures
        pass_models(final(passes)@) == pass_models(old(passes)@) + bloom_passes(
            targets.size().0,
            targets.size().1,
        ),
{
    let ghost before = pass_models(passes@);
    let ghost width = targets.size().0;
    let ghost height = targets.size().1;
    let ghost chain = bloom_passes(width, height);
    assert(before =~= before + chain.subrange(0, 0));
    let size0 = targets.bloom_mip_size(0);
    let first = run_brightness_pass(Target::Resolve, Target::BloomMip(0), size0.0, size0.1);
    proof {
        lemma_push_model(passes@, first);
        lemma_extend_prefix(before, chain, 0);
    }
    passes.push(first);
    let mut level: usize = 1;
    while level < BLOOM_MIP_LEVELS
        invariant
            1 <= level <= BLOOM_MIP_LEVELS,
            width == targets.size().0,
            height == targets.size().1,
            chain == bloom_passes(width, height),
            pass_models(passes@) == before + chain.subrange(0, level as int),
        decreases BLOOM_MIP_LEVELS - level,
    {
        let size = targets.bloom_mip_size(level);
        let down = run_blur_pass(
            PassKind::Downsample,
            Target::BloomMip(level - 1),
            Target::BloomMip(level),
            size.0,
            size.1,
        );
        proof {
            lemma_push_model(passes@, down);
            lemma_extend_prefix(before, chain, level as int);
        }
        passes.push(down);
        level = level + 1;
    }
    let lens_size = targets.bloom_mip_size(BLOOM_MIP_LEVELS);
    let lens = run_blur_pass(
        PassKind::Lens,
        Target::BloomMip(BLOOM_MIP_LEVELS - 1),
        Target::BloomMip(BLOOM_MIP_LEVELS),
        lens_size.0,
        lens_size.1,
    );
    proof {
        lemma_push_model(passes@, lens);
        lemma_extend_prefix(before, chain, BLOOM_MIP_LEVELS as int);
    }
    passes.push(lens);
    let first_up_size = targets.bloom_mip_size(BLOOM_MIP_LEVELS - 2);
    let first_up = run_blur_pass(
        PassKind::Upsample,
        Target::BloomMip(BLOOM_MIP_LEVELS),
        Target::BloomMip(BLOOM_MIP_LEVELS - 2),
        first_up_size.0,
        first_up_size.1,
    );
    proof {
        lemma_push_model(passes@, first_up);
        lemma_extend_prefix(before, chain, BLOOM_MIP_LEVELS + 1);
    }
    passes.push(first_up);
    let mut dest: usize = BLOOM_MIP_LEVELS - 2;
    while dest > 0
        invariant
            dest <= BLOOM_MIP_LEVELS - 2,
            width == targets.size().0,
            height == targets.size().1,
            chain == bloom_passes(width, height),
            pass_models(passes@) == before + chain.subrange(0, BLOOM_PASS_COUNT - dest),
        decreases dest,
    {
        let size = targets.bloom_mip_size(dest - 1);
        let up = run_blur_pass(
            PassKind::Upsample,
            Target::BloomMip(dest),
            Target::BloomMip(dest - 1),
            size.0,
            size.1,
        );
        proof {
            lemma_push_model(passes@, up);
            lemma_extend_prefix(before, chain, BLOOM_PASS_COUNT - dest);
        }
        passes.push(up);
        dest = dest - 1;
    }
    assert(chain.subrange(0, BLOOM_PASS_COUNT as int) =~= chain);
}

/// What a binding slot of a pipeline takes.
#[derive(Clone, Copy, Debug, PartialEq, Eq, Structural)]
pub enum BindingKind {
    /// A filterable 2D texture.
    Texture,
    /// A filtering sampler.
    Sampler,
}

/// The format of a color target of a pipeline.
#[derive(Clone, Copy, Debug, PartialEq, Eq, Structural)]
pub enum ColorFormat {
    Rgba16Float,
    Rg16Float,
    /// Whatever format the presentation surface has.
    Surface,
}

/// The depth comparison of a pipeline. Depth is reversed: the near plane
/// is at 1 and the far distance at 0, so a fragment passes where its depth
/// is greater, and depth is cleared to 0.
#[derive(Clone, Copy, Debug, PartialEq, Eq, Structural)]
pub enum DepthCompare {
    Greater,
    GreaterEqual,
}

/// What the pipelines of a pass kind are created with.
#[derive(Debug)]
pub struct PipelineDesc {
    pub kind: PassKind,
    /// Binding slots of the fullscreen pipeline of the pass, slot 0 first.
    pub bindings: Vec<BindingKind>,
    /// Formats of the color targets, in location order.
    pub colors: Vec<ColorFormat>,
    /// Depth comparison, where the pass has a depth attachment.
    pub depth: Option<DepthCompare>,
    /// Whether the pipeline blends over what the target holds.
    pub blend: bool,
}

/// The mathematical content of a [`PipelineDesc`].
pub struct PipelineModel {
    pub kind: PassKind,
    pub bindings: Seq<BindingKind>,
    pub colors: Seq<ColorFormat>,
    pub depth: Option<DepthCompare>,
    pub blend: bool,
}

impl View for PipelineDesc {
    type V = PipelineModel;

    open spec fn view(&self) -> PipelineModel {
        PipelineModel {
            kind: self.kind,
            bindings: self.bindings@,
            colors: self.colors@,
            depth: self.depth,
            blend: self.blend,
        }
    }
}

/// What the pipelines of a pass kind are created with.
///
/// The G-buffer path tests depth with `Greater`, the direct path with
/// `GreaterEqual`.
pub open spec fn pipeline_of(kind: PassKind) -> PipelineModel {
    match kind {
        PassKind::GBuffer => PipelineModel {
            kind,
            bindings: seq![],
            colors: seq![ColorFormat::Rgba16Float, ColorFormat::Rg16Float],
            depth: Some(DepthCompare::Greater),
            blend: false,
        },
        PassKind::Direct => PipelineModel {
            kind,
            bindings: seq![],
            colors: seq![ColorFormat::Surface],
            depth: Some(DepthCompare::GreaterEqual),
            blend: false,
        },
        PassKind::Clear => PipelineModel {
            kind,
            bindings: seq![],
            colors: seq![ColorFormat::Surface],
            depth: None,
            blend: false,
        },
        PassKind::Taa => PipelineModel {
            kind,
            bindings: seq![
                BindingKind::Texture,
                BindingKind::Texture,
                BindingKind::Texture,
                BindingKind::Sampler,
            ],
            colors: seq![ColorFormat::Rgba16Float, ColorFormat::Rgba16Float],
            depth: None,
            blend: false,
        },
        PassKind::Screen => PipelineModel {
            kind,
            bindings: seq![BindingKind::Texture, BindingKind::Texture, BindingKind::Sampler],
            colors: seq![ColorFormat::Surface],
            depth: None,
            blend: false,
        },
        PassKind::Present => PipelineModel {
            kind,
            bindings: seq![BindingKind::Texture, BindingKind::Sampler],
            colors: seq![ColorFormat::Surface],
            depth: None,
            blend: false,
        },
        _ => PipelineModel {
            kind,
            bindings: seq![BindingKind::Texture, BindingKind::Sampler],
            colors: seq![ColorFormat::Rgba16Float],
            depth: None,
            blend: kind == PassKind::Upsample,
        },
    }
}

/// What a binding takes up in a pipeline.
pub open spec fn binding_kind(binding: Binding) -> BindingKind {
    match binding {
        Binding::Texture(_) => BindingKind::Texture,
        Binding::Sampler => BindingKind::Sampler,
    }
}

/// The format that a target has as a color attachment, where it can be one.
pub open spec fn color_format_of(target: Target) -> Option<ColorFormat> {
    match target {
        Target::Color => Some(ColorFormat::Rgba16Float),
        Target::Velocity => Some(ColorFormat::Rg16Float),
        Target::Resolve => Some(ColorFormat::Rgba16Float),
        Target::History(_) => Some(ColorFormat::Rgba16Float),
        Target::BloomMip(_) => Some(ColorFormat::Rgba16Float),
        Target::Swapchain => Some(ColorFormat::Surface),
        Target::Depth => None,
        Target::MainDepth => None,
    }
}

/// Whether a pass can be recorded with the pipelines of its kind: slot by
/// slot it binds what the pipeline takes, its color attachments have the
/// formats the pipeline writes, it has a depth attachment exactly where
/// the pipeline tests depth, and it keeps what a target holds only where
/// the pipeline blends.
pub open spec fn conforms(pass: PassModel, pipeline: PipelineModel) -> bool {
    &&& pass.kind == pipeline.kind
    &&& pass.bindings.len() == pipeline.bindings.len()
    &&& forall|i: int|
        0 <= i < pass.bindings.len() ==> binding_kind(#[trigger] pass.bindings[i])
            == pipeline.bindings[i]
    &&& pass.colors.len() == pipeline.colors.len()
    &&& forall|i: int|
        0 <= i < pass.colors.len() ==> color_format_of((#[trigger] pass.colors[i]).target) == Some(
            pipeline.colors[i],
        ) && (pass.colors[i].load == LoadOp::Load) == pipeline.blend
    &&& pass.depth.is_some() == pipeline.depth.is_some()
}

/// Describes the pipelines of a pass kind.
pub fn pipeline_for(kind: PassKind) -> (pipeline: PipelineDesc)
    ensures
        pipeline@ == pipeline_of(kind),
{
    let mut bindings: Vec<BindingKind> = Vec::new();
    let mut colors: Vec<ColorFormat> = Vec::new();
    let mut depth: Option<DepthCompare> = None;
    let mut blend = false;
    match kind {
        PassKind::GBuffer => {
            colors.push(ColorFormat::Rgba16Float);
            colors.push(ColorFormat::Rg16Float);
            depth = Some(DepthCompare::Greater);
        },
        PassKind::Direct => {
            colors.push(ColorFormat::Surface);
            depth = Some(DepthCompare::GreaterEqual);
        },
        PassKind::Clear => {
            colors.push(ColorFormat::Surface);
        },
        PassKind::Taa => {
            bindings.push(BindingKind::Texture);
            bindings.push(BindingKind::Texture);
            bindings.push(BindingKind::Texture);
            bindings.push(BindingKind::Sampler);
            colors.push(ColorFormat::Rgba16Float);
            colors.push(ColorFormat::Rgba16Float);
        },
        PassKind::Screen => {
            bindings.push(BindingKind::Texture);
            bindings.push(BindingKind::Texture);
            bindings.push(BindingKind::Sampler);
            colors.push(ColorFormat::Surface);
        },
        PassKind::Present => {
            bindings.push(BindingKind::Texture);
            bindings.push(BindingKind::Sampler);
            colors.push(ColorFormat::Surface);
        },
        PassKind::Brightness => {
            bindings.push(BindingKind::Texture);
            bindings.push(BindingKind::Sampler);
            colors.push(ColorFormat::Rgba16Float);
        },
        PassKind::Downsample => {
            bindings.push(BindingKind::Texture);
            bindings.push(BindingKind::Sampler);
            colors.push(ColorFormat::Rgba16Float);
        },
        PassKind::Lens => {
            bindings.push(BindingKind::Texture);
            bindings.push(BindingKind::Sampler);
            colors.push(ColorFormat::Rgba16Float);
        },
        PassKind::Upsample => {
            bindings.push(BindingKind::Texture);
            bindings.push(BindingKind::Sampler);
            colors.push(ColorFormat::Rgba16Float);
            blend = true;
        },
    }
    let pipeline = PipelineDesc { kind, bindings, colors, depth, blend };
    assert(pipeline@.bindings =~= pipeline_of(kind).bindings);
    assert(pipeline@.colors =~= pipeline_of(kind).colors);
    pipeline
}

/// The passes that draw the scene and the temporal resolve can be
/// recorded with the pipelines of their kinds.
pub proof fn lemma_fixed_passes_conform(read: int)
    requires
        0 <= read < 2,
    ensures
        conforms(gbuffer_pass(), pipeline_of(PassKind::GBuffer)),
        conforms(direct_pass(), pipeline_of(PassKind::Direct)),
        conforms(clear_pass(), pipeline_of(PassKind::Clear)),
        conforms(taa_pass(read), pipeline_of(PassKind::Taa)),
        gbuffer_pass().depth == Some(Target::Depth),
        direct_pass().depth == Some(Target::MainDepth),
{
}

/// A composition or a copy into the presented image of targets that can
/// be sampled can be recorded with the pipelines of its kind.
pub proof fn lemma_final_passes_conform(resolve: Target, bloom: Target)
    ensures
        conforms(screen_pass(resolve, bloom, Target::Swapchain), pipeline_of(PassKind::Screen)),
        conforms(present_pass(resolve, Target::Swapchain), pipeline_of(PassKind::Present)),
{
}

/// Every pass of the bloom chain can be recorded with the pipelines of
/// its kind; it samples one level or the resolve and writes another level.
pub proof fn lemma_bloom_passes_conform(width: u32, height: u32, i: int)
    requires
        0 <= i < BLOOM_PASS_COUNT,
    ensures
        conforms(bloom_passes(width, height)[i], pipeline_of(bloom_passes(width, height)[i].kind)),
        bloom_passes(width, height)[i].bindings[0] != Binding::Texture(
            bloom_passes(width, height)[i].colors[0].target,
        ),
{
}

} // verus!
