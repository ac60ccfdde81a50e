//! What a renderer asks of a recorder: dispatches with their bindings, passes of the filter
//! shader, and the textures that live for the length of one frame.

use crate::config::{WorkgroupSize, STAGE_PATH_COUNT, STAGE_PATH_TILING};
use crate::filter::FilterUniform;
use crate::render::INDIRECT_STRIDE;
use crate::resource_proxy::{
    BindType, NodeAccess, ShaderId, TextureFlags, TextureFormat, TextureKind, TextureRequest,
};
use crate::shaders::Stage;
use crate::AaConfig;
use vstd::prelude::*;

verus! {

/// A buffer of the pipeline.
#[derive(Clone, Copy, Debug, PartialEq, Eq, Structural)]
pub enum PipelineBuffer {
    Config,
    Scene,
    Bump,
    WgCounts,
    Indirect,
    Reduced,
    Reduced2,
    ReducedScan,
    TagMonoid,
    PathBbox,
    Lines,
    DrawReduced,
    DrawMonoid,
    InfoBinData,
    ClipInp,
    ClipBic,
    ClipEl,
    ClipBbox,
    DrawBbox,
    BinHeader,
    Path,
    Tile,
    SegCounts,
    Ptcl,
    Segments,
    BlendSpill,
    MaskLut,
}

/// A texture that a dispatch can bind.
#[derive(Clone, Copy, Debug, PartialEq, Eq, Structural)]
pub enum TextureSlot {
    /// The texture that the frame ends up in.
    Output,
    /// The pipeline's own output image, where it has one.
    OutImage,
    Gradient,
    ImageAtlas,
    MaskAtlas,
    /// Snapshot of one of the filter layers.
    FilterLayer(usize),
    /// Full-size intermediate of the filter passes.
    Scratch,
    /// Full-size result of a pyramid blur.
    BlurResult,
    /// A level of the blur pyramid; level 0 has half the full size.
    Level(usize),
    /// Intermediate of the blur at the bottom of the pyramid.
    BottomScratch,
}

/// A hardware sampler.
#[derive(Clone, Copy, Debug, PartialEq, Eq, Structural)]
pub enum SamplerSlot {
    LinearClamp,
    NearestClamp,
}

/// A resource in a slot of a dispatch.
#[derive(Clone, Copy, Debug, PartialEq, Eq, Structural)]
pub enum Binding {
    Buf(PipelineBuffer),
    /// One stage's entry of the indirect dispatch buffer.
    Unit(u32),
    Tex(TextureSlot),
    /// The image that is about to be presented.
    Present(NodeAccess),
    Sampler(SamplerSlot),
}

/// Number of filter layers that the pipeline has textures for.
pub const FILTER_LAYERS: usize = 4;

/// Where a frame ends up: a texture, or the image that is about to be presented.
#[derive(Clone, Copy, Debug, PartialEq, Eq, Structural)]
pub enum OutputKind {
    Texture,
    Present,
}

impl OutputKind {
    /// Binding of the output for a dispatch that accesses it in the given way.
    pub open spec fn spec_binding(self, access: NodeAccess) -> Binding {
        match self {
            OutputKind::Texture => Binding::Tex(TextureSlot::Output),
            OutputKind::Present => Binding::Present(access),
        }
    }

    /// Binding of the output for a dispatch that accesses it in the given way.
    pub fn binding(self, access: NodeAccess) -> (b: Binding)
        ensures
            b == self.spec_binding(access),
    {
        match self {
            OutputKind::Texture => Binding::Tex(TextureSlot::Output),
            OutputKind::Present => Binding::Present(access),
        }
    }
}

/// The bindings of a dispatch, slot by slot.
#[derive(Clone, Copy, Debug, PartialEq, Eq, Structural)]
pub enum BindingList {
    /// A stage before fine rasterization. With `units`, a setup stage that computes the size of
    /// another dispatch binds that stage's own entry of the indirect buffer; without, the
    /// whole buffer.
    Coarse { stage: Stage, units: bool },
    /// Fine rasterization into the output, with the mask table that multisampling needs.
    Fine { output: OutputKind, mask_lut: bool },
    /// A pass of the filter shader.
    Filter { sampled: TextureSlot, source: TextureSlot, dest: TextureSlot, output: OutputKind },
}

/// What a setup stage writes the size of a later dispatch into.
pub open spec fn counts_binding(units: bool, stage: u32) -> Binding {
    if units {
        Binding::Unit(stage)
    } else {
        Binding::Buf(PipelineBuffer::Indirect)
    }
}

fn bind_counts(units: bool, stage: u32) -> (b: Binding)
    ensures
        b == counts_binding(units, stage),
{
    if units {
        Binding::Unit(stage)
    } else {
        Binding::Buf(PipelineBuffer::Indirect)
    }
}

/// The bindings of a stage before fine rasterization.
pub open spec fn coarse_bindings(stage: Stage, units: bool) -> Seq<Binding> {
    match stage {
        Stage::PipelineSetup => seq![Binding::Buf(PipelineBuffer::WgCounts), Binding::Buf(PipelineBuffer::Indirect)],
        Stage::PathtagReduce => seq![Binding::Buf(PipelineBuffer::Config), Binding::Buf(PipelineBuffer::Scene), Binding::Buf(PipelineBuffer::Reduced)],
        Stage::PathtagReduce2 => seq![Binding::Buf(PipelineBuffer::Reduced), Binding::Buf(PipelineBuffer::Reduced2)],
        Stage::PathtagScan1 => seq![Binding::Buf(PipelineBuffer::Reduced), Binding::Buf(PipelineBuffer::Reduced2), Binding::Buf(PipelineBuffer::ReducedScan)],
        Stage::PathtagScan => seq![Binding::Buf(PipelineBuffer::Config), Binding::Buf(PipelineBuffer::Scene), Binding::Buf(PipelineBuffer::Reduced), Binding::Buf(PipelineBuffer::TagMonoid)],
        Stage::PathtagScanLarge => seq![Binding::Buf(PipelineBuffer::Config), Binding::Buf(PipelineBuffer::Scene), Binding::Buf(PipelineBuffer::ReducedScan), Binding::Buf(PipelineBuffer::TagMonoid)],
        Stage::BboxClear => seq![Binding::Buf(PipelineBuffer::Config), Binding::Buf(PipelineBuffer::PathBbox)],
        Stage::Flatten => seq![Binding::Buf(PipelineBuffer::Config), Binding::Buf(PipelineBuffer::Scene), Binding::Buf(PipelineBuffer::TagMonoid), Binding::Buf(PipelineBuffer::PathBbox), Binding::Buf(PipelineBuffer::Bump), Binding::Buf(PipelineBuffer::Lines)],
        Stage::DrawReduce => seq![Binding::Buf(PipelineBuffer::Config), Binding::Buf(PipelineBuffer::Scene), Binding::Buf(PipelineBuffer::DrawReduced)],
        Stage::DrawLeaf => seq![Binding::Buf(PipelineBuffer::Config), Binding::Buf(PipelineBuffer::Scene), Binding::Buf(PipelineBuffer::DrawReduced), Binding::Buf(PipelineBuffer::PathBbox), Binding::Buf(PipelineBuffer::DrawMonoid), Binding::Buf(PipelineBuffer::InfoBinData), Binding::Buf(PipelineBuffer::ClipInp)],
        Stage::ClipReduce => seq![Binding::Buf(PipelineBuffer::ClipInp), Binding::Buf(PipelineBuffer::PathBbox), Binding::Buf(PipelineBuffer::ClipBic), Binding::Buf(PipelineBuffer::ClipEl)],
        Stage::ClipLeaf => seq![Binding::Buf(PipelineBuffer::Config), Binding::Buf(PipelineBuffer::ClipInp), Binding::Buf(PipelineBuffer::PathBbox), Binding::Buf(PipelineBuffer::ClipBic), Binding::Buf(PipelineBuffer::ClipEl), Binding::Buf(PipelineBuffer::DrawMonoid), Binding::Buf(PipelineBuffer::ClipBbox)],
        Stage::Binning => seq![Binding::Buf(PipelineBuffer::Config), Binding::Buf(PipelineBuffer::Scene), Binding::Buf(PipelineBuffer::DrawMonoid), Binding::Buf(PipelineBuffer::PathBbox), Binding::Buf(PipelineBuffer::ClipBbox), Binding::Buf(PipelineBuffer::DrawBbox), Binding::Buf(PipelineBuffer::Bump), Binding::Buf(PipelineBuffer::InfoBinData), Binding::Buf(PipelineBuffer::BinHeader)],
        Stage::TileAlloc => seq![Binding::Buf(PipelineBuffer::Config), Binding::Buf(PipelineBuffer::Scene), Binding::Buf(PipelineBuffer::DrawBbox), Binding::Buf(PipelineBuffer::Bump), Binding::Buf(PipelineBuffer::Path), Binding::Buf(PipelineBuffer::Tile)],
        Stage::PathCountSetup => seq![Binding::Buf(PipelineBuffer::Bump), counts_binding(units, STAGE_PATH_COUNT)],
        Stage::PathCount => seq![Binding::Buf(PipelineBuffer::Config), Binding::Buf(PipelineBuffer::Bump), Binding::Buf(PipelineBuffer::Lines), Binding::Buf(PipelineBuffer::Path), Binding::Buf(PipelineBuffer::Tile), Binding::Buf(PipelineBuffer::SegCounts)],
        Stage::Backdrop => seq![Binding::Buf(PipelineBuffer::Config), Binding::Buf(PipelineBuffer::Bump), Binding::Buf(PipelineBuffer::Path), Binding::Buf(PipelineBuffer::Tile)],
        Stage::Coarse => seq![Binding::Buf(PipelineBuffer::Config), Binding::Buf(PipelineBuffer::Scene), Binding::Buf(PipelineBuffer::DrawMonoid), Binding::Buf(PipelineBuffer::BinHeader), Binding::Buf(PipelineBuffer::InfoBinData), Binding::Buf(PipelineBuffer::Path), Binding::Buf(PipelineBuffer::Tile), Binding::Buf(PipelineBuffer::Bump), Binding::Buf(PipelineBuffer::Ptcl)],
        Stage::PathTilingSetup => seq![Binding::Buf(PipelineBuffer::Bump), counts_binding(units, STAGE_PATH_TILING), Binding::Buf(PipelineBuffer::Ptcl)],
        Stage::PathTiling => seq![Binding::Buf(PipelineBuffer::Bump), Binding::Buf(PipelineBuffer::SegCounts), Binding::Buf(PipelineBuffer::Lines), Binding::Buf(PipelineBuffer::Path), Binding::Buf(PipelineBuffer::Tile), Binding::Buf(PipelineBuffer::Segments)],
        _ => seq![],
    }
}

fn list_coarse(stage: Stage, units: bool) -> (v: Vec<Binding>)
    ensures
        v@ == coarse_bindings(stage, units),
{
    let v: Vec<Binding> = match stage {
        Stage::PipelineSetup => vec![Binding::Buf(PipelineBuffer::WgCounts), Binding::Buf(PipelineBuffer::Indirect)],
        Stage::PathtagReduce => vec![Binding::Buf(PipelineBuffer::Config), Binding::Buf(PipelineBuffer::Scene), Binding::Buf(PipelineBuffer::Reduced)],
        Stage::PathtagReduce2 => vec![Binding::Buf(PipelineBuffer::Reduced), Binding::Buf(PipelineBuffer::Reduced2)],
        Stage::PathtagScan1 => vec![Binding::Buf(PipelineBuffer::Reduced), Binding::Buf(PipelineBuffer::Reduced2), Binding::Buf(PipelineBuffer::ReducedScan)],
        Stage::PathtagScan => vec![Binding::Buf(PipelineBuffer::Config), Binding::Buf(PipelineBuffer::Scene), Binding::Buf(PipelineBuffer::Reduced), Binding::Buf(PipelineBuffer::TagMonoid)],
        Stage::PathtagScanLarge => vec![Binding::Buf(PipelineBuffer::Config), Binding::Buf(PipelineBuffer::Scene), Binding::Buf(PipelineBuffer::ReducedScan), Binding::Buf(PipelineBuffer::TagMonoid)],
        Stage::BboxClear => vec![Binding::Buf(PipelineBuffer::Config), Binding::Buf(PipelineBuffer::PathBbox)],
        Stage::Flatten => vec![Binding::Buf(PipelineBuffer::Config), Binding::Buf(PipelineBuffer::Scene), Binding::Buf(PipelineBuffer::TagMonoid), Binding::Buf(PipelineBuffer::PathBbox), Binding::Buf(PipelineBuffer::Bump), Binding::Buf(PipelineBuffer::Lines)],
        Stage::DrawReduce => vec![Binding::Buf(PipelineBuffer::Config), Binding::Buf(PipelineBuffer::Scene), Binding::Buf(PipelineBuffer::DrawReduced)],
        Stage::DrawLeaf => vec![Binding::Buf(PipelineBuffer::Config), Binding::Buf(PipelineBuffer::Scene), Binding::Buf(PipelineBuffer::DrawReduced), Binding::Buf(PipelineBuffer::PathBbox), Binding::Buf(PipelineBuffer::DrawMonoid), Binding::Buf(PipelineBuffer::InfoBinData), Binding::Buf(PipelineBuffer::ClipInp)],
        Stage::ClipReduce => vec![Binding::Buf(PipelineBuffer::ClipInp), Binding::Buf(PipelineBuffer::PathBbox), Binding::Buf(PipelineBuffer::ClipBic), Binding::Buf(PipelineBuffer::ClipEl)],
        Stage::ClipLeaf => vec![Binding::Buf(PipelineBuffer::Config), Binding::Buf(PipelineBuffer::ClipInp), Binding::Buf(PipelineBuffer::PathBbox), Binding::Buf(PipelineBuffer::ClipBic), Binding::Buf(PipelineBuffer::ClipEl), Binding::Buf(PipelineBuffer::DrawMonoid), Binding::Buf(PipelineBuffer::ClipBbox)],
        Stage::Binning => vec![Binding::Buf(PipelineBuffer::Config), Binding::Buf(PipelineBuffer::Scene), Binding::Buf(PipelineBuffer::DrawMonoid), Binding::Buf(PipelineBuffer::PathBbox), Binding::Buf(PipelineBuffer::ClipBbox), Binding::Buf(PipelineBuffer::DrawBbox), Binding::Buf(PipelineBuffer::Bump), Binding::Buf(PipelineBuffer::InfoBinData), Binding::Buf(PipelineBuffer::BinHeader)],
        Stage::TileAlloc => vec![Binding::Buf(PipelineBuffer::Config), Binding::Buf(PipelineBuffer::Scene), Binding::Buf(PipelineBuffer::DrawBbox), Binding::Buf(PipelineBuffer::Bump), Binding::Buf(PipelineBuffer::Path), Binding::Buf(PipelineBuffer::Tile)],
        Stage::PathCountSetup => vec![Binding::Buf(PipelineBuffer::Bump), bind_counts(units, STAGE_PATH_COUNT)],
        Stage::PathCount => vec![Binding::Buf(PipelineBuffer::Config), Binding::Buf(PipelineBuffer::Bump), Binding::Buf(PipelineBuffer::Lines), Binding::Buf(PipelineBuffer::Path), Binding::Buf(PipelineBuffer::Tile), Binding::Buf(PipelineBuffer::SegCounts)],
        Stage::Backdrop => vec![Binding::Buf(PipelineBuffer::Config), Binding::Buf(PipelineBuffer::Bump), Binding::Buf(PipelineBuffer::Path), Binding::Buf(PipelineBuffer::Tile)],
        Stage::Coarse => vec![Binding::Buf(PipelineBuffer::Config), Binding::Buf(PipelineBuffer::Scene), Binding::Buf(PipelineBuffer::DrawMonoid), Binding::Buf(PipelineBuffer::BinHeader), Binding::Buf(PipelineBuffer::InfoBinData), Binding::Buf(PipelineBuffer::Path), Binding::Buf(PipelineBuffer::Tile), Binding::Buf(PipelineBuffer::Bump), Binding::Buf(PipelineBuffer::Ptcl)],
        Stage::PathTilingSetup => vec![Binding::Buf(PipelineBuffer::Bump), bind_counts(units, STAGE_PATH_TILING), Binding::Buf(PipelineBuffer::Ptcl)],
        Stage::PathTiling => vec![Binding::Buf(PipelineBuffer::Bump), Binding::Buf(PipelineBuffer::SegCounts), Binding::Buf(PipelineBuffer::Lines), Binding::Buf(PipelineBuffer::Path), Binding::Buf(PipelineBuffer::Tile), Binding::Buf(PipelineBuffer::Segments)],
        _ => Vec::new(),
    };
    assert(v@ =~= coarse_bindings(stage, units));
    v
}

/// The bindings of fine rasterization.
pub open spec fn fine_bindings(output: OutputKind, mask_lut: bool) -> Seq<Binding> {
    seq![
        Binding::Buf(PipelineBuffer::Config),
        Binding::Buf(PipelineBuffer::Segments),
        Binding::Buf(PipelineBuffer::Ptcl),
        Binding::Buf(PipelineBuffer::InfoBinData),
        Binding::Buf(PipelineBuffer::BlendSpill),
        output.spec_binding(NodeAccess::Write),
        Binding::Tex(TextureSlot::Gradient),
        Binding::Tex(TextureSlot::ImageAtlas),
        Binding::Tex(TextureSlot::MaskAtlas),
    ] + (if mask_lut {
        seq![Binding::Buf(PipelineBuffer::MaskLut)]
    } else {
        seq![]
    }) + seq![
        Binding::Tex(TextureSlot::FilterLayer(0)),
        Binding::Tex(TextureSlot::FilterLayer(1)),
        Binding::Tex(TextureSlot::FilterLayer(2)),
        Binding::Tex(TextureSlot::FilterLayer(3)),
        Binding::Sampler(SamplerSlot::LinearClamp),
        Binding::Sampler(SamplerSlot::NearestClamp),
    ]
}

fn list_fine(output: OutputKind, mask_lut: bool) -> (v: Vec<Binding>)
    ensures
        v@ == fine_bindings(output, mask_lut),
{
    let mut v: Vec<Binding> = vec![
        Binding::Buf(PipelineBuffer::Config),
        Binding::Buf(PipelineBuffer::Segments),
        Binding::Buf(PipelineBuffer::Ptcl),
        Binding::Buf(PipelineBuffer::InfoBinData),
        Binding::Buf(PipelineBuffer::BlendSpill),
        output.binding(NodeAccess::Write),
        Binding::Tex(TextureSlot::Gradient),
        Binding::Tex(TextureSlot::ImageAtlas),
        Binding::Tex(TextureSlot::MaskAtlas),
    ];
    if mask_lut {
        v.push(Binding::Buf(PipelineBuffer::MaskLut));
    }
    let mut layer: usize = 0;
    let ghost start = v@;
    while layer < FILTER_LAYERS
        invariant
            layer <= FILTER_LAYERS,
            v@ == start + Seq::new(layer as nat, |i: int| Binding::Tex(TextureSlot::FilterLayer(i as usize))),
        decreases FILTER_LAYERS - layer,
    {
        v.push(Binding::Tex(TextureSlot::FilterLayer(layer)));
        layer = layer + 1;
        assert(v@ =~= start + Seq::new(layer as nat, |i: int| Binding::Tex(TextureSlot::FilterLayer(i as usize))));
    }
    v.push(Binding::Sampler(SamplerSlot::LinearClamp));
    v.push(Binding::Sampler(SamplerSlot::NearestClamp));
    assert(v@ =~= fine_bindings(output, mask_lut));
    v
}

/// The bindings of a pass of the filter shader: the uniform, the source for sampling, the source
/// for direct reads, the destination, and the sampler.
pub open spec fn filter_bindings(
    sampled: TextureSlot,
    source: TextureSlot,
    dest: TextureSlot,
    output: OutputKind,
) -> Seq<Binding> {
    seq![
        Binding::Tex(sampled),
        Binding::Tex(source),
        if dest is Output {
            output.spec_binding(NodeAccess::ReadWrite)
        } else {
            Binding::Tex(dest)
        },
        Binding::Sampler(SamplerSlot::LinearClamp),
    ]
}

impl BindingList {
    /// The bindings, slot by slot. A pass of the filter shader binds its uniform before these.
    pub open spec fn spec_list(self) -> Seq<Binding> {
        match self {
            BindingList::Coarse { stage, units } => coarse_bindings(stage, units),
            BindingList::Fine { output, mask_lut } => fine_bindings(output, mask_lut),
            BindingList::Filter { sampled, source, dest, output } => filter_bindings(sampled, source, dest, output),
        }
    }

    /// Lists the bindings, slot by slot. A pass of the filter shader binds its uniform before
    /// these.
    pub fn list(self) -> (v: Vec<Binding>)
        ensures
            v@ == self.spec_list(),
    {
        match self {
            BindingList::Coarse { stage, units } => list_coarse(stage, units),
            BindingList::Fine { output, mask_lut } => list_fine(output, mask_lut),
            BindingList::Filter { sampled, source, dest, output } => {
                let target: Binding = match dest {
                    TextureSlot::Output => output.binding(NodeAccess::ReadWrite),
                    _ => Binding::Tex(dest),
                };
                let v: Vec<Binding> = vec![
                    Binding::Tex(sampled),
                    Binding::Tex(source),
                    target,
                    Binding::Sampler(SamplerSlot::LinearClamp),
                ];
                assert(v@ =~= filter_bindings(sampled, source, dest, output));
                v
            },
        }
    }
}

/// How many workgroups a dispatch runs.
#[derive(Clone, Copy, Debug, PartialEq, Eq)]
pub enum Grid {
    /// As many as given.
    Direct(WorkgroupSize),
    /// As many as the indirect buffer holds at a byte offset.
    Indirect { offset: u64 },
    /// As many as a stage's entry of the indirect buffer holds.
    Unit { stage: u32 },
}

/// Where the size of a dispatch is found.
#[derive(Clone, Copy, Debug, PartialEq, Eq)]
pub enum GridSize {
    Fixed(WorkgroupSize),
    /// In an entry of the indirect buffer.
    Entry(u64),
}

impl Grid {
    /// Where the size of the dispatch is found. Entries of the indirect buffer have equal sizes.
    pub fn size(self) -> (size: GridSize)
        ensures
            size == (match self {
                Grid::Direct(dims) => GridSize::Fixed(dims),
                Grid::Indirect { offset } => GridSize::Entry((offset / INDIRECT_STRIDE) as u64),
                Grid::Unit { stage } => GridSize::Entry(stage as u64),
            }),
            self matches Grid::Indirect { offset } ==> (size matches GridSize::Entry(entry) && 16 * entry <= offset
                && offset < 16 * entry + 16),
            self matches Grid::Unit { stage } ==> (size matches GridSize::Entry(entry) && entry == stage),
    {
        match self {
            Grid::Direct(dims) => GridSize::Fixed(dims),
            Grid::Indirect { offset } => GridSize::Entry(offset / INDIRECT_STRIDE),
            Grid::Unit { stage } => GridSize::Entry(stage as u64),
        }
    }
}

/// A request to the recorder.
#[derive(Clone, Copy, Debug, PartialEq, Eq)]
pub enum Command {
    /// Upload the workgroup counts of the frame.
    UploadCounts,
    /// Take a buffer for the indirect dispatch sizes.
    AllocIndirect { size: u64, stride: u32 },
    /// Give the uploaded counts back when the frame is done.
    ReleaseCounts,
    /// Upload the mask table of a multisampling method.
    UploadMaskLut(AaConfig),
    /// Run a shader. `push_tail` follows the slots of the bindings in the shader's arguments.
    Dispatch { shader: ShaderId, grid: Grid, bindings: BindingList, push_tail: Option<u32> },
    /// Run a pass of the filter shader.
    Filter { shader: ShaderId, uniform: FilterUniform, groups: WorkgroupSize, bindings: BindingList },
    /// Take a texture for the length of the frame; one with `copies` can be copied from and to.
    Acquire { slot: TextureSlot, width: u32, height: u32, copies: bool },
    /// Give a texture back when the frame is done.
    Release(TextureSlot),
}

/// A binding can stand in a slot of the given type.
pub open spec fn fits(binding: Binding, slot: BindType) -> bool {
    match binding {
        Binding::Buf(_) | Binding::Unit(_) => slot is Buffer || slot is BufReadOnly || slot is Uniform,
        Binding::Tex(_) | Binding::Present(_) => slot is Image || slot is ImageRead,
        Binding::Sampler(_) => slot is Sampler,
    }
}

/// Each slot of a shader has a binding that fits, and there is no binding without a slot.
pub open spec fn all_fit(bindings: Seq<Binding>, slots: Seq<BindType>) -> bool {
    &&& bindings.len() == slots.len()
    &&& forall|i: int| 0 <= i < slots.len() ==> fits(#[trigger] bindings[i], slots[i])
}

/// The stage comes before fine rasterization.
pub open spec fn is_coarse(stage: Stage) -> bool {
    stage.position() < Stage::FineArea.position()
}

/// Every stage before fine rasterization binds what its shader declares.
pub proof fn coarse_bindings_fit(stage: Stage, units: bool)
    requires
        is_coarse(stage),
    ensures
        all_fit(coarse_bindings(stage, units), stage.spec_bind_types()),
{
}

/// Fine rasterization binds what its shader declares: the mask table for the multisampling
/// methods, and none for area anti-aliasing.
pub proof fn fine_bindings_fit(output: OutputKind, aa: AaConfig)
    ensures
        all_fit(
            fine_bindings(output, !(aa is Area)),
            crate::shaders::FullShaders::fine_stage(aa).spec_bind_types(),
        ),
{
}

/// A filter pass binds what its shader declares, behind the uniform.
pub proof fn filter_bindings_fit(sampled: TextureSlot, source: TextureSlot, dest: TextureSlot, output: OutputKind)
    ensures
        all_fit(filter_bindings(sampled, source, dest, output), Stage::FilterPass.spec_bind_types().skip(1)),
        Stage::FilterPass.spec_bind_types()[0] is BufReadOnly,
{
}

/// The stage that first fills a buffer.
pub open spec fn filled_by(buffer: PipelineBuffer) -> Stage {
    match buffer {
        PipelineBuffer::Indirect => Stage::PipelineSetup,
        PipelineBuffer::Reduced => Stage::PathtagReduce,
        PipelineBuffer::Reduced2 => Stage::PathtagReduce2,
        PipelineBuffer::ReducedScan => Stage::PathtagScan1,
        PipelineBuffer::TagMonoid => Stage::PathtagScan,
        PipelineBuffer::PathBbox => Stage::BboxClear,
        PipelineBuffer::Lines => Stage::Flatten,
        PipelineBuffer::DrawReduced => Stage::DrawReduce,
        PipelineBuffer::DrawMonoid => Stage::DrawLeaf,
        PipelineBuffer::InfoBinData => Stage::DrawLeaf,
        PipelineBuffer::ClipInp => Stage::DrawLeaf,
        PipelineBuffer::ClipBic => Stage::ClipReduce,
        PipelineBuffer::ClipEl => Stage::ClipReduce,
        PipelineBuffer::ClipBbox => Stage::ClipLeaf,
        PipelineBuffer::DrawBbox => Stage::Binning,
        PipelineBuffer::BinHeader => Stage::Binning,
        PipelineBuffer::Path => Stage::TileAlloc,
        PipelineBuffer::Tile => Stage::TileAlloc,
        PipelineBuffer::SegCounts => Stage::PathCount,
        PipelineBuffer::Ptcl => Stage::Coarse,
        PipelineBuffer::Segments => Stage::PathTiling,
        _ => Stage::PipelineSetup,
    }
}

/// The host fills the buffer before the first stage runs.
pub open spec fn is_uploaded(buffer: PipelineBuffer) -> bool {
    buffer is Config || buffer is Scene || buffer is Bump || buffer is WgCounts || buffer is MaskLut
}

/// A stage has read and write access to the buffer in some slot.
pub open spec fn writes(stage: Stage, buffer: PipelineBuffer) -> bool {
    exists|j: int|
        {
            &&& 0 <= j < stage.spec_bind_types().len()
            &&& #[trigger] coarse_bindings(stage, false)[j] == Binding::Buf(buffer)
            &&& stage.spec_bind_types()[j] is Buffer
        }
}

/// What a stage before fine rasterization only reads is either uploaded or filled by a stage
/// that comes before it.
pub proof fn inputs_are_filled_before(stage: Stage, slot: int, buffer: PipelineBuffer)
    requires
        is_coarse(stage),
        0 <= slot < stage.spec_bind_types().len(),
        stage.spec_bind_types()[slot] is BufReadOnly,
        coarse_bindings(stage, false)[slot] == Binding::Buf(buffer),
    ensures
        is_uploaded(buffer) || (writes(filled_by(buffer), buffer) && filled_by(buffer).position() < stage.position()),
{
    let writer = filled_by(buffer);
    let list = coarse_bindings(writer, false);
    if buffer is Indirect {
        assert(list[1] == Binding::Buf(buffer));
    }
    if buffer is Reduced {
        assert(list[2] == Binding::Buf(buffer));
    }
    if buffer is Reduced2 {
        assert(list[1] == Binding::Buf(buffer));
    }
    if buffer is ReducedScan {
        assert(list[2] == Binding::Buf(buffer));
    }
    if buffer is TagMonoid {
        assert(list[3] == Binding::Buf(buffer));
    }
    if buffer is PathBbox {
        assert(list[1] == Binding::Buf(buffer));
    }
    if buffer is Lines {
        assert(list[5] == Binding::Buf(buffer));
    }
    if buffer is DrawReduced {
        assert(list[2] == Binding::Buf(buffer));
    }
    if buffer is DrawMonoid {
        assert(list[4] == Binding::Buf(buffer));
    }
    if buffer is InfoBinData {
        assert(list[5] == Binding::Buf(buffer));
    }
    if buffer is ClipInp {
        assert(list[6] == Binding::Buf(buffer));
    }
    if buffer is ClipBic {
        assert(list[2] == Binding::Buf(buffer));
    }
    if buffer is ClipEl {
        assert(list[3] == Binding::Buf(buffer));
    }
    if buffer is ClipBbox {
        assert(list[6] == Binding::Buf(buffer));
    }
    if buffer is DrawBbox {
        assert(list[5] == Binding::Buf(buffer));
    }
    if buffer is BinHeader {
        assert(list[8] == Binding::Buf(buffer));
    }
    if buffer is Path {
        assert(list[4] == Binding::Buf(buffer));
    }
    if buffer is Tile {
        assert(list[5] == Binding::Buf(buffer));
    }
    if buffer is SegCounts {
        assert(list[5] == Binding::Buf(buffer));
    }
    if buffer is Ptcl {
        assert(list[8] == Binding::Buf(buffer));
    }
    if buffer is Segments {
        assert(list[5] == Binding::Buf(buffer));
    }
}

/// What area rasterization only reads was filled by the stages before it.
pub proof fn fine_inputs_are_filled(slot: int, output: OutputKind)
    requires
        0 <= slot < 4,
    ensures
        fine_bindings(output, false)[slot] matches Binding::Buf(buffer) && (is_uploaded(buffer) || writes(
            filled_by(buffer),
            buffer,
        )),
{
    assert(coarse_bindings(Stage::PathTiling, false)[5] == Binding::Buf(PipelineBuffer::Segments));
    assert(coarse_bindings(Stage::Coarse, false)[8] == Binding::Buf(PipelineBuffer::Ptcl));
    assert(coarse_bindings(Stage::DrawLeaf, false)[5] == Binding::Buf(PipelineBuffer::InfoBinData));
}

/// The texture that is taken for the length of a frame: filters write it and then sample it. One with
/// `copies` can be copied from and to.
pub fn transient_texture(width: u32, height: u32, copies: bool) -> (request: TextureRequest)
    ensures
        request == (TextureRequest {
            width,
            height,
            format: TextureFormat::Rgba8Unorm,
            kind: TextureKind::DirectInterpolated,
            flags: TextureFlags { copy_dst: copies, copy_src: copies },
        }),
{
    TextureRequest {
        width,
        height,
        format: TextureFormat::Rgba8Unorm,
        kind: TextureKind::DirectInterpolated,
        flags: TextureFlags { copy_dst: copies, copy_src: copies },
    }
}

} // verus!
