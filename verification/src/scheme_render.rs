//! Scene recording for the retained renderer, whose dispatch sizes always come from the indirect
//! buffer.

use crate::config::{
    RenderConfig, WorkgroupCounts, WorkgroupCountsGpu, WorkgroupSize, STAGE_BACKDROP, STAGE_BBOX_CLEAR,
    STAGE_BINNING, STAGE_CLIP_LEAF, STAGE_CLIP_REDUCE, STAGE_COARSE, STAGE_DRAW_LEAF, STAGE_DRAW_REDUCE, STAGE_FLATTEN,
    STAGE_PATHTAG_REDUCE, STAGE_PATHTAG_REDUCE2, STAGE_PATHTAG_SCAN, STAGE_PATHTAG_SCAN1, STAGE_PATHTAG_SCAN_LARGE,
    STAGE_PATH_COUNT, STAGE_PATH_TILING, STAGE_TILE_ALLOC,
};
use crate::filter::{FilterUniform, LayerFilterEffect};
use crate::filter_passes::{clear_commands, push_clears};
use crate::recording::{BindingList, Command, Grid, OutputKind, TextureSlot};
use crate::render::{flatten_chunks, push_flatten_chunks, CapturedBuffers, MAX_FLATTEN_WG_PER_SUBMIT};
use crate::resource_proxy::ShaderId;
use crate::shaders::{FullShaders, Stage};
use crate::{AaConfig, RenderParams};
use vstd::prelude::*;

verus! {

/// A texture by its handle, with its size.
#[derive(Clone, Copy, Debug, PartialEq, Eq, Structural)]
pub struct TextureRef {
    pub handle: u64,
    pub width: u32,
    pub height: u32,
}

/// Fine/filter final destination: offscreen texture or swapchain present lease.
#[derive(Clone, Copy, Debug, PartialEq, Eq, Structural)]
pub enum RenderOutput {
    Texture(TextureRef),
    Present(u64),
}

impl RenderOutput {
    /// Whether the output is a texture or the image to be presented.
    pub open spec fn spec_kind(self) -> OutputKind {
        match self {
            RenderOutput::Texture(_) => OutputKind::Texture,
            RenderOutput::Present(_) => OutputKind::Present,
        }
    }

    /// The size of the output; an image to be presented has the size of the frame.
    pub open spec fn spec_size(self, frame: (u32, u32)) -> (u32, u32) {
        match self {
            RenderOutput::Texture(tex) => (tex.width, tex.height),
            RenderOutput::Present(_) => frame,
        }
    }

    pub fn kind(self) -> (k: OutputKind)
        ensures
            k == self.spec_kind(),
    {
        match self {
            RenderOutput::Texture(_) => OutputKind::Texture,
            RenderOutput::Present(_) => OutputKind::Present,
        }
    }

    pub fn width(self, frame_width: u32) -> (w: u32)
        ensures
            forall|h: u32| w == (#[trigger] self.spec_size((frame_width, h))).0,
            self matches RenderOutput::Texture(tex) ==> w == tex.width,
            self is Present ==> w == frame_width,
    {
        match self {
            RenderOutput::Texture(tex) => tex.width,
            RenderOutput::Present(_) => frame_width,
        }
    }

    pub fn height(self, frame_height: u32) -> (h: u32)
        ensures
            forall|w: u32| h == (#[trigger] self.spec_size((w, frame_height))).1,
            self matches RenderOutput::Texture(tex) ==> h == tex.height,
            self is Present ==> h == frame_height,
    {
        match self {
            RenderOutput::Texture(tex) => tex.height,
            RenderOutput::Present(_) => frame_height,
        }
    }
}

/// Resolve the render output target for fine/filter compositing: the texture that was asked for,
/// else the present lease, else the pipeline's own output image.
pub fn resolve_render_output(
    output_texture: Option<TextureRef>,
    present_lease: Option<u64>,
    out_image: Option<TextureRef>,
) -> (r: RenderOutput)
    requires
        output_texture is Some || present_lease is Some || out_image is Some,
    ensures
        r == (match (output_texture, present_lease, out_image) {
            (Some(tex), _, _) => RenderOutput::Texture(tex),
            (None, Some(lease), _) => RenderOutput::Present(lease),
            (None, None, Some(tex)) => RenderOutput::Texture(tex),
            (None, None, None) => arbitrary(),
        }),
        match r {
            RenderOutput::Present(lease) => output_texture is None && present_lease == Some(lease),
            RenderOutput::Texture(tex) => output_texture == Some(tex) || (output_texture is None && present_lease is None
                && out_image == Some(tex)),
        },
{
    if let Some(tex) = output_texture {
        RenderOutput::Texture(tex)
    } else if let Some(lease) = present_lease {
        RenderOutput::Present(lease)
    } else {
        RenderOutput::Texture(out_image.unwrap())
    }
}

/// State for a render in progress.
pub struct Render {
    /// Workgroups of fine rasterization, between the coarse phase and the fine phase.
    pub fine_wg_count: Option<WorkgroupSize>,
    pub aa_config: AaConfig,
    pub captured_buffers: Option<CapturedBuffers>,
}

/// Which mask tables are on the GPU. They do not depend on the scene, so each is uploaded once.
#[derive(Clone, Copy, Debug, Default, PartialEq, Eq, Structural)]
pub struct MaskTables {
    pub msaa8: bool,
    pub msaa16: bool,
}

impl MaskTables {
    /// The table of a method is there, or the method needs none.
    pub open spec fn ready(self, aa: AaConfig) -> bool {
        match aa {
            AaConfig::Area => true,
            AaConfig::Msaa8 => self.msaa8,
            AaConfig::Msaa16 => self.msaa16,
        }
    }

    /// The tables after a frame with a method.
    pub open spec fn with(self, aa: AaConfig) -> MaskTables {
        MaskTables { msaa8: self.msaa8 || aa is Msaa8, msaa16: self.msaa16 || aa is Msaa16 }
    }
}

/// A stage at the size that its entry of the indirect buffer holds.
pub open spec fn unit_stage(shader: ShaderId, stage: Stage, index: u32) -> Command {
    Command::Dispatch {
        shader,
        grid: Grid::Unit { stage: index },
        bindings: BindingList::Coarse { stage, units: true },
        push_tail: None,
    }
}

/// A setup stage, at a size that the host knows.
pub open spec fn setup_stage(shader: ShaderId, stage: Stage, wg: WorkgroupSize) -> Command {
    Command::Dispatch {
        shader,
        grid: Grid::Direct(wg),
        bindings: BindingList::Coarse { stage, units: true },
        push_tail: None,
    }
}

fn dispatch_stage(commands: &mut Vec<Command>, shader: ShaderId, stage: Stage, index: u32)
    ensures
        final(commands)@ == old(commands)@.push(unit_stage(shader, stage, index)),
{
    commands.push(
        Command::Dispatch {
            shader,
            grid: Grid::Unit { stage: index },
            bindings: BindingList::Coarse { stage, units: true },
            push_tail: None,
        },
    );
}

fn dispatch_setup(commands: &mut Vec<Command>, shader: ShaderId, stage: Stage, wg: WorkgroupSize)
    ensures
        final(commands)@ == old(commands)@.push(setup_stage(shader, stage, wg)),
{
    commands.push(
        Command::Dispatch {
            shader,
            grid: Grid::Direct(wg),
            bindings: BindingList::Coarse { stage, units: true },
            push_tail: None,
        },
    );
}

/// Reduction and prefix sum over the path tags, and clearing of the bounding boxes.
pub open spec fn tag_stages(s: FullShaders) -> Seq<Command> {
    seq![
        unit_stage(s.pathtag_reduce, Stage::PathtagReduce, STAGE_PATHTAG_REDUCE),
        unit_stage(s.pathtag_reduce2, Stage::PathtagReduce2, STAGE_PATHTAG_REDUCE2),
        unit_stage(s.pathtag_scan1, Stage::PathtagScan1, STAGE_PATHTAG_SCAN1),
        unit_stage(s.pathtag_scan, Stage::PathtagScan, STAGE_PATHTAG_SCAN),
        unit_stage(s.pathtag_scan_large, Stage::PathtagScanLarge, STAGE_PATHTAG_SCAN_LARGE),
        unit_stage(s.bbox_clear, Stage::BboxClear, STAGE_BBOX_CLEAR),
    ]
}

/// Flattening of the paths into lines, in chunks where one dispatch would be too large.
pub open spec fn flatten_stages(s: FullShaders, wg: WorkgroupCounts) -> Seq<Command> {
    if wg.flatten.0 > MAX_FLATTEN_WG_PER_SUBMIT {
        flatten_chunks(s.flatten, true, wg.flatten.0)
    } else {
        seq![unit_stage(s.flatten, Stage::Flatten, STAGE_FLATTEN)]
    }
}

/// Draw objects, clips, bins and tiles, up to the segments of the tiles.
pub open spec fn draw_stages(s: FullShaders, wg: WorkgroupCounts) -> Seq<Command> {
    seq![
        unit_stage(s.draw_reduce, Stage::DrawReduce, STAGE_DRAW_REDUCE),
        unit_stage(s.draw_leaf, Stage::DrawLeaf, STAGE_DRAW_LEAF),
        unit_stage(s.clip_reduce, Stage::ClipReduce, STAGE_CLIP_REDUCE),
        unit_stage(s.clip_leaf, Stage::ClipLeaf, STAGE_CLIP_LEAF),
        unit_stage(s.binning, Stage::Binning, STAGE_BINNING),
        unit_stage(s.tile_alloc, Stage::TileAlloc, STAGE_TILE_ALLOC),
        setup_stage(s.path_count_setup, Stage::PathCountSetup, wg.path_count_setup),
        unit_stage(s.path_count, Stage::PathCount, STAGE_PATH_COUNT),
        unit_stage(s.backdrop, Stage::Backdrop, STAGE_BACKDROP),
        unit_stage(s.coarse, Stage::Coarse, STAGE_COARSE),
        setup_stage(s.path_tiling_setup, Stage::PathTilingSetup, wg.path_tiling_setup),
        unit_stage(s.path_tiling, Stage::PathTiling, STAGE_PATH_TILING),
    ]
}

/// The coarse phase: what the indirect buffer has to hold, and the requests in order.
pub struct CoarseRecording {
    pub counts: WorkgroupCountsGpu,
    pub commands: Vec<Command>,
}

impl Default for Render {
    fn default() -> (r: Self)
        ensures
            r == (Render { fine_wg_count: None, aa_config: AaConfig::Area, captured_buffers: None }),
    {
        Render::new()
    }
}

impl Render {
    pub fn new() -> (r: Self)
        ensures
            r == (Render { fine_wg_count: None, aa_config: AaConfig::Area, captured_buffers: None }),
    {
        Render { fine_wg_count: None, aa_config: AaConfig::Area, captured_buffers: None }
    }

    /// Plans the coarse rasterization phase.
    pub fn run_coarse(
        &mut self,
        shaders: &FullShaders,
        params: &RenderParams,
        robust: bool,
        config: &RenderConfig,
    ) -> (recording: CoarseRecording)
        requires
            config.workgroup_counts.flatten.0 <= 0x100_0000,
        ensures
            recording.counts.lays_out(config.workgroup_counts),
            recording.commands@ == tag_stages(*shaders) + flatten_stages(*shaders, config.workgroup_counts)
                + draw_stages(*shaders, config.workgroup_counts),
            *final(self) == (Render {
                fine_wg_count: Some(config.workgroup_counts.fine),
                aa_config: params.antialiasing_method,
                captured_buffers: if robust {
                    Some(CapturedBuffers { sizes: config.buffer_sizes })
                } else {
                    old(self).captured_buffers
                },
            }),
    {
        let wg: &WorkgroupCounts = &config.workgroup_counts;
        let counts: WorkgroupCountsGpu = WorkgroupCountsGpu::from(wg);
        let mut commands: Vec<Command> = Vec::new();
        dispatch_stage(&mut commands, shaders.pathtag_reduce, Stage::PathtagReduce, STAGE_PATHTAG_REDUCE);
        dispatch_stage(&mut commands, shaders.pathtag_reduce2, Stage::PathtagReduce2, STAGE_PATHTAG_REDUCE2);
        dispatch_stage(&mut commands, shaders.pathtag_scan1, Stage::PathtagScan1, STAGE_PATHTAG_SCAN1);
        dispatch_stage(&mut commands, shaders.pathtag_scan, Stage::PathtagScan, STAGE_PATHTAG_SCAN);
        dispatch_stage(&mut commands, shaders.pathtag_scan_large, Stage::PathtagScanLarge, STAGE_PATHTAG_SCAN_LARGE);
        dispatch_stage(&mut commands, shaders.bbox_clear, Stage::BboxClear, STAGE_BBOX_CLEAR);
        assert(commands@ =~= tag_stages(*shaders));
        if wg.flatten.0 > MAX_FLATTEN_WG_PER_SUBMIT {
            push_flatten_chunks(&mut commands, shaders.flatten, true, wg.flatten.0);
        } else {
            dispatch_stage(&mut commands, shaders.flatten, Stage::Flatten, STAGE_FLATTEN);
        }
        assert(commands@ =~= tag_stages(*shaders) + flatten_stages(*shaders, *wg));
        let ghost flattened = commands@;
        dispatch_stage(&mut commands, shaders.draw_reduce, Stage::DrawReduce, STAGE_DRAW_REDUCE);
        dispatch_stage(&mut commands, shaders.draw_leaf, Stage::DrawLeaf, STAGE_DRAW_LEAF);
        dispatch_stage(&mut commands, shaders.clip_reduce, Stage::ClipReduce, STAGE_CLIP_REDUCE);
        dispatch_stage(&mut commands, shaders.clip_leaf, Stage::ClipLeaf, STAGE_CLIP_LEAF);
        dispatch_stage(&mut commands, shaders.binning, Stage::Binning, STAGE_BINNING);
        dispatch_stage(&mut commands, shaders.tile_alloc, Stage::TileAlloc, STAGE_TILE_ALLOC);
        // Writes the size of the next dispatch into that stage's entry.
        dispatch_setup(&mut commands, shaders.path_count_setup, Stage::PathCountSetup, wg.path_count_setup);
        dispatch_stage(&mut commands, shaders.path_count, Stage::PathCount, STAGE_PATH_COUNT);
        dispatch_stage(&mut commands, shaders.backdrop, Stage::Backdrop, STAGE_BACKDROP);
        dispatch_stage(&mut commands, shaders.coarse, Stage::Coarse, STAGE_COARSE);
        dispatch_setup(&mut commands, shaders.path_tiling_setup, Stage::PathTilingSetup, wg.path_tiling_setup);
        dispatch_stage(&mut commands, shaders.path_tiling, Stage::PathTiling, STAGE_PATH_TILING);
        assert(commands@ =~= flattened + draw_stages(*shaders, *wg));
        self.fine_wg_count = Some(wg.fine);
        self.aa_config = params.antialiasing_method;
        if robust {
            self.captured_buffers = Some(CapturedBuffers { sizes: config.buffer_sizes });
        }
        CoarseRecording { counts, commands }
    }

    /// Plans fine rasterization after the coarse phase. `frame` is the size of the frame, and
    /// `has_out_image` tells whether the pipeline has an output image of its own.
    pub fn record_fine(
        &mut self,
        effects: &[LayerFilterEffect],
        shaders: &FullShaders,
        frame: (u32, u32),
        has_out_image: bool,
        output: RenderOutput,
        tables: &mut MaskTables,
    ) -> (commands: Vec<Command>)
        requires
            old(self).fine_wg_count is Some,
            shaders.id(FullShaders::fine_stage(old(self).aa_config)) is Some,
        ensures
            *final(self) == (Render { fine_wg_count: None, ..*old(self) }),
            *final(tables) == old(tables).with(old(self).aa_config),
            final(tables).ready(old(self).aa_config),
            commands@.len() > 0,
            commands@.last() matches Command::Dispatch { shader, grid, bindings, push_tail } && {
                &&& push_tail is None
                &&& match old(self).aa_config {
                    AaConfig::Area => shaders.fine_area == Some(shader),
                    AaConfig::Msaa8 => shaders.fine_msaa8 == Some(shader),
                    AaConfig::Msaa16 => shaders.fine_msaa16 == Some(shader),
                }
                &&& grid matches Grid::Direct(size) && (old(self).fine_wg_count matches Some(wg) && size.0 == wg.0
                    && size.1 == wg.1 && size.2 == 1)
                &&& bindings matches BindingList::Fine { output: kind, mask_lut } && (kind is Present <==> output is Present)
                    && (mask_lut <==> old(self).aa_config is Msaa8 || old(self).aa_config is Msaa16)
            },
            old(self).aa_config is Area ==> !(commands@[0] is UploadMaskLut),
            old(self).aa_config is Msaa8 ==> (commands@[0] is UploadMaskLut <==> !old(tables).msaa8),
            old(self).aa_config is Msaa16 ==> (commands@[0] is UploadMaskLut <==> !old(tables).msaa16),
            commands@ == (if old(tables).ready(old(self).aa_config) {
                seq![]
            } else {
                seq![Command::UploadMaskLut(old(self).aa_config)]
            }) + clear_commands(
                effects@.len() > 0,
                shaders.filter_pass,
                output.spec_size(frame).0,
                output.spec_size(frame).1,
                output.spec_kind(),
                if has_out_image {
                    TextureSlot::OutImage
                } else {
                    TextureSlot::FilterLayer(0)
                },
            ) + seq![
                Command::Dispatch {
                    shader: shaders.id(FullShaders::fine_stage(old(self).aa_config)).unwrap(),
                    grid: Grid::Direct((old(self).fine_wg_count.unwrap().0, old(self).fine_wg_count.unwrap().1, 1)),
                    bindings: BindingList::Fine {
                        output: output.spec_kind(),
                        mask_lut: !(old(self).aa_config is Area),
                    },
                    push_tail: None,
                },
            ],
    {
        let wg: WorkgroupSize = self.fine_wg_count.take().unwrap();
        let shader: ShaderId = shaders.fine(self.aa_config).unwrap();
        let mut commands: Vec<Command> = Vec::new();
        let mask_lut: bool = match self.aa_config {
            AaConfig::Area => false,
            AaConfig::Msaa8 => {
                if !tables.msaa8 {
                    commands.push(Command::UploadMaskLut(AaConfig::Msaa8));
                    tables.msaa8 = true;
                }
                true
            },
            AaConfig::Msaa16 => {
                if !tables.msaa16 {
                    commands.push(Command::UploadMaskLut(AaConfig::Msaa16));
                    tables.msaa16 = true;
                }
                true
            },
        };
        let source: TextureSlot = if has_out_image {
            TextureSlot::OutImage
        } else {
            TextureSlot::FilterLayer(0)
        };
        let width: u32 = output.width(frame.0);
        let height: u32 = output.height(frame.1);
        assert(output.spec_size((frame.0, frame.1)) == output.spec_size(frame));
        push_clears(
            &mut commands,
            effects.len() > 0,
            shaders.filter_pass,
            width,
            height,
            output.kind(),
            source,
        );
        commands.push(
            Command::Dispatch {
                shader,
                grid: Grid::Direct((wg.0, wg.1, 1)),
                bindings: BindingList::Fine { output: output.kind(), mask_lut },
                push_tail: None,
            },
        );
        commands
    }

    /// Takes the buffer sizes of the last robust frame out of the render.
    pub fn take_captured_buffers(&mut self) -> (c: Option<CapturedBuffers>)
        ensures
            c == old(self).captured_buffers,
            *final(self) == (Render { captured_buffers: None, ..*old(self) }),
    {
        self.captured_buffers.take()
    }
}

/// The uniform of a filter pass and the handle of the buffer that holds it.
#[derive(Clone, Copy, Debug)]
pub struct CachedUniform {
    pub uniform: FilterUniform,
    pub buffer: u64,
}

/// Where a filter pass gets its uniform from.
#[derive(Clone, Copy, Debug, PartialEq, Eq, Structural)]
pub enum UniformSource {
    /// The buffer of the same pass of the last frame holds it already.
    Reuse(u64),
    /// The pass has changed: that buffer goes back to the pool, and a new one is uploaded.
    Replace(u64),
    /// There is no buffer for the pass yet.
    Upload,
}

/// The buffers of the filter passes of the last frame, by the place of the pass in the frame.
pub struct FilterUniformCache {
    pub slots: Vec<Option<CachedUniform>>,
    /// Place of the next pass of this frame.
    pub next: usize,
}

impl FilterUniformCache {
    /// What the cache holds for a place.
    pub open spec fn entry(self, slot: int) -> Option<CachedUniform> {
        if slot < self.slots@.len() {
            self.slots@[slot]
        } else {
            None
        }
    }

    /// Where the next pass gets its uniform from.
    pub open spec fn source_of(self, uniform: FilterUniform) -> UniformSource {
        match self.entry(self.next as int) {
            Some(cached) => if cached.uniform.same_pass(uniform) {
                UniformSource::Reuse(cached.buffer)
            } else {
                UniformSource::Replace(cached.buffer)
            },
            None => UniformSource::Upload,
        }
    }

    /// Starts over with the first pass of a frame.
    pub fn restart(&mut self)
        ensures
            *final(self) == (FilterUniformCache { next: 0, ..*old(self) }),
    {
        self.next = 0;
    }

    /// Decides where the next pass gets its uniform from, and takes the buffer out of the cache.
    pub fn take(&mut self, uniform: &FilterUniform) -> (source: UniformSource)
        ensures
            source == old(self).source_of(*uniform),
            final(self).next == old(self).next,
            final(self).slots@ == (if old(self).next < old(self).slots@.len() {
                old(self).slots@.update(old(self).next as int, None)
            } else {
                old(self).slots@
            }),
    {
        let slot: usize = self.next;
        if slot >= self.slots.len() {
            return UniformSource::Upload;
        }
        let cached: Option<CachedUniform> = self.slots[slot];
        self.slots.set(slot, None);
        match cached {
            Some(c) => if c.uniform.matches(uniform) {
                UniformSource::Reuse(c.buffer)
            } else {
                UniformSource::Replace(c.buffer)
            },
            None => UniformSource::Upload,
        }
    }

    /// Puts the buffer that holds the uniform of the pass into the cache, and goes on to the next
    /// pass.
    pub fn put(&mut self, uniform: FilterUniform, buffer: u64)
        requires
            old(self).next < usize::MAX,
        ensures
            final(self).next == old(self).next + 1,
            final(self).entry(old(self).next as int) == Some(CachedUniform { uniform, buffer }),
            final(self).slots@.len() == (if old(self).slots@.len() > old(self).next {
                old(self).slots@.len()
            } else {
                old(self).next as nat + 1
            }),
            forall|i: int|
                0 <= i < final(self).slots@.len() ==> (#[trigger] final(self).slots@[i]) == (if i == old(self).next {
                    Some(CachedUniform { uniform, buffer })
                } else {
                    old(self).entry(i)
                }),
    {
        let slot: usize = self.next;
        let ghost before = self.slots@;
        self.next = slot + 1;
        let entry: Option<CachedUniform> = Some(CachedUniform { uniform, buffer });
        if slot < self.slots.len() {
            self.slots.set(slot, entry);
        } else {
            while self.slots.len() < slot
                invariant
                    self.next == slot + 1,
                    before.len() <= self.slots@.len() <= slot,
                    forall|i: int|
                        0 <= i < self.slots@.len() ==> (#[trigger] self.slots@[i]) == (if i < before.len() {
                            before[i]
                        } else {
                            None
                        }),
                decreases slot - self.slots.len(),
            {
                self.slots.push(None);
            }
            self.slots.push(entry);
        }
    }

    /// Forgets the buffers behind the passes of this frame, and returns their handles.
    pub fn trim(&mut self) -> (released: Vec<u64>)
        ensures
            final(self).next == old(self).next,
            final(self).slots@ == (if old(self).next < old(self).slots@.len() {
                old(self).slots@.take(old(self).next as int)
            } else {
                old(self).slots@
            }),
            released@ == handles_from(old(self).slots@, old(self).next as int),
    {
        let mut released: Vec<u64> = Vec::new();
        let mut i: usize = self.next;
        let n: usize = self.slots.len();
        let ghost all = self.slots@;
        while i < n
            invariant
                self.next == old(self).next,
                self.slots@ == all,
                n == all.len(),
                released@ + handles_from(all, i as int) == handles_from(all, self.next as int),
            decreases n - i,
        {
            let ghost gone = released@;
            if let Some(cached) = self.slots[i] {
                released.push(cached.buffer);
            }
            proof {
                let rest = handles_from(all, i as int + 1);
                if all[i as int] is Some {
                    assert(released@ + rest =~= gone + handles_from(all, i as int));
                } else {
                    assert(released@ + rest =~= gone + handles_from(all, i as int));
                }
            }
            i = i + 1;
        }
        assert(released@ =~= handles_from(all, self.next as int));
        if self.next < self.slots.len() {
            self.slots.truncate(self.next);
        }
        released
    }
}

/// The handles of the buffers that are cached from a place on.
pub open spec fn handles_from(slots: Seq<Option<CachedUniform>>, from: int) -> Seq<u64>
    decreases slots.len() - from,
{
    if from >= slots.len() {
        seq![]
    } else {
        (match slots[from] {
            Some(cached) => seq![cached.buffer],
            None => seq![],
        }) + handles_from(slots, from + 1)
    }
}

/// A pass that was put into the cache is reused by the next frame that asks for the same pass in
/// the same place.
pub proof fn same_pass_is_reused(cache: FilterUniformCache, slot: int, uniform: FilterUniform, buffer: u64)
    requires
        cache.entry(slot) == Some(CachedUniform { uniform, buffer }),
        cache.next == slot,
        uniform.same_pass(uniform),
    ensures
        cache.source_of(uniform) == UniformSource::Reuse(buffer),
{
}

} // verus!
