//! Turns a configured scene into the requests that render it, with dispatch sizes that the host
//! knows or that a setup shader writes on the GPU.

use crate::config::{
    BufferSizes, RenderConfig, WorkgroupCounts, WorkgroupCountsGpu, WorkgroupSize, STAGE_BACKDROP, STAGE_BBOX_CLEAR,
    STAGE_BINNING, STAGE_CLIP_LEAF, STAGE_CLIP_REDUCE, STAGE_COARSE, STAGE_DRAW_LEAF, STAGE_DRAW_REDUCE, STAGE_FLATTEN,
    STAGE_PATHTAG_REDUCE, STAGE_PATHTAG_REDUCE2, STAGE_PATHTAG_SCAN, STAGE_PATHTAG_SCAN1, STAGE_PATHTAG_SCAN_LARGE,
    STAGE_PATH_COUNT, STAGE_PATH_TILING, STAGE_TILE_ALLOC, N_INDIRECT_STAGES,
};
use crate::filter::LayerFilterEffect;
use crate::filter_passes::{clear_commands, push_clears};
use crate::math::{ceil_div, min_int, min_u32};
use crate::recording::{BindingList, Command, Grid, OutputKind, TextureSlot};
use crate::resource_proxy::ShaderId;
use crate::shaders::{FullShaders, Stage};
use crate::{AaConfig, RenderParams};
use vstd::prelude::*;

verus! {

/// Max flatten workgroups per queue submit. Large single dispatches can exceed the
/// GPU timeout of some systems on stressed dashed paths.
pub const MAX_FLATTEN_WG_PER_SUBMIT: u32 = 8;

/// Threads per flatten workgroup.
pub const FLATTEN_THREADS_PER_GROUP: u32 = 256;

/// Bytes of one stage's entry of the indirect dispatch buffer.
pub const INDIRECT_STRIDE: u64 = 16;

/// Buffer sizes of a frame, kept for debug visualization.
#[derive(Clone, Copy)]
pub struct CapturedBuffers {
    pub sizes: BufferSizes,
}

/// State for a render in progress.
pub struct Render {
    /// Workgroups of fine rasterization, between the coarse phase and the fine phase.
    pub fine_wg_count: Option<WorkgroupSize>,
    pub aa_config: AaConfig,
    /// The multisampling method whose mask table was uploaded; the table is reused while this
    /// render lives.
    pub mask_lut: Option<AaConfig>,
    pub captured_buffers: Option<CapturedBuffers>,
}

/// The coarse phase: the counts to upload and the requests in order.
pub struct CoarsePlan {
    pub counts: WorkgroupCountsGpu,
    pub commands: Vec<Command>,
}

/// The bins of the target do not fit the coarse rasterizer.
pub open spec fn spec_too_large(wg: WorkgroupSize) -> bool {
    wg.0 * wg.1 * wg.2 > 256
}

/// Whether the target has more bins than the coarse rasterizer can paint.
pub fn too_large(wg: WorkgroupSize) -> (b: bool)
    ensures
        b == spec_too_large(wg),
{
    assert(wg.0 * wg.1 * wg.2 <= 0xffff_ffff * 0xffff_ffff * 0xffff_ffff) by (nonlinear_arith)
        requires
            0 <= wg.0 <= 0xffff_ffff,
            0 <= wg.1 <= 0xffff_ffff,
            0 <= wg.2 <= 0xffff_ffff,
    ;
    assert(wg.0 * wg.1 <= 0xffff_ffff * 0xffff_ffff) by (nonlinear_arith)
        requires
            0 <= wg.0 <= 0xffff_ffff,
            0 <= wg.1 <= 0xffff_ffff,
    ;
    (wg.0 as u128) * (wg.1 as u128) * (wg.2 as u128) > 256
}

/// A stage that runs at a size from the indirect buffer, or else at a size that the host knows.
pub open spec fn staged(indirect: bool, shader: ShaderId, stage: Stage, index: u32, wg: WorkgroupSize) -> Command {
    Command::Dispatch {
        shader,
        grid: if indirect {
            Grid::Indirect { offset: (index * INDIRECT_STRIDE) as u64 }
        } else {
            Grid::Direct(wg)
        },
        bindings: BindingList::Coarse { stage, units: false },
        push_tail: None,
    }
}

/// Requests a stage.
fn dispatch_stage(
    commands: &mut Vec<Command>,
    indirect: bool,
    shader: ShaderId,
    stage: Stage,
    index: u32,
    wg: WorkgroupSize,
)
    requires
        index < N_INDIRECT_STAGES,
    ensures
        final(commands)@ == old(commands)@.push(staged(indirect, shader, stage, index, wg)),
{
    let grid: Grid = if indirect {
        Grid::Indirect { offset: (index as u64) * INDIRECT_STRIDE }
    } else {
        Grid::Direct(wg)
    };
    commands.push(
        Command::Dispatch { shader, grid, bindings: BindingList::Coarse { stage, units: false }, push_tail: None },
    );
}

/// The requests that let a shader write the dispatch sizes.
pub open spec fn setup_commands(setup: ShaderId, indirect_bytes: u64) -> Seq<Command> {
    seq![
        Command::UploadCounts,
        Command::AllocIndirect { size: indirect_bytes, stride: 16 },
        staged(false, setup, Stage::PipelineSetup, 0, (1, 1, 1)),
        Command::ReleaseCounts,
    ]
}

/// The prefix sum over the path tags. Where the GPU knows the sizes, the small and the large scan
/// are both requested, and one of them has size zero.
pub open spec fn scan_commands(indirect: bool, large: bool, shaders: FullShaders, wg: WorkgroupCounts) -> Seq<Command> {
    let reduce2 = staged(
        indirect,
        shaders.pathtag_reduce2,
        Stage::PathtagReduce2,
        STAGE_PATHTAG_REDUCE2,
        wg.path_reduce2,
    );
    let scan1 = staged(indirect, shaders.pathtag_scan1, Stage::PathtagScan1, STAGE_PATHTAG_SCAN1, wg.path_scan1);
    let scan = staged(indirect, shaders.pathtag_scan, Stage::PathtagScan, STAGE_PATHTAG_SCAN, wg.path_scan);
    let scan_large = staged(
        indirect,
        shaders.pathtag_scan_large,
        Stage::PathtagScanLarge,
        STAGE_PATHTAG_SCAN_LARGE,
        wg.path_scan,
    );
    if indirect {
        seq![reduce2, scan1, scan, scan_large]
    } else if large {
        seq![reduce2, scan1, scan_large]
    } else {
        seq![scan]
    }
}

/// Workgroups of a chunk of a flatten dispatch of `total` workgroups.
pub open spec fn chunk_size(total: u32, chunk: int) -> int {
    min_int(total - chunk * MAX_FLATTEN_WG_PER_SUBMIT, MAX_FLATTEN_WG_PER_SUBMIT as int)
}

/// The first thread of a chunk.
pub open spec fn chunk_base(chunk: int) -> int {
    chunk * MAX_FLATTEN_WG_PER_SUBMIT * FLATTEN_THREADS_PER_GROUP
}

/// Flattening in chunks that each stay within the limit of one submit.
pub open spec fn flatten_chunks(shader: ShaderId, units: bool, total: u32) -> Seq<Command> {
    Seq::new(
        ceil_div(total as int, MAX_FLATTEN_WG_PER_SUBMIT as int) as nat,
        |k: int|
            Command::Dispatch {
                shader,
                grid: Grid::Direct((chunk_size(total, k) as u32, 1, 1)),
                bindings: BindingList::Coarse { stage: Stage::Flatten, units },
                push_tail: Some(chunk_base(k) as u32),
            },
    )
}

/// The chunks of a flatten dispatch cover its threads without gap or overlap: the first chunk
/// starts at thread 0, each chunk starts where the one before it ends, the last one ends with
/// the last thread, and none is empty or larger than the limit.
pub proof fn flatten_chunks_cover(total: u32)
    requires
        total > 0,
    ensures
        chunk_base(0) == 0,
        forall|k: int|
            0 <= k < ceil_div(total as int, MAX_FLATTEN_WG_PER_SUBMIT as int) ==> 0 < #[trigger] chunk_size(total, k)
                <= MAX_FLATTEN_WG_PER_SUBMIT,
        forall|k: int|
            0 <= k < ceil_div(total as int, MAX_FLATTEN_WG_PER_SUBMIT as int) - 1 ==> chunk_base(k + 1) == chunk_base(k)
                + (#[trigger] chunk_size(total, k)) * FLATTEN_THREADS_PER_GROUP,
        ({
            let last = ceil_div(total as int, MAX_FLATTEN_WG_PER_SUBMIT as int) - 1;
            chunk_base(last) + chunk_size(total, last) * FLATTEN_THREADS_PER_GROUP == total * FLATTEN_THREADS_PER_GROUP
        }),
{
}

/// Requests flattening in chunks.
pub(crate) fn push_flatten_chunks(commands: &mut Vec<Command>, shader: ShaderId, units: bool, total: u32)
    requires
        total <= 0x100_0000,
    ensures
        final(commands)@ == old(commands)@ + flatten_chunks(shader, units, total),
{
    let ghost plan = flatten_chunks(shader, units, total);
    let mut base_wg: u32 = 0;
    let ghost mut k: int = 0;
    assert(commands@ =~= old(commands)@ + plan.take(0));
    while base_wg < total
        invariant
            total <= 0x100_0000,
            plan == flatten_chunks(shader, units, total),
            0 <= k <= plan.len(),
            base_wg == min_int(k * 8, total as int),
            commands@ == old(commands)@ + plan.take(k),
        decreases total - base_wg,
    {
        let chunk: u32 = min_u32(total - base_wg, MAX_FLATTEN_WG_PER_SUBMIT);
        let thread_base: u32 = base_wg * FLATTEN_THREADS_PER_GROUP;
        commands.push(
            Command::Dispatch {
                shader,
                grid: Grid::Direct((chunk, 1, 1)),
                bindings: BindingList::Coarse { stage: Stage::Flatten, units },
                push_tail: Some(thread_base),
            },
        );
        assert(k < plan.len());
        assert(plan.take(k + 1) =~= plan.take(k).push(plan[k]));
        assert(commands@ =~= old(commands)@ + plan.take(k + 1));
        base_wg = base_wg + chunk;
        proof {
            k = k + 1;
        }
    }
    assert(plan.take(k) =~= plan);
}

/// Flattening of the paths into lines.
pub open spec fn flatten_commands(indirect: bool, shaders: FullShaders, wg: WorkgroupCounts) -> Seq<Command> {
    if wg.flatten.0 > MAX_FLATTEN_WG_PER_SUBMIT {
        flatten_chunks(shaders.flatten, false, wg.flatten.0)
    } else if indirect {
        seq![staged(true, shaders.flatten, Stage::Flatten, STAGE_FLATTEN, wg.flatten)]
    } else {
        seq![
            Command::Dispatch {
                shader: shaders.flatten,
                grid: Grid::Direct(wg.flatten),
                bindings: BindingList::Coarse { stage: Stage::Flatten, units: false },
                push_tail: Some(0),
            },
        ]
    }
}

/// The clip stages. Where the host knows the sizes, a stage of size zero is left out.
pub open spec fn clip_commands(indirect: bool, shaders: FullShaders, wg: WorkgroupCounts) -> Seq<Command> {
    (if indirect || wg.clip_reduce.0 > 0 {
        seq![staged(indirect, shaders.clip_reduce, Stage::ClipReduce, STAGE_CLIP_REDUCE, wg.clip_reduce)]
    } else {
        seq![]
    }) + (if indirect || wg.clip_leaf.0 > 0 {
        seq![staged(indirect, shaders.clip_leaf, Stage::ClipLeaf, STAGE_CLIP_LEAF, wg.clip_leaf)]
    } else {
        seq![]
    })
}

/// A stage whose size the GPU always writes itself: into that stage's own entry where all sizes
/// are on the GPU, and else into the start of the buffer.
pub open spec fn sized_on_gpu(indirect: bool, shader: ShaderId, stage: Stage, index: u32) -> Command {
    Command::Dispatch {
        shader,
        grid: Grid::Indirect {
            offset: if indirect {
                (index * INDIRECT_STRIDE) as u64
            } else {
                0
            },
        },
        bindings: BindingList::Coarse { stage, units: false },
        push_tail: None,
    }
}

fn push_sized_on_gpu(commands: &mut Vec<Command>, indirect: bool, shader: ShaderId, stage: Stage, index: u32)
    requires
        index < N_INDIRECT_STAGES,
    ensures
        final(commands)@ == old(commands)@.push(sized_on_gpu(indirect, shader, stage, index)),
{
    let offset: u64 = if indirect {
        (index as u64) * INDIRECT_STRIDE
    } else {
        0
    };
    commands.push(
        Command::Dispatch {
            shader,
            grid: Grid::Indirect { offset },
            bindings: BindingList::Coarse { stage, units: false },
            push_tail: None,
        },
    );
}

/// Binning, tile allocation, and everything up to the segments of the tiles.
pub open spec fn tile_commands(indirect: bool, shaders: FullShaders, wg: WorkgroupCounts) -> Seq<Command> {
    seq![
        staged(indirect, shaders.binning, Stage::Binning, STAGE_BINNING, wg.binning),
        staged(indirect, shaders.tile_alloc, Stage::TileAlloc, STAGE_TILE_ALLOC, wg.tile_alloc),
        staged(false, shaders.path_count_setup, Stage::PathCountSetup, 0, wg.path_count_setup),
        sized_on_gpu(indirect, shaders.path_count, Stage::PathCount, STAGE_PATH_COUNT),
        staged(indirect, shaders.backdrop, Stage::Backdrop, STAGE_BACKDROP, wg.backdrop),
        staged(indirect, shaders.coarse, Stage::Coarse, STAGE_COARSE, wg.coarse),
        staged(false, shaders.path_tiling_setup, Stage::PathTilingSetup, 0, wg.path_tiling_setup),
        sized_on_gpu(indirect, shaders.path_tiling, Stage::PathTiling, STAGE_PATH_TILING),
    ]
}

/// The requests of the coarse phase. With a setup shader, the sizes of the dispatches are taken
/// from the indirect buffer that it fills.
pub open spec fn coarse_commands(
    setup: Option<ShaderId>,
    pathtag_is_cpu: bool,
    shaders: FullShaders,
    wg: WorkgroupCounts,
    indirect_bytes: u64,
) -> Seq<Command> {
    let indirect = setup is Some;
    let large = wg.use_large_path_scan && !pathtag_is_cpu;
    (match setup {
        Some(id) => setup_commands(id, indirect_bytes),
        None => seq![],
    }) + seq![staged(indirect, shaders.pathtag_reduce, Stage::PathtagReduce, STAGE_PATHTAG_REDUCE, wg.path_reduce)]
        + scan_commands(indirect, large, shaders, wg) + seq![
        staged(indirect, shaders.bbox_clear, Stage::BboxClear, STAGE_BBOX_CLEAR, wg.bbox_clear),
    ] + flatten_commands(indirect, shaders, wg) + seq![
        staged(indirect, shaders.draw_reduce, Stage::DrawReduce, STAGE_DRAW_REDUCE, wg.draw_reduce),
        staged(indirect, shaders.draw_leaf, Stage::DrawLeaf, STAGE_DRAW_LEAF, wg.draw_leaf),
    ] + clip_commands(indirect, shaders, wg) + tile_commands(indirect, shaders, wg)
}

impl Default for Render {
    fn default() -> (r: Self)
        ensures
            r == (Render { fine_wg_count: None, aa_config: AaConfig::Area, mask_lut: None, captured_buffers: None }),
    {
        Render::new()
    }
}

impl Render {
    pub fn new() -> (r: Self)
        ensures
            r == (Render { fine_wg_count: None, aa_config: AaConfig::Area, mask_lut: None, captured_buffers: None }),
    {
        Render { fine_wg_count: None, aa_config: AaConfig::Area, mask_lut: None, captured_buffers: None }
    }

    fn push_scan(
        commands: &mut Vec<Command>,
        indirect: bool,
        large: bool,
        shaders: &FullShaders,
        wg: &WorkgroupCounts,
    )
        ensures
            final(commands)@ == old(commands)@ + scan_commands(indirect, large, *shaders, *wg),
    {
        if indirect || large {
            dispatch_stage(
                commands,
                indirect,
                shaders.pathtag_reduce2,
                Stage::PathtagReduce2,
                STAGE_PATHTAG_REDUCE2,
                wg.path_reduce2,
            );
            dispatch_stage(
                commands,
                indirect,
                shaders.pathtag_scan1,
                Stage::PathtagScan1,
                STAGE_PATHTAG_SCAN1,
                wg.path_scan1,
            );
        }
        if indirect || !large {
            dispatch_stage(
                commands,
                indirect,
                shaders.pathtag_scan,
                Stage::PathtagScan,
                STAGE_PATHTAG_SCAN,
                wg.path_scan,
            );
        }
        if indirect || large {
            dispatch_stage(
                commands,
                indirect,
                shaders.pathtag_scan_large,
                Stage::PathtagScanLarge,
                STAGE_PATHTAG_SCAN_LARGE,
                wg.path_scan,
            );
        }
        assert(commands@ =~= old(commands)@ + scan_commands(indirect, large, *shaders, *wg));
    }

    fn push_flatten(commands: &mut Vec<Command>, indirect: bool, shaders: &FullShaders, wg: &WorkgroupCounts)
        requires
            wg.flatten.0 <= 0x100_0000,
        ensures
            final(commands)@ == old(commands)@ + flatten_commands(indirect, *shaders, *wg),
    {
        if wg.flatten.0 > MAX_FLATTEN_WG_PER_SUBMIT {
            push_flatten_chunks(commands, shaders.flatten, false, wg.flatten.0);
        } else if indirect {
            dispatch_stage(commands, true, shaders.flatten, Stage::Flatten, STAGE_FLATTEN, wg.flatten);
        } else {
            commands.push(
                Command::Dispatch {
                    shader: shaders.flatten,
                    grid: Grid::Direct(wg.flatten),
                    bindings: BindingList::Coarse { stage: Stage::Flatten, units: false },
                    push_tail: Some(0),
                },
            );
        }
        assert(commands@ =~= old(commands)@ + flatten_commands(indirect, *shaders, *wg));
    }

    fn push_clips(commands: &mut Vec<Command>, indirect: bool, shaders: &FullShaders, wg: &WorkgroupCounts)
        ensures
            final(commands)@ == old(commands)@ + clip_commands(indirect, *shaders, *wg),
    {
        if indirect || wg.clip_reduce.0 > 0 {
            dispatch_stage(
                commands,
                indirect,
                shaders.clip_reduce,
                Stage::ClipReduce,
                STAGE_CLIP_REDUCE,
                wg.clip_reduce,
            );
        }
        if indirect || wg.clip_leaf.0 > 0 {
            dispatch_stage(commands, indirect, shaders.clip_leaf, Stage::ClipLeaf, STAGE_CLIP_LEAF, wg.clip_leaf);
        }
        assert(commands@ =~= old(commands)@ + clip_commands(indirect, *shaders, *wg));
    }

    fn push_tiles(commands: &mut Vec<Command>, indirect: bool, shaders: &FullShaders, wg: &WorkgroupCounts)
        ensures
            final(commands)@ == old(commands)@ + tile_commands(indirect, *shaders, *wg),
    {
        dispatch_stage(commands, indirect, shaders.binning, Stage::Binning, STAGE_BINNING, wg.binning);
        dispatch_stage(commands, indirect, shaders.tile_alloc, Stage::TileAlloc, STAGE_TILE_ALLOC, wg.tile_alloc);
        dispatch_stage(commands, false, shaders.path_count_setup, Stage::PathCountSetup, 0, wg.path_count_setup);
        push_sized_on_gpu(commands, indirect, shaders.path_count, Stage::PathCount, STAGE_PATH_COUNT);
        dispatch_stage(commands, indirect, shaders.backdrop, Stage::Backdrop, STAGE_BACKDROP, wg.backdrop);
        dispatch_stage(commands, indirect, shaders.coarse, Stage::Coarse, STAGE_COARSE, wg.coarse);
        dispatch_stage(commands, false, shaders.path_tiling_setup, Stage::PathTilingSetup, 0, wg.path_tiling_setup);
        push_sized_on_gpu(commands, indirect, shaders.path_tiling, Stage::PathTiling, STAGE_PATH_TILING);
        assert(commands@ =~= old(commands)@ + tile_commands(indirect, *shaders, *wg));
    }

    /// Plans the coarse rasterization phase.
    pub fn run_coarse(
        &mut self,
        setup: Option<ShaderId>,
        pathtag_is_cpu: bool,
        shaders: &FullShaders,
        params: &RenderParams,
        robust: bool,
        config: &RenderConfig,
    ) -> (plan: CoarsePlan)
        requires
            config.buffer_sizes.indirect_count.bytes() <= u32::MAX,
            config.workgroup_counts.flatten.0 <= 0x100_0000,
        ensures
            plan.commands@ == coarse_commands(
                setup,
                pathtag_is_cpu,
                *shaders,
                config.workgroup_counts,
                config.buffer_sizes.indirect_count.bytes() as u64,
            ),
            plan.counts.lays_out(config.workgroup_counts),
            *final(self) == (Render {
                fine_wg_count: Some(config.workgroup_counts.fine),
                aa_config: params.antialiasing_method,
                captured_buffers: if robust {
                    Some(CapturedBuffers { sizes: config.buffer_sizes })
                } else {
                    old(self).captured_buffers
                },
                ..*old(self)
            }),
    {
        let wg: &WorkgroupCounts = &config.workgroup_counts;
        let counts: WorkgroupCountsGpu = WorkgroupCountsGpu::from(wg);
        let mut commands: Vec<Command> = Vec::new();
        let indirect: bool = setup.is_some();
        if let Some(id) = setup {
            let size: u64 = config.buffer_sizes.indirect_count.size_in_bytes() as u64;
            commands.push(Command::UploadCounts);
            commands.push(Command::AllocIndirect { size, stride: 16 });
            dispatch_stage(&mut commands, false, id, Stage::PipelineSetup, 0, (1, 1, 1));
            commands.push(Command::ReleaseCounts);
        }
        let large: bool = wg.use_large_path_scan && !pathtag_is_cpu;
        dispatch_stage(
            &mut commands,
            indirect,
            shaders.pathtag_reduce,
            Stage::PathtagReduce,
            STAGE_PATHTAG_REDUCE,
            wg.path_reduce,
        );
        Self::push_scan(&mut commands, indirect, large, shaders, wg);
        dispatch_stage(
            &mut commands,
            indirect,
            shaders.bbox_clear,
            Stage::BboxClear,
            STAGE_BBOX_CLEAR,
            wg.bbox_clear,
        );
        Self::push_flatten(&mut commands, indirect, shaders, wg);
        dispatch_stage(
            &mut commands,
            indirect,
            shaders.draw_reduce,
            Stage::DrawReduce,
            STAGE_DRAW_REDUCE,
            wg.draw_reduce,
        );
        dispatch_stage(&mut commands, indirect, shaders.draw_leaf, Stage::DrawLeaf, STAGE_DRAW_LEAF, wg.draw_leaf);
        Self::push_clips(&mut commands, indirect, shaders, wg);
        Self::push_tiles(&mut commands, indirect, shaders, wg);
        assert(commands@ =~= coarse_commands(
            setup,
            pathtag_is_cpu,
            *shaders,
            *wg,
            config.buffer_sizes.indirect_count.bytes() as u64,
        ));
        self.fine_wg_count = Some(wg.fine);
        self.aa_config = params.antialiasing_method;
        if robust {
            self.captured_buffers = Some(CapturedBuffers { sizes: config.buffer_sizes });
        }
        CoarsePlan { counts, commands }
    }

    /// Plans fine rasterization after the coarse phase, into a texture of `width` by `height`
    /// pixels.
    ///
    /// The mask table of a multisampling method is uploaded with the first frame that needs one.
    pub fn record_fine(
        &mut self,
        effects: &[LayerFilterEffect],
        shaders: &FullShaders,
        width: u32,
        height: u32,
    ) -> (commands: Vec<Command>)
        requires
            old(self).fine_wg_count is Some,
            shaders.id(FullShaders::fine_stage(old(self).aa_config)) is Some,
        ensures
            final(self).mask_lut == (if old(self).aa_config is Area || old(self).mask_lut is Some {
                old(self).mask_lut
            } else {
                Some(old(self).aa_config)
            }),
            *final(self) == (Render { fine_wg_count: None, mask_lut: final(self).mask_lut, ..*old(self) }),
            commands@.len() > 0,
            commands@.last() matches Command::Dispatch { shader, grid, bindings, push_tail } && {
                &&& push_tail is None
                &&& match old(self).aa_config {
                    AaConfig::Area => shaders.fine_area == Some(shader),
                    AaConfig::Msaa8 => shaders.fine_msaa8 == Some(shader),
                    AaConfig::Msaa16 => shaders.fine_msaa16 == Some(shader),
                }
                &&& grid matches Grid::Direct(size) && (old(self).fine_wg_count matches Some(wg) && size.0 == wg.0
                    && size.1 == wg.1 && size.2 == 1)
                &&& bindings matches BindingList::Fine { output, mask_lut } && output is Texture && (mask_lut
                    <==> final(self).mask_lut is Some)
            },
            commands@[0] is UploadMaskLut <==> !(old(self).aa_config is Area) && old(self).mask_lut is None,
            !(old(self).aa_config is Area) ==> final(self).mask_lut is Some,
            commands@ == (if final(self).mask_lut == old(self).mask_lut {
                seq![]
            } else {
                seq![Command::UploadMaskLut(old(self).aa_config)]
            }) + clear_commands(
                effects@.len() > 0,
                shaders.filter_pass,
                width,
                height,
                OutputKind::Texture,
                TextureSlot::Output,
            ) + seq![
                Command::Dispatch {
                    shader: shaders.id(FullShaders::fine_stage(old(self).aa_config)).unwrap(),
                    grid: Grid::Direct((old(self).fine_wg_count.unwrap().0, old(self).fine_wg_count.unwrap().1, 1)),
                    bindings: BindingList::Fine {
                        output: OutputKind::Texture,
                        mask_lut: final(self).mask_lut is Some,
                    },
                    push_tail: None,
                },
            ],
    {
        let wg: WorkgroupSize = self.fine_wg_count.take().unwrap();
        let shader: ShaderId = shaders.fine(self.aa_config).unwrap();
        let mut commands: Vec<Command> = Vec::new();
        match self.aa_config {
            AaConfig::Area => {},
            AaConfig::Msaa8 | AaConfig::Msaa16 => {
                if self.mask_lut.is_none() {
                    commands.push(Command::UploadMaskLut(self.aa_config));
                    self.mask_lut = Some(self.aa_config);
                }
            },
        }
        push_clears(
            &mut commands,
            effects.len() > 0,
            shaders.filter_pass,
            width,
            height,
            OutputKind::Texture,
            TextureSlot::Output,
        );
        commands.push(
            Command::Dispatch {
                shader,
                grid: Grid::Direct((wg.0, wg.1, 1)),
                bindings: BindingList::Fine { output: OutputKind::Texture, mask_lut: self.mask_lut.is_some() },
                push_tail: None,
            },
        );
        commands
    }

    /// Takes the buffer sizes of the last robust frame out of the render.
    pub fn take_captured_buffers(&mut self) -> (c: Option<CapturedBuffers>)
        ensures
            c == old(self).captured_buffers,
            *final(self) == (Render { captured_buffers: None, ..*old(self) }),
    {
        self.captured_buffers.take()
    }
}

/// An offset into the indirect buffer leaves room for a whole entry.
pub open spec fn offset_in_buffer(command: Command, bytes: int) -> bool {
    command matches Command::Dispatch { grid: Grid::Indirect { offset }, .. } ==> offset + INDIRECT_STRIDE <= bytes
}

/// With an indirect buffer that has an entry for every stage, no dispatch of the coarse phase takes
/// its size from outside of the buffer.
pub proof fn offsets_stay_in_buffer(
    setup: Option<ShaderId>,
    pathtag_is_cpu: bool,
    shaders: FullShaders,
    wg: WorkgroupCounts,
    indirect_bytes: u64,
    i: int,
)
    requires
        indirect_bytes >= N_INDIRECT_STAGES * INDIRECT_STRIDE,
        0 <= i < coarse_commands(setup, pathtag_is_cpu, shaders, wg, indirect_bytes).len(),
    ensures
        offset_in_buffer(
            coarse_commands(setup, pathtag_is_cpu, shaders, wg, indirect_bytes)[i],
            indirect_bytes as int,
        ),
{
}

} // verus!
