//! What the dispatches of a frame amount to: each stage runs its own shader, on its own buffers, at its own
//! size, after the stages whose results it reads.

use crate::config::{
    BufferSizes, WorkgroupCounts, WorkgroupCountsGpu, STAGE_BBOX_CLEAR, STAGE_DRAW_LEAF, STAGE_DRAW_REDUCE,
    STAGE_PATHTAG_REDUCE,
};
use crate::math::ceil_div;
use crate::pipeline_resources::MadeResources;
use crate::recording::{
    coarse_bindings, fine_bindings, Binding, BindingList, Command, Grid, OutputKind, PipelineBuffer, SamplerSlot,
    TextureSlot,
};
use crate::render::{
    chunk_base, chunk_size, clip_commands, coarse_commands, flatten_chunks_cover, flatten_commands, scan_commands,
    setup_commands, staged, tile_commands,
};
use crate::resource_proxy::{NodeAccess, ShaderId};
use crate::scheme_gpu_resources::{PipelineResources, PreparePlan, ScratchPipelineBuffers, StablePipelineBuffers};
use crate::scheme_render::{draw_stages, flatten_stages, tag_stages, MaskTables};
use crate::shaders::{assembled, compile_order, compiled_stages, FullShaders, Stage};
use crate::sizing_laws::row_holds;
use crate::{AaConfig, Error};
use vstd::prelude::*;

verus! {

/// The slot in which a stage binds a buffer, and whether it writes the buffer.
pub open spec fn place_in(buffer: PipelineBuffer, stage: Stage) -> Option<(int, bool)> {
    match buffer {
        PipelineBuffer::Config => match stage {
            Stage::PathtagReduce | Stage::PathtagScan | Stage::PathtagScanLarge | Stage::BboxClear | Stage::Flatten | Stage::DrawReduce | Stage::DrawLeaf | Stage::ClipLeaf | Stage::Binning | Stage::TileAlloc | Stage::PathCount | Stage::Backdrop | Stage::Coarse => Some((0, false)),
            _ => None,
        },
        PipelineBuffer::Scene => match stage {
            Stage::PathtagReduce | Stage::PathtagScan | Stage::PathtagScanLarge | Stage::Flatten | Stage::DrawReduce | Stage::DrawLeaf | Stage::Binning | Stage::TileAlloc | Stage::Coarse => Some((1, false)),
            _ => None,
        },
        PipelineBuffer::Reduced => match stage {
            Stage::PathtagReduce => Some((2, true)),
            Stage::PathtagReduce2 | Stage::PathtagScan1 => Some((0, false)),
            Stage::PathtagScan => Some((2, false)),
            _ => None,
        },
        PipelineBuffer::Reduced2 => match stage {
            Stage::PathtagReduce2 => Some((1, true)),
            Stage::PathtagScan1 => Some((1, false)),
            _ => None,
        },
        PipelineBuffer::ReducedScan => match stage {
            Stage::PathtagScan1 => Some((2, true)),
            Stage::PathtagScanLarge => Some((2, false)),
            _ => None,
        },
        PipelineBuffer::TagMonoid => match stage {
            Stage::PathtagScan | Stage::PathtagScanLarge => Some((3, true)),
            Stage::Flatten => Some((2, false)),
            _ => None,
        },
        PipelineBuffer::PathBbox => match stage {
            Stage::BboxClear => Some((1, true)),
            Stage::Flatten => Some((3, true)),
            Stage::DrawLeaf | Stage::Binning => Some((3, false)),
            Stage::ClipReduce => Some((1, false)),
            Stage::ClipLeaf => Some((2, false)),
            _ => None,
        },
        PipelineBuffer::Bump => match stage {
            Stage::Flatten => Some((4, true)),
            Stage::Binning => Some((6, true)),
            Stage::TileAlloc => Some((3, true)),
            Stage::PathCountSetup | Stage::PathTilingSetup | Stage::PathTiling => Some((0, true)),
            Stage::PathCount | Stage::Backdrop => Some((1, true)),
            Stage::Coarse => Some((7, true)),
            _ => None,
        },
        PipelineBuffer::Lines => match stage {
            Stage::Flatten => Some((5, true)),
            Stage::PathCount | Stage::PathTiling => Some((2, false)),
            _ => None,
        },
        PipelineBuffer::DrawReduced => match stage {
            Stage::DrawReduce => Some((2, true)),
            Stage::DrawLeaf => Some((2, false)),
            _ => None,
        },
        PipelineBuffer::DrawMonoid => match stage {
            Stage::DrawLeaf => Some((4, true)),
            Stage::ClipLeaf => Some((5, true)),
            Stage::Binning | Stage::Coarse => Some((2, false)),
            _ => None,
        },
        PipelineBuffer::InfoBinData => match stage {
            Stage::DrawLeaf => Some((5, true)),
            Stage::Binning => Some((7, true)),
            Stage::Coarse => Some((4, false)),
            _ => None,
        },
        PipelineBuffer::ClipInp => match stage {
            Stage::DrawLeaf => Some((6, true)),
            Stage::ClipReduce => Some((0, false)),
            Stage::ClipLeaf => Some((1, false)),
            _ => None,
        },
        PipelineBuffer::ClipBic => match stage {
            Stage::ClipReduce => Some((2, true)),
            Stage::ClipLeaf => Some((3, false)),
            _ => None,
        },
        PipelineBuffer::ClipEl => match stage {
            Stage::ClipReduce => Some((3, true)),
            Stage::ClipLeaf => Some((4, false)),
            _ => None,
        },
        PipelineBuffer::ClipBbox => match stage {
            Stage::ClipLeaf => Some((6, true)),
            Stage::Binning => Some((4, false)),
            _ => None,
        },
        PipelineBuffer::DrawBbox => match stage {
            Stage::Binning => Some((5, true)),
            Stage::TileAlloc => Some((2, false)),
            _ => None,
        },
        PipelineBuffer::BinHeader => match stage {
            Stage::Binning => Some((8, true)),
            Stage::Coarse => Some((3, false)),
            _ => None,
        },
        PipelineBuffer::Path => match stage {
            Stage::TileAlloc => Some((4, true)),
            Stage::PathCount | Stage::PathTiling => Some((3, false)),
            Stage::Backdrop => Some((2, false)),
            Stage::Coarse => Some((5, false)),
            _ => None,
        },
        PipelineBuffer::Tile => match stage {
            Stage::TileAlloc => Some((5, true)),
            Stage::PathCount => Some((4, true)),
            Stage::Backdrop => Some((3, true)),
            Stage::Coarse => Some((6, true)),
            Stage::PathTiling => Some((4, false)),
            _ => None,
        },
        PipelineBuffer::SegCounts => match stage {
            Stage::PathCount => Some((5, true)),
            Stage::PathTiling => Some((1, false)),
            _ => None,
        },
        PipelineBuffer::Ptcl => match stage {
            Stage::Coarse => Some((8, true)),
            Stage::PathTilingSetup => Some((2, true)),
            _ => None,
        },
        PipelineBuffer::Segments => match stage {
            Stage::PathTiling => Some((5, true)),
            _ => None,
        },
        PipelineBuffer::WgCounts => match stage {
            Stage::PipelineSetup => Some((0, false)),
            _ => None,
        },
        PipelineBuffer::Indirect => match stage {
            Stage::PipelineSetup => Some((1, true)),
            _ => None,
        },
        _ => None,
    }
}

/// Each stage binds each buffer in the slot in which its shader looks for it, once, and can write it exactly
/// where it is one of the results of the stage. A setup stage writes the size of the stage that follows it:
/// into the whole indirect buffer, or into that stage's own entry.
pub proof fn buffers_are_in_their_slots(stage: Stage, units: bool, slot: int)
    requires
        stage.position() < 20,
        0 <= slot < coarse_bindings(stage, units).len(),
    ensures
        coarse_bindings(stage, units).len() == stage.spec_bind_types().len(),
        match coarse_bindings(stage, units)[slot] {
            Binding::Buf(buffer) => if buffer is Indirect && !(stage is PipelineSetup) {
                slot == 1 && !units && (stage is PathCountSetup || stage is PathTilingSetup)
                    && stage.spec_bind_types()[slot] is Buffer
            } else {
                place_in(buffer, stage) == Some((slot, stage.spec_bind_types()[slot] is Buffer))
            },
            Binding::Unit(row) => {
                &&& slot == 1 && units && stage.spec_bind_types()[slot] is Buffer
                &&& (stage is PathCountSetup && row == 14) || (stage is PathTilingSetup && row == 18)
            },
            _ => false,
        },
        stage.spec_bind_types()[slot] is Buffer || stage.spec_bind_types()[slot] is BufReadOnly,
{
}

/// Fine rasterization reads the configuration, the segments, the commands and the draw info, spills into
/// its own buffer, and writes the output. It samples the three atlases and writes all four filter layers.
/// The mask table stands behind the atlases, where there is one.
pub proof fn fine_binds_its_resources(output: OutputKind, mask_lut: bool)
    ensures
        ({
            let b = fine_bindings(output, mask_lut);
            let n: int = if mask_lut {
                10
            } else {
                9
            };
            &&& b.len() == n + 6
            &&& b[0] == Binding::Buf(PipelineBuffer::Config)
            &&& b[1] == Binding::Buf(PipelineBuffer::Segments)
            &&& b[2] == Binding::Buf(PipelineBuffer::Ptcl)
            &&& b[3] == Binding::Buf(PipelineBuffer::InfoBinData)
            &&& b[4] == Binding::Buf(PipelineBuffer::BlendSpill)
            &&& output is Texture ==> b[5] == Binding::Tex(TextureSlot::Output)
            &&& output is Present ==> b[5] == Binding::Present(NodeAccess::Write)
            &&& b[6] == Binding::Tex(TextureSlot::Gradient)
            &&& b[7] == Binding::Tex(TextureSlot::ImageAtlas)
            &&& b[8] == Binding::Tex(TextureSlot::MaskAtlas)
            &&& mask_lut ==> b[9] == Binding::Buf(PipelineBuffer::MaskLut)
            &&& forall|l: int| 0 <= l < 4 ==> #[trigger] b[n + l] == Binding::Tex(TextureSlot::FilterLayer(l as usize))
            &&& b[n + 4] == Binding::Sampler(SamplerSlot::LinearClamp)
            &&& b[n + 5] == Binding::Sampler(SamplerSlot::NearestClamp)
        }),
{
}

/// The size at which a stage runs, where the host knows it. Of the two ways to scan path tags, the one that
/// is not taken has size zero.
pub open spec fn run_size(wc: WorkgroupCounts, stage: Stage) -> Option<(u32, u32, u32)> {
    let large = wc.use_large_path_scan;
    let nothing = (0u32, 0u32, 0u32);
    match stage {
        Stage::PathtagReduce => Some(wc.path_reduce),
        Stage::PathtagReduce2 => Some(if large {
            wc.path_reduce2
        } else {
            nothing
        }),
        Stage::PathtagScan1 => Some(if large {
            wc.path_scan1
        } else {
            nothing
        }),
        Stage::PathtagScan => Some(if large {
            nothing
        } else {
            wc.path_scan
        }),
        Stage::PathtagScanLarge => Some(if large {
            wc.path_scan
        } else {
            nothing
        }),
        Stage::BboxClear => Some(wc.bbox_clear),
        Stage::Flatten => Some(wc.flatten),
        Stage::DrawReduce => Some(wc.draw_reduce),
        Stage::DrawLeaf => Some(wc.draw_leaf),
        Stage::ClipReduce => Some(wc.clip_reduce),
        Stage::ClipLeaf => Some(wc.clip_leaf),
        Stage::Binning => Some(wc.binning),
        Stage::TileAlloc => Some(wc.tile_alloc),
        Stage::PathCountSetup => Some(wc.path_count_setup),
        Stage::Backdrop => Some(wc.backdrop),
        Stage::Coarse => Some(wc.coarse),
        Stage::PathTilingSetup => Some(wc.path_tiling_setup),
        _ => None,
    }
}

/// The stage of a dispatch.
pub open spec fn stage_of(command: Command) -> Option<Stage> {
    match command {
        Command::Dispatch { bindings: BindingList::Coarse { stage, .. }, .. } => Some(stage),
        _ => None,
    }
}

/// The row of the indirect buffer holds the size of the stage, or is filled in by the setup stage before it.
pub open spec fn row_serves(gpu: WorkgroupCountsGpu, wc: WorkgroupCounts, stage: Stage, row: int) -> bool {
    match run_size(wc, stage) {
        Some(size) => row_holds(gpu, row, size),
        None => (stage is PathCount && coarse_bindings(Stage::PathCountSetup, true)[1] == Binding::Unit(row as u32)) || (
        stage is PathTiling && coarse_bindings(Stage::PathTilingSetup, true)[1] == Binding::Unit(row as u32)),
    }
}

/// The dispatch runs the shader of its stage, at the size of the stage: from its entry of the indirect
/// buffer, or directly for a setup stage. A large flatten stage is cut into chunks.
pub open spec fn runs_its_stage(
    command: Command,
    shaders: FullShaders,
    wc: WorkgroupCounts,
    gpu: WorkgroupCountsGpu,
) -> bool {
    command matches Command::Dispatch { shader, grid, bindings: BindingList::Coarse { stage, units }, push_tail } && {
        &&& units
        &&& shaders.id(stage) == Some(shader)
        &&& match grid {
            Grid::Unit { stage: row } => push_tail is None && row_serves(gpu, wc, stage, row as int),
            Grid::Direct(size) => if stage is Flatten {
                push_tail is Some && wc.flatten.0 > 8
            } else {
                &&& push_tail is None
                &&& stage is PathCountSetup || stage is PathTilingSetup
                &&& run_size(wc, stage) == Some(size)
            },
            Grid::Indirect { .. } => false,
        }
    }
}

/// The coarse phase of the retained renderer runs every stage once, in order, each with its own shader and at
/// its own size; only flattening may take several dispatches.
pub proof fn stages_run_in_order(shaders: FullShaders, wc: WorkgroupCounts, gpu: WorkgroupCountsGpu, k: int)
    requires
        gpu.lays_out(wc),
        wc.flatten.0 <= 0x100_0000,
        0 <= k < (tag_stages(shaders) + flatten_stages(shaders, wc) + draw_stages(shaders, wc)).len(),
    ensures
        ({
            let all = tag_stages(shaders) + flatten_stages(shaders, wc) + draw_stages(shaders, wc);
            let n = all.len() - 12;
            &&& runs_its_stage(all[k], shaders, wc, gpu)
            &&& 6 < n
            &&& wc.flatten.0 <= 8 ==> n == 7
            &&& wc.flatten.0 > 8 ==> 8 * (n - 6) - 8 < wc.flatten.0 <= 8 * (n - 6)
            &&& stage_of(all[k]) matches Some(stage) && stage.position() == (if k < 6 {
                k + 1
            } else if k < n {
                7
            } else {
                k - n + 8
            })
        }),
{
    crate::sizing_laws::stages_have_their_rows(gpu, wc);
    let a = tag_stages(shaders);
    let f = flatten_stages(shaders, wc);
    let d = draw_stages(shaders, wc);
    let all = a + f + d;
    if k < 6 {
        assert(all[k] == a[k]);
    } else if k < 6 + f.len() {
        assert(all[k] == f[k - 6]);
    } else {
        assert(all[k] == d[k - 6 - f.len()]);
    }
}

/// The chunks of a large flatten stage go on where the one before them ends: each one tells its shader its
/// first thread, 256 threads to a workgroup.
pub proof fn flatten_chunks_go_on(shaders: FullShaders, wc: WorkgroupCounts, k: int)
    requires
        8 < wc.flatten.0 <= 0x100_0000,
        0 <= k < flatten_stages(shaders, wc).len(),
    ensures
        ({
            let f = flatten_stages(shaders, wc);
            &&& f[k] matches Command::Dispatch { grid: Grid::Direct(size), push_tail: Some(base), .. } && {
                &&& size.1 == 1 && size.2 == 1
                &&& 0 < size.0 <= 8
                &&& base == 256 * 8 * k
                &&& if k + 1 < f.len() {
                    size.0 == 8
                } else {
                    base + 256 * size.0 == 256 * wc.flatten.0
                }
            }
        }),
{
    flatten_chunks_cover(wc.flatten.0);
    let f = flatten_stages(shaders, wc);
    assert(f.len() == ceil_div(wc.flatten.0 as int, 8));
    assert(8 * (f.len() - 1) < wc.flatten.0 <= 8 * f.len());
    assert(0 < chunk_size(wc.flatten.0, k) <= 8);
    assert(chunk_base(k) == 2048 * k);
    assert(0 <= chunk_base(k) <= u32::MAX);
}

/// The dispatch of the graph renderer runs the shader of its stage at the size of the stage.
pub open spec fn graph_runs_stage(
    command: Command,
    setup: Option<ShaderId>,
    shaders: FullShaders,
    wc: WorkgroupCounts,
    gpu: WorkgroupCountsGpu,
    small_scan: bool,
) -> bool {
    command matches Command::Dispatch { shader, grid, bindings: BindingList::Coarse { stage, units }, push_tail } && {
        &&& !units
        &&& if stage is PipelineSetup {
            setup == Some(shader) && grid == Grid::Direct((1, 1, 1)) && push_tail is None
        } else {
            &&& shaders.id(stage) == Some(shader)
            &&& push_tail is Some ==> stage is Flatten
            &&& match grid {
                Grid::Indirect { offset } => {
                    &&& push_tail is None
                    &&& if setup is Some {
                        offset % 16 == 0 && row_serves(gpu, wc, stage, offset as int / 16)
                    } else {
                        offset == 0 && (stage is PathCount || stage is PathTiling)
                    }
                },
                Grid::Direct(size) => if stage is Flatten {
                    push_tail is Some && (wc.flatten.0 > 8 || (size == wc.flatten && push_tail == Some(0u32)))
                } else if small_scan && stage is PathtagScan {
                    size == wc.path_scan
                } else {
                    run_size(wc, stage) == Some(size)
                },
                Grid::Unit { .. } => false,
            }
        }
    }
}

/// Every dispatch of the coarse phase of the graph renderer runs the shader of its stage at the size of the
/// stage, and no stage runs before one that comes earlier in the pipeline. With a setup shader the counts are
/// uploaded first, and the indirect buffer has the size that is asked for.
pub proof fn graph_stages_run_in_order(
    setup: Option<ShaderId>,
    pathtag_is_cpu: bool,
    shaders: FullShaders,
    wc: WorkgroupCounts,
    gpu: WorkgroupCountsGpu,
    bytes: u64,
    k: int,
)
    requires
        gpu.lays_out(wc),
        wc.flatten.0 <= 0x100_0000,
        0 <= k < coarse_commands(setup, pathtag_is_cpu, shaders, wc, bytes).len(),
    ensures
        ({
            let all = coarse_commands(setup, pathtag_is_cpu, shaders, wc, bytes);
            &&& setup matches Some(id) ==> {
                &&& all[0] == Command::UploadCounts
                &&& all[1] == (Command::AllocIndirect { size: bytes, stride: 16 })
                &&& all[3] == Command::ReleaseCounts
            }
            &&& setup is None || k == 2 || k >= 4 ==> graph_runs_stage(all[k], setup, shaders, wc, gpu, pathtag_is_cpu)
            &&& k + 1 < all.len() && rank(all[k]) >= 0 && rank(all[k + 1]) >= 0 ==> rank(all[k]) < rank(all[k + 1])
                || (rank(all[k]) == 7 && rank(all[k + 1]) == 7)
        }),
{
    let all = coarse_commands(setup, pathtag_is_cpu, shaders, wc, bytes);
    lemma_graph_stage(setup, pathtag_is_cpu, shaders, wc, gpu, bytes, k);
    lemma_graph_parts(setup, pathtag_is_cpu, shaders, wc, bytes, k);
    if k + 1 < all.len() {
        lemma_graph_stage(setup, pathtag_is_cpu, shaders, wc, gpu, bytes, k + 1);
        lemma_graph_parts(setup, pathtag_is_cpu, shaders, wc, bytes, k + 1);
    }
    if setup is Some {
        lemma_graph_parts(setup, pathtag_is_cpu, shaders, wc, bytes, 0);
        lemma_graph_parts(setup, pathtag_is_cpu, shaders, wc, bytes, 1);
        lemma_graph_parts(setup, pathtag_is_cpu, shaders, wc, bytes, 3);
    }
}

/// The place from which the stages of a part of the coarse phase stand.
spec fn part_start(setup: Option<ShaderId>, pathtag_is_cpu: bool, shaders: FullShaders, wc: WorkgroupCounts, part: int) -> int {
    let indirect = setup is Some;
    let large = wc.use_large_path_scan && !pathtag_is_cpu;
    let head: int = if indirect {
        4
    } else {
        0
    };
    let flat = head + 2 + scan_commands(indirect, large, shaders, wc).len();
    let draws = flat + flatten_commands(indirect, shaders, wc).len();
    let tiles = draws + 2 + clip_commands(indirect, shaders, wc).len();
    if part == 0 {
        head
    } else if part == 1 {
        flat
    } else if part == 2 {
        draws
    } else {
        tiles
    }
}

/// The parts of the coarse phase, one behind the other.
proof fn lemma_graph_parts(
    setup: Option<ShaderId>,
    pathtag_is_cpu: bool,
    shaders: FullShaders,
    wc: WorkgroupCounts,
    bytes: u64,
    k: int,
)
    requires
        0 <= k < coarse_commands(setup, pathtag_is_cpu, shaders, wc, bytes).len(),
    ensures
        ({
            let all = coarse_commands(setup, pathtag_is_cpu, shaders, wc, bytes);
            let indirect = setup is Some;
            let large = wc.use_large_path_scan && !pathtag_is_cpu;
            let p0 = part_start(setup, pathtag_is_cpu, shaders, wc, 0);
            let p1 = part_start(setup, pathtag_is_cpu, shaders, wc, 1);
            let p2 = part_start(setup, pathtag_is_cpu, shaders, wc, 2);
            let p3 = part_start(setup, pathtag_is_cpu, shaders, wc, 3);
            all[k] == if k < p0 {
                setup_commands(setup->0, bytes)[k]
            } else if k < p1 {
                (seq![
                    staged(indirect, shaders.pathtag_reduce, Stage::PathtagReduce, STAGE_PATHTAG_REDUCE, wc.path_reduce),
                ] + scan_commands(indirect, large, shaders, wc) + seq![
                    staged(indirect, shaders.bbox_clear, Stage::BboxClear, STAGE_BBOX_CLEAR, wc.bbox_clear),
                ])[k - p0]
            } else if k < p2 {
                flatten_commands(indirect, shaders, wc)[k - p1]
            } else if k < p3 {
                (seq![
                    staged(indirect, shaders.draw_reduce, Stage::DrawReduce, STAGE_DRAW_REDUCE, wc.draw_reduce),
                    staged(indirect, shaders.draw_leaf, Stage::DrawLeaf, STAGE_DRAW_LEAF, wc.draw_leaf),
                ] + clip_commands(indirect, shaders, wc))[k - p2]
            } else {
                tile_commands(indirect, shaders, wc)[k - p3]
            }
        }),
        part_start(setup, pathtag_is_cpu, shaders, wc, 3) + 8 == coarse_commands(
            setup,
            pathtag_is_cpu,
            shaders,
            wc,
            bytes,
        ).len(),
{
}

/// The position in the pipeline of the stage of a dispatch.
pub open spec fn rank(command: Command) -> int {
    match stage_of(command) {
        Some(stage) => stage.position() as int,
        None => -1,
    }
}

proof fn lemma_tag_part(setup: Option<ShaderId>, cpu: bool, shaders: FullShaders, wc: WorkgroupCounts, gpu: WorkgroupCountsGpu, i: int)
    requires
        gpu.lays_out(wc),
        0 <= i < 2 + scan_commands(setup is Some, wc.use_large_path_scan && !cpu, shaders, wc).len(),
    ensures
        ({
            let indirect = setup is Some;
            let tags = seq![
                staged(indirect, shaders.pathtag_reduce, Stage::PathtagReduce, STAGE_PATHTAG_REDUCE, wc.path_reduce),
            ] + scan_commands(indirect, wc.use_large_path_scan && !cpu, shaders, wc) + seq![
                staged(indirect, shaders.bbox_clear, Stage::BboxClear, STAGE_BBOX_CLEAR, wc.bbox_clear),
            ];
            &&& graph_runs_stage(tags[i], setup, shaders, wc, gpu, cpu)
            &&& 1 <= rank(tags[i]) <= 6
            &&& i + 1 < tags.len() ==> rank(tags[i]) < rank(tags[i + 1])
        }),
{
    crate::sizing_laws::stages_have_their_rows(gpu, wc);
}

proof fn lemma_flatten_part(setup: Option<ShaderId>, cpu: bool, shaders: FullShaders, wc: WorkgroupCounts, gpu: WorkgroupCountsGpu, i: int)
    requires
        gpu.lays_out(wc),
        wc.flatten.0 <= 0x100_0000,
        0 <= i < flatten_commands(setup is Some, shaders, wc).len(),
    ensures
        graph_runs_stage(flatten_commands(setup is Some, shaders, wc)[i], setup, shaders, wc, gpu, cpu),
        rank(flatten_commands(setup is Some, shaders, wc)[i]) == 7,
{
    crate::sizing_laws::stages_have_their_rows(gpu, wc);
}

proof fn lemma_draw_part(setup: Option<ShaderId>, cpu: bool, shaders: FullShaders, wc: WorkgroupCounts, gpu: WorkgroupCountsGpu, i: int)
    requires
        gpu.lays_out(wc),
        0 <= i < 2 + clip_commands(setup is Some, shaders, wc).len(),
    ensures
        ({
            let indirect = setup is Some;
            let draws = seq![
                staged(indirect, shaders.draw_reduce, Stage::DrawReduce, STAGE_DRAW_REDUCE, wc.draw_reduce),
                staged(indirect, shaders.draw_leaf, Stage::DrawLeaf, STAGE_DRAW_LEAF, wc.draw_leaf),
            ] + clip_commands(indirect, shaders, wc);
            &&& graph_runs_stage(draws[i], setup, shaders, wc, gpu, cpu)
            &&& 8 <= rank(draws[i]) <= 11
            &&& i + 1 < draws.len() ==> rank(draws[i]) < rank(draws[i + 1])
        }),
{
    crate::sizing_laws::stages_have_their_rows(gpu, wc);
}

proof fn lemma_tile_part(setup: Option<ShaderId>, cpu: bool, shaders: FullShaders, wc: WorkgroupCounts, gpu: WorkgroupCountsGpu, i: int)
    requires
        gpu.lays_out(wc),
        0 <= i < 8,
    ensures
        graph_runs_stage(tile_commands(setup is Some, shaders, wc)[i], setup, shaders, wc, gpu, cpu),
        rank(tile_commands(setup is Some, shaders, wc)[i]) == 12 + i,
{
    crate::sizing_laws::stages_have_their_rows(gpu, wc);
}

proof fn lemma_graph_stage(
    setup: Option<ShaderId>,
    cpu: bool,
    shaders: FullShaders,
    wc: WorkgroupCounts,
    gpu: WorkgroupCountsGpu,
    bytes: u64,
    k: int,
)
    requires
        gpu.lays_out(wc),
        wc.flatten.0 <= 0x100_0000,
        0 <= k < coarse_commands(setup, cpu, shaders, wc, bytes).len(),
    ensures
        ({
            let all = coarse_commands(setup, cpu, shaders, wc, bytes);
            let p0 = part_start(setup, cpu, shaders, wc, 0);
            let p1 = part_start(setup, cpu, shaders, wc, 1);
            let p2 = part_start(setup, cpu, shaders, wc, 2);
            let p3 = part_start(setup, cpu, shaders, wc, 3);
            &&& p0 <= k ==> graph_runs_stage(all[k], setup, shaders, wc, gpu, cpu)
            &&& p0 <= k < p1 ==> 1 <= rank(all[k]) <= 6
            &&& p1 <= k < p2 ==> rank(all[k]) == 7
            &&& p2 <= k < p3 ==> 8 <= rank(all[k]) <= 11
            &&& p3 <= k ==> rank(all[k]) == 12 + k - p3
            &&& p0 <= k < p1 - 1 || p2 <= k < p3 - 1 ==> rank(all[k]) < rank(all[k + 1])
        }),
{
    let all = coarse_commands(setup, cpu, shaders, wc, bytes);
    let p0 = part_start(setup, cpu, shaders, wc, 0);
    let p1 = part_start(setup, cpu, shaders, wc, 1);
    let p2 = part_start(setup, cpu, shaders, wc, 2);
    let p3 = part_start(setup, cpu, shaders, wc, 3);
    lemma_graph_parts(setup, cpu, shaders, wc, bytes, k);
    if k + 1 < all.len() {
        lemma_graph_parts(setup, cpu, shaders, wc, bytes, k + 1);
    }
    if k < p0 {
    } else if k < p1 {
        lemma_tag_part(setup, cpu, shaders, wc, gpu, k - p0);
    } else if k < p2 {
        lemma_flatten_part(setup, cpu, shaders, wc, gpu, k - p1);
    } else if k < p3 {
        lemma_draw_part(setup, cpu, shaders, wc, gpu, k - p2);
    } else {
        lemma_tile_part(setup, cpu, shaders, wc, gpu, k - p3);
    }
}

/// No stage that has work is left out of the coarse phase of the graph renderer.
pub proof fn graph_stages_are_complete(
    setup: Option<ShaderId>,
    shaders: FullShaders,
    wc: WorkgroupCounts,
    bytes: u64,
    stage: Stage,
)
    requires
        1 <= stage.position() < 20,
        setup is Some || (run_size(wc, stage) matches Some(size) ==> size.0 > 0 || stage is PathtagReduce
            || stage is BboxClear || stage.position() >= 12),
    ensures
        exists|k: int|
            0 <= k < coarse_commands(setup, false, shaders, wc, bytes).len() && #[trigger] stage_of(
                coarse_commands(setup, false, shaders, wc, bytes)[k],
            ) == Some(stage),
{
    let all = coarse_commands(setup, false, shaders, wc, bytes);
    let head: int = if setup is Some {
        4
    } else {
        0
    };
    let scan: int = if setup is Some {
        4
    } else if wc.use_large_path_scan {
        3
    } else {
        1
    };
    let f = crate::render::flatten_commands(setup is Some, shaders, wc).len() as int;
    let c = crate::render::clip_commands(setup is Some, shaders, wc).len() as int;
    let at = head + 1 + scan;
    let p = stage.position();
    assert(all.len() == at + 1 + f + 2 + c + 8);
    let k: int = if p == 1 {
        head
    } else if p < 6 {
        if setup is Some {
            head + p - 1
        } else if wc.use_large_path_scan {
            if p == 5 {
                head + 3
            } else {
                head + p - 1
            }
        } else {
            head + 1
        }
    } else if p == 6 {
        at
    } else if p == 7 {
        at + 1
    } else if p < 10 {
        at + 1 + f + (p - 8)
    } else if p == 10 {
        at + 3 + f
    } else if p == 11 {
        at + 2 + f + c
    } else {
        at + 3 + f + c + (p - 12)
    };
    assert(stage_of(all[k]) == Some(stage));
}

/// A shader id of the set stands for the shader of its stage: the table holds that stage under the id. A stage
/// has an id exactly where its shader compiled.
pub proof fn shader_ids_name_their_stage(
    compiled: Seq<Result<(), Error>>,
    before: Seq<Stage>,
    after: Seq<Stage>,
    shaders: FullShaders,
    i: int,
)
    requires
        assembled(compiled, before, after, shaders),
        0 <= i < compiled.len() <= 24,
        before.len() + 24 <= usize::MAX,
    ensures
        match shaders.id(compile_order()[i]) {
            Some(id) => compiled[i] is Ok && id.0 < after.len() && after[id.0 as int] == compile_order()[i],
            None => compiled[i] is Err,
        },
        compile_order()[i].position() == i,
{
    if compiled[i] is Ok {
        lemma_compiled_place(compiled, compiled.len() as int, i);
    }
}

proof fn lemma_compiled_place(compiled: Seq<Result<(), Error>>, n: int, i: int)
    requires
        0 <= i < n <= compiled.len() <= 24,
        compiled[i] is Ok,
    ensures
        compiled_stages(compile_order(), compiled.take(i)).len() <= i,
        compiled_stages(compile_order(), compiled.take(i)).len() < compiled_stages(
            compile_order(),
            compiled.take(n),
        ).len(),
        compiled_stages(compile_order(), compiled.take(n))[compiled_stages(compile_order(), compiled.take(i)).len() as int]
            == compile_order()[i],
        compiled_stages(compile_order(), compiled) == compiled_stages(
            compile_order(),
            compiled.take(compiled.len() as int),
        ),
    decreases n,
{
    assert(compiled.take(compiled.len() as int) =~= compiled);
    assert(compiled.take(n).drop_last() =~= compiled.take(n - 1));
    lemma_compiled_bound(compiled, i);
    if i < n - 1 {
        lemma_compiled_place(compiled, n - 1, i);
    }
}

proof fn lemma_compiled_bound(compiled: Seq<Result<(), Error>>, i: int)
    requires
        0 <= i <= compiled.len(),
    ensures
        compiled_stages(compile_order(), compiled.take(i)).len() <= i,
    decreases i,
{
    if i > 0 {
        assert(compiled.take(i).drop_last() =~= compiled.take(i - 1));
        lemma_compiled_bound(compiled, i - 1);
    }
}

/// Each anti-aliasing method has a rasterizer of its own.
pub proof fn methods_have_their_rasterizer(shaders: FullShaders)
    ensures
        shaders.id(FullShaders::fine_stage(AaConfig::Area)) == shaders.fine_area,
        shaders.id(FullShaders::fine_stage(AaConfig::Msaa8)) == shaders.fine_msaa8,
        shaders.id(FullShaders::fine_stage(AaConfig::Msaa16)) == shaders.fine_msaa16,
        shaders.id(Stage::FilterPass) == shaders.filter_pass,
        Stage::FineMsaa8.spec_defines() == seq![("msaa", "1"), ("msaa8", "1")],
        Stage::FineMsaa16.spec_defines() == seq![("msaa", "1"), ("msaa16", "1")],
{
}

/// The mask table of a method is there after a frame with that method, and is not uploaded again. Tables that
/// were there stay, and no other one appears.
pub proof fn mask_tables_are_uploaded_once(tables: MaskTables, aa: AaConfig, other: AaConfig)
    ensures
        tables.with(aa).ready(aa),
        tables.ready(other) ==> tables.with(aa).ready(other),
        tables.with(aa).ready(other) ==> tables.ready(other) || other == aa,
        tables.ready(AaConfig::Area),
        tables.ready(AaConfig::Msaa8) == tables.msaa8,
        tables.ready(AaConfig::Msaa16) == tables.msaa16,
{
}

/// The label under which a buffer of the pipeline is asked for.
pub open spec fn label_of(buffer: PipelineBuffer) -> &'static str {
    match buffer {
        PipelineBuffer::InfoBinData => "ekrano.info_bin_data_buf",
        PipelineBuffer::Tile => "ekrano.tile_buf",
        PipelineBuffer::Segments => "ekrano.segments_buf",
        PipelineBuffer::Ptcl => "ekrano.ptcl_buf",
        PipelineBuffer::BlendSpill => "ekrano.blend_spill",
        PipelineBuffer::Lines => "ekrano.lines_buf",
        PipelineBuffer::SegCounts => "ekrano.seg_counts_buf",
        PipelineBuffer::Reduced => "ekrano.reduced_buf",
        PipelineBuffer::Reduced2 => "ekrano.reduced2_buf",
        PipelineBuffer::ReducedScan => "ekrano.reduced_scan_buf",
        PipelineBuffer::TagMonoid => "ekrano.tagmonoid_buf",
        PipelineBuffer::PathBbox => "ekrano.path_bbox_buf",
        PipelineBuffer::DrawReduced => "ekrano.draw_reduced_buf",
        PipelineBuffer::DrawMonoid => "ekrano.draw_monoid_buf",
        PipelineBuffer::ClipInp => "ekrano.clip_inp_buf",
        PipelineBuffer::ClipEl => "ekrano.clip_el_buf",
        PipelineBuffer::ClipBic => "ekrano.clip_bic_buf",
        PipelineBuffer::ClipBbox => "ekrano.clip_bbox_buf",
        PipelineBuffer::DrawBbox => "ekrano.draw_bbox_buf",
        PipelineBuffer::BinHeader => "ekrano.bin_header_buf",
        PipelineBuffer::Path => "ekrano.path_buf",
        _ => "",
    }
}

/// The buffer is one of the seven that are kept while the sizes stay.
pub open spec fn is_stable(buffer: PipelineBuffer) -> bool {
    buffer is InfoBinData || buffer is Tile || buffer is Segments || buffer is Ptcl || buffer is BlendSpill
        || buffer is Lines || buffer is SegCounts
}

/// The bytes that a buffer of the pipeline has room for, and the bytes of one element.
pub open spec fn bytes_of(buffer: PipelineBuffer, bs: BufferSizes) -> (int, int) {
    match buffer {
        PipelineBuffer::InfoBinData => (4 * bs.bin_data@, 4),
        PipelineBuffer::Tile => (8 * bs.tiles@, 8),
        PipelineBuffer::Segments => (24 * bs.segments@, 24),
        PipelineBuffer::Ptcl => (4 * bs.ptcl@, 4),
        PipelineBuffer::BlendSpill => (4 * bs.blend_spill@, 4),
        PipelineBuffer::Lines => (24 * bs.lines@, 24),
        PipelineBuffer::SegCounts => (8 * bs.seg_counts@, 8),
        PipelineBuffer::Reduced => (20 * bs.path_reduced@, 20),
        PipelineBuffer::Reduced2 => (20 * bs.path_reduced2@, 20),
        PipelineBuffer::ReducedScan => (20 * bs.path_reduced_scan@, 20),
        PipelineBuffer::TagMonoid => (20 * bs.path_monoids@, 20),
        PipelineBuffer::PathBbox => (24 * bs.path_bboxes@, 24),
        PipelineBuffer::DrawReduced => (16 * bs.draw_reduced@, 16),
        PipelineBuffer::DrawMonoid => (16 * bs.draw_monoids@, 16),
        PipelineBuffer::ClipInp => (8 * bs.clip_inps@, 8),
        PipelineBuffer::ClipEl => (32 * bs.clip_els@, 32),
        PipelineBuffer::ClipBic => (8 * bs.clip_bics@, 8),
        PipelineBuffer::ClipBbox => (16 * bs.clip_bboxes@, 16),
        PipelineBuffer::DrawBbox => (16 * bs.draw_bboxes@, 16),
        PipelineBuffer::BinHeader => (8 * bs.bin_headers@, 8),
        PipelineBuffer::Path => (32 * bs.paths@, 32),
        _ => (0, 0),
    }
}

/// The place of a buffer among those that are asked for together.
pub open spec fn request_place(buffer: PipelineBuffer) -> int {
    match buffer {
        PipelineBuffer::InfoBinData | PipelineBuffer::Reduced => 0,
        PipelineBuffer::Tile | PipelineBuffer::Reduced2 => 1,
        PipelineBuffer::Segments | PipelineBuffer::ReducedScan => 2,
        PipelineBuffer::Ptcl | PipelineBuffer::TagMonoid => 3,
        PipelineBuffer::BlendSpill | PipelineBuffer::PathBbox => 4,
        PipelineBuffer::Lines | PipelineBuffer::DrawReduced => 5,
        PipelineBuffer::SegCounts | PipelineBuffer::DrawMonoid => 6,
        PipelineBuffer::ClipInp => 7,
        PipelineBuffer::ClipEl => 8,
        PipelineBuffer::ClipBic => 9,
        PipelineBuffer::ClipBbox => 10,
        PipelineBuffer::DrawBbox => 11,
        PipelineBuffer::BinHeader => 12,
        _ => 13,
    }
}

/// A binding stands for the buffer that was asked for under its name: the request at a place has the label,
/// the bytes and the element size of the buffer, and a binding of the buffer is given the handle that was made
/// for that request.
pub proof fn bindings_stand_for_their_requests(
    resources: PipelineResources,
    plan: PreparePlan,
    made: MadeResources,
    params: crate::RenderParams,
    config: crate::config::RenderConfig,
    buffer: PipelineBuffer,
    indirect: u64,
    mask: Option<u64>,
)
    requires
        resources.follows(plan, made, params, config),
        made.answers(plan),
        plan.pipeline.stable is Acquire,
        plan.pipeline.scratch is Acquire,
        label_of(buffer) != "",
        StablePipelineBuffers::can_request(config.buffer_sizes),
        ScratchPipelineBuffers::can_request(config.buffer_sizes),
    ensures
        ({
            let bs = config.buffer_sizes;
            let i = request_place(buffer);
            let (request, handle) = if is_stable(buffer) {
                (StablePipelineBuffers::requests(bs)[i], made.stable@[i])
            } else {
                (ScratchPipelineBuffers::requests(bs)[i], made.scratch@[i])
            };
            &&& request.label == label_of(buffer)
            &&& request.stride == bytes_of(buffer, bs).1
            &&& request.size == bytes_of(buffer, bs).0
            &&& resources.handle_of(buffer, indirect, mask) == Some(handle)
        }),
{
    let bs = config.buffer_sizes;
    let stable = resources.stable.spec_handles();
    let scratch = resources.scratch.spec_handles();
    assert(stable == made.stable@ && scratch == made.scratch@);
    if is_stable(buffer) {
        lemma_stable_requests(bs, buffer);
        assert(resources.handle_of(buffer, indirect, mask) == Some(stable[request_place(buffer)]));
    } else {
        lemma_scratch_requests(bs, buffer);
        assert(resources.handle_of(buffer, indirect, mask) == Some(scratch[request_place(buffer)]));
    }
}

proof fn lemma_stable_requests(bs: BufferSizes, buffer: PipelineBuffer)
    requires
        is_stable(buffer),
        StablePipelineBuffers::can_request(bs),
    ensures
        ({
            let request = StablePipelineBuffers::requests(bs)[request_place(buffer)];
            &&& request.label == label_of(buffer)
            &&& request.stride == bytes_of(buffer, bs).1
            &&& request.size == bytes_of(buffer, bs).0
        }),
{
    bs.bin_data.size_is_a_count();
    bs.tiles.size_is_a_count();
    bs.segments.size_is_a_count();
    bs.ptcl.size_is_a_count();
    bs.blend_spill.size_is_a_count();
    bs.lines.size_is_a_count();
    bs.seg_counts.size_is_a_count();
}

proof fn lemma_scratch_requests(bs: BufferSizes, buffer: PipelineBuffer)
    requires
        !is_stable(buffer),
        label_of(buffer) != "",
        ScratchPipelineBuffers::can_request(bs),
    ensures
        ({
            let request = ScratchPipelineBuffers::requests(bs)[request_place(buffer)];
            &&& request.label == label_of(buffer)
            &&& request.stride == bytes_of(buffer, bs).1
            &&& request.size == bytes_of(buffer, bs).0
        }),
{
    bs.path_reduced.size_is_a_count();
    bs.path_reduced2.size_is_a_count();
    bs.path_reduced_scan.size_is_a_count();
    bs.path_monoids.size_is_a_count();
    bs.path_bboxes.size_is_a_count();
    bs.draw_reduced.size_is_a_count();
    bs.draw_monoids.size_is_a_count();
    bs.clip_inps.size_is_a_count();
    bs.clip_els.size_is_a_count();
    bs.clip_bics.size_is_a_count();
    bs.clip_bboxes.size_is_a_count();
    bs.draw_bboxes.size_is_a_count();
    bs.bin_headers.size_is_a_count();
    bs.paths.size_is_a_count();
}

/// The other bindings stand for what the frame holds apart: the uniform, the scene, the counters, the sizes of
/// the dispatches and the mask table.
pub proof fn other_bindings_stand_for_theirs(resources: PipelineResources, indirect: u64, mask: Option<u64>)
    ensures
        resources.handle_of(PipelineBuffer::Config, indirect, mask) == Some(resources.config),
        resources.handle_of(PipelineBuffer::Scene, indirect, mask) == Some(resources.scene.handle),
        resources.handle_of(PipelineBuffer::Bump, indirect, mask) == Some(resources.bump.handle),
        resources.handle_of(PipelineBuffer::Indirect, indirect, mask) == Some(indirect),
        resources.handle_of(PipelineBuffer::WgCounts, indirect, mask) == Some(indirect),
        resources.handle_of(PipelineBuffer::MaskLut, indirect, mask) == mask,
{
}

/// Each stage is compiled from the module that bears its name. The two ways to scan path tags share one, and so do
/// the rasterizers, which differ in what is defined for them.
pub proof fn stages_are_compiled_from_their_module(stage: Stage)
    ensures
        !(stage is PathtagScanLarge || stage is FineArea || stage is FineMsaa8 || stage is FineMsaa16) ==> stage.spec_module()
            == stage.spec_label(),
        stage is PathtagScanLarge ==> stage.spec_module() == Stage::PathtagScan.spec_module(),
        stage is FineArea || stage is FineMsaa8 || stage is FineMsaa16 ==> stage.spec_module() == "fine",
        stage.spec_defines().len() == (if stage is FineMsaa8 || stage is FineMsaa16 {
            2int
        } else {
            0
        }),
        Stage::PipelineSetup.spec_module() == "pipeline_setup",
        Stage::PathtagReduce.spec_module() == "pathtag_reduce",
        Stage::PathtagReduce2.spec_module() == "pathtag_reduce2",
        Stage::PathtagScan1.spec_module() == "pathtag_scan1",
        Stage::PathtagScan.spec_module() == "pathtag_scan_small",
        Stage::BboxClear.spec_module() == "bbox_clear",
        Stage::Flatten.spec_module() == "flatten",
        Stage::DrawReduce.spec_module() == "draw_reduce",
        Stage::DrawLeaf.spec_module() == "draw_leaf",
        Stage::ClipReduce.spec_module() == "clip_reduce",
        Stage::ClipLeaf.spec_module() == "clip_leaf",
        Stage::Binning.spec_module() == "binning",
        Stage::TileAlloc.spec_module() == "tile_alloc",
        Stage::PathCountSetup.spec_module() == "path_count_setup",
        Stage::PathCount.spec_module() == "path_count",
        Stage::Backdrop.spec_module() == "backdrop_dyn",
        Stage::Coarse.spec_module() == "coarse",
        Stage::PathTilingSetup.spec_module() == "path_tiling_setup",
        Stage::PathTiling.spec_module() == "path_tiling",
        Stage::FilterPass.spec_module() == "filter_pass",
{
}

/// What fine rasterization binds in a slot is bound as its shader reads it: buffers for reading but for the spill
/// buffer, the output and the filter layers as storage images, the atlases as sampled ones.
pub proof fn fine_binds_as_its_shader_reads(aa: AaConfig, slot: int)
    requires
        0 <= slot < fine_bindings(OutputKind::Texture, !(aa is Area)).len(),
    ensures
        ({
            let bindings = fine_bindings(OutputKind::Texture, !(aa is Area));
            let types = FullShaders::fine_stage(aa).spec_bind_types();
            &&& types.len() == bindings.len()
            &&& match bindings[slot] {
                Binding::Buf(buffer) => if buffer is BlendSpill {
                    types[slot] is Buffer
                } else {
                    types[slot] is BufReadOnly
                },
                Binding::Tex(texture) => if texture is Output || texture is FilterLayer {
                    types[slot] is Image
                } else {
                    types[slot] is ImageRead
                },
                Binding::Sampler(_) => types[slot] is Sampler,
                _ => false,
            }
        }),
{
}

} // verus!
