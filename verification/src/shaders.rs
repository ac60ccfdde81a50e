//! The shaders of the full pipeline: what each is compiled from, what it binds, and how a
//! compiled set is put together.

use crate::resource_proxy::{BindType, ImageFormat, ShaderId};
use crate::{AaConfig, Error};
use vstd::prelude::*;

verus! {

/// A shader of the pipeline, in the order in which the shaders are compiled.
#[derive(Clone, Copy, Debug, PartialEq, Eq, Structural)]
pub enum Stage {
    PipelineSetup,
    PathtagReduce,
    PathtagReduce2,
    PathtagScan1,
    PathtagScan,
    PathtagScanLarge,
    BboxClear,
    Flatten,
    DrawReduce,
    DrawLeaf,
    ClipReduce,
    ClipLeaf,
    Binning,
    TileAlloc,
    PathCountSetup,
    PathCount,
    Backdrop,
    Coarse,
    PathTilingSetup,
    PathTiling,
    FineArea,
    FineMsaa8,
    FineMsaa16,
    FilterPass,
}

/// The shaders in the order in which they are compiled.
pub open spec fn compile_order() -> Seq<Stage> {
    seq![
        Stage::PipelineSetup,
        Stage::PathtagReduce,
        Stage::PathtagReduce2,
        Stage::PathtagScan1,
        Stage::PathtagScan,
        Stage::PathtagScanLarge,
        Stage::BboxClear,
        Stage::Flatten,
        Stage::DrawReduce,
        Stage::DrawLeaf,
        Stage::ClipReduce,
        Stage::ClipLeaf,
        Stage::Binning,
        Stage::TileAlloc,
        Stage::PathCountSetup,
        Stage::PathCount,
        Stage::Backdrop,
        Stage::Coarse,
        Stage::PathTilingSetup,
        Stage::PathTiling,
        Stage::FineArea,
        Stage::FineMsaa8,
        Stage::FineMsaa16,
        Stage::FilterPass,
    ]
}

/// Lists the shaders in the order in which they are compiled.
pub fn stages() -> (v: Vec<Stage>)
    ensures
        v@ == compile_order(),
{
    let v: Vec<Stage> = vec![
        Stage::PipelineSetup,
        Stage::PathtagReduce,
        Stage::PathtagReduce2,
        Stage::PathtagScan1,
        Stage::PathtagScan,
        Stage::PathtagScanLarge,
        Stage::BboxClear,
        Stage::Flatten,
        Stage::DrawReduce,
        Stage::DrawLeaf,
        Stage::ClipReduce,
        Stage::ClipLeaf,
        Stage::Binning,
        Stage::TileAlloc,
        Stage::PathCountSetup,
        Stage::PathCount,
        Stage::Backdrop,
        Stage::Coarse,
        Stage::PathTilingSetup,
        Stage::PathTiling,
        Stage::FineArea,
        Stage::FineMsaa8,
        Stage::FineMsaa16,
        Stage::FilterPass,
    ];
    assert(v@ =~= compile_order());
    v
}

/// How far the shader compiler optimizes.
#[derive(Clone, Copy, Debug, PartialEq, Eq, Structural)]
pub enum OptimizationLevel {
    /// All loads and barriers stay exactly as written.
    Unoptimized,
    /// Balanced optimization.
    Default,
    /// Aggressive optimization.
    High,
    /// Whatever the compiler can do, however long it takes.
    Maximal,
}

impl Stage {
    /// Place in the compile order.
    pub open spec fn position(self) -> int {
        match self {
            Stage::PipelineSetup => 0,
            Stage::PathtagReduce => 1,
            Stage::PathtagReduce2 => 2,
            Stage::PathtagScan1 => 3,
            Stage::PathtagScan => 4,
            Stage::PathtagScanLarge => 5,
            Stage::BboxClear => 6,
            Stage::Flatten => 7,
            Stage::DrawReduce => 8,
            Stage::DrawLeaf => 9,
            Stage::ClipReduce => 10,
            Stage::ClipLeaf => 11,
            Stage::Binning => 12,
            Stage::TileAlloc => 13,
            Stage::PathCountSetup => 14,
            Stage::PathCount => 15,
            Stage::Backdrop => 16,
            Stage::Coarse => 17,
            Stage::PathTilingSetup => 18,
            Stage::PathTiling => 19,
            Stage::FineArea => 20,
            Stage::FineMsaa8 => 21,
            Stage::FineMsaa16 => 22,
            Stage::FilterPass => 23,
        }
    }

    /// Label of the shader.
    pub open spec fn spec_label(self) -> &'static str {
        match self {
            Stage::PipelineSetup => "pipeline_setup",
            Stage::PathtagReduce => "pathtag_reduce",
            Stage::PathtagReduce2 => "pathtag_reduce2",
            Stage::PathtagScan1 => "pathtag_scan1",
            Stage::PathtagScan => "pathtag_scan_small",
            Stage::PathtagScanLarge => "pathtag_scan_large",
            Stage::BboxClear => "bbox_clear",
            Stage::Flatten => "flatten",
            Stage::DrawReduce => "draw_reduce",
            Stage::DrawLeaf => "draw_leaf",
            Stage::ClipReduce => "clip_reduce",
            Stage::ClipLeaf => "clip_leaf",
            Stage::Binning => "binning",
            Stage::TileAlloc => "tile_alloc",
            Stage::PathCountSetup => "path_count_setup",
            Stage::PathCount => "path_count",
            Stage::Backdrop => "backdrop_dyn",
            Stage::Coarse => "coarse",
            Stage::PathTilingSetup => "path_tiling_setup",
            Stage::PathTiling => "path_tiling",
            Stage::FineArea => "fine_area",
            Stage::FineMsaa8 => "fine_msaa8",
            Stage::FineMsaa16 => "fine_msaa16",
            Stage::FilterPass => "filter_pass",
        }
    }

    /// Label of the shader.
    pub fn label(self) -> (s: &'static str)
        ensures
            s == self.spec_label(),
    {
        match self {
            Stage::PipelineSetup => "pipeline_setup",
            Stage::PathtagReduce => "pathtag_reduce",
            Stage::PathtagReduce2 => "pathtag_reduce2",
            Stage::PathtagScan1 => "pathtag_scan1",
            Stage::PathtagScan => "pathtag_scan_small",
            Stage::PathtagScanLarge => "pathtag_scan_large",
            Stage::BboxClear => "bbox_clear",
            Stage::Flatten => "flatten",
            Stage::DrawReduce => "draw_reduce",
            Stage::DrawLeaf => "draw_leaf",
            Stage::ClipReduce => "clip_reduce",
            Stage::ClipLeaf => "clip_leaf",
            Stage::Binning => "binning",
            Stage::TileAlloc => "tile_alloc",
            Stage::PathCountSetup => "path_count_setup",
            Stage::PathCount => "path_count",
            Stage::Backdrop => "backdrop_dyn",
            Stage::Coarse => "coarse",
            Stage::PathTilingSetup => "path_tiling_setup",
            Stage::PathTiling => "path_tiling",
            Stage::FineArea => "fine_area",
            Stage::FineMsaa8 => "fine_msaa8",
            Stage::FineMsaa16 => "fine_msaa16",
            Stage::FilterPass => "filter_pass",
        }
    }

    /// Source module that the shader is compiled from.
    pub open spec fn spec_module(self) -> &'static str {
        match self {
            Stage::PipelineSetup => "pipeline_setup",
            Stage::PathtagReduce => "pathtag_reduce",
            Stage::PathtagReduce2 => "pathtag_reduce2",
            Stage::PathtagScan1 => "pathtag_scan1",
            Stage::PathtagScan => "pathtag_scan_small",
            Stage::PathtagScanLarge => "pathtag_scan_small",
            Stage::BboxClear => "bbox_clear",
            Stage::Flatten => "flatten",
            Stage::DrawReduce => "draw_reduce",
            Stage::DrawLeaf => "draw_leaf",
            Stage::ClipReduce => "clip_reduce",
            Stage::ClipLeaf => "clip_leaf",
            Stage::Binning => "binning",
            Stage::TileAlloc => "tile_alloc",
            Stage::PathCountSetup => "path_count_setup",
            Stage::PathCount => "path_count",
            Stage::Backdrop => "backdrop_dyn",
            Stage::Coarse => "coarse",
            Stage::PathTilingSetup => "path_tiling_setup",
            Stage::PathTiling => "path_tiling",
            Stage::FineArea => "fine",
            Stage::FineMsaa8 => "fine",
            Stage::FineMsaa16 => "fine",
            Stage::FilterPass => "filter_pass",
        }
    }

    /// Source module that the shader is compiled from.
    pub fn module(self) -> (s: &'static str)
        ensures
            s == self.spec_module(),
    {
        match self {
            Stage::PipelineSetup => "pipeline_setup",
            Stage::PathtagReduce => "pathtag_reduce",
            Stage::PathtagReduce2 => "pathtag_reduce2",
            Stage::PathtagScan1 => "pathtag_scan1",
            Stage::PathtagScan => "pathtag_scan_small",
            Stage::PathtagScanLarge => "pathtag_scan_small",
            Stage::BboxClear => "bbox_clear",
            Stage::Flatten => "flatten",
            Stage::DrawReduce => "draw_reduce",
            Stage::DrawLeaf => "draw_leaf",
            Stage::ClipReduce => "clip_reduce",
            Stage::ClipLeaf => "clip_leaf",
            Stage::Binning => "binning",
            Stage::TileAlloc => "tile_alloc",
            Stage::PathCountSetup => "path_count_setup",
            Stage::PathCount => "path_count",
            Stage::Backdrop => "backdrop_dyn",
            Stage::Coarse => "coarse",
            Stage::PathTilingSetup => "path_tiling_setup",
            Stage::PathTiling => "path_tiling",
            Stage::FineArea => "fine",
            Stage::FineMsaa8 => "fine",
            Stage::FineMsaa16 => "fine",
            Stage::FilterPass => "filter_pass",
        }
    }

    /// Names that are defined while the shader is compiled, with their values.
    pub open spec fn spec_defines(self) -> Seq<(&'static str, &'static str)> {
        match self {
            Stage::FineMsaa8 => seq![("msaa", "1"), ("msaa8", "1")],
            Stage::FineMsaa16 => seq![("msaa", "1"), ("msaa16", "1")],
            _ => seq![],
        }
    }

    /// Names that are defined while the shader is compiled, with their values.
    pub fn defines(self) -> (v: Vec<(&'static str, &'static str)>)
        ensures
            v@ == self.spec_defines(),
    {
        let v: Vec<(&'static str, &'static str)> = match self {
            Stage::FineMsaa8 => vec![("msaa", "1"), ("msaa8", "1")],
            Stage::FineMsaa16 => vec![("msaa", "1"), ("msaa16", "1")],
            _ => Vec::new(),
        };
        assert(v@ =~= self.spec_defines());
        v
    }

    /// How far the compiler goes: every shader is compiled with the default balance.
    pub fn optimization_level(self) -> (level: OptimizationLevel)
        ensures
            level == OptimizationLevel::Default,
    {
        OptimizationLevel::Default
    }

    /// Without this shader there is no pipeline. The multisampling rasterizers and the filter
    /// pass are optional: where one does not compile, the pipeline goes without it.
    pub open spec fn is_required(self) -> bool {
        !(self is FineMsaa8 || self is FineMsaa16 || self is FilterPass)
    }

    /// Whether there is no pipeline without this shader.
    pub fn required(self) -> (b: bool)
        ensures
            b == self.is_required(),
    {
        match self {
            Stage::FineMsaa8 | Stage::FineMsaa16 | Stage::FilterPass => false,
            _ => true,
        }
    }

    /// The types of the resources that the shader binds, slot by slot.
    pub open spec fn spec_bind_types(self) -> Seq<BindType> {
        match self {
            Stage::PipelineSetup => seq![BindType::BufReadOnly, BindType::Buffer],
            Stage::PathtagReduce => seq![BindType::BufReadOnly, BindType::BufReadOnly, BindType::Buffer],
            Stage::PathtagReduce2 => seq![BindType::BufReadOnly, BindType::Buffer],
            Stage::PathtagScan1 => seq![BindType::BufReadOnly, BindType::BufReadOnly, BindType::Buffer],
            Stage::PathtagScan => seq![BindType::BufReadOnly, BindType::BufReadOnly, BindType::BufReadOnly, BindType::Buffer],
            Stage::PathtagScanLarge => seq![BindType::BufReadOnly, BindType::BufReadOnly, BindType::BufReadOnly, BindType::Buffer],
            Stage::BboxClear => seq![BindType::BufReadOnly, BindType::Buffer],
            Stage::Flatten => seq![BindType::BufReadOnly, BindType::BufReadOnly, BindType::BufReadOnly, BindType::Buffer, BindType::Buffer, BindType::Buffer],
            Stage::DrawReduce => seq![BindType::BufReadOnly, BindType::BufReadOnly, BindType::Buffer],
            Stage::DrawLeaf => seq![BindType::BufReadOnly, BindType::BufReadOnly, BindType::BufReadOnly, BindType::BufReadOnly, BindType::Buffer, BindType::Buffer, BindType::Buffer],
            Stage::ClipReduce => seq![BindType::BufReadOnly, BindType::BufReadOnly, BindType::Buffer, BindType::Buffer],
            Stage::ClipLeaf => seq![BindType::BufReadOnly, BindType::BufReadOnly, BindType::BufReadOnly, BindType::BufReadOnly, BindType::BufReadOnly, BindType::Buffer, BindType::Buffer],
            Stage::Binning => seq![BindType::BufReadOnly, BindType::BufReadOnly, BindType::BufReadOnly, BindType::BufReadOnly, BindType::BufReadOnly, BindType::Buffer, BindType::Buffer, BindType::Buffer, BindType::Buffer],
            Stage::TileAlloc => seq![BindType::BufReadOnly, BindType::BufReadOnly, BindType::BufReadOnly, BindType::Buffer, BindType::Buffer, BindType::Buffer],
            Stage::PathCountSetup => seq![BindType::Buffer, BindType::Buffer],
            Stage::PathCount => seq![BindType::BufReadOnly, BindType::Buffer, BindType::BufReadOnly, BindType::BufReadOnly, BindType::Buffer, BindType::Buffer],
            Stage::Backdrop => seq![BindType::BufReadOnly, BindType::Buffer, BindType::BufReadOnly, BindType::Buffer],
            Stage::Coarse => seq![BindType::BufReadOnly, BindType::BufReadOnly, BindType::BufReadOnly, BindType::BufReadOnly, BindType::BufReadOnly, BindType::BufReadOnly, BindType::Buffer, BindType::Buffer, BindType::Buffer],
            Stage::PathTilingSetup => seq![BindType::Buffer, BindType::Buffer, BindType::Buffer],
            Stage::PathTiling => seq![BindType::Buffer, BindType::BufReadOnly, BindType::BufReadOnly, BindType::BufReadOnly, BindType::BufReadOnly, BindType::Buffer],
            Stage::FineArea => seq![BindType::BufReadOnly, BindType::BufReadOnly, BindType::BufReadOnly, BindType::BufReadOnly, BindType::Buffer, BindType::Image(ImageFormat::Rgba8), BindType::ImageRead(ImageFormat::Rgba8), BindType::ImageRead(ImageFormat::Rgba8), BindType::ImageRead(ImageFormat::Rgba8), BindType::Image(ImageFormat::Rgba8), BindType::Image(ImageFormat::Rgba8), BindType::Image(ImageFormat::Rgba8), BindType::Image(ImageFormat::Rgba8), BindType::Sampler, BindType::Sampler],
            Stage::FineMsaa8 => seq![BindType::BufReadOnly, BindType::BufReadOnly, BindType::BufReadOnly, BindType::BufReadOnly, BindType::Buffer, BindType::Image(ImageFormat::Rgba8), BindType::ImageRead(ImageFormat::Rgba8), BindType::ImageRead(ImageFormat::Rgba8), BindType::ImageRead(ImageFormat::Rgba8), BindType::BufReadOnly, BindType::Image(ImageFormat::Rgba8), BindType::Image(ImageFormat::Rgba8), BindType::Image(ImageFormat::Rgba8), BindType::Image(ImageFormat::Rgba8), BindType::Sampler, BindType::Sampler],
            Stage::FineMsaa16 => seq![BindType::BufReadOnly, BindType::BufReadOnly, BindType::BufReadOnly, BindType::BufReadOnly, BindType::Buffer, BindType::Image(ImageFormat::Rgba8), BindType::ImageRead(ImageFormat::Rgba8), BindType::ImageRead(ImageFormat::Rgba8), BindType::ImageRead(ImageFormat::Rgba8), BindType::BufReadOnly, BindType::Image(ImageFormat::Rgba8), BindType::Image(ImageFormat::Rgba8), BindType::Image(ImageFormat::Rgba8), BindType::Image(ImageFormat::Rgba8), BindType::Sampler, BindType::Sampler],
            Stage::FilterPass => seq![BindType::BufReadOnly, BindType::ImageRead(ImageFormat::Rgba8), BindType::Image(ImageFormat::Rgba8), BindType::Image(ImageFormat::Rgba8), BindType::Sampler],
        }
    }

    /// The types of the resources that the shader binds, slot by slot.
    pub fn bind_types(self) -> (v: Vec<BindType>)
        ensures
            v@ == self.spec_bind_types(),
    {
        let v: Vec<BindType> = match self {
            Stage::PipelineSetup => vec![BindType::BufReadOnly, BindType::Buffer],
            Stage::PathtagReduce => vec![BindType::BufReadOnly, BindType::BufReadOnly, BindType::Buffer],
            Stage::PathtagReduce2 => vec![BindType::BufReadOnly, BindType::Buffer],
            Stage::PathtagScan1 => vec![BindType::BufReadOnly, BindType::BufReadOnly, BindType::Buffer],
            Stage::PathtagScan => vec![BindType::BufReadOnly, BindType::BufReadOnly, BindType::BufReadOnly, BindType::Buffer],
            Stage::PathtagScanLarge => vec![BindType::BufReadOnly, BindType::BufReadOnly, BindType::BufReadOnly, BindType::Buffer],
            Stage::BboxClear => vec![BindType::BufReadOnly, BindType::Buffer],
            Stage::Flatten => vec![BindType::BufReadOnly, BindType::BufReadOnly, BindType::BufReadOnly, BindType::Buffer, BindType::Buffer, BindType::Buffer],
            Stage::DrawReduce => vec![BindType::BufReadOnly, BindType::BufReadOnly, BindType::Buffer],
            Stage::DrawLeaf => vec![BindType::BufReadOnly, BindType::BufReadOnly, BindType::BufReadOnly, BindType::BufReadOnly, BindType::Buffer, BindType::Buffer, BindType::Buffer],
            Stage::ClipReduce => vec![BindType::BufReadOnly, BindType::BufReadOnly, BindType::Buffer, BindType::Buffer],
            Stage::ClipLeaf => vec![BindType::BufReadOnly, BindType::BufReadOnly, BindType::BufReadOnly, BindType::BufReadOnly, BindType::BufReadOnly, BindType::Buffer, BindType::Buffer],
            Stage::Binning => vec![BindType::BufReadOnly, BindType::BufReadOnly, BindType::BufReadOnly, BindType::BufReadOnly, BindType::BufReadOnly, BindType::Buffer, BindType::Buffer, BindType::Buffer, BindType::Buffer],
            Stage::TileAlloc => vec![BindType::BufReadOnly, BindType::BufReadOnly, BindType::BufReadOnly, BindType::Buffer, BindType::Buffer, BindType::Buffer],
            Stage::PathCountSetup => vec![BindType::Buffer, BindType::Buffer],
            Stage::PathCount => vec![BindType::BufReadOnly, BindType::Buffer, BindType::BufReadOnly, BindType::BufReadOnly, BindType::Buffer, BindType::Buffer],
            Stage::Backdrop => vec![BindType::BufReadOnly, BindType::Buffer, BindType::BufReadOnly, BindType::Buffer],
            Stage::Coarse => vec![BindType::BufReadOnly, BindType::BufReadOnly, BindType::BufReadOnly, BindType::BufReadOnly, BindType::BufReadOnly, BindType::BufReadOnly, BindType::Buffer, BindType::Buffer, BindType::Buffer],
            Stage::PathTilingSetup => vec![BindType::Buffer, BindType::Buffer, BindType::Buffer],
            Stage::PathTiling => vec![BindType::Buffer, BindType::BufReadOnly, BindType::BufReadOnly, BindType::BufReadOnly, BindType::BufReadOnly, BindType::Buffer],
            Stage::FineArea => vec![BindType::BufReadOnly, BindType::BufReadOnly, BindType::BufReadOnly, BindType::BufReadOnly, BindType::Buffer, BindType::Image(ImageFormat::Rgba8), BindType::ImageRead(ImageFormat::Rgba8), BindType::ImageRead(ImageFormat::Rgba8), BindType::ImageRead(ImageFormat::Rgba8), BindType::Image(ImageFormat::Rgba8), BindType::Image(ImageFormat::Rgba8), BindType::Image(ImageFormat::Rgba8), BindType::Image(ImageFormat::Rgba8), BindType::Sampler, BindType::Sampler],
            Stage::FineMsaa8 => vec![BindType::BufReadOnly, BindType::BufReadOnly, BindType::BufReadOnly, BindType::BufReadOnly, BindType::Buffer, BindType::Image(ImageFormat::Rgba8), BindType::ImageRead(ImageFormat::Rgba8), BindType::ImageRead(ImageFormat::Rgba8), BindType::ImageRead(ImageFormat::Rgba8), BindType::BufReadOnly, BindType::Image(ImageFormat::Rgba8), BindType::Image(ImageFormat::Rgba8), BindType::Image(ImageFormat::Rgba8), BindType::Image(ImageFormat::Rgba8), BindType::Sampler, BindType::Sampler],
            Stage::FineMsaa16 => vec![BindType::BufReadOnly, BindType::BufReadOnly, BindType::BufReadOnly, BindType::BufReadOnly, BindType::Buffer, BindType::Image(ImageFormat::Rgba8), BindType::ImageRead(ImageFormat::Rgba8), BindType::ImageRead(ImageFormat::Rgba8), BindType::ImageRead(ImageFormat::Rgba8), BindType::BufReadOnly, BindType::Image(ImageFormat::Rgba8), BindType::Image(ImageFormat::Rgba8), BindType::Image(ImageFormat::Rgba8), BindType::Image(ImageFormat::Rgba8), BindType::Sampler, BindType::Sampler],
            Stage::FilterPass => vec![BindType::BufReadOnly, BindType::ImageRead(ImageFormat::Rgba8), BindType::Image(ImageFormat::Rgba8), BindType::Image(ImageFormat::Rgba8), BindType::Sampler],
        };
        assert(v@ =~= self.spec_bind_types());
        v
    }
}

/// Shaders for the full pipeline.
#[derive(Clone, Copy, Debug, PartialEq, Eq)]
pub struct FullShaders {
    /// Initializes the indirect dispatch buffer.
    pub pipeline_setup: ShaderId,
    pub pathtag_reduce: ShaderId,
    pub pathtag_reduce2: ShaderId,
    pub pathtag_scan1: ShaderId,
    pub pathtag_scan: ShaderId,
    pub pathtag_scan_large: ShaderId,
    pub bbox_clear: ShaderId,
    pub flatten: ShaderId,
    pub draw_reduce: ShaderId,
    pub draw_leaf: ShaderId,
    pub clip_reduce: ShaderId,
    pub clip_leaf: ShaderId,
    pub binning: ShaderId,
    pub tile_alloc: ShaderId,
    pub path_count_setup: ShaderId,
    pub path_count: ShaderId,
    pub backdrop: ShaderId,
    pub coarse: ShaderId,
    pub path_tiling_setup: ShaderId,
    pub path_tiling: ShaderId,
    pub fine_area: Option<ShaderId>,
    pub fine_msaa8: Option<ShaderId>,
    pub fine_msaa16: Option<ShaderId>,
    /// Full-frame filter chain after fine raster (optional).
    pub filter_pass: Option<ShaderId>,
}

impl FullShaders {
    /// The shader of a stage, where the set has one.
    pub open spec fn id(self, stage: Stage) -> Option<ShaderId> {
        match stage {
            Stage::PipelineSetup => Some(self.pipeline_setup),
            Stage::PathtagReduce => Some(self.pathtag_reduce),
            Stage::PathtagReduce2 => Some(self.pathtag_reduce2),
            Stage::PathtagScan1 => Some(self.pathtag_scan1),
            Stage::PathtagScan => Some(self.pathtag_scan),
            Stage::PathtagScanLarge => Some(self.pathtag_scan_large),
            Stage::BboxClear => Some(self.bbox_clear),
            Stage::Flatten => Some(self.flatten),
            Stage::DrawReduce => Some(self.draw_reduce),
            Stage::DrawLeaf => Some(self.draw_leaf),
            Stage::ClipReduce => Some(self.clip_reduce),
            Stage::ClipLeaf => Some(self.clip_leaf),
            Stage::Binning => Some(self.binning),
            Stage::TileAlloc => Some(self.tile_alloc),
            Stage::PathCountSetup => Some(self.path_count_setup),
            Stage::PathCount => Some(self.path_count),
            Stage::Backdrop => Some(self.backdrop),
            Stage::Coarse => Some(self.coarse),
            Stage::PathTilingSetup => Some(self.path_tiling_setup),
            Stage::PathTiling => Some(self.path_tiling),
            Stage::FineArea => self.fine_area,
            Stage::FineMsaa8 => self.fine_msaa8,
            Stage::FineMsaa16 => self.fine_msaa16,
            Stage::FilterPass => self.filter_pass,
        }
    }

    /// Create a placeholder with zeroed shader IDs; used before the shaders are compiled.
    pub fn empty() -> (s: Self)
        ensures
            forall|stage: Stage|
                (#[trigger] s.id(stage)) == (if stage.position() < 20 {
                    Some(ShaderId(0))
                } else {
                    None
                }),
    {
        FullShaders {
            pipeline_setup: ShaderId(0),
            pathtag_reduce: ShaderId(0),
            pathtag_reduce2: ShaderId(0),
            pathtag_scan1: ShaderId(0),
            pathtag_scan: ShaderId(0),
            pathtag_scan_large: ShaderId(0),
            bbox_clear: ShaderId(0),
            flatten: ShaderId(0),
            draw_reduce: ShaderId(0),
            draw_leaf: ShaderId(0),
            clip_reduce: ShaderId(0),
            clip_leaf: ShaderId(0),
            binning: ShaderId(0),
            tile_alloc: ShaderId(0),
            path_count_setup: ShaderId(0),
            path_count: ShaderId(0),
            backdrop: ShaderId(0),
            coarse: ShaderId(0),
            path_tiling_setup: ShaderId(0),
            path_tiling: ShaderId(0),
            fine_area: None,
            fine_msaa8: None,
            fine_msaa16: None,
            filter_pass: None,
        }
    }

    /// Puts the shader of one stage into the set.
    pub fn set(&mut self, stage: Stage, id: ShaderId)
        ensures
            forall|other: Stage|
                (#[trigger] final(self).id(other)) == (if other == stage {
                    Some(id)
                } else {
                    old(self).id(other)
                }),
    {
        match stage {
            Stage::PipelineSetup => {
                self.pipeline_setup = id;
            },
            Stage::PathtagReduce => {
                self.pathtag_reduce = id;
            },
            Stage::PathtagReduce2 => {
                self.pathtag_reduce2 = id;
            },
            Stage::PathtagScan1 => {
                self.pathtag_scan1 = id;
            },
            Stage::PathtagScan => {
                self.pathtag_scan = id;
            },
            Stage::PathtagScanLarge => {
                self.pathtag_scan_large = id;
            },
            Stage::BboxClear => {
                self.bbox_clear = id;
            },
            Stage::Flatten => {
                self.flatten = id;
            },
            Stage::DrawReduce => {
                self.draw_reduce = id;
            },
            Stage::DrawLeaf => {
                self.draw_leaf = id;
            },
            Stage::ClipReduce => {
                self.clip_reduce = id;
            },
            Stage::ClipLeaf => {
                self.clip_leaf = id;
            },
            Stage::Binning => {
                self.binning = id;
            },
            Stage::TileAlloc => {
                self.tile_alloc = id;
            },
            Stage::PathCountSetup => {
                self.path_count_setup = id;
            },
            Stage::PathCount => {
                self.path_count = id;
            },
            Stage::Backdrop => {
                self.backdrop = id;
            },
            Stage::Coarse => {
                self.coarse = id;
            },
            Stage::PathTilingSetup => {
                self.path_tiling_setup = id;
            },
            Stage::PathTiling => {
                self.path_tiling = id;
            },
            Stage::FineArea => {
                self.fine_area = Some(id);
            },
            Stage::FineMsaa8 => {
                self.fine_msaa8 = Some(id);
            },
            Stage::FineMsaa16 => {
                self.fine_msaa16 = Some(id);
            },
            Stage::FilterPass => {
                self.filter_pass = Some(id);
            },
        }
    }

    /// The fine rasterizer of an anti-aliasing method.
    pub open spec fn fine_stage(aa: AaConfig) -> Stage {
        match aa {
            AaConfig::Area => Stage::FineArea,
            AaConfig::Msaa8 => Stage::FineMsaa8,
            AaConfig::Msaa16 => Stage::FineMsaa16,
        }
    }

    /// The fine rasterizer of an anti-aliasing method, where the set has it.
    pub fn fine(&self, aa: AaConfig) -> (id: Option<ShaderId>)
        ensures
            id == self.id(Self::fine_stage(aa)),
    {
        match aa {
            AaConfig::Area => self.fine_area,
            AaConfig::Msaa8 => self.fine_msaa8,
            AaConfig::Msaa16 => self.fine_msaa16,
        }
    }
}

/// The shaders that were compiled, by shader id.
#[derive(Debug)]
pub struct ShaderTable {
    pub stages: Vec<Stage>,
}

impl ShaderTable {
    pub fn new() -> (t: Self)
        ensures
            t.stages@ == Seq::<Stage>::empty(),
    {
        ShaderTable { stages: Vec::new() }
    }

    /// Adds a compiled shader, which gets the next free id.
    pub fn add_compute_shader(&mut self, stage: Stage, compiled: Result<(), Error>) -> (r: Result<ShaderId, Error>)
        ensures
            match compiled {
                Ok(()) => {
                    &&& r == Ok::<ShaderId, Error>(ShaderId(old(self).stages@.len() as usize))
                    &&& final(self).stages@ == old(self).stages@.push(stage)
                },
                Err(e) => r == Err::<ShaderId, Error>(e) && final(self).stages@ == old(self).stages@,
            },
    {
        match compiled {
            Ok(()) => {
                let id: ShaderId = ShaderId(self.stages.len());
                self.stages.push(stage);
                Ok(id)
            },
            Err(e) => Err(e),
        }
    }
}

/// The stages of `order` that compiled.
pub open spec fn compiled_stages(order: Seq<Stage>, compiled: Seq<Result<(), Error>>) -> Seq<Stage>
    decreases compiled.len(),
{
    if compiled.len() == 0 {
        seq![]
    } else {
        let before = compiled_stages(order, compiled.drop_last());
        if compiled.last() is Ok {
            before.push(order[compiled.len() - 1])
        } else {
            before
        }
    }
}

/// A shader that the pipeline cannot do without did not compile.
pub open spec fn fails_at(compiled: Seq<Result<(), Error>>, i: int) -> bool {
    compiled[i] is Err && compile_order()[i].is_required()
}

/// What compiling the first stages left behind: the set `shaders`, and the table, which grew
/// from `before` to `after`.
pub open spec fn assembled(
    compiled: Seq<Result<(), Error>>,
    before: Seq<Stage>,
    after: Seq<Stage>,
    shaders: FullShaders,
) -> bool {
    &&& after == before + compiled_stages(compile_order(), compiled)
    &&& forall|i: int|
        0 <= i < compiled.len() ==> (#[trigger] shaders.id(compile_order()[i])) == (if compiled[i] is Ok {
            Some(ShaderId((before.len() + compiled_stages(compile_order(), compiled.take(i)).len()) as usize))
        } else {
            None
        })
}

/// Puts the compiled shaders together.
///
/// `compiled` tells for each stage, in the compile order, whether it compiled. It may end
/// with the first failure of a shader that the pipeline cannot do without: that failure is
/// the result.
pub fn goldy_full_shaders(table: &mut ShaderTable, compiled: Vec<Result<(), Error>>) -> (r: Result<FullShaders, Error>)
    requires
        compiled@.len() <= 24,
        compiled@.len() == 24 || exists|i: int| 0 <= i < compiled@.len() && #[trigger] fails_at(compiled@, i),
    ensures
        match r {
            Ok(shaders) => {
                &&& forall|i: int| 0 <= i < compiled@.len() ==> !#[trigger] fails_at(compiled@, i)
                &&& assembled(compiled@, old(table).stages@, final(table).stages@, shaders)
                &&& forall|i: int| 0 <= i < 21 ==> #[trigger] compiled@[i] is Ok
                &&& shaders.fine_area is Some
            },
            Err(e) => exists|k: int|
                {
                    &&& 0 <= k < 21
                    &&& 0 <= k < compiled@.len()
                    &&& #[trigger] fails_at(compiled@, k)
                    &&& forall|i: int| 0 <= i < k ==> !#[trigger] fails_at(compiled@, i)
                    &&& compiled@[k] == Err::<(), Error>(e)
                    &&& final(table).stages@ == old(table).stages@ + compiled_stages(compile_order(), compiled@.take(k))
                },
        },
{
    let order: Vec<Stage> = stages();
    let ghost all = compiled@;
    let mut rest: Vec<Result<(), Error>> = compiled;
    let mut shaders: FullShaders = FullShaders::empty();
    let mut i: usize = 0;
    assert(compiled_stages(compile_order(), all.take(0)) =~= seq![]);
    assert(rest@ =~= all.skip(0));
    while rest.len() > 0
        invariant
            all == compiled@,
            i <= all.len() <= 24,
            order@ == compile_order(),
            rest@ == all.skip(i as int),
            assembled(all.take(i as int), old(table).stages@, table.stages@, shaders),
            forall|s: Stage| i <= s.position() && s.position() >= 20 ==> (#[trigger] shaders.id(s)) is None,
            forall|j: int| 0 <= j < i ==> !#[trigger] fails_at(all, j),
        decreases rest.len(),
    {
        let outcome: Result<(), Error> = rest.remove(0);
        let stage: Stage = order[i];
        assert(outcome == all[i as int]);
        assert(rest@ =~= all.skip(i as int + 1));
        let ghost sofar = all.take(i as int);
        let ghost next = all.take(i as int + 1);
        assert(next.drop_last() =~= sofar);
        assert(compile_order()[i as int].position() == i);
        let ghost before = shaders;
        match table.add_compute_shader(stage, outcome) {
            Ok(id) => {
                shaders.set(stage, id);
            },
            Err(e) => {
                if stage.required() {
                    assert(fails_at(all, i as int));
                    return Err(e);
                }
            },
        }
        assert forall|j: int| 0 <= j < next.len() implies (#[trigger] shaders.id(compile_order()[j])) == (if next[j] is Ok {
            Some(ShaderId((old(table).stages@.len() + compiled_stages(compile_order(), next.take(j)).len()) as usize))
        } else {
            None
        }) by {
            assert(next.take(j) =~= sofar.take(j));
            assert(compile_order()[j].position() == j);
            if j < i {
                assert(next[j] == sofar[j]);
                assert(before.id(compile_order()[j]) == shaders.id(compile_order()[j]));
            } else {
                assert(sofar.take(j) =~= sofar);
                if outcome is Err {
                    assert(before.id(compile_order()[j]) is None);
                }
            }
        }
        i = i + 1;
    }
    assert(all.take(i as int) =~= all);
    assert(i == all.len());
    assert(all.len() == 24) by {
        assert(forall|j: int| 0 <= j < all.len() ==> !#[trigger] fails_at(all, j));
    }
    assert forall|j: int| 0 <= j < 21 implies #[trigger] all[j] is Ok by {
        assert(!fails_at(all, j));
    }
    assert(all[20] is Ok);
    assert(shaders.id(compile_order()[20]) is Some);
    Ok(shaders)
}

} // verus!
