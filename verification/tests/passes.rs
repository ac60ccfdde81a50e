use ekrano::color::{Color, PremulColor};
use ekrano::config::{RenderConfig, WorkgroupCounts};
use ekrano::filter::{FilterEdgeMode, FilterPrimitive, FilterUniform, LayerFilterEffect};
use ekrano::filter_passes::{filter_dispatch, groups_for, halve, pyramid_blur, pyramid_levels, record_filter_effects, FilterTarget};
use ekrano::layout::Layout;
use ekrano::recording::{
    Binding, BindingList, Command, Grid, GridSize, OutputKind, PipelineBuffer, SamplerSlot, TextureSlot,
};
use ekrano::render::{too_large, Render};
use ekrano::resource_proxy::{bind_type_to_node_access, BindType, ImageFormat, NodeAccess, ShaderId};
use ekrano::scheme_render::{resolve_render_output, FilterUniformCache, MaskTables, RenderOutput, TextureRef, UniformSource};
use ekrano::shaders::{goldy_full_shaders, stages, FullShaders, OptimizationLevel, ShaderTable, Stage};
use ekrano::{AaConfig, AaSupport, Error, RenderParams};

fn bits(x: f32) -> u32 {
    x.to_bits()
}

fn all_shaders() -> FullShaders {
    let mut table = ShaderTable::new();
    let compiled = stages().iter().map(|_| Ok(())).collect();
    goldy_full_shaders(&mut table, compiled).unwrap()
}

fn params(aa: AaConfig) -> RenderParams {
    RenderParams {
        base_color: Color { components: [0; 4] },
        width: 100,
        height: 50,
        antialiasing_method: aa,
        robust: false,
    }
}

fn config(layout: Layout) -> RenderConfig {
    RenderConfig::new(&layout, 100, 50, &Color { components: [0; 4] })
}

fn effect(primitive: FilterPrimitive, layer_index: u32, is_nested: bool) -> LayerFilterEffect {
    LayerFilterEffect { primitive, layer_blend: 0x103, layer_alpha: bits(1.0), layer_index, is_nested }
}

fn stage_of(command: &Command) -> Stage {
    match command {
        Command::Dispatch { bindings: BindingList::Coarse { stage, .. }, .. } => *stage,
        _ => panic!("not a stage of the coarse phase"),
    }
}

/// Pass kind, source and destination of a filter pass.
fn pass_of(command: &Command) -> (u32, TextureSlot, TextureSlot) {
    match command {
        Command::Filter { uniform, bindings: BindingList::Filter { source, dest, .. }, .. } => {
            (uniform.pass_kind, *source, *dest)
        }
        _ => panic!("not a filter pass"),
    }
}

#[test]
fn uniforms_name_their_pass() {
    let edge = FilterEdgeMode::Mirror;
    let (dx, dy, sigma) = (bits(1.5), bits(-2.0), bits(3.0));
    let base = FilterUniform { width: 7, height: 9, ..FilterUniform::default() };
    assert_eq!(
        FilterUniform::gaussian_blur(7, 9, true, sigma, edge),
        FilterUniform { edge_mode: 3, std_dev: sigma, ..base }
    );
    assert_eq!(FilterUniform::gaussian_blur(7, 9, false, sigma, edge).pass_kind, 1);
    assert_eq!(
        FilterUniform::offset(7, 9, dx, dy, FilterEdgeMode::Wrap),
        FilterUniform { edge_mode: 2, pass_kind: 2, dx, dy, ..base }
    );
    assert_eq!(
        FilterUniform::flood(7, 9, 0xaabb_ccdd, [1, 2, 3, 4]),
        FilterUniform { edge_mode: 1, pass_kind: 3, std_dev: 2, dx: 3, dy: 4, color: 0xaabb_ccdd, ..base }
    );
    assert_eq!(
        FilterUniform::drop_shadow(7, 9, dx, dy, sigma, 5, FilterEdgeMode::Duplicate),
        FilterUniform { edge_mode: 1, pass_kind: 4, std_dev: sigma, dx, dy, color: 5, ..base }
    );
    assert_eq!(FilterUniform::drop_shadow_nested(7, 9, dx, dy, sigma, 5, FilterEdgeMode::NoEdge).pass_kind, 8);
    assert_eq!(FilterUniform::copy(7, 9), FilterUniform { pass_kind: 5, ..base });
    assert_eq!(
        FilterUniform::composite_filtered_layer(7, 9, 0x203),
        FilterUniform { edge_mode: 0x203, pass_kind: 6, ..base }
    );
    assert_eq!(FilterUniform::clear_transparent(7, 9).pass_kind, 7);
    assert_eq!(FilterUniform::downsample(7, 9).pass_kind, 9);
    assert_eq!(FilterUniform::upsample(7, 9).pass_kind, 11);
    assert_eq!(
        FilterUniform::shadow_composite_preblurred(7, 9, dx, dy, 6),
        FilterUniform { pass_kind: 13, dx, dy, color: 6, ..base }
    );
    assert_eq!(FilterUniform::shadow_composite_preblurred_nested(7, 9, dx, dy, 6).pass_kind, 14);
}

#[test]
fn edge_modes_are_numbered() {
    let numbers: Vec<u32> =
        [FilterEdgeMode::NoEdge, FilterEdgeMode::Duplicate, FilterEdgeMode::Wrap, FilterEdgeMode::Mirror]
            .iter()
            .map(|e| e.as_u32())
            .collect();
    assert_eq!(numbers, vec![0, 1, 2, 3]);
}

#[test]
fn pyramids_halve_and_stop() {
    assert_eq!((halve(100, 1), halve(100, 3), halve(1, 6)), (50, 12, 1));
    assert_eq!((pyramid_levels(0), pyramid_levels(4), pyramid_levels(9)), (1, 4, 6));
    assert_eq!(groups_for(100, 16), (7, 1, 1));
}

#[test]
fn pyramid_blurs_go_down_and_up() {
    let target = FilterTarget { shader: ShaderId(3), width: 100, height: 50, output: OutputKind::Texture };
    let mut commands = Vec::new();
    let sigma = 40.0_f32;
    let log2 = sigma.log2().floor() as u32;
    pyramid_blur(
        &mut commands,
        &target,
        TextureSlot::Scratch,
        TextureSlot::BlurResult,
        bits(sigma),
        FilterEdgeMode::Duplicate,
        log2,
    );
    let levels = 5;
    assert_eq!(commands.len(), levels + levels + 3 + levels + levels + 1);
    assert_eq!(
        commands[0],
        Command::Acquire { slot: TextureSlot::Level(0), width: 50, height: 25, copies: false }
    );
    assert_eq!(
        commands[4],
        Command::Acquire { slot: TextureSlot::Level(4), width: 3, height: 1, copies: false }
    );
    assert_eq!(pass_of(&commands[5]), (9, TextureSlot::Scratch, TextureSlot::Level(0)));
    assert_eq!(pass_of(&commands[9]), (9, TextureSlot::Level(3), TextureSlot::Level(4)));
    assert_eq!(pass_of(&commands[11]), (0, TextureSlot::Level(4), TextureSlot::BottomScratch));
    assert_eq!(pass_of(&commands[12]), (1, TextureSlot::BottomScratch, TextureSlot::Level(4)));
    match commands[11] {
        Command::Filter { uniform, groups, .. } => {
            assert_eq!(f32::from_bits(uniform.std_dev), sigma / 32.0);
            assert_eq!(groups, (1, 1, 1));
        }
        _ => panic!("the bottom is blurred"),
    }
    assert_eq!(pass_of(&commands[13]), (11, TextureSlot::Level(4), TextureSlot::Level(3)));
    assert_eq!(pass_of(&commands[17]), (11, TextureSlot::Level(0), TextureSlot::BlurResult));
    assert_eq!(commands[18], Command::Release(TextureSlot::Level(0)));
    assert_eq!(commands[23], Command::Release(TextureSlot::BottomScratch));
}

#[test]
fn effects_are_applied_and_composited() {
    let white = PremulColor { components: [bits(1.0); 4] };
    let effects = [
        effect(FilterPrimitive::GaussianBlur { std_dev: bits(2.0), edge_mode: FilterEdgeMode::NoEdge }, 0, false),
        effect(FilterPrimitive::Offset { dx: bits(1.0), dy: bits(0.0) }, 1, true),
        effect(FilterPrimitive::Flood { color: white, clip_rect: [0, 0, 9, 9] }, 9, false),
    ];
    let commands = record_filter_effects(&effects, &[1, 0, 0], Some(ShaderId(1)), 100, 50, OutputKind::Present);
    let layer = TextureSlot::FilterLayer;
    assert_eq!(
        commands[0],
        Command::Acquire { slot: TextureSlot::Scratch, width: 100, height: 50, copies: true }
    );
    let passes: Vec<(u32, TextureSlot, TextureSlot)> = commands[1..10].iter().map(pass_of).collect();
    assert_eq!(
        passes,
        vec![
            (0, layer(0), TextureSlot::Scratch),
            (1, TextureSlot::Scratch, layer(0)),
            (2, layer(1), TextureSlot::Scratch),
            (5, TextureSlot::Scratch, layer(1)),
            (3, layer(3), TextureSlot::Scratch),
            (5, TextureSlot::Scratch, layer(3)),
            (6, layer(1), TextureSlot::Output),
            (6, layer(0), TextureSlot::Output),
            (6, layer(3), TextureSlot::Output),
        ]
    );
    match commands[5] {
        Command::Filter { uniform, .. } => assert_eq!((uniform.color, uniform.dy), (u32::MAX, 9)),
        _ => panic!("the flood has a color"),
    }
    match commands[7] {
        Command::Filter { uniform, bindings, .. } => {
            assert_eq!(uniform.edge_mode, 0x103);
            assert_eq!(bindings.list()[2], Binding::Present(NodeAccess::ReadWrite));
        }
        _ => panic!("the inner layer is composited first"),
    }
    assert_eq!(commands[10], Command::Release(TextureSlot::Scratch));
    assert_eq!(commands.len(), 11);
}

#[test]
fn shadows_are_cast() {
    let black = PremulColor { components: [0, 0, 0, bits(1.0)] };
    let shadow = |sigma: f32| FilterPrimitive::DropShadow {
        dx: bits(1.0),
        dy: bits(2.0),
        std_dev: bits(sigma),
        color: black,
        edge_mode: FilterEdgeMode::NoEdge,
    };
    let layer = TextureSlot::FilterLayer;
    let kinds = |sigma: f32, nested: bool| -> Vec<(u32, TextureSlot, TextureSlot)> {
        record_filter_effects(&[effect(shadow(sigma), 2, nested)], &[4], Some(ShaderId(1)), 64, 64, OutputKind::Texture)
            .iter()
            .filter(|c| matches!(c, Command::Filter { .. }))
            .map(pass_of)
            .collect()
    };
    assert_eq!(
        kinds(16.0, false),
        vec![(4, layer(2), TextureSlot::Scratch), (5, TextureSlot::Scratch, layer(2)), (6, layer(2), TextureSlot::Output)]
    );
    assert_eq!(
        kinds(16.0, true),
        vec![(8, layer(1), TextureSlot::Scratch), (5, TextureSlot::Scratch, layer(2)), (6, layer(2), TextureSlot::Output)]
    );
    let large = kinds(17.0, false);
    assert_eq!(large[0], (9, layer(2), TextureSlot::Level(0)));
    assert_eq!(
        large[large.len() - 3..],
        [(13, layer(2), TextureSlot::Scratch), (5, TextureSlot::Scratch, layer(2)), (6, layer(2), TextureSlot::Output)]
    );
    let nested = kinds(17.0, true);
    assert_eq!(nested[0], (9, layer(1), TextureSlot::Level(0)));
    assert_eq!(nested[nested.len() - 2..], [(14, layer(1), layer(2)), (6, layer(2), TextureSlot::Output)]);
}

#[test]
fn textures_of_a_frame_are_given_back() {
    let black = PremulColor { components: [0; 4] };
    let effects = [
        effect(
            FilterPrimitive::DropShadow {
                dx: 0,
                dy: 0,
                std_dev: bits(100.0),
                color: black,
                edge_mode: FilterEdgeMode::NoEdge,
            },
            1,
            true,
        ),
        effect(FilterPrimitive::Offset { dx: 0, dy: 0 }, 0, false),
    ];
    let commands = record_filter_effects(&effects, &[6, 0], Some(ShaderId(1)), 64, 64, OutputKind::Texture);
    let mut held: Vec<TextureSlot> = Vec::new();
    for command in &commands {
        match command {
            Command::Acquire { slot, .. } => held.push(*slot),
            Command::Release(slot) => {
                let at = held.iter().position(|s| s == slot).expect("it was acquired");
                held.remove(at);
            }
            _ => {}
        }
    }
    assert!(held.is_empty());
}

#[test]
fn without_effects_there_is_nothing_to_filter() {
    let one = [effect(FilterPrimitive::Offset { dx: 0, dy: 0 }, 0, false)];
    assert!(record_filter_effects(&[], &[], Some(ShaderId(1)), 64, 64, OutputKind::Texture).is_empty());
    assert!(record_filter_effects(&one, &[0], None, 64, 64, OutputKind::Texture).is_empty());
    assert!(record_filter_effects(&one, &[0], Some(ShaderId(1)), 0, 64, OutputKind::Texture).is_empty());
}

#[test]
fn filter_passes_bind_four_resources() {
    let target = FilterTarget { shader: ShaderId(3), width: 4, height: 4, output: OutputKind::Texture };
    let command =
        filter_dispatch(&target, FilterUniform::copy(4, 4), TextureSlot::Scratch, TextureSlot::FilterLayer(1));
    match command {
        Command::Filter { shader, bindings, .. } => {
            assert_eq!(shader, ShaderId(3));
            assert_eq!(
                bindings.list(),
                vec![
                    Binding::Tex(TextureSlot::Scratch),
                    Binding::Tex(TextureSlot::Scratch),
                    Binding::Tex(TextureSlot::FilterLayer(1)),
                    Binding::Sampler(SamplerSlot::LinearClamp),
                ]
            );
        }
        _ => panic!("a filter pass"),
    }
}

#[test]
fn coarse_stages_come_in_order() {
    let shaders = all_shaders();
    let layout = Layout { n_draw_objects: 1, n_paths: 1, path_data_base: 1, ..Layout::default() };
    let mut render = Render::new();
    let plan = render.run_coarse(None, false, &shaders, &params(AaConfig::Msaa8), true, &config(layout));
    let order: Vec<Stage> = plan.commands.iter().map(stage_of).collect();
    assert_eq!(
        order,
        vec![
            Stage::PathtagReduce,
            Stage::PathtagScan,
            Stage::BboxClear,
            Stage::Flatten,
            Stage::DrawReduce,
            Stage::DrawLeaf,
            Stage::Binning,
            Stage::TileAlloc,
            Stage::PathCountSetup,
            Stage::PathCount,
            Stage::Backdrop,
            Stage::Coarse,
            Stage::PathTilingSetup,
            Stage::PathTiling,
        ]
    );
    assert_eq!(render.fine_wg_count, Some((7, 4, 1)));
    assert_eq!(render.aa_config, AaConfig::Msaa8);
    assert!(render.take_captured_buffers().is_some());
    assert!(render.take_captured_buffers().is_none());
}

#[test]
fn setup_makes_every_stage_indirect() {
    let shaders = all_shaders();
    let mut render = Render::new();
    let plan =
        render.run_coarse(Some(ShaderId(99)), false, &shaders, &params(AaConfig::Area), false, &config(Layout::default()));
    assert_eq!(plan.commands[0], Command::UploadCounts);
    assert_eq!(plan.commands[1], Command::AllocIndirect { size: 320, stride: 16 });
    assert!(matches!(plan.commands[2], Command::Dispatch { shader: ShaderId(99), grid: Grid::Direct((1, 1, 1)), .. }));
    assert_eq!(plan.commands[3], Command::ReleaseCounts);
    let offsets: Vec<u64> = plan
        .commands
        .iter()
        .filter_map(|c| match c {
            Command::Dispatch { grid: Grid::Indirect { offset }, .. } => Some(*offset),
            _ => None,
        })
        .collect();
    assert_eq!(offsets.len(), 17);
    assert!(offsets.iter().all(|o| o % 16 == 0 && o + 16 <= 320));
    assert!(render.take_captured_buffers().is_none());
}

#[test]
fn large_scans_take_two_levels() {
    let shaders = all_shaders();
    let counts = WorkgroupCounts { use_large_path_scan: true, flatten: (1, 1, 1), ..WorkgroupCounts::default() };
    let mut c = config(Layout::default());
    c.workgroup_counts = counts;
    let mut render = Render::new();
    let plan = render.run_coarse(None, false, &shaders, &params(AaConfig::Area), false, &c);
    let order: Vec<Stage> = plan.commands[1..4].iter().map(stage_of).collect();
    assert_eq!(order, vec![Stage::PathtagReduce2, Stage::PathtagScan1, Stage::PathtagScanLarge]);
    let plan = render.run_coarse(None, true, &shaders, &params(AaConfig::Area), false, &c);
    assert_eq!(stage_of(&plan.commands[1]), Stage::PathtagScan);
}

#[test]
fn flattening_is_split_into_chunks() {
    let shaders = all_shaders();
    let mut c = config(Layout::default());
    c.workgroup_counts.flatten = (19, 1, 1);
    let mut render = Render::new();
    let plan = render.run_coarse(None, false, &shaders, &params(AaConfig::Area), false, &c);
    let chunks: Vec<(u32, u32)> = plan
        .commands
        .iter()
        .filter_map(|command| match command {
            Command::Dispatch { grid: Grid::Direct((n, 1, 1)), push_tail: Some(base), .. } => Some((*n, *base)),
            _ => None,
        })
        .collect();
    assert_eq!(chunks, vec![(8, 0), (8, 2048), (3, 4096)]);
    assert!(too_large((257, 1, 1)) && !too_large((16, 16, 1)));
}

#[test]
fn retained_workers_record_every_stage() {
    let shaders = all_shaders();
    let mut render = ekrano::scheme_render::Render::new();
    let recording =
        render.run_coarse(&shaders, &params(AaConfig::Area), false, &config(Layout::default()));
    assert_eq!(recording.commands.len(), 6 + 1 + 12);
    assert_eq!(recording.counts.entries[19], [7, 4, 1, 0]);
    let units: Vec<u32> = recording
        .commands
        .iter()
        .filter_map(|c| match c {
            Command::Dispatch { grid: Grid::Unit { stage }, .. } => Some(*stage),
            _ => None,
        })
        .collect();
    assert_eq!(units, vec![0, 1, 2, 3, 4, 5, 6, 7, 8, 9, 10, 11, 12, 14, 15, 16, 18]);
    match recording.commands[13] {
        Command::Dispatch { bindings, .. } => assert_eq!(
            bindings.list(),
            vec![Binding::Buf(PipelineBuffer::Bump), Binding::Unit(14)]
        ),
        _ => panic!("path counting is set up"),
    }
}

#[test]
fn fine_rasterization_uploads_a_table_once() {
    let shaders = all_shaders();
    let mut tables = MaskTables { msaa8: false, msaa16: false };
    let output = RenderOutput::Present(7);
    for first in [true, false] {
        let mut render = ekrano::scheme_render::Render::new();
        render.run_coarse(&shaders, &params(AaConfig::Msaa16), false, &config(Layout::default()));
        let commands = render.record_fine(&[], &shaders, (100, 50), false, output, &mut tables);
        assert_eq!(commands.len(), if first { 2 } else { 1 });
        assert_eq!(matches!(commands[0], Command::UploadMaskLut(AaConfig::Msaa16)), first);
        match commands.last() {
            Some(Command::Dispatch { shader, grid, bindings, .. }) => {
                assert_eq!(Some(*shader), shaders.fine_msaa16);
                assert_eq!(*grid, Grid::Direct((7, 4, 1)));
                let list = bindings.list();
                assert_eq!(list.len(), 16);
                assert_eq!(list[5], Binding::Present(NodeAccess::Write));
                assert_eq!(list[9], Binding::Buf(PipelineBuffer::MaskLut));
            }
            _ => panic!("fine rasterization comes last"),
        }
    }
    assert_eq!(tables, MaskTables { msaa8: false, msaa16: true });
}

#[test]
fn layers_are_cleared_before_filters() {
    let shaders = all_shaders();
    let mut render = Render::new();
    render.run_coarse(None, false, &shaders, &params(AaConfig::Area), false, &config(Layout::default()));
    let one = [effect(FilterPrimitive::Offset { dx: 0, dy: 0 }, 0, false)];
    let commands = render.record_fine(&one, &shaders, 100, 50);
    assert_eq!(commands.len(), 5);
    for i in 0..4 {
        assert_eq!(pass_of(&commands[i]), (7, TextureSlot::Output, TextureSlot::FilterLayer(i)));
    }
    match commands[4] {
        Command::Dispatch { bindings, .. } => assert_eq!(bindings.list().len(), 15),
        _ => panic!("fine rasterization comes last"),
    }
}

#[test]
fn outputs_are_resolved() {
    let a = TextureRef { handle: 1, width: 3, height: 4 };
    let b = TextureRef { handle: 2, width: 5, height: 6 };
    assert_eq!(resolve_render_output(Some(a), None, Some(b)), RenderOutput::Texture(a));
    assert_eq!(resolve_render_output(None, Some(9), Some(b)), RenderOutput::Present(9));
    assert_eq!(resolve_render_output(None, None, Some(b)), RenderOutput::Texture(b));
    assert_eq!((RenderOutput::Texture(a).width(8), RenderOutput::Texture(a).height(8)), (3, 4));
    assert_eq!((RenderOutput::Present(9).width(8), RenderOutput::Present(9).height(7)), (8, 7));
    assert_eq!(RenderOutput::Present(9).kind(), OutputKind::Present);
}

#[test]
fn uniforms_of_unchanged_passes_are_kept() {
    let mut cache = FilterUniformCache { slots: Vec::new(), next: 0 };
    let copy = FilterUniform::copy(4, 4);
    let clear = FilterUniform::clear_transparent(4, 4);
    assert_eq!(cache.take(&copy), UniformSource::Upload);
    cache.put(copy, 1);
    assert_eq!(cache.take(&clear), UniformSource::Upload);
    cache.put(clear, 2);
    assert!(cache.trim().is_empty());
    cache.restart();
    assert_eq!(cache.take(&copy), UniformSource::Reuse(1));
    cache.put(copy, 1);
    assert_eq!(cache.take(&copy), UniformSource::Replace(2));
    cache.put(copy, 3);
    cache.next = 1;
    assert_eq!(cache.trim(), vec![3]);
    assert_eq!(cache.slots.len(), 1);
}

#[test]
fn shaders_are_numbered_as_they_compile() {
    let shaders = all_shaders();
    assert_eq!(shaders.pipeline_setup, ShaderId(0));
    assert_eq!(shaders.path_tiling, ShaderId(19));
    assert_eq!(shaders.filter_pass, Some(ShaderId(23)));
    assert_eq!(shaders.fine(AaConfig::Msaa8), Some(ShaderId(21)));
}

#[test]
fn optional_shaders_may_fail() {
    let failure = || Err(Error::Shader(String::from("no")));
    let compile = |missing: usize| -> (ShaderTable, Result<FullShaders, Error>) {
        let mut table = ShaderTable::new();
        let compiled = (0..24).map(|i| if i == missing { failure() } else { Ok(()) }).collect();
        let shaders = goldy_full_shaders(&mut table, compiled);
        (table, shaders)
    };
    let (table, shaders) = compile(21);
    let shaders = shaders.unwrap();
    assert_eq!(shaders.fine(AaConfig::Msaa8), None);
    assert_eq!(shaders.fine(AaConfig::Msaa16), Some(ShaderId(21)));
    assert_eq!(shaders.filter_pass, Some(ShaderId(22)));
    assert_eq!(table.stages.len(), 23);
    for required in [0, 7, 20] {
        let (table, shaders) = compile(required);
        match shaders {
            Err(Error::Shader(text)) => assert_eq!(text, "no"),
            _ => panic!("the pipeline needs that shader"),
        }
        assert_eq!(table.stages.len(), required);
    }
}

#[test]
fn stages_know_their_shaders() {
    assert_eq!(Stage::FineMsaa8.module(), "fine");
    assert_eq!(Stage::FineMsaa8.label(), "fine_msaa8");
    assert_eq!(Stage::FineMsaa16.defines(), vec![("msaa", "1"), ("msaa16", "1")]);
    assert_eq!(Stage::FineMsaa16.optimization_level(), OptimizationLevel::Default);
    assert!(Stage::FineArea.defines().is_empty() && Stage::FineArea.required() && !Stage::FilterPass.required());
    for stage in stages() {
        let bound = match stage {
            Stage::FineArea => BindingList::Fine { output: OutputKind::Texture, mask_lut: false }.list().len(),
            Stage::FineMsaa8 | Stage::FineMsaa16 => {
                BindingList::Fine { output: OutputKind::Texture, mask_lut: true }.list().len()
            }
            Stage::FilterPass => 5,
            _ => BindingList::Coarse { stage, units: true }.list().len(),
        };
        assert_eq!(stage.bind_types().len(), bound, "{stage:?}");
    }
}

#[test]
fn bind_types_say_how_they_access() {
    assert_eq!(bind_type_to_node_access(BindType::Buffer), NodeAccess::ReadWrite);
    assert_eq!(bind_type_to_node_access(BindType::Image(ImageFormat::Rgba8)), NodeAccess::ReadWrite);
    for read in [BindType::BufReadOnly, BindType::Uniform, BindType::ImageRead(ImageFormat::Bgra8), BindType::Sampler] {
        assert_eq!(bind_type_to_node_access(read), NodeAccess::Read);
    }
}

#[test]
fn antialiasing_support_is_collected() {
    let s = AaSupport::from_iter(&[AaConfig::Msaa16, AaConfig::Area]);
    assert_eq!(s, AaSupport { area: true, msaa8: false, msaa16: true });
    assert_eq!(AaSupport::from_iter(&[]), AaSupport { area: false, msaa8: false, msaa16: false });
    assert_eq!(AaSupport::all(), AaSupport { area: true, msaa8: true, msaa16: true });
    assert_eq!(AaSupport::area_only(), AaSupport::from_iter(&[AaConfig::Area]));
}

#[test]
fn errors_have_messages() {
    assert_eq!(Error::Shader(String::from("a")).message(), "Shader/GPU error: a");
    assert_eq!(Error::Gpu(String::from("b")).message(), "GPU resource error: b");
    assert_eq!(Error::Readback(String::from("c")).message(), "CPU readback error: c");
    let image = Error::InvalidImage { id: 42, reason: String::from("d") };
    assert_eq!(image.message(), "Invalid empty image (id: 42): d");
}

#[test]
fn grids_know_where_their_size_is() {
    assert_eq!(Grid::Direct((1, 2, 3)).size(), GridSize::Fixed((1, 2, 3)));
    assert_eq!(Grid::Indirect { offset: 48 }.size(), GridSize::Entry(3));
    assert_eq!(Grid::Unit { stage: 5 }.size(), GridSize::Entry(5));
}
