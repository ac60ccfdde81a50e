# Ekrano

A GPU compute-centric 2D renderer whose decisions are verified with Verus.

`src/` is the library. It encodes scenes into the streams that the shaders read, sizes the
buffers of a frame, plans the dispatches of the pipeline and of its filters, decides what is kept
from one frame to the next, and takes the bytes that come back apart. It does no I/O and holds no
resources of a GPU: a buffer, a texture or a submission is a handle, and a plan says what is to be
acquired, filled, dispatched and released. Floating-point values travel as their bit patterns.

`app/` carries plans out on a GPU: it compiles shaders, keeps the resources behind the handles, and
does the floating-point geometry.

| Modules | Subject |
| --- | --- |
| `encoding`, `encoding_laws`, `draw`, `path`, `layout`, `scene_data` | Scene streams |
| `config`, `math` | Buffer sizes, workgroup counts, growth after an overflow |
| `shaders`, `recording`, `render`, `scheme_render`, `filter`, `filter_passes` | Dispatches and their bindings |
| `gpu_resources`, `scheme_gpu_resources`, `pipeline_resources`, `goldy_renderer`, `scheme_renderer`, `worker_retention` | Resources of a frame and their reuse |
| `goldy_engine`, `resource_proxy`, `live_texture` | Recordings and textures that are shared with a producer |
| `backdrop`, `path_tiling_setup`, `morton`, `pixels`, `color`, `float`, `image`, `coverage_mask` | Algorithms on plain values |
| `decoration`, `text`, `debug_renderer`, `dispatch_dump`, `frame_trace`, `slang` | Text decorations, debugging, tracing |
