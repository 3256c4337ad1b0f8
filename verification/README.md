# webgpu_renderer

A WebGPU renderer that draws one colored triangle, with its configuration and
per-frame command sequence written as a Verus-verified library.

- `src/` describes, as plain values, everything the renderer creates at
  start-up (`renderer::WebGpuRenderer::new`): swap-chain format, depth texture,
  vertex/index/uniform buffers, the SPIR-V shader modules, the uniform bind
  group and the render pipeline; and the commands of each frame
  (`encode_commands`, `draw`). `src/laws.rs` proves that these fit together:
  bound buffers match the pipeline's vertex layouts, draws stay inside the
  index and vertex data, the pipeline's targets match the attachments, the
  viewport covers the depth texture while the canvas keeps its size, and the
  shader modules declare the entry points and input/output locations the
  pipeline uses (`src/spirv.rs` reads these from the SPIR-V words).
- `app/` is the browser side: a `wasm_bindgen` class that performs the WebGPU
  calls the library plans and holds the floating-point scene data.
