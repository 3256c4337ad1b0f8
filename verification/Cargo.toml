[package]
name = "webgpu_renderer"
version = "0.1.0"
edition = "2021"
publish = false

[dependencies]
wasm-bindgen = "=0.2.130"
js-sys = "=0.3.107"
console_error_panic_hook = "=0.1.7"

[dependencies.web-sys]
version = "=0.3.37"
features = [
    "GpuBindGroup", "GpuBindGroupDescriptor", "GpuBindGroupEntry", "GpuBindGroupLayout",
    "GpuBindGroupLayoutDescriptor", "GpuBindGroupLayoutEntry", "GpuBindingType",
    "GpuBlendDescriptor", "GpuBlendFactor", "GpuBlendOperation", "GpuBuffer", "GpuBufferBinding",
    "GpuBufferDescriptor", "GpuBufferUsage", "GpuCanvasContext", "GpuColorDict",
    "GpuColorStateDescriptor", "GpuColorWrite", "GpuCommandBuffer", "GpuCommandEncoder",
    "GpuCompareFunction", "GpuCullMode", "GpuDepthStencilStateDescriptor", "GpuDevice",
    "GpuExtent3dDict", "GpuFrontFace", "GpuIndexFormat", "GpuInputStepMode", "GpuLoadOp",
    "GpuPipelineLayout", "GpuPipelineLayoutDescriptor", "GpuPrimitiveTopology",
    "GpuProgrammableStageDescriptor", "GpuQueue", "GpuRasterizationStateDescriptor",
    "GpuRenderPassColorAttachmentDescriptor", "GpuRenderPassDepthStencilAttachmentDescriptor",
    "GpuRenderPassDescriptor", "GpuRenderPassEncoder", "GpuRenderPipeline",
    "GpuRenderPipelineDescriptor", "GpuShaderModule", "GpuShaderModuleDescriptor",
    "GpuShaderStage", "GpuStoreOp", "GpuSwapChain", "GpuSwapChainDescriptor", "GpuTexture",
    "GpuTextureDescriptor", "GpuTextureFormat", "GpuTextureUsage", "GpuTextureView",
    "GpuVertexAttributeDescriptor", "GpuVertexBufferLayoutDescriptor", "GpuVertexFormat",
    "GpuVertexStateDescriptor", "HtmlCanvasElement",
]
