//! A verified description of a WebGPU triangle renderer: the resources it
//! creates, the pipeline it configures and the commands it records each frame.
pub mod commands;
pub mod formats;
pub mod laws;
pub mod mesh;
pub mod pipeline;
pub mod renderer;
pub mod shaders;
pub mod spirv;
