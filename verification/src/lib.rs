//! Per-frame orchestration of a physically based forward renderer: visibility
//! culling, pass and pipeline construction, and the ordered recording of one
//! frame's command sequence.

pub mod commands;
pub mod culling;
pub mod directional;
pub mod forward;
pub mod frustum;
pub mod interfaces;
pub mod laws;
pub mod pipelines;
pub mod routine;
pub mod samplers;
pub mod scene;
pub mod skybox;
pub mod tonemapping;
pub mod types;
pub mod utils;

pub use routine::PbrRenderRoutine;
pub use routine::PrimaryPasses;
pub use routine::SampleDependantPassesNewArgs;
