//! Ownership-aware handles over the class hierarchy of a physics engine, and
//! the plan by which the engine's sources are compiled.

pub mod bindings;
pub mod class;
pub mod compile;
pub mod components;
pub mod context;
pub mod cuda_context_manager;
pub mod environment;
pub mod error;
pub mod includes;
pub mod owner;
pub mod particle_and_diffuse_buffer;
pub mod particle_buffer;
pub mod path;
pub mod plan;
pub mod sources;
pub mod text;
pub mod toolchain;
