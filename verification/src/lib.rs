//! Backend-independent core of a Diligent-backed render device: resource
//! descriptor translation, capability derivation, draw-state tracking,
//! dynamic-offset validation, readback bookkeeping and frame diagnostics.

pub mod text;
pub mod time;
pub mod binding;
pub mod diligent_types;
pub mod features;
pub mod gpu_types;
pub mod mapping;
pub mod offsets;
pub mod render_pass;
pub mod draw;
pub mod pipeline;
pub mod encoder_pass;
pub mod resources;
pub mod readback;
pub mod diagnostics;
pub mod errors;
pub mod texture;
pub mod bind_group;
pub mod dlss;
pub mod shader;
pub mod adapter;
pub mod descriptors;
