//! Translation of SM86 GPU machine words into a SPIR-V style word stream.

pub mod bits;
pub mod spirv;
pub mod sm86;
pub mod decode_control;
pub mod decode_float;
pub mod decode_integer;
pub mod decode_matrix;
pub mod decode_memory;
pub mod decode_texture;
pub mod decode_uniform;
