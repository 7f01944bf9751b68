//! Scene description for a ray-marching renderer: transforms and materials held
//! as IEEE-754 single-precision bit patterns, the fixed-width record that the GPU
//! interpreter reads for each primitive, the flattening of compound objects into
//! such records, the camera's movement commands, and the shader's define table.

pub mod transform;
pub mod objects;
pub mod compound_object;
pub mod camera;
pub mod shader;
