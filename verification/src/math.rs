pub mod utils;
pub mod vec3;
pub mod mat4;
