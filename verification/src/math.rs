pub mod ivec2;
pub mod ivec3;
pub mod ivec4;
pub mod ivecn;
pub mod matrix;
pub mod utils;
pub mod vector;
