/// Line rasterization.
pub mod lines;
/// Filled triangle rasterization.
pub mod triangles;

pub use self::lines::Lines;
pub use self::triangles::{CullMode, FaceAction, Triangles};
