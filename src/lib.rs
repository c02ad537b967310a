//! A software rasterizer: dense N-dimensional buffers used as textures and
//! render targets, primitive assembly, and the integer decisions of the
//! rendering pipeline (culling, pixel bounds, depth testing, multisample
//! caching and row-band dispatch), each stated and proved.

/// N-dimensional buffers that may be used as textures and render targets.
pub mod buffer;

/// Row-band decomposition of a render for parallel workers.
pub mod dispatch;
/// Index buffer features.
pub mod index;
/// Multi-sampling fragment cache.
pub mod msaa;
/// Pipeline configuration and per-fragment decisions.
pub mod pipeline;
/// Assembly of vertex streams into primitives.
pub mod primitives;
/// Rasterization decisions.
pub mod rasterizer;
/// Texel selection for texture samplers.
pub mod sampler;
/// Texture and target definitions.
pub mod texture;

pub use crate::buffer::{Buffer, Buffer1d, Buffer2d, Buffer3d, Buffer4d};
pub use crate::texture::{Empty, Mapped, Target, Texture};
pub use crate::rasterizer::{CullMode, FaceAction, Lines, Triangles};
pub use crate::pipeline::{AaMode, DepthMode, Handedness, PixelMode, YAxisDirection};
pub use crate::primitives::{LineList, LineTriangleList, PrimitiveKind, TriangleList};
pub use crate::index::{IndexedVertices, IndexedVerticesIter};
