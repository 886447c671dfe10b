//! Tube meshes swept along a curve: a cross-section is placed at each frame
//! sampled from the curve, and neighbouring rings are stitched into triangles.

pub mod cross_section;
pub mod error;
pub mod frame;
pub mod guarantees;
pub mod mesh;
pub mod plugin;
pub mod stitch;
pub mod vector;

pub use crate::cross_section::CrossSection;
pub use crate::error::ExtrudeError;
pub use crate::frame::{CurveSample, Frame};
pub use crate::mesh::OutputMesh;
pub use crate::plugin::BevyPgcSplinesPlugin;
