//! The verified core of a binding to the Rockchip ISP image-quality control
//! library: the status codes and the error value built from them, the mode
//! enumerations and their native counterparts, the parser of camera module
//! identifiers, the table of a gamma curve, and the small decisions that the
//! binding makes between two native calls.
pub mod ae;
pub mod awb;
pub mod context;
pub mod error;
pub mod gamma;
pub mod native;
pub mod nr;
pub mod pattern;
pub mod sysctl;
pub mod text;
pub mod types;
