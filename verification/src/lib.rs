//! Plugin manifests and entry-path confinement, and the pixel layout of the
//! TIFF upload used for remote AI masking.

pub mod text;
pub mod plugins;
pub mod plugins_laws;
pub mod remote_masking;
