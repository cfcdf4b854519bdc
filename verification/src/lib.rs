//! CUDA device facts and the choice of the GPU architecture to compile for.
pub mod arch;
pub mod capability;
pub mod device_caps;
pub mod probe;
pub mod process;
pub mod selection;
pub mod selection_laws;
pub mod standard;
pub mod text;
