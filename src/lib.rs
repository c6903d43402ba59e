//! GPU-resident memory subsystem of a bindless renderer: typed device
//! addresses, a forward-only bump arena over one long-lived buffer, and a
//! per-frame staging ring used to marshal uploads.

pub mod gpu_ptr;
pub mod align;
pub mod device;
pub mod arena;
pub mod staging;
pub mod morton;
pub mod seed;
pub mod region;
