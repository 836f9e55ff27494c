//! Verified core of a small real-time voxel renderer: the voxel records and
//! their dense cubic grid, the held-key input model of the free-fly camera,
//! and the per-frame sequencing decisions of the frame coordinator.

pub mod census;
pub mod frame;
pub mod grid;
pub mod input;
pub mod pipeline;
pub mod upload;
pub mod voxel;
