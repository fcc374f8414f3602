//! Core of an interactive point-cloud and mesh viewer.
//!
//! The library holds the viewer's decision logic: the camera model and its
//! input-driven updates, assembly of imported geometry (vertex records, fan
//! triangulation, point/face partition), the bookkeeping of the GPU-side
//! geometry buffers, and the per-frame pass plan. Scalar quantities (lengths,
//! speeds, angles, durations) are carried as fixed-point integers in
//! micro-units so that every rule about them is exact; the thin shell that
//! owns the window and the GPU converts them to the floating-point values the
//! graphics stack wants.

pub mod camera;
pub mod fixed;
pub mod import;
pub mod interface;
pub mod state;
