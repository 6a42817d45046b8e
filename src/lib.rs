//! Scheduling core of an interactive fractal explorer.
//!
//! The library decides when a background render job runs, which device
//! kernels it invokes and with which arguments, how a rebuilt compute context
//! takes over, and how a finished job's RGB raster is published. The device
//! program, the worker thread and the window live outside the library and
//! exchange only plain values with it.
//!
//! Floating-point parameters are carried as their IEEE-754 bit patterns
//! (`u64`): the core only compares and forwards them, never computes with them.

pub mod image;
pub mod params;
pub mod pipeline;
pub mod template;
pub mod viewer;
