//! A minimal full-screen shader viewer, modelled and verified.
//!
//! The library holds everything the viewer decides or computes: the byte
//! layout of the resolution uniform, the surface configuration and how a
//! resize changes it, the descriptor plans built once at startup, and the
//! event-dispatch rules that the frame loop follows. The windowing and GPU
//! calls themselves live outside the library and only carry these plans out.

pub mod bits;
pub mod bootstrap;
pub mod config;
pub mod events;
pub mod plans;
pub mod uniforms;
