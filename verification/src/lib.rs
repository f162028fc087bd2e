//! Frame-loop core of a renderer that spins one coloured quad.
//!
//! The crate holds the decisions of the renderer as verified functions on
//! plain values: how a resize changes the surface configuration, how the
//! rotation advances with every frame, and what the loop does after each
//! presentation attempt. Windowing and GPU calls are left to the caller, who
//! performs the [`Command`](event::Command) that each step hands back.
//!
//! - [`surface`]: sizes, surface configurations and acquisition errors.
//! - [`event`]: window events and the commands of the frame loop.
//! - [`state`]: the renderer's state, its view and its transitions.
//! - [`setup`]: the choice of adapter and surface format.
//! - [`gpu`]: the trusted boundary to `wgpu`.
//! - [`laws`]: what holds of every state and transition.

pub mod event;
pub mod gpu;
pub mod laws;
pub mod setup;
pub mod state;
pub mod surface;
