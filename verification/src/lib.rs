//! Render state of a single coloured triangle with an optional diagnostic
//! overlay: the fixed pipeline description, the presentation chain's
//! configuration, and the per-frame protocol, all as plain values.
//!
//! The library decides and a host program acts. The host owns the window, the
//! device and the UI; it hands the render state what happened and carries out
//! what the state asks for in return.

pub mod chain;
pub mod frame;
pub mod geometry;
pub mod input;
pub mod overlay;
pub mod pipeline;
pub mod protocol;
pub mod shader;
pub mod state;
