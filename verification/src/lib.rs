//! Verified core of an addressable-LED accessory: debounced input monitors,
//! the power/charging mode controller, and the effect-compositing renderer.

pub mod controller;
pub mod effect;
pub mod event;
pub mod power;
pub mod render;
pub mod state;
pub mod time;
