//! The control core of a particle sandbox for chaotic flow fields: which
//! equation is active and how often it is applied per tick, the store of live
//! particles with its running count, and the decisions of the orbit camera.
//! Positions are opaque to this crate; the numeric work on them is handed in
//! by the caller.

pub mod camera;
pub mod config;
pub mod controls;
pub mod keyboard;
pub mod spawn;
pub mod stepper;
pub mod store;
