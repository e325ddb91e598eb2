//! A bridge between a host application and a natively compiled script module
//! that is loaded at run time.
//!
//! The bridge decides; the host acts. Every decision the bridge takes (when to
//! look for the module, when to load it, which export to resolve next, when the
//! initializer and the per-tick update may be called, when the run is over) is
//! a step from a state and an [`protocol::Event`] to a new state and an
//! [`protocol::Action`]. The host performs the action, which is where files are
//! touched and native code is entered, and reports back with the next event.
//!
//! * [`module`] and [`entry`]: the module, its two exports, and the handles
//!   that stand for them once loaded and resolved.
//! * [`failure`]: the failures the bridge detects, and their diagnostics.
//! * [`protocol`]: events and actions.
//! * [`model`]: the bridge as a state machine.
//! * [`bridge`]: the executable bridge, which follows the model step by step.
//! * [`trace`], [`laws`] and [`scenario`]: runs of the bridge, and what is
//!   proved of all of them.

pub mod bridge;
pub mod entry;
pub mod failure;
pub mod laws;
pub mod model;
pub mod module;
pub mod protocol;
pub mod scenario;
pub mod trace;
