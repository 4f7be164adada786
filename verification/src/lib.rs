//! A capability-mediating host for sandboxed plugins.
//!
//! The crate holds the rules of the host: how readings are merged into the
//! aggregate state, which plugin roles are loaded and polled, how a slot is
//! hot-reloaded, and what each mediated capability does with its arguments.
//! Running a sandbox, touching hardware and talking to the network are left
//! to the program around it.

pub mod bus;
pub mod clock;
pub mod config;
pub mod dashboard;
pub mod domain;
pub mod error;
pub mod hal;
pub mod leds;
pub mod logs;
pub mod merge;
pub mod orchestrator;
pub mod plugin;
pub mod registry;
pub mod relay;
pub mod stats;
pub mod text;
