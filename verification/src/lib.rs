//! A cooperative task runtime for a small robot controller.
//!
//! The crate models the core of the controller's operating layer: a fixed
//! pool of cooperatively scheduled tasks, a mutex built on top of the
//! scheduler, and a registry that arbitrates access to the physical ports.
//! Everything is single threaded: a task only stops running when it yields,
//! so all state transitions are explicit steps with exact contracts.
//!
//! Hardware readings (the clock, device values, touch events) enter every
//! operation as plain arguments, and the operations return the decisions
//! (which task to switch to, which draw calls to issue) as plain values, so
//! the whole control logic is verified while the machine-specific glue stays
//! outside the crate.

pub mod task;
pub mod runtime;
pub mod mutex;
pub mod devices;
pub mod timer;
pub mod competition;
pub mod serial;
pub mod motor;
pub mod controller;
pub mod display;
pub mod adi;
pub mod system;
