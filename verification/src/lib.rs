//! The decision core of a small animation viewer.
//!
//! The viewer opens one window, loads one animation and plays it. Everything
//! that touches the window system, the GPU or the animation runtime happens
//! outside this crate. What lives here is the part that decides: given where
//! the program stands and what has just happened, which operations are to be
//! carried out next, and where the program stands afterwards.
//!
//! - [`startup`] sequences the six stages that come before the event loop.
//! - [`application`] is the driver of the event loop itself.
//! - [`event`] and [`command`] are what goes into the driver and what comes
//!   out of it; [`geometry`] and [`timing`] are the values they carry.
//! - [`session`] describes whole runs of the driver, and [`guarantees`]
//!   proves what holds of every one of them.

pub mod application;
pub mod command;
pub mod event;
pub mod geometry;
pub mod guarantees;
pub mod session;
pub mod startup;
pub mod timing;
