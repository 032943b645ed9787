//! The lifecycle core of a Windows system service.
//!
//! A service registers a control handler with the service control manager,
//! reports that it is starting and then running, does its work until the
//! manager asks it to stop, and reports that it is stopping and then stopped.
//! This crate holds the rules of that exchange and none of the calls:
//!
//! - [`service_status`] keeps the status record and decides which records are
//!   due for publication, and in which order;
//! - [`control`] is what the control handler does with a request: a stop or a
//!   shutdown becomes one signal on a channel, everything else is ignored;
//! - [`arguments`] turns the argument vector of the manager into text;
//! - [`windows`] names the values the manager uses for all of this.
//!
//! Every function here is total: none waits, and none panics.

pub mod arguments;
pub mod control;
pub mod service_status;
pub mod windows;
