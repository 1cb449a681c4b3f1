//! Logic of a remote-debugging event stream client and of an account listing.
//!
//! The client keeps one socket to a remote inspector open, probes it at a
//! fixed cadence so that it does not idle out, classifies what arrives and
//! decides how each event is shown. Nothing in this crate touches the socket,
//! the clock or the terminal: a driver performs the actions the session asks
//! for and reports back what happened.
//!
//! - [`address`]: where a session connects to.
//! - [`protocol`]: the control messages a session sends.
//! - [`keep_alive`]: when the next liveness probe is due.
//! - [`event`]: what an inbound frame is.
//! - [`render`]: how a recognised event is shown.
//! - [`session`]: the state machine that ties these together.
//! - [`trace`]: what holds of every run of that state machine.
//! - [`whoami`]: what the account listing says.

pub mod address;
pub mod event;
pub mod keep_alive;
pub mod protocol;
pub mod render;
pub mod session;
pub mod trace;
pub mod whoami;
