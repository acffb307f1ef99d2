//! The decisions of an asynchronous HTTP client that drives libcurl from an
//! event loop.
//!
//! libcurl's "multi" interface does no waiting of its own. It asks for a timer,
//! it asks for events on sockets, and it wants to be told when either happens.
//! An event loop on the other side wakes a driver task, and requests come in and
//! are given up at any time. This crate holds what has to be remembered and
//! decided in between, with contracts:
//!
//! - [`state`]: the driver's state, [`State`], and one method for each thing that
//!   can happen to it;
//! - [`model`]: what the state means, as mathematical values, and what each of
//!   those methods does to it;
//! - [`events`]: what libcurl asks of sockets and is told of them, and the numbers by
//!   which a woken driver learns why it was woken;
//! - [`socket`]: what a tracked socket needs of the event loop;
//! - [`stack`]: the notifications that wait to be handled;
//! - [`perform`]: how the outcome of a request reaches the one who made it;
//! - [`effects`]: what each thing that happens comes to, before and after;
//! - [`laws`]: what holds of all of it together;
//! - [`outside`] and [`slots`]: what is believed of the crates underneath.
//!
//! Nothing here waits, reads or writes. The program around the crate does that:
//! it calls libcurl and the event loop, and hands over what they said.

pub mod effects;
pub mod events;
pub mod laws;
pub mod model;
pub mod outside;
pub mod perform;
pub mod slots;
pub mod socket;
pub mod stack;
pub mod state;

pub use events::{check, Event, Interest, Readiness};
pub use model::{HandleEntry, TimeoutState};
pub use perform::{Complete, Message, Perform, PerformError, Reply};
pub use socket::{Need, Needs, SocketEntry};
pub use stack::Stack;
pub use state::{Admission, SocketAction, SocketChange, State};
