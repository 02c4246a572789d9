//! A small workflow library built around the state pattern.
//!
//! The heart of the crate is [`workflow`]: a document whose behaviour is
//! governed by a closed set of states, with total transition operations
//! (submitting, approving, rejecting) and gated access to its content.
//! [`blog`] manages a collection of such documents keyed by identifier,
//! and [`screen`] renders a closed set of widgets through a common trait.

pub mod blog;
pub mod screen;
pub mod workflow;
