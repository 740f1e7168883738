//! The relay core of a transparent TCP proxy.
//!
//! The crate holds the decisions of the proxy: how one direction of a relay
//! moves bytes from a source to a sink, how a socket is tuned and the tuning
//! checked, and how the accept loop pairs an inbound connection with an
//! outbound one. Every wait on the network is left to the caller, who performs
//! what a state asks for and hands back what happened.

pub mod accept;
pub mod config;
pub mod congestion;
pub mod copy;
pub mod relay;
pub mod stream;
pub mod tuning;

pub use crate::config::{Args, DEFAULT_COPY_BUF};
