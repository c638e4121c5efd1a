//! A computation graph of message-driven nodes.
//!
//! Each node owns typed pins, answers requests for the values of its outputs
//! (computing them lazily and caching the result), accepts values for its
//! inputs, and aggregates the progress reported by the outputs it is linked to.
//! Handling a command never performs I/O: it changes the node and returns the
//! reply that is to be delivered, if there is one.

pub mod actor;
pub mod command;
pub mod decimal;
pub mod graph;
pub mod handler;
pub mod laws;
pub mod node;
pub mod progress;
