//! State-reactor core of a terminal dashboard for a package manager.
//!
//! The crate holds the single state store, the request dispatcher, the
//! message reducers, the confirmation state machine, the filter index, the
//! bounded details cache and the debounced auto-fetch rule. Everything here
//! is a function from plain values to plain values: the caller reads the
//! clock, spawns the background work that a returned effect asks for, and
//! hands completed results back as messages.

pub mod cache;
pub mod confirm;
pub mod detect;
pub mod filter;
pub mod format;
pub mod gateway;
pub mod input;
pub mod key_laws;
pub mod laws;
pub mod matching;
pub mod order;
pub mod outputs;
pub mod reducers;
pub mod requests;
pub mod runtime;
pub mod scroll;
pub mod selection;
pub mod state;
pub mod store;
pub mod text;
pub mod types;
