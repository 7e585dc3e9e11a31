//! Core of a terminal client for a remote music-streaming account.
//!
//! The library holds the logic that a rendering loop and a background
//! dispatcher share: the command queue between them, the navigation stack,
//! the credential and its expiry, the shared application state with its
//! selection cursors, and the per-command transitions that apply each remote
//! result to that state. Everything here is plain data and verified
//! functions; the surrounding process performs the actual remote calls and
//! hands their results in as values.
//!
//! The load-bearing guarantees live next to the code they govern: the
//! queue's first-in-first-out contracts and the dispatcher's in-order
//! application chain in [`queue`] and [`network`]; the never-empty
//! navigation stack and the skip-one back rule in [`nav`]; the selection
//! cursor invariant in [`state`]; and the credential's expiry arithmetic
//! in [`credential`].

pub mod credential;
pub mod layout;
pub mod model;
pub mod nav;
pub mod network;
pub mod queue;
pub mod state;
