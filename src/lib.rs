//! Request/response core of a small desktop HTTP request tester.
//!
//! The library holds the logic that decides what is sent and how the
//! application state reacts to user actions and to completed requests.
//! Rendering, threads, the result channel and the network call itself are
//! left to the embedding program.

pub mod method;
pub mod request;
pub mod transport;
pub mod interpret;
pub mod app_state;
pub mod gui_state;
