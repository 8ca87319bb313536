//! A typed request/response bridge for a single-threaded, frame-driven UI.
//!
//! The UI side advances one tick at a time and must never block. Each
//! endpoint owns a channel pair: an unbounded FIFO queue carrying requests
//! into the bridge and one carrying outcomes back out. Once per tick the
//! dispatch step drains at most one request per pair and hands it to the
//! transport layer; once per tick the completion step polls the response
//! queue without blocking and updates the endpoint's state cell.

pub mod channel;
pub mod laws;
pub mod pair;
pub mod registry;
pub mod request;
pub mod state_cell;
pub mod units;
