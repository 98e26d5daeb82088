//! Relay of one live video elementary stream to any number of subscribers.
//!
//! The crate holds the frame pipeline of a relay: the choice of the video
//! sub-stream of a negotiated session, the configuration packet built from its
//! parameter sets, the rewriting of each coded frame into a start-code
//! delimited byte stream, the bounded fan-out of the rewritten frames, and the
//! state machine that drives a session from start to teardown. Every function
//! carries a contract over the mathematical view of its data.

pub mod annexb;
pub mod config;
pub mod error;
pub mod fanout;
pub mod frame;
pub mod lifecycle;
pub mod opts;
pub mod relay;
pub mod search;
pub mod session;
pub mod transcode;
