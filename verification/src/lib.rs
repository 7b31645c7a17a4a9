//! Core of a self-hosted voicemail answering service.
//!
//! The library covers the call-handling pipeline: RTP packet construction
//! and parsing, SDP offer/answer handling, the SIP signalling decisions,
//! caller extraction, timestamp formatting, and the incremental blob store
//! over SQLite.  Network and database I/O at the edges is driven by a thin
//! unverified shell; everything that decides or computes lives here, with
//! contracts checked by Verus.

pub mod caller;
pub mod codec;
pub mod db;
pub mod rtp;
pub mod sdp;
pub mod sip;
pub mod store;
pub mod time;
pub mod utils;
pub mod web;
