//! A two-party text chat over one stream connection: a fixed-size frame
//! codec and the per-connection session state machine that drives it.
pub mod codec;
pub mod laws;
pub mod session;
pub mod timing;
