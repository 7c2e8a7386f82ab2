//! The decision core of a cross-band repeater.
//!
//! A cross-band repeater decodes bursts heard on one rig and re-transmits them through a second
//! one. Everything here is free of I/O: the modem, the rig's control line, the clock and the burst
//! queue belong to the caller, which performs the action the library asks for and hands the result
//! back. What the library decides is when the transmitter may be keyed, how long a key may be held,
//! what is put on the air, and what a failure of any of those parts leads to.

pub mod config;
pub mod error;
pub mod laws;
pub mod one_relay;
pub mod ptt_builder;
pub mod relay;
pub mod repeater;
pub mod retry;
pub mod serial;
pub mod session;
pub mod shared_ptt;
pub mod silence;
mod text;
pub mod transcript;
