//! Verified core of a GameStream/Sunshine client.
use vstd::prelude::*;

pub mod app_model;
pub mod audio;
pub mod client;
pub mod connect_flow;
pub mod connection;
pub mod control;
pub mod crypto;
pub mod endpoint;
pub mod gamepad;
pub mod held_input;
pub mod hosts;
pub mod identity;
pub mod input;
pub mod licenses;
pub mod pairing;
pub mod session;
pub mod session_flow;
pub mod settings;
pub mod stream_control;
pub mod streaming;
pub mod text;
pub mod touch;
pub mod xml;
pub mod video;

verus! {
}
