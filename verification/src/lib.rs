//! Core of an NTPv4 client: time arithmetic, the packet header, per-peer
//! state, clock selection and the clock controller.

pub mod address;
pub mod bytes;
pub mod clock;
pub mod clock_select;
pub mod config;
pub mod filter;
pub mod identifiers;
pub mod math;
pub mod observer;
pub mod packet;
pub mod peer;
pub mod peer_task;
pub mod pps;
pub mod reach;
pub mod spawn;
pub mod system;
pub mod time_types;
