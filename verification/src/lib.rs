//! Decision logic of a home-gateway control daemon: the durable state record
//! and its store, the notification retry queue, the prepaid-balance pipeline
//! and the plan of scheduled jobs. Everything here works on plain values; the
//! daemon around it performs the I/O.

pub mod config;
pub mod dhcp;
pub mod error;
pub mod http;
pub mod ipset;
pub mod mobile_provider;
pub mod number;
pub mod persistent_state;
pub mod speedtest;
pub mod state;
pub mod telegram;
pub mod text;
pub mod time;
