//! Verified core of a bridge between Daikin air conditioners (DSIOT protocol)
//! and the Matter smart-home protocol.

pub mod basic_info;
pub mod bridge;
pub mod client;
pub mod energy;
pub mod info;
pub mod mdns;
pub mod property;
pub mod response;
pub mod runtime;
pub mod status;
pub mod text;
pub mod types;
