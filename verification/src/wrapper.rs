//! Helpers for the code that hands plugin data to hosts.

pub mod util;
