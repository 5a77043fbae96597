//! A router in front of two inference backends. It keeps a view of how full
//! the primary backend is, from the metrics that the primary publishes, and
//! sends each request to the primary while that is online and has room, and
//! to the fallback otherwise.
//!
//! The library decides and computes; fetching, waiting and serving are left
//! to the program around it.

pub mod config;
pub mod metrics;
pub mod proxy;
pub mod routing;
pub mod state;
pub mod text;
pub mod theorems;
