//! A route manager: a single-writer command queue in front of a routing
//! backend, with cloneable handles and a start/stop lifecycle.

pub mod backend;
pub mod channel;
pub mod error;
pub mod listener;
pub mod manager;
pub mod route;
