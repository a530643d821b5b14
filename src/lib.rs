//! A client library for the systemd manager over the system message bus:
//! a bounded pool of bus links, a descriptor-driven call layer, and the
//! typed records that travel on the wire.
pub mod call;
pub mod job;
pub mod manager;
pub mod mode;
pub mod pool;
pub mod properties;
pub mod signals;
pub mod unit;
pub mod wire;
