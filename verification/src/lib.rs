//! Verified core of the QoS daemon: the integer and byte-level decisions that
//! drive kernel tuning, file hygiene, service supervision and the FFI edge.

pub mod algorithms;
pub mod config;
pub mod controllers;
pub mod daemon;
pub mod bindings;
pub mod hal;
