//! A small application runtime shell: a window configuration, the lifecycle
//! that a host application implements, and the driver that turns window
//! events into lifecycle calls.
pub mod config;
pub mod driver;
pub mod lifecycle;
