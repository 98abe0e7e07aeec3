//! Network bring-up for a small web-serving device.
//!
//! The radio interface is driven by a verified state machine: the
//! controller decides, the surrounding program performs each action on the
//! hardware and reports back what happened. Once the interface is ready, a
//! single page is served.
pub mod bringup;
pub mod config;
pub mod page;
pub mod service;
