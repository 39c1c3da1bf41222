//! Actor layer of a dual-core control node: three finite-state machines,
//! the edge-triggered wrappers that connect them to bounded channels, and
//! the deadline rule of the hard-period control loop.

pub mod button;
pub mod button_hw;
pub mod config;
pub mod control;
pub mod control_hw;
pub mod link;
pub mod maintenance;
pub mod maintenance_hw;
pub mod messages;
pub mod schedule;
