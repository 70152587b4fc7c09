//! Implementations of the domains with the tools that most Linux systems
//! share.
pub mod common;
pub mod completions;
pub mod svc;
pub mod user;
pub mod group;
pub mod log;
pub mod sys;
pub mod net;
pub mod dev;
pub mod disk;
pub mod partition;
pub mod boot;
pub mod distro;
pub mod gui;
pub mod sec;
pub mod virt;
pub mod monitor;
pub mod self_domain;
