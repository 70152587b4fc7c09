//! `ao`: one command line for the administration of Linux (and macOS)
//! systems. The library decides which system commands a request stands for,
//! and turns their output into records.
pub mod cli;
pub mod config;
pub mod dashboard;
pub mod num;
pub mod os;
pub mod shell;
pub mod sort;
pub mod text;
