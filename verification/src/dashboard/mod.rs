//! The live dashboard: its navigation, the process views, the keys, and the
//! renderings of figures. Drawing on the terminal is the front end's
//! business.
pub mod utils;
pub mod rss;
pub mod app;
pub mod tree;
pub mod keys;
pub mod order;
pub mod forest;
