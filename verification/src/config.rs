//! The user's settings: how output looks, how the dashboard lists
//! processes, and how commands are run. Reading and writing the file is
//! the front end's business; this is the model and its defaults.
use vstd::prelude::*;

use crate::cli::OutputFormat;
use crate::text::owned;
use std::collections::HashMap;

verus! {

/// All settings.
#[derive(Debug)]
pub struct Config {
    pub ui: UiConfig,
    pub system: SystemConfig,
    /// Shorthands: a name and the command line it stands for.
    pub aliases: HashMap<String, String>,
}

/// The orders in which the dashboard can list processes.
#[derive(Clone, Copy, Debug, PartialEq, Eq, Structural)]
pub enum ProcessSort {
    Pid,
    Cpu,
    Mem,
    Name,
    User,
}

/// Settings of the output and of the dashboard.
#[derive(Debug)]
pub struct UiConfig {
    pub preferred_format: OutputFormat,
    pub show_command: bool,
    pub use_colors: bool,
    pub table_style: String,
    pub show_kernel_processes: bool,
    pub show_user_threads: bool,
    pub process_sort: ProcessSort,
    pub process_sort_descending: bool,
    pub process_use_tree_view: bool,
    pub process_tree_depth: u32,
    pub process_current_user_only: bool,
    pub process_filter: String,
    pub max_rx_throughput: u64,
    pub max_tx_throughput: u64,
    pub refresh_rate_ms: u64,
}

/// How commands are run.
#[derive(Debug)]
pub struct SystemConfig {
    /// The program that raises privileges, such as `sudo` or `doas`.
    pub sudo_command: Option<String>,
    pub editor: Option<String>,
    pub dry_run_by_default: bool,
}

impl UiConfig {
    /// Whether these are the default settings: tables, commands shown in
    /// colour with the modern style, and processes sorted by CPU use,
    /// highest first, as a tree two levels deep, refreshed every second.
    pub open spec fn is_default(&self) -> bool {
        &&& self.preferred_format == OutputFormat::Table
        &&& self.show_command
        &&& self.use_colors
        &&& self.table_style@ == "modern"@
        &&& !self.show_kernel_processes
        &&& !self.show_user_threads
        &&& self.process_sort == ProcessSort::Cpu
        &&& self.process_sort_descending
        &&& self.process_use_tree_view
        &&& self.process_tree_depth == 2
        &&& !self.process_current_user_only
        &&& self.process_filter@.len() == 0
        &&& self.max_rx_throughput == 1024
        &&& self.max_tx_throughput == 1024
        &&& self.refresh_rate_ms == 1000
    }
}

impl Default for UiConfig {
    fn default() -> (r: Self)
        ensures
            r.is_default(),
    {
        UiConfig {
            preferred_format: OutputFormat::Table,
            show_command: true,
            use_colors: true,
            table_style: owned("modern"),
            show_kernel_processes: false,
            show_user_threads: false,
            process_sort: ProcessSort::Cpu,
            process_sort_descending: true,
            process_use_tree_view: true,
            process_tree_depth: 2,
            process_current_user_only: false,
            process_filter: String::new(),
            max_rx_throughput: 1024,
            max_tx_throughput: 1024,
            refresh_rate_ms: 1000,
        }
    }
}

impl Default for SystemConfig {
    /// No privilege program, no editor, commands run for real.
    fn default() -> (r: Self)
        ensures
            r.sudo_command is None,
            r.editor is None,
            !r.dry_run_by_default,
    {
        SystemConfig { sudo_command: None, editor: None, dry_run_by_default: false }
    }
}

impl Default for Config {
    /// The default settings and no aliases.
    fn default() -> (r: Self)
        ensures
            r.ui.is_default(),
            r.system.sudo_command is None,
            r.system.editor is None,
            !r.system.dry_run_by_default,
            r.aliases@ == Map::<String, String>::empty(),
    {
        Config { ui: UiConfig::default(), system: SystemConfig::default(), aliases: HashMap::new() }
    }
}

} // verus!
