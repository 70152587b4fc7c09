//! The command-line model of `ao`: global flags, domains, and the actions of
//! each domain, as plain values. Parsing the command line into these values is
//! the front end's business; the library maps them to commands.
use vstd::prelude::*;

use crate::os::detector::DetectedSystem;
use crate::os::{AnyCommand, AoError};
use crate::text::owned;

verus! {

/// How a listing is rendered.
#[derive(Clone, Copy, Debug, PartialEq, Eq, Structural)]
pub enum OutputFormat {
    Table,
    Json,
    Yaml,
    Original,
}

/// The name that `{:?}` gives a format.
pub open spec fn format_name(f: OutputFormat) -> Seq<char> {
    match f {
        OutputFormat::Table => "Table"@,
        OutputFormat::Json => "Json"@,
        OutputFormat::Yaml => "Yaml"@,
        OutputFormat::Original => "Original"@,
    }
}

/// Whether a format emits machine-readable or raw data, so that decorations
/// are left out: every format but the table.
pub open spec fn is_structured_format(f: OutputFormat) -> bool {
    f != OutputFormat::Table
}

impl OutputFormat {
    /// The variant's name, as `{:?}` prints it.
    pub fn debug_name(&self) -> (r: &'static str)
        ensures
            r@ == format_name(*self),
    {
        match self {
            OutputFormat::Table => "Table",
            OutputFormat::Json => "Json",
            OutputFormat::Yaml => "Yaml",
            OutputFormat::Original => "Original",
        }
    }

    /// Whether this format suppresses decorations.
    pub fn structured(&self) -> (r: bool)
        ensures
            r == is_structured_format(*self),
    {
        !matches!(self, OutputFormat::Table)
    }
}

/// The shells for which completions can be produced.
#[derive(Clone, Copy, Debug, PartialEq, Eq, Structural)]
pub enum Shell {
    Bash,
    Elvish,
    Fish,
    PowerShell,
    Zsh,
}

/// The global flags and the optional top-level subcommand.
pub struct Cli {
    pub command: Option<CliCommand>,
    /// Print the underlying command without running it.
    pub print: bool,
    /// Print the command and simulate execution.
    pub dry_run: bool,
    /// Dump the entire command tree.
    pub dump_tree: bool,
}

pub enum CliCommand {
    /// Starts an interactive session.
    Interactive,
    /// Opens the live dashboard of the system.
    Dashboard,
}

pub struct MonitorArgs {
    pub format: OutputFormat,
}

pub struct PackageArgs {
    pub action: Option<PackageAction>,
}

pub enum PackageAction {
    Add { packages: Vec<String> },
    List { format: OutputFormat },
    Delete { packages: Vec<String>, purge: bool },
    Search { query: String },
    Update,
}

pub struct ServiceArgs {
    pub action: Option<ServiceAction>,
}

pub enum ServiceAction {
    Down { name: String },
    List { format: OutputFormat },
    Reload { name: String },
    Restart { name: String },
    Status { name: String },
    Up { name: String },
}

pub struct UserArgs {
    pub action: Option<UserAction>,
}

pub enum UserAction {
    Add {
        username: String,
        name: Option<String>,
        email: Option<String>,
        groups: Option<String>,
        shell: Option<String>,
        system: bool,
        no_create_home: bool,
    },
    Delete { username: String, purge: bool },
    List { all: bool, groups: bool, format: OutputFormat },
    Modify { username: String, action: String, value: String },
    Passwd { username: String },
    Session { username: Option<String>, all: bool, n: Option<u32>, format: OutputFormat },
}

pub struct GroupArgs {
    pub action: Option<GroupAction>,
}

pub enum GroupAction {
    Add { groupname: String },
    Delete { groupname: String },
    List { format: OutputFormat },
    Modify { groupname: String, gid: u32 },
}

pub struct DiskArgs {
    pub action: Option<DiskAction>,
}

impl DiskArgs {
    /// Disks are handled by the disk domain of the system; this entry
    /// point only refuses.
    pub fn run(&self, system: &DetectedSystem) -> (r: Result<AnyCommand, AoError>)
        ensures
            r matches Err(e) && e.message@ == "DiskArgs::run is no longer used in the unified Domain architecture"@,
    {
        Err(AoError::new(owned("DiskArgs::run is no longer used in the unified Domain architecture")))
    }
}

pub enum DiskAction {
    List { format: OutputFormat, loop_devices: bool },
}

pub struct PartitionArgs {
    pub action: Option<PartitionAction>,
}

pub enum PartitionAction {
    List { format: OutputFormat },
    Mount { device: String, path: String, fstype: Option<String>, options: Option<String> },
    Unmount { target: String, lazy: bool, force: bool },
    Usage { path: String, depth: Option<u32> },
}

pub struct SystemArgs {
    pub action: Option<SystemAction>,
}

pub enum SystemAction {
    Info { format: OutputFormat },
    Power { state: String, now: bool, force: bool },
    Time { action: String, value: Option<String>, format: OutputFormat },
}

pub struct LogArgs {
    pub action: Option<LogAction>,
}

pub enum LogAction {
    Auth { lines: u32, follow: bool },
    Boot { lines: u32, follow: bool, id: Option<String> },
    Crash { lines: u32 },
    Dev { lines: u32, follow: bool },
    Error { lines: u32, follow: bool },
    File { path: String, lines: u32, follow: bool },
    Package { lines: u32 },
    Service { name: String, lines: u32, follow: bool },
    System { lines: u32, follow: bool },
}

pub struct DistributionArgs {
    pub action: Option<DistributionAction>,
}

pub enum DistributionAction {
    Info { format: OutputFormat },
    Upgrade,
}

pub struct NetworkArgs {
    pub action: Option<NetworkAction>,
}

pub enum NetworkAction {
    Interfaces { format: OutputFormat },
    Ips { format: OutputFormat },
    Routes { format: OutputFormat },
    Firewall { action: FirewallAction },
    Wifi { action: WifiAction },
}

pub enum FirewallAction {
    Status { format: OutputFormat },
    Allow { rule: String },
    Deny { rule: String },
}

pub enum WifiAction {
    Scan,
    Connect { ssid: String },
}

pub struct BootArgs {
    pub action: Option<BootAction>,
}

pub enum BootAction {
    List { format: OutputFormat },
    Module { action: BootModuleAction },
}

pub enum BootModuleAction {
    List { format: OutputFormat },
    Load { name: String },
    Unload { name: String },
}

pub struct GuiArgs {
    pub action: Option<GuiAction>,
}

pub enum GuiAction {
    Info,
    Display { action: GuiDisplayAction },
}

pub enum GuiDisplayAction {
    List { format: OutputFormat },
}

pub struct DeviceArgs {
    pub action: Option<DeviceAction>,
}

pub enum DeviceAction {
    List { format: OutputFormat },
    Pci { format: OutputFormat },
    Usb { format: OutputFormat },
    Bluetooth { action: BluetoothAction },
    Print { action: PrintAction },
}

pub enum BluetoothAction {
    Status,
    Scan,
    Pair { address: String },
    Connect { address: String },
}

pub enum PrintAction {
    List { format: OutputFormat },
}

pub struct VirtualizationArgs {
    pub action: Option<VirtualizationAction>,
}

pub enum VirtualizationAction {
    List { format: OutputFormat },
    Start { name: String },
    Stop { name: String },
    Remove { name: String },
    Logs { name: String },
}

pub struct SecurityArgs {
    pub action: Option<SecurityAction>,
}

pub enum SecurityAction {
    Audit { format: OutputFormat },
    Context,
}

pub struct SelfArgs {
    pub action: Option<SelfAction>,
}

pub enum SelfAction {
    Completions { action: CompletionsAction },
    Info { format: OutputFormat },
    Update,
}

pub enum CompletionsAction {
    Generate { shell: Shell },
    Install { shell: Shell },
    Setup { shell: Shell },
}

} // verus!
