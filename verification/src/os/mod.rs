//! The operating-system layer: the records that listings produce, the
//! commands that domains hand back, and the managers that build them.
use vstd::prelude::*;

pub mod alpine;
pub mod arch;
pub mod debian;
pub mod detector;
pub mod fedora;
pub mod linux_generic;
pub mod macos;
pub mod systemd;

pub use crate::cli::OutputFormat;
use crate::cli::{PackageAction, PackageArgs};
use crate::text::string_views;
use crate::os::linux_generic::common::{CompoundCommand, LogHeaderCommand, NoopCommand, SystemCommand};
use crate::os::linux_generic::svc::{
    ServiceDownCommand, ServiceListCommand, ServiceReloadCommand, ServiceRestartCommand,
    ServiceStatusCommand, ServiceUpCommand,
};
use crate::os::linux_generic::group::{GroupAddCommand, GroupDelCommand, GroupListCommand, GroupModCommand};
use crate::os::linux_generic::sys::{SysInfoCommand, SysTimeCommand};
use crate::os::linux_generic::net::{FwStatusCommand, NetInterfacesCommand, NetIpsCommand, NetRoutesCommand};
use crate::os::linux_generic::dev::{DevListAllCommand, DevPciCommand, DevPrintersCommand, DevUsbCommand};
use crate::os::linux_generic::disk::DiskListCommand;
use crate::os::linux_generic::partition::{
    PartitionListCommand, PartitionMountCommand, PartitionUnmountCommand, PartitionUsageCommand,
};
use crate::os::linux_generic::boot::{BootListEntriesCommand, BootListModulesCommand};
use crate::os::linux_generic::distro::DistroInfoCommand;
use crate::os::linux_generic::gui::GuiListDisplaysCommand;
use crate::os::linux_generic::sec::{SecAuditCommand, SecContextCommand};
use crate::os::linux_generic::virt::VirtPsCommand;
use crate::os::linux_generic::monitor::LiveStatsCommand;
use crate::os::linux_generic::self_domain::{CompletionScriptCommand, SelfInfoCommand};
use crate::os::alpine::ApkListCommand;
use crate::os::debian::AptListCommand;
use crate::os::linux_generic::user::{
    PasswdCommand, UserAddCommand, UserDelCommand, UserListCommand, UserModCommand, UserSessionCommand,
};

verus! {

/// A failure to build a command, with the message that is shown to the user.
pub struct AoError {
    pub message: String,
}

impl AoError {
    pub fn new(message: String) -> (e: AoError)
        ensures
            e.message@ == message@,
    {
        AoError { message }
    }
}

/// A command that can be shown to the user and then run, printed or
/// simulated by the front end.
pub trait ExecutableCommand {
    /// The text of the command as the user sees it.
    spec fn text(&self) -> Seq<char>;

    /// Whether the command emits structured or raw data of its own, so that
    /// no decoration is printed around it.
    spec fn structured(&self) -> bool;

    fn as_string(&self) -> (r: String)
        ensures
            r@ == self.text(),
    ;

    fn is_structured(&self) -> (r: bool)
        ensures
            r == self.structured(),
    ;
}

/// Any command that a domain can hand back.
pub enum AnyCommand {
    System(SystemCommand),
    Compound(CompoundCommand),
    Noop(NoopCommand),
    Header(LogHeaderCommand),
    ServiceList(ServiceListCommand),
    ServiceUp(ServiceUpCommand),
    ServiceDown(ServiceDownCommand),
    ServiceRestart(ServiceRestartCommand),
    ServiceReload(ServiceReloadCommand),
    ServiceStatus(ServiceStatusCommand),
    UserList(UserListCommand),
    UserAdd(UserAddCommand),
    UserDel(UserDelCommand),
    UserMod(UserModCommand),
    Passwd(PasswdCommand),
    UserSession(UserSessionCommand),
    GroupList(GroupListCommand),
    GroupAdd(GroupAddCommand),
    GroupDel(GroupDelCommand),
    GroupMod(GroupModCommand),
    SysInfo(SysInfoCommand),
    SysTime(SysTimeCommand),
    NetInterfaces(NetInterfacesCommand),
    NetIps(NetIpsCommand),
    NetRoutes(NetRoutesCommand),
    FwStatus(FwStatusCommand),
    DevListAll(DevListAllCommand),
    DevPci(DevPciCommand),
    DevUsb(DevUsbCommand),
    DevPrinters(DevPrintersCommand),
    DiskList(DiskListCommand),
    PartitionList(PartitionListCommand),
    PartitionMount(PartitionMountCommand),
    PartitionUnmount(PartitionUnmountCommand),
    PartitionUsage(PartitionUsageCommand),
    BootListEntries(BootListEntriesCommand),
    BootListModules(BootListModulesCommand),
    DistroInfo(DistroInfoCommand),
    GuiListDisplays(GuiListDisplaysCommand),
    SecContext(SecContextCommand),
    SecAudit(SecAuditCommand),
    VirtPs(VirtPsCommand),
    LiveStats(LiveStatsCommand),
    CompletionScript(CompletionScriptCommand),
    SelfInfo(SelfInfoCommand),
    AptList(AptListCommand),
    ApkList(ApkListCommand),
}

impl ExecutableCommand for AnyCommand {
    open spec fn text(&self) -> Seq<char> {
        match self {
            AnyCommand::System(c) => c.text(),
            AnyCommand::Compound(c) => c.text(),
            AnyCommand::Noop(c) => c.text(),
            AnyCommand::Header(c) => c.text(),
            AnyCommand::ServiceList(c) => c.text(),
            AnyCommand::ServiceUp(c) => c.text(),
            AnyCommand::ServiceDown(c) => c.text(),
            AnyCommand::ServiceRestart(c) => c.text(),
            AnyCommand::ServiceReload(c) => c.text(),
            AnyCommand::ServiceStatus(c) => c.text(),
            AnyCommand::UserList(c) => c.text(),
            AnyCommand::UserAdd(c) => c.text(),
            AnyCommand::UserDel(c) => c.text(),
            AnyCommand::UserMod(c) => c.text(),
            AnyCommand::Passwd(c) => c.text(),
            AnyCommand::UserSession(c) => c.text(),
            AnyCommand::GroupList(c) => c.text(),
            AnyCommand::GroupAdd(c) => c.text(),
            AnyCommand::GroupDel(c) => c.text(),
            AnyCommand::GroupMod(c) => c.text(),
            AnyCommand::SysInfo(c) => c.text(),
            AnyCommand::SysTime(c) => c.text(),
            AnyCommand::NetInterfaces(c) => c.text(),
            AnyCommand::NetIps(c) => c.text(),
            AnyCommand::NetRoutes(c) => c.text(),
            AnyCommand::FwStatus(c) => c.text(),
            AnyCommand::DevListAll(c) => c.text(),
            AnyCommand::DevPci(c) => c.text(),
            AnyCommand::DevUsb(c) => c.text(),
            AnyCommand::DevPrinters(c) => c.text(),
            AnyCommand::DiskList(c) => c.text(),
            AnyCommand::PartitionList(c) => c.text(),
            AnyCommand::PartitionMount(c) => c.text(),
            AnyCommand::PartitionUnmount(c) => c.text(),
            AnyCommand::PartitionUsage(c) => c.text(),
            AnyCommand::BootListEntries(c) => c.text(),
            AnyCommand::BootListModules(c) => c.text(),
            AnyCommand::DistroInfo(c) => c.text(),
            AnyCommand::GuiListDisplays(c) => c.text(),
            AnyCommand::SecContext(c) => c.text(),
            AnyCommand::SecAudit(c) => c.text(),
            AnyCommand::VirtPs(c) => c.text(),
            AnyCommand::LiveStats(c) => c.text(),
            AnyCommand::CompletionScript(c) => c.text(),
            AnyCommand::SelfInfo(c) => c.text(),
            AnyCommand::AptList(c) => c.text(),
            AnyCommand::ApkList(c) => c.text(),
        }
    }

    open spec fn structured(&self) -> bool {
        match self {
            AnyCommand::System(c) => c.structured(),
            AnyCommand::Compound(c) => c.structured(),
            AnyCommand::Noop(c) => c.structured(),
            AnyCommand::Header(c) => c.structured(),
            AnyCommand::ServiceList(c) => c.structured(),
            AnyCommand::ServiceUp(c) => c.structured(),
            AnyCommand::ServiceDown(c) => c.structured(),
            AnyCommand::ServiceRestart(c) => c.structured(),
            AnyCommand::ServiceReload(c) => c.structured(),
            AnyCommand::ServiceStatus(c) => c.structured(),
            AnyCommand::UserList(c) => c.structured(),
            AnyCommand::UserAdd(c) => c.structured(),
            AnyCommand::UserDel(c) => c.structured(),
            AnyCommand::UserMod(c) => c.structured(),
            AnyCommand::Passwd(c) => c.structured(),
            AnyCommand::UserSession(c) => c.structured(),
            AnyCommand::GroupList(c) => c.structured(),
            AnyCommand::GroupAdd(c) => c.structured(),
            AnyCommand::GroupDel(c) => c.structured(),
            AnyCommand::GroupMod(c) => c.structured(),
            AnyCommand::SysInfo(c) => c.structured(),
            AnyCommand::SysTime(c) => c.structured(),
            AnyCommand::NetInterfaces(c) => c.structured(),
            AnyCommand::NetIps(c) => c.structured(),
            AnyCommand::NetRoutes(c) => c.structured(),
            AnyCommand::FwStatus(c) => c.structured(),
            AnyCommand::DevListAll(c) => c.structured(),
            AnyCommand::DevPci(c) => c.structured(),
            AnyCommand::DevUsb(c) => c.structured(),
            AnyCommand::DevPrinters(c) => c.structured(),
            AnyCommand::DiskList(c) => c.structured(),
            AnyCommand::PartitionList(c) => c.structured(),
            AnyCommand::PartitionMount(c) => c.structured(),
            AnyCommand::PartitionUnmount(c) => c.structured(),
            AnyCommand::PartitionUsage(c) => c.structured(),
            AnyCommand::BootListEntries(c) => c.structured(),
            AnyCommand::BootListModules(c) => c.structured(),
            AnyCommand::DistroInfo(c) => c.structured(),
            AnyCommand::GuiListDisplays(c) => c.structured(),
            AnyCommand::SecContext(c) => c.structured(),
            AnyCommand::SecAudit(c) => c.structured(),
            AnyCommand::VirtPs(c) => c.structured(),
            AnyCommand::LiveStats(c) => c.structured(),
            AnyCommand::CompletionScript(c) => c.structured(),
            AnyCommand::SelfInfo(c) => c.structured(),
            AnyCommand::AptList(c) => c.structured(),
            AnyCommand::ApkList(c) => c.structured(),
        }
    }

    fn as_string(&self) -> (r: String) {
        match self {
            AnyCommand::System(c) => c.as_string(),
            AnyCommand::Compound(c) => c.as_string(),
            AnyCommand::Noop(c) => c.as_string(),
            AnyCommand::Header(c) => c.as_string(),
            AnyCommand::ServiceList(c) => c.as_string(),
            AnyCommand::ServiceUp(c) => c.as_string(),
            AnyCommand::ServiceDown(c) => c.as_string(),
            AnyCommand::ServiceRestart(c) => c.as_string(),
            AnyCommand::ServiceReload(c) => c.as_string(),
            AnyCommand::ServiceStatus(c) => c.as_string(),
            AnyCommand::UserList(c) => c.as_string(),
            AnyCommand::UserAdd(c) => c.as_string(),
            AnyCommand::UserDel(c) => c.as_string(),
            AnyCommand::UserMod(c) => c.as_string(),
            AnyCommand::Passwd(c) => c.as_string(),
            AnyCommand::UserSession(c) => c.as_string(),
            AnyCommand::GroupList(c) => c.as_string(),
            AnyCommand::GroupAdd(c) => c.as_string(),
            AnyCommand::GroupDel(c) => c.as_string(),
            AnyCommand::GroupMod(c) => c.as_string(),
            AnyCommand::SysInfo(c) => c.as_string(),
            AnyCommand::SysTime(c) => c.as_string(),
            AnyCommand::NetInterfaces(c) => c.as_string(),
            AnyCommand::NetIps(c) => c.as_string(),
            AnyCommand::NetRoutes(c) => c.as_string(),
            AnyCommand::FwStatus(c) => c.as_string(),
            AnyCommand::DevListAll(c) => c.as_string(),
            AnyCommand::DevPci(c) => c.as_string(),
            AnyCommand::DevUsb(c) => c.as_string(),
            AnyCommand::DevPrinters(c) => c.as_string(),
            AnyCommand::DiskList(c) => c.as_string(),
            AnyCommand::PartitionList(c) => c.as_string(),
            AnyCommand::PartitionMount(c) => c.as_string(),
            AnyCommand::PartitionUnmount(c) => c.as_string(),
            AnyCommand::PartitionUsage(c) => c.as_string(),
            AnyCommand::BootListEntries(c) => c.as_string(),
            AnyCommand::BootListModules(c) => c.as_string(),
            AnyCommand::DistroInfo(c) => c.as_string(),
            AnyCommand::GuiListDisplays(c) => c.as_string(),
            AnyCommand::SecContext(c) => c.as_string(),
            AnyCommand::SecAudit(c) => c.as_string(),
            AnyCommand::VirtPs(c) => c.as_string(),
            AnyCommand::LiveStats(c) => c.as_string(),
            AnyCommand::CompletionScript(c) => c.as_string(),
            AnyCommand::SelfInfo(c) => c.as_string(),
            AnyCommand::AptList(c) => c.as_string(),
            AnyCommand::ApkList(c) => c.as_string(),
        }
    }

    fn is_structured(&self) -> (r: bool) {
        match self {
            AnyCommand::System(c) => c.is_structured(),
            AnyCommand::Compound(c) => c.is_structured(),
            AnyCommand::Noop(c) => c.is_structured(),
            AnyCommand::Header(c) => c.is_structured(),
            AnyCommand::ServiceList(c) => c.is_structured(),
            AnyCommand::ServiceUp(c) => c.is_structured(),
            AnyCommand::ServiceDown(c) => c.is_structured(),
            AnyCommand::ServiceRestart(c) => c.is_structured(),
            AnyCommand::ServiceReload(c) => c.is_structured(),
            AnyCommand::ServiceStatus(c) => c.is_structured(),
            AnyCommand::UserList(c) => c.is_structured(),
            AnyCommand::UserAdd(c) => c.is_structured(),
            AnyCommand::UserDel(c) => c.is_structured(),
            AnyCommand::UserMod(c) => c.is_structured(),
            AnyCommand::Passwd(c) => c.is_structured(),
            AnyCommand::UserSession(c) => c.is_structured(),
            AnyCommand::GroupList(c) => c.is_structured(),
            AnyCommand::GroupAdd(c) => c.is_structured(),
            AnyCommand::GroupDel(c) => c.is_structured(),
            AnyCommand::GroupMod(c) => c.is_structured(),
            AnyCommand::SysInfo(c) => c.is_structured(),
            AnyCommand::SysTime(c) => c.is_structured(),
            AnyCommand::NetInterfaces(c) => c.is_structured(),
            AnyCommand::NetIps(c) => c.is_structured(),
            AnyCommand::NetRoutes(c) => c.is_structured(),
            AnyCommand::FwStatus(c) => c.is_structured(),
            AnyCommand::DevListAll(c) => c.is_structured(),
            AnyCommand::DevPci(c) => c.is_structured(),
            AnyCommand::DevUsb(c) => c.is_structured(),
            AnyCommand::DevPrinters(c) => c.is_structured(),
            AnyCommand::DiskList(c) => c.is_structured(),
            AnyCommand::PartitionList(c) => c.is_structured(),
            AnyCommand::PartitionMount(c) => c.is_structured(),
            AnyCommand::PartitionUnmount(c) => c.is_structured(),
            AnyCommand::PartitionUsage(c) => c.is_structured(),
            AnyCommand::BootListEntries(c) => c.is_structured(),
            AnyCommand::BootListModules(c) => c.is_structured(),
            AnyCommand::DistroInfo(c) => c.is_structured(),
            AnyCommand::GuiListDisplays(c) => c.is_structured(),
            AnyCommand::SecContext(c) => c.is_structured(),
            AnyCommand::SecAudit(c) => c.is_structured(),
            AnyCommand::VirtPs(c) => c.is_structured(),
            AnyCommand::LiveStats(c) => c.is_structured(),
            AnyCommand::CompletionScript(c) => c.is_structured(),
            AnyCommand::SelfInfo(c) => c.is_structured(),
            AnyCommand::AptList(c) => c.is_structured(),
            AnyCommand::ApkList(c) => c.is_structured(),
        }
    }
}

/// What `--print` shows for a command: for the network listings, the
/// program call that lists them (`ip addr`, `ip route`); for every other
/// command, its text.
pub open spec fn printed_text(c: AnyCommand) -> Seq<char> {
    match c {
        AnyCommand::NetInterfaces(_) => "ip addr"@,
        AnyCommand::NetIps(_) => "ip addr"@,
        AnyCommand::NetRoutes(_) => "ip route"@,
        _ => c.text(),
    }
}

impl AnyCommand {
    /// The text that `--print` shows.
    pub fn print_text(&self) -> (r: String)
        ensures
            r@ == printed_text(*self),
    {
        match self {
            AnyCommand::NetInterfaces(_) => String::from_str("ip addr"),
            AnyCommand::NetIps(_) => String::from_str("ip addr"),
            AnyCommand::NetRoutes(_) => String::from_str("ip route"),
            _ => self.as_string(),
        }
    }
}

/// What a domain offers for the word being completed.
pub enum Completion {
    /// Nothing to offer.
    Nothing,
    /// These words, as they are.
    Words(Vec<String>),
    /// The names of the services on the system.
    Services,
    /// The services that are loaded now.
    LoadedServices,
    /// The users on the system.
    Users,
    /// The groups on the system.
    Groups,
    /// The login shells that the system accepts.
    Shells,
    /// The block devices.
    Devices,
    /// The current mount points.
    MountPoints,
}

pub struct PackageInfo {
    pub name: String,
    pub version: String,
    pub architecture: String,
    pub status: String,
}

pub struct ServiceInfo {
    pub name: String,
    pub loaded: String,
    pub active: String,
    pub status: String,
    pub description: String,
}

pub struct UserInfo {
    pub username: String,
    pub uid: String,
    pub gid: String,
    pub home: String,
    pub shell: String,
    pub groups: Vec<String>,
    pub user_type: String,
}

pub struct UserSessionInfo {
    pub username: String,
    pub line: String,
    pub host: String,
    pub start: String,
    pub end: String,
    pub duration: String,
}

pub struct GroupInfo {
    pub name: String,
    pub gid: String,
    pub members: Vec<String>,
}

pub struct DiskInfo {
    pub name: String,
    pub path: String,
    pub size: String,
    pub mountpoint: Option<String>,
    pub fstype: Option<String>,
    pub device_type: String,
    pub rota: bool,
    pub tran: Option<String>,
    pub children: Option<Vec<DiskInfo>>,
}

pub struct SysInfoData {
    pub hostname: String,
    pub os: String,
    pub kernel: String,
    pub architecture: String,
    pub uptime: String,
    pub cpu_count: usize,
    pub cpu_model: String,
    pub total_memory: u64,
    pub used_memory: u64,
    pub total_memory_readable: String,
    pub used_memory_readable: String,
    pub ram_type: String,
    pub ram_model: String,
    pub ram_config: String,
    pub ram_speed: String,
    pub physical_drives: usize,
    pub lan_adapters: Vec<String>,
    pub wifi_adapters: Vec<String>,
    pub bt_adapters: Vec<String>,
    pub monitors: Vec<String>,
    pub system_users_count: usize,
    pub common_users_count: usize,
}

pub struct SysTimeData {
    pub local_time: String,
    pub universal_time: String,
    pub rtc_time: String,
    pub time_zone: String,
    pub system_clock_synchronized: String,
    pub ntp_service: String,
    pub rtc_in_local_tz: String,
}

pub struct DistroInfo {
    pub name: String,
    pub version: String,
    pub id: String,
    pub id_like: String,
    pub pretty_name: String,
}

pub struct NetInterfaceInfo {
    pub name: String,
    pub state: String,
    pub mtu: u32,
    pub mac: String,
    pub interface_type: String,
    pub ips: Vec<String>,
}

pub struct NetIpInfo {
    pub interface: String,
    pub family: String,
    pub address: String,
}

pub struct NetRouteInfo {
    pub destination: String,
    pub gateway: Option<String>,
    pub interface: String,
}

pub struct FwRuleInfo {
    pub to: String,
    pub action: String,
    pub from: String,
}

pub struct BootEntryInfo {
    pub title: String,
    pub id: String,
}

pub struct KernelModInfo {
    pub name: String,
    pub size: u64,
    pub used_by: String,
}

pub struct DisplayInfo {
    pub name: String,
    pub connected: bool,
    pub resolution: String,
}

pub struct DeviceInfo {
    pub bus: String,
    pub device: String,
    pub id: String,
    pub description: String,
}

pub struct PrinterInfo {
    pub name: String,
    pub status: String,
}

pub struct ContainerInfo {
    pub id: String,
    pub image: String,
    pub command: String,
    pub created: String,
    pub status: String,
    pub names: String,
}

pub struct SecAuditInfo {
    pub title: String,
    pub result: String,
    pub recommendation: String,
}

pub struct SelfInfo {
    pub version: String,
    pub architecture: String,
    pub os: String,
}

pub struct MonitorEntry {
    pub entry_type: String,
    pub subtype: String,
    pub value: String,
    pub description: String,
}

/// Package management.
pub trait PackageManager {
    /// What `update` hands back.
    spec fn update_result(&self, r: Result<AnyCommand, AoError>) -> bool;

    /// What `add` hands back for these packages.
    spec fn add_result(&self, packages: Seq<Seq<char>>, r: Result<AnyCommand, AoError>) -> bool;

    /// What `del` hands back for these packages.
    spec fn del_result(&self, packages: Seq<Seq<char>>, purge: bool, r: Result<AnyCommand, AoError>) -> bool;

    /// What `search` hands back for this query.
    spec fn search_result(&self, query: Seq<char>, r: Result<AnyCommand, AoError>) -> bool;

    /// What `ls` hands back for this format.
    spec fn ls_result(&self, format: OutputFormat, r: Result<AnyCommand, AoError>) -> bool;

    /// Refreshes the package index or upgrades, as the manager does it.
    fn update(&self) -> (r: Result<AnyCommand, AoError>)
        ensures
            self.update_result(r),
    ;

    fn add(&self, packages: &[String]) -> (r: Result<AnyCommand, AoError>)
        ensures
            self.add_result(string_views(packages@), r),
    ;

    fn del(&self, packages: &[String], purge: bool) -> (r: Result<AnyCommand, AoError>)
        ensures
            self.del_result(string_views(packages@), purge, r),
    ;

    fn search(&self, query: &str) -> (r: Result<AnyCommand, AoError>)
        ensures
            self.search_result(query@, r),
    ;

    fn ls(&self, format: OutputFormat) -> (r: Result<AnyCommand, AoError>)
        ensures
            self.ls_result(format, r),
    ;
}

/// What the package domain hands back for an invocation: the manager's
/// command for the action, the listing as a table when none is given.
pub open spec fn package_dispatch<M: PackageManager>(
    manager: M,
    action: Option<PackageAction>,
    r: Result<AnyCommand, AoError>,
) -> bool {
    match action {
        Some(PackageAction::Update) => manager.update_result(r),
        Some(PackageAction::Add { packages }) => manager.add_result(string_views(packages@), r),
        Some(PackageAction::Delete { packages, purge }) => manager.del_result(string_views(packages@), purge, r),
        Some(PackageAction::Search { query }) => manager.search_result(query@, r),
        Some(PackageAction::List { format }) => manager.ls_result(format, r),
        None => manager.ls_result(OutputFormat::Table, r),
    }
}

/// The package domain, over the system's package manager.
pub struct PackageDomain<M: PackageManager> {
    pub manager: M,
}

impl<M: PackageManager> PackageDomain<M> {
    /// The domain's name.
    pub fn name(&self) -> (r: &'static str)
        ensures
            r@ == "package"@,
    {
        "package"
    }

    /// Maps a parsed `package` invocation to the manager's command.
    pub fn execute(&self, args: &PackageArgs) -> (r: Result<AnyCommand, AoError>)
        ensures
            package_dispatch(self.manager, args.action, r),
    {
        match &args.action {
            Some(PackageAction::Update) => self.manager.update(),
            Some(PackageAction::Add { packages }) => self.manager.add(packages.as_slice()),
            Some(PackageAction::Delete { packages, purge }) => self.manager.del(packages.as_slice(), *purge),
            Some(PackageAction::Search { query }) => self.manager.search(query.as_str()),
            Some(PackageAction::List { format }) => self.manager.ls(*format),
            None => self.manager.ls(OutputFormat::Table),
        }
    }
}

/// Service management.
pub trait ServiceManager {
    fn ls(&self, format: OutputFormat) -> Result<AnyCommand, AoError>;
    fn up(&self, service: &str) -> Result<AnyCommand, AoError>;
    fn down(&self, service: &str) -> Result<AnyCommand, AoError>;
    fn restart(&self, service: &str) -> Result<AnyCommand, AoError>;
    fn reload(&self, service: &str) -> Result<AnyCommand, AoError>;
    fn status(&self, service: &str) -> Result<AnyCommand, AoError>;
}

/// User management.
pub trait UserManager {
    fn list(&self, all: bool, groups: bool, format: OutputFormat) -> Result<AnyCommand, AoError>;
    fn add(
        &self,
        username: &str,
        name: Option<&str>,
        email: Option<&str>,
        groups: Option<&str>,
        shell: Option<&str>,
        system: bool,
        no_create_home: bool,
    ) -> Result<AnyCommand, AoError>;
    fn delete(&self, username: &str, purge: bool) -> Result<AnyCommand, AoError>;
    fn modify_user(&self, username: &str, action: &str, value: &str) -> Result<AnyCommand, AoError>;
    fn passwd(&self, username: &str) -> Result<AnyCommand, AoError>;
    fn session(&self, username: Option<&str>, all: bool, n: Option<u32>, format: OutputFormat) -> Result<AnyCommand, AoError>;
}

/// Group management.
pub trait GroupManager {
    fn ls(&self, format: OutputFormat) -> Result<AnyCommand, AoError>;
    fn add(&self, groupname: &str) -> Result<AnyCommand, AoError>;
    fn del(&self, groupname: &str) -> Result<AnyCommand, AoError>;
    fn mod_group(&self, groupname: &str, gid: u32) -> Result<AnyCommand, AoError>;
}

/// Disks.
pub trait DiskManager {
    fn ls(&self, format: OutputFormat, show_loop: bool) -> Result<AnyCommand, AoError>;
}

/// Partitions and mounts.
pub trait PartitionManager {
    fn ls(&self, format: OutputFormat) -> Result<AnyCommand, AoError>;
    fn mount(&self, device: &str, path: &str, fstype: Option<&str>, options: Option<&str>) -> Result<AnyCommand, AoError>;
    fn unmount(&self, target: &str, lazy: bool, force: bool) -> Result<AnyCommand, AoError>;
    fn usage(&self, path: &str, depth: Option<u32>) -> Result<AnyCommand, AoError>;
}

/// The core system: facts, power and time.
pub trait SysManager {
    fn info(&self, format: OutputFormat) -> Result<AnyCommand, AoError>;
    fn power(&self, state: &str, now: bool, force: bool) -> Result<AnyCommand, AoError>;
    fn time(&self, action: &str, value: Option<&str>, format: OutputFormat) -> Result<AnyCommand, AoError>;
}

/// Logs.
pub trait LogManager {
    fn auth(&self, lines: u32, follow: bool) -> Result<AnyCommand, AoError>;
    fn boot(&self, lines: u32, follow: bool, id: Option<&str>) -> Result<AnyCommand, AoError>;
    fn crash(&self, lines: u32) -> Result<AnyCommand, AoError>;
    fn dev(&self, lines: u32, follow: bool) -> Result<AnyCommand, AoError>;
    fn error(&self, lines: u32, follow: bool) -> Result<AnyCommand, AoError>;
    fn file(&self, path: &str, lines: u32, follow: bool) -> Result<AnyCommand, AoError>;
    fn pkg(&self, lines: u32) -> Result<AnyCommand, AoError>;
    fn svc(&self, service: &str, lines: u32, follow: bool) -> Result<AnyCommand, AoError>;
    fn sys_logs(&self, lines: u32, follow: bool) -> Result<AnyCommand, AoError>;
}

/// The distribution and its upgrades.
pub trait DistroManager {
    fn info(&self, format: OutputFormat) -> Result<AnyCommand, AoError>;
    fn upgrade(&self) -> Result<AnyCommand, AoError>;
}

/// Networking.
pub trait NetManager {
    fn interfaces(&self, format: OutputFormat) -> Result<AnyCommand, AoError>;
    fn ips(&self, format: OutputFormat) -> Result<AnyCommand, AoError>;
    fn routes(&self, format: OutputFormat) -> Result<AnyCommand, AoError>;
    fn fw_status(&self, format: OutputFormat) -> Result<AnyCommand, AoError>;
    fn fw_allow(&self, rule: &str) -> Result<AnyCommand, AoError>;
    fn fw_deny(&self, rule: &str) -> Result<AnyCommand, AoError>;
    fn wifi_scan(&self) -> Result<AnyCommand, AoError>;
    fn wifi_connect(&self, ssid: &str) -> Result<AnyCommand, AoError>;
}

/// Boot entries and kernel modules.
pub trait BootManager {
    fn ls_entries(&self, format: OutputFormat) -> Result<AnyCommand, AoError>;
    fn ls_modules(&self, format: OutputFormat) -> Result<AnyCommand, AoError>;
    fn load_module(&self, name: &str) -> Result<AnyCommand, AoError>;
    fn unload_module(&self, name: &str) -> Result<AnyCommand, AoError>;
}

/// The graphical session and displays.
pub trait GuiManager {
    fn info(&self) -> Result<AnyCommand, AoError>;
    fn ls_displays(&self, format: OutputFormat) -> Result<AnyCommand, AoError>;
}

/// Hardware devices.
pub trait DevManager {
    fn ls(&self, format: OutputFormat) -> Result<AnyCommand, AoError>;
    fn pci(&self, format: OutputFormat) -> Result<AnyCommand, AoError>;
    fn usb(&self, format: OutputFormat) -> Result<AnyCommand, AoError>;
    fn bt_status(&self) -> Result<AnyCommand, AoError>;
    fn bt_scan(&self) -> Result<AnyCommand, AoError>;
    fn bt_pair(&self, address: &str) -> Result<AnyCommand, AoError>;
    fn bt_connect(&self, address: &str) -> Result<AnyCommand, AoError>;
    fn ls_printers(&self, format: OutputFormat) -> Result<AnyCommand, AoError>;
}

/// Containers.
pub trait VirtManager {
    fn ls(&self, format: OutputFormat) -> Result<AnyCommand, AoError>;
    fn start(&self, name: &str) -> Result<AnyCommand, AoError>;
    fn stop(&self, name: &str) -> Result<AnyCommand, AoError>;
    fn del(&self, name: &str) -> Result<AnyCommand, AoError>;
    fn logs(&self, name: &str) -> Result<AnyCommand, AoError>;
}

/// Security posture.
pub trait SecManager {
    fn audit(&self, format: OutputFormat) -> Result<AnyCommand, AoError>;
    fn context(&self) -> Result<AnyCommand, AoError>;
}

/// Live resource figures.
pub trait MonitorManager {
    fn live_stats(&self, format: OutputFormat) -> Result<AnyCommand, AoError>;
}

} // verus!
