//! Which system `ao` runs on, and the domains it offers there.
use vstd::prelude::*;

use crate::cli::PackageArgs;
use crate::os::alpine::Apk;
use crate::os::arch::Pacman;
use crate::os::debian::Apt;
use crate::os::fedora::Dnf;
use crate::os::macos::MacOSPackage;
use crate::os::{AnyCommand, AoError, PackageDomain, package_dispatch};
use crate::sort::{reorder, sort_by_text, stable_order, text_lt};
use crate::text::{chars_of, contains, contains_pat, lines, lines_of, owned, str_eq};

verus! {

/// The families of systems that `ao` knows.
#[derive(Clone, Copy, Debug, PartialEq, Eq, Structural)]
pub enum Distro {
    Debian,
    Arch,
    Fedora,
    Alpine,
    MacOS,
}

/// The family that the text of `/etc/os-release` names, if it is one that
/// `ao` knows.
pub open spec fn release_family(t: Seq<char>) -> Option<Distro> {
    if contains(t, "ID=ubuntu"@) || contains(t, "ID=debian"@) || contains(t, "ID_LIKE=debian"@) {
        Some(Distro::Debian)
    } else if contains(t, "ID=arch"@) || contains(t, "ID_LIKE=arch"@) {
        Some(Distro::Arch)
    } else if contains(t, "ID=fedora"@) || contains(t, "ID_LIKE=fedora"@) {
        Some(Distro::Fedora)
    } else if contains(t, "ID=alpine"@) {
        Some(Distro::Alpine)
    } else {
        None
    }
}

/// Which family a release text names: Debian and its derivatives whenever
/// it has `ID=debian`, `ID=ubuntu` or `ID_LIKE=debian`; otherwise Arch for
/// `ID=arch` or `ID_LIKE=arch`, then Fedora for `ID=fedora` or
/// `ID_LIKE=fedora`, then Alpine for `ID=alpine`; and a text with none of
/// these markers names no family that `ao` knows. A family is only ever
/// named by one of its own markers.
pub proof fn lemma_release_markers(t: Seq<char>)
    ensures
        contains(t, "ID=debian"@) ==> release_family(t) == Some(Distro::Debian),
        contains(t, "ID=ubuntu"@) ==> release_family(t) == Some(Distro::Debian),
        contains(t, "ID_LIKE=debian"@) ==> release_family(t) == Some(Distro::Debian),
        release_family(t) == Some(Distro::Debian) ==> contains(t, "ID=debian"@) || contains(t, "ID=ubuntu"@)
            || contains(t, "ID_LIKE=debian"@),
        release_family(t) != Some(Distro::Debian) && (contains(t, "ID=arch"@) || contains(t, "ID_LIKE=arch"@))
            ==> release_family(t) == Some(Distro::Arch),
        release_family(t) == Some(Distro::Arch) ==> contains(t, "ID=arch"@) || contains(t, "ID_LIKE=arch"@),
        release_family(t) != Some(Distro::Debian) && release_family(t) != Some(Distro::Arch) && (contains(
            t,
            "ID=fedora"@,
        ) || contains(t, "ID_LIKE=fedora"@)) ==> release_family(t) == Some(Distro::Fedora),
        release_family(t) == Some(Distro::Fedora) ==> contains(t, "ID=fedora"@) || contains(t, "ID_LIKE=fedora"@),
        release_family(t) is None ==> !contains(t, "ID=alpine"@),
        release_family(t) == Some(Distro::Alpine) ==> contains(t, "ID=alpine"@),
        release_family(t) != Some(Distro::MacOS),
        !contains(t, "ID=debian"@) && !contains(t, "ID=ubuntu"@) && !contains(t, "ID_LIKE=debian"@) && !contains(
            t,
            "ID=arch"@,
        ) && !contains(t, "ID_LIKE=arch"@) && !contains(t, "ID=fedora"@) && !contains(t, "ID_LIKE=fedora"@)
            && !contains(t, "ID=alpine"@) ==> release_family(t) is None,
{
}

/// The lines of a text, each followed by a line break.
pub open spec fn relined(ls: Seq<Seq<char>>) -> Seq<char>
    decreases ls.len(),
{
    if ls.len() == 0 {
        seq![]
    } else {
        relined(ls.drop_last()) + ls.last() + seq!['\n']
    }
}

fn contains_str(t: &Vec<char>, p: &str) -> (r: bool)
    ensures
        r == contains(t@, p@),
{
    let pc = chars_of(p);
    contains_pat(t, &pc)
}

impl Distro {
    /// The family named by the text of `/etc/os-release`; an error that
    /// quotes the text for a system it does not know.
    pub fn from_release(os_release: &str) -> (r: Result<Distro, AoError>)
        ensures
            match release_family(os_release@) {
                Some(d) => r == Ok::<Distro, AoError>(d),
                None => r matches Err(e) && e.message@ == "Unsupported operating system. Detected: \n"@ + os_release@,
            },
    {
        let t = chars_of(os_release);
        if contains_str(&t, "ID=ubuntu") || contains_str(&t, "ID=debian") || contains_str(&t, "ID_LIKE=debian") {
            Ok(Distro::Debian)
        } else if contains_str(&t, "ID=arch") || contains_str(&t, "ID_LIKE=arch") {
            Ok(Distro::Arch)
        } else if contains_str(&t, "ID=fedora") || contains_str(&t, "ID_LIKE=fedora") {
            Ok(Distro::Fedora)
        } else if contains_str(&t, "ID=alpine") {
            Ok(Distro::Alpine)
        } else {
            let mut m = owned("Unsupported operating system. Detected: \n");
            m.append(os_release);
            Err(AoError::new(m))
        }
    }

    /// The text that is examined: the lines of the release file, each
    /// followed by a line break (nothing when it could not be read).
    pub fn release_text(content: Option<&str>) -> (r: String)
        ensures
            r@ == (match content {
                Some(c) => relined(lines(c@)),
                None => seq![],
            }),
    {
        match content {
            Some(c) => {
                let ls = lines_of(c);
                let mut out: Vec<char> = Vec::new();
                let mut i: usize = 0;
                while i < ls.len()
                    invariant
                        0 <= i <= ls.len(),
                        crate::text::views(ls@) == lines(c@),
                        out@ == relined(crate::text::views(ls@).take(i as int)),
                    decreases ls.len() - i,
                {
                    let ghost prev = crate::text::views(ls@).take(i as int);
                    assert(crate::text::views(ls@).take(i + 1).drop_last() =~= prev);
                    crate::text::extend_chars(&mut out, &ls[i]);
                    out.push('\n');
                    i += 1;
                }
                assert(crate::text::views(ls@).take(ls.len() as int) =~= crate::text::views(ls@));
                crate::text::string_of(&out)
            },
            None => String::new(),
        }
    }

    /// The system: macOS where `ao` was built for it, else the family that
    /// the release file names.
    pub fn detect(on_macos: bool, content: Option<&str>) -> (r: Result<Distro, AoError>)
        ensures
            on_macos ==> r == Ok::<Distro, AoError>(Distro::MacOS),
            !on_macos ==> match release_family(match content {
                Some(c) => relined(lines(c@)),
                None => seq![],
            }) {
                Some(d) => r == Ok::<Distro, AoError>(d),
                None => r matches Err(e) && e.message@ == "Unsupported operating system. Detected: \n"@ + match content {
                    Some(c) => relined(lines(c@)),
                    None => seq![],
                },
            },
    {
        if on_macos {
            return Ok(Distro::MacOS);
        }
        let t = Self::release_text(content);
        Self::from_release(t.as_str())
    }
}

/// The domains of commands.
#[derive(Clone, Copy, Debug, PartialEq, Eq, Structural)]
pub enum DomainKind {
    Package,
    Service,
    Network,
    Device,
    Virtualization,
    Security,
    Boot,
    Gui,
    User,
    Group,
    Disk,
    Partition,
    System,
    Log,
    Distribution,
    Monitor,
    SelfManagement,
}

/// The subcommand of each domain.
pub open spec fn domain_name(k: DomainKind) -> Seq<char> {
    match k {
        DomainKind::Package => "package"@,
        DomainKind::Service => "service"@,
        DomainKind::Network => "network"@,
        DomainKind::Device => "device"@,
        DomainKind::Virtualization => "virtualization"@,
        DomainKind::Security => "security"@,
        DomainKind::Boot => "boot"@,
        DomainKind::Gui => "gui"@,
        DomainKind::User => "user"@,
        DomainKind::Group => "group"@,
        DomainKind::Disk => "disk"@,
        DomainKind::Partition => "partition"@,
        DomainKind::System => "system"@,
        DomainKind::Log => "log"@,
        DomainKind::Distribution => "distribution"@,
        DomainKind::Monitor => "monitor"@,
        DomainKind::SelfManagement => "self"@,
    }
}

/// Every domain, in the order of the system's fields.
pub open spec fn all_domains() -> Seq<DomainKind> {
    seq![
        DomainKind::Package,
        DomainKind::Service,
        DomainKind::Network,
        DomainKind::Device,
        DomainKind::Virtualization,
        DomainKind::Security,
        DomainKind::Boot,
        DomainKind::Gui,
        DomainKind::User,
        DomainKind::Group,
        DomainKind::Disk,
        DomainKind::Partition,
        DomainKind::System,
        DomainKind::Log,
        DomainKind::Distribution,
        DomainKind::Monitor,
        DomainKind::SelfManagement,
    ]
}

impl DomainKind {
    /// The domain's subcommand.
    pub fn name(&self) -> (r: &'static str)
        ensures
            r@ == domain_name(*self),
    {
        match self {
            DomainKind::Package => "package",
            DomainKind::Service => "service",
            DomainKind::Network => "network",
            DomainKind::Device => "device",
            DomainKind::Virtualization => "virtualization",
            DomainKind::Security => "security",
            DomainKind::Boot => "boot",
            DomainKind::Gui => "gui",
            DomainKind::User => "user",
            DomainKind::Group => "group",
            DomainKind::Disk => "disk",
            DomainKind::Partition => "partition",
            DomainKind::System => "system",
            DomainKind::Log => "log",
            DomainKind::Distribution => "distribution",
            DomainKind::Monitor => "monitor",
            DomainKind::SelfManagement => "self",
        }
    }

    /// The domain whose subcommand is `name`, if any.
    pub fn from_name(name: &str) -> (r: Option<DomainKind>)
        ensures
            match r {
                Some(k) => domain_name(k) == name@,
                None => forall|k: DomainKind| domain_name(k) != name@,
            },
    {
        let all = DetectedSystem::all();
        let mut i: usize = 0;
        while i < all.len()
            invariant
                0 <= i <= all.len(),
                all@ == all_domains(),
                forall|j: int| 0 <= j < i ==> domain_name(#[trigger] all_domains()[j]) != name@,
            decreases all.len() - i,
        {
            if str_eq(all[i].name(), name) {
                return Some(all[i]);
            }
            i += 1;
        }
        proof {
            assert forall|k: DomainKind| domain_name(k) != name@ by {
                match k {
                    DomainKind::Package => assert(all_domains()[0] == k),
                    DomainKind::Service => assert(all_domains()[1] == k),
                    DomainKind::Network => assert(all_domains()[2] == k),
                    DomainKind::Device => assert(all_domains()[3] == k),
                    DomainKind::Virtualization => assert(all_domains()[4] == k),
                    DomainKind::Security => assert(all_domains()[5] == k),
                    DomainKind::Boot => assert(all_domains()[6] == k),
                    DomainKind::Gui => assert(all_domains()[7] == k),
                    DomainKind::User => assert(all_domains()[8] == k),
                    DomainKind::Group => assert(all_domains()[9] == k),
                    DomainKind::Disk => assert(all_domains()[10] == k),
                    DomainKind::Partition => assert(all_domains()[11] == k),
                    DomainKind::System => assert(all_domains()[12] == k),
                    DomainKind::Log => assert(all_domains()[13] == k),
                    DomainKind::Distribution => assert(all_domains()[14] == k),
                    DomainKind::Monitor => assert(all_domains()[15] == k),
                    DomainKind::SelfManagement => assert(all_domains()[16] == k),
                }
            }
        }
        None
    }
}

/// The package managers.
#[derive(Clone, Copy, Debug, PartialEq, Eq, Structural)]
pub enum PackageBackend {
    Apt,
    Pacman,
    Dnf,
    Apk,
    Homebrew,
}

/// The system `ao` runs on.
#[derive(Clone, Copy, Debug, PartialEq, Eq, Structural)]
pub struct DetectedSystem {
    pub distro: Distro,
}

/// The package manager of each family.
pub open spec fn backend_of(d: Distro) -> PackageBackend {
    match d {
        Distro::Debian => PackageBackend::Apt,
        Distro::Arch => PackageBackend::Pacman,
        Distro::Fedora => PackageBackend::Dnf,
        Distro::Alpine => PackageBackend::Apk,
        Distro::MacOS => PackageBackend::Homebrew,
    }
}

/// The subcommand of a domain on a system: on macOS the live figures are
/// the `overview`.
pub open spec fn system_domain_name(d: Distro, k: DomainKind) -> Seq<char> {
    if d == Distro::MacOS && k == DomainKind::Monitor {
        "overview"@
    } else {
        domain_name(k)
    }
}

/// What the package domain of the system hands back for an invocation:
/// what its package manager hands back.
pub open spec fn system_package_result(d: Distro, args: PackageArgs, r: Result<AnyCommand, AoError>) -> bool {
    match backend_of(d) {
        PackageBackend::Apt => package_dispatch(Apt, args.action, r),
        PackageBackend::Pacman => package_dispatch(Pacman, args.action, r),
        PackageBackend::Dnf => package_dispatch(Dnf, args.action, r),
        PackageBackend::Apk => package_dispatch(Apk, args.action, r),
        PackageBackend::Homebrew => package_dispatch(MacOSPackage, args.action, r),
    }
}

impl DetectedSystem {
    /// Every domain, in the order of the system's fields.
    pub fn all() -> (r: Vec<DomainKind>)
        ensures
            r@ == all_domains(),
    {
        let v = vec![
            DomainKind::Package,
            DomainKind::Service,
            DomainKind::Network,
            DomainKind::Device,
            DomainKind::Virtualization,
            DomainKind::Security,
            DomainKind::Boot,
            DomainKind::Gui,
            DomainKind::User,
            DomainKind::Group,
            DomainKind::Disk,
            DomainKind::Partition,
            DomainKind::System,
            DomainKind::Log,
            DomainKind::Distribution,
            DomainKind::Monitor,
            DomainKind::SelfManagement,
        ];
        assert(v@ =~= all_domains());
        v
    }

    /// The domains the system offers: all of them, on every system.
    pub fn domains(&self) -> (r: Vec<DomainKind>)
        ensures
            r@ == all_domains(),
    {
        Self::all()
    }

    /// Whether the domains are those of macOS.
    pub fn is_macos(&self) -> (r: bool)
        ensures
            r == (self.distro == Distro::MacOS),
    {
        matches!(self.distro, Distro::MacOS)
    }

    /// The subcommand of a domain on this system.
    pub fn domain_name(&self, k: DomainKind) -> (r: &'static str)
        ensures
            r@ == system_domain_name(self.distro, k),
    {
        if matches!(self.distro, Distro::MacOS) && matches!(k, DomainKind::Monitor) {
            "overview"
        } else {
            k.name()
        }
    }

    /// The domain of this system whose subcommand is `name`, if any.
    pub fn find_domain(&self, name: &str) -> (r: Option<DomainKind>)
        ensures
            match r {
                Some(k) => system_domain_name(self.distro, k) == name@,
                None => forall|k: DomainKind| system_domain_name(self.distro, k) != name@,
            },
    {
        let all = Self::all();
        let mut i: usize = 0;
        while i < all.len()
            invariant
                0 <= i <= all.len(),
                all@ == all_domains(),
                forall|j: int| 0 <= j < i ==> system_domain_name(self.distro, #[trigger] all_domains()[j]) != name@,
            decreases all.len() - i,
        {
            if str_eq(self.domain_name(all[i]), name) {
                return Some(all[i]);
            }
            i += 1;
        }
        proof {
            assert forall|k: DomainKind| system_domain_name(self.distro, k) != name@ by {
                lemma_listed(k);
            }
        }
        None
    }

    /// The domains ordered by their subcommands, as the help lists them.
    pub fn sorted_domains(&self) -> (r: Vec<DomainKind>)
        ensures
            exists|p: Seq<int>|
                stable_order(
                    all_domains().map_values(|k: DomainKind| system_domain_name(self.distro, k)),
                    p,
                    |a: Seq<char>, b: Seq<char>| text_lt(a, b),
                ) && r@ == reorder(all_domains(), p),
    {
        let all = Self::all();
        let mut keys: Vec<Vec<char>> = Vec::new();
        let mut i: usize = 0;
        while i < all.len()
            invariant
                0 <= i <= all.len(),
                all@ == all_domains(),
                keys@.len() == i,
                forall|j: int| 0 <= j < i ==> (#[trigger] keys@[j])@ == system_domain_name(self.distro, all@[j]),
            decreases all.len() - i,
        {
            keys.push(chars_of(self.domain_name(all[i])));
            i += 1;
        }
        assert(keys@.map_values(|k: Vec<char>| k@) =~= all_domains().map_values(
            |k: DomainKind| system_domain_name(self.distro, k),
        ));
        sort_by_text(all, &keys)
    }

    /// The package manager of the system.
    pub fn package_backend(&self) -> (r: PackageBackend)
        ensures
            r == backend_of(self.distro),
    {
        match self.distro {
            Distro::Debian => PackageBackend::Apt,
            Distro::Arch => PackageBackend::Pacman,
            Distro::Fedora => PackageBackend::Dnf,
            Distro::Alpine => PackageBackend::Apk,
            Distro::MacOS => PackageBackend::Homebrew,
        }
    }

    /// Maps a parsed `package` invocation to the command of the system's
    /// package manager.
    pub fn package(&self, args: &PackageArgs) -> (r: Result<AnyCommand, AoError>)
        ensures
            system_package_result(self.distro, *args, r),
    {
        match self.package_backend() {
            PackageBackend::Apt => PackageDomain { manager: Apt }.execute(args),
            PackageBackend::Pacman => PackageDomain { manager: Pacman }.execute(args),
            PackageBackend::Dnf => PackageDomain { manager: Dnf }.execute(args),
            PackageBackend::Apk => PackageDomain { manager: Apk }.execute(args),
            PackageBackend::Homebrew => PackageDomain { manager: MacOSPackage }.execute(args),
        }
    }
}

/// The length, first and last letters of a domain's subcommand, which
/// already tell the domains apart.
spec fn name_print(d: Distro, k: DomainKind) -> (nat, char, char) {
    match k {
        DomainKind::Package => (7, 'p', 'e'),
        DomainKind::Service => (7, 's', 'e'),
        DomainKind::Network => (7, 'n', 'k'),
        DomainKind::Device => (6, 'd', 'e'),
        DomainKind::Virtualization => (14, 'v', 'n'),
        DomainKind::Security => (8, 's', 'y'),
        DomainKind::Boot => (4, 'b', 't'),
        DomainKind::Gui => (3, 'g', 'i'),
        DomainKind::User => (4, 'u', 'r'),
        DomainKind::Group => (5, 'g', 'p'),
        DomainKind::Disk => (4, 'd', 'k'),
        DomainKind::Partition => (9, 'p', 'n'),
        DomainKind::System => (6, 's', 'm'),
        DomainKind::Log => (3, 'l', 'g'),
        DomainKind::Distribution => (12, 'd', 'n'),
        DomainKind::Monitor => if d == Distro::MacOS { (8, 'o', 'w') } else { (7, 'm', 'r') },
        DomainKind::SelfManagement => (4, 's', 'f'),
    }
}

proof fn lemma_name_print(d: Distro, k: DomainKind)
    ensures
        ({
            let n = system_domain_name(d, k);
            n.len() > 0 && (n.len(), n[0], n[n.len() - 1]) == name_print(d, k)
        }),
{
    reveal_strlit("package");
    reveal_strlit("service");
    reveal_strlit("network");
    reveal_strlit("device");
    reveal_strlit("virtualization");
    reveal_strlit("security");
    reveal_strlit("boot");
    reveal_strlit("gui");
    reveal_strlit("user");
    reveal_strlit("group");
    reveal_strlit("disk");
    reveal_strlit("partition");
    reveal_strlit("system");
    reveal_strlit("log");
    reveal_strlit("distribution");
    reveal_strlit("monitor");
    reveal_strlit("self");
    reveal_strlit("overview");
}

/// Each domain of a system has a subcommand of its own: two domains with the
/// same subcommand are the same domain.
pub proof fn lemma_domain_names_distinct(d: Distro, a: DomainKind, b: DomainKind)
    requires
        system_domain_name(d, a) == system_domain_name(d, b),
    ensures
        a == b,
{
    lemma_name_print(d, a);
    lemma_name_print(d, b);
}

/// Looking a domain up by its subcommand finds that domain.
pub proof fn lemma_find_domain_name(d: Distro, k: DomainKind, found: Option<DomainKind>)
    requires
        match found {
            Some(f) => system_domain_name(d, f) == system_domain_name(d, k),
            None => forall|x: DomainKind| system_domain_name(d, x) != system_domain_name(d, k),
        },
    ensures
        found == Some(k),
{
    match found {
        Some(f) => lemma_domain_names_distinct(d, f, k),
        None => {
            let n = system_domain_name(d, k);
            assert(n != n);
        },
    }
}

/// Every domain is among those listed.
proof fn lemma_listed(k: DomainKind)
    ensures
        exists|j: int| 0 <= j < all_domains().len() && all_domains()[j] == k,
{
    match k {
        DomainKind::Package => assert(all_domains()[0] == k),
        DomainKind::Service => assert(all_domains()[1] == k),
        DomainKind::Network => assert(all_domains()[2] == k),
        DomainKind::Device => assert(all_domains()[3] == k),
        DomainKind::Virtualization => assert(all_domains()[4] == k),
        DomainKind::Security => assert(all_domains()[5] == k),
        DomainKind::Boot => assert(all_domains()[6] == k),
        DomainKind::Gui => assert(all_domains()[7] == k),
        DomainKind::User => assert(all_domains()[8] == k),
        DomainKind::Group => assert(all_domains()[9] == k),
        DomainKind::Disk => assert(all_domains()[10] == k),
        DomainKind::Partition => assert(all_domains()[11] == k),
        DomainKind::System => assert(all_domains()[12] == k),
        DomainKind::Log => assert(all_domains()[13] == k),
        DomainKind::Distribution => assert(all_domains()[14] == k),
        DomainKind::Monitor => assert(all_domains()[15] == k),
        DomainKind::SelfManagement => assert(all_domains()[16] == k),
    }
}

/// Detects the system: macOS where `ao` was built for it, else the family
/// that the release file names; an error for an unknown system.
pub fn detect_system(on_macos: bool, content: Option<&str>) -> (r: Result<DetectedSystem, AoError>)
    ensures
        on_macos ==> r == Ok::<DetectedSystem, AoError>(DetectedSystem { distro: Distro::MacOS }),
        !on_macos ==> match release_family(match content {
            Some(c) => relined(lines(c@)),
            None => seq![],
        }) {
            Some(d) => r == Ok::<DetectedSystem, AoError>(DetectedSystem { distro: d }),
            None => r matches Err(e) && e.message@ == "Unsupported operating system. Detected: \n"@ + match content {
                Some(c) => relined(lines(c@)),
                None => seq![],
            },
        },
{
    match Distro::detect(on_macos, content) {
        Ok(d) => Ok(DetectedSystem { distro: d }),
        Err(e) => Err(e),
    }
}

} // verus!
