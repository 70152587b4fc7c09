//! The distribution: its release information and upgrades.
use vstd::prelude::*;

use super::common::SystemCommand;
use crate::cli::{DistributionAction, DistributionArgs, OutputFormat, format_name, is_structured_format};
use crate::os::{AnyCommand, AoError, DistroInfo, ExecutableCommand};
use crate::text::{lines, lines_of, owned, split_char, split_on, str_eq, string_of, trim_char, trim_matches_char, views};

verus! {

/// The distribution domain.
pub struct StandardDistro;

/// The path at which `do-release-upgrade` is looked for.
pub fn release_upgrade_path() -> (r: &'static str)
    ensures
        r@ == "/usr/bin/do-release-upgrade"@,
{
    "/usr/bin/do-release-upgrade"
}

/// The path at which `dnf` is looked for.
pub fn dnf_path() -> (r: &'static str)
    ensures
        r@ == "/usr/bin/dnf"@,
{
    "/usr/bin/dnf"
}

/// The upgrade command, given whether files exist at
/// `release_upgrade_path()` and `dnf_path()`: the first tool that is there,
/// else an error.
pub open spec fn upgrade_result(has_release_upgrade: bool, has_dnf: bool, r: Result<AnyCommand, AoError>) -> bool {
    if has_release_upgrade {
        r matches Ok(AnyCommand::System(c)) && c.runs("do-release-upgrade"@, seq![])
    } else if has_dnf {
        r matches Ok(AnyCommand::System(c)) && c.runs("dnf"@, seq!["system-upgrade"@, "reboot"@])
    } else {
        r matches Err(e) && e.message@ == "Distribution upgrade tool not found"@
    }
}

impl StandardDistro {
    /// Maps a parsed `distribution` invocation to its command, given
    /// whether files exist at `release_upgrade_path()` and `dnf_path()`.
    pub fn execute(&self, args: &DistributionArgs, has_release_upgrade: bool, has_dnf: bool) -> (r: Result<
        AnyCommand,
        AoError,
    >)
        ensures
            match args.action {
                Some(DistributionAction::Info { format }) => r == Ok::<AnyCommand, AoError>(
                    AnyCommand::DistroInfo(DistroInfoCommand { format }),
                ),
                Some(DistributionAction::Upgrade) => upgrade_result(has_release_upgrade, has_dnf, r),
                None => r == Ok::<AnyCommand, AoError>(AnyCommand::DistroInfo(DistroInfoCommand { format: OutputFormat::Table })),
            },
    {
        match &args.action {
            Some(DistributionAction::Info { format }) => Ok(AnyCommand::DistroInfo(DistroInfoCommand { format: *format })),
            Some(DistributionAction::Upgrade) => self.upgrade(has_release_upgrade, has_dnf),
            None => Ok(AnyCommand::DistroInfo(DistroInfoCommand { format: OutputFormat::Table })),
        }
    }

    /// Upgrades the distribution with the tool that is installed, given
    /// whether files exist at `release_upgrade_path()` and `dnf_path()`.
    pub fn upgrade(&self, has_release_upgrade: bool, has_dnf: bool) -> (r: Result<AnyCommand, AoError>)
        ensures
            upgrade_result(has_release_upgrade, has_dnf, r),
    {
        if has_release_upgrade {
            Ok(AnyCommand::System(SystemCommand::new("do-release-upgrade")))
        } else if has_dnf {
            Ok(AnyCommand::System(SystemCommand::new("dnf").arg("system-upgrade").arg("reboot")))
        } else {
            Err(AoError::new(owned("Distribution upgrade tool not found")))
        }
    }
}

/// Shows the distribution's release information.
pub struct DistroInfoCommand {
    pub format: OutputFormat,
}

/// The keys of `/etc/os-release` that are read, in the order of the
/// record's fields.
pub open spec fn release_keys() -> Seq<Seq<char>> {
    seq!["NAME"@, "VERSION"@, "ID"@, "ID_LIKE"@, "PRETTY_NAME"@]
}

/// The values after reading the lines `ls` of `/etc/os-release`: each
/// field holds the value of the last `KEY=value` line with its key (lines
/// with exactly one `=`), without surrounding quotes.
pub open spec fn release_values(ls: Seq<Seq<char>>) -> Seq<Seq<char>>
    decreases ls.len(),
{
    if ls.len() == 0 {
        seq![seq![], seq![], seq![], seq![], seq![]]
    } else {
        let prev = release_values(ls.drop_last());
        let p = split_on(ls.last(), '=');
        if p.len() == 2 && release_keys().contains(p[0]) {
            prev.update(release_keys().index_of(p[0]), trim_char(p[1], '"'))
        } else {
            prev
        }
    }
}

impl DistroInfo {
    pub open spec fn values(&self) -> Seq<Seq<char>> {
        seq![self.name@, self.version@, self.id@, self.id_like@, self.pretty_name@]
    }

    /// The rows of the table: each property with its value.
    pub open spec fn rows(&self) -> Seq<(Seq<char>, Seq<char>)> {
        seq![
            ("Name"@, self.name@),
            ("Version"@, self.version@),
            ("ID"@, self.id@),
            ("ID_LIKE"@, self.id_like@),
            ("Pretty Name"@, self.pretty_name@),
        ]
    }

    /// The table rows.
    pub fn table_rows(&self) -> (r: Vec<(String, String)>)
        ensures
            r@.map_values(|p: (String, String)| (p.0@, p.1@)) == self.rows(),
    {
        let v = vec![
            (owned("Name"), self.name.clone()),
            (owned("Version"), self.version.clone()),
            (owned("ID"), self.id.clone()),
            (owned("ID_LIKE"), self.id_like.clone()),
            (owned("Pretty Name"), self.pretty_name.clone()),
        ];
        assert(v@.map_values(|p: (String, String)| (p.0@, p.1@)) =~= self.rows());
        v
    }
}

/// The position of a key among the keys that are read.
fn key_position(k: &Vec<char>) -> (r: Option<usize>)
    ensures
        match r {
            Some(i) => i < 5 && release_keys().contains(k@) && release_keys().index_of(k@) == i,
            None => !release_keys().contains(k@),
        },
{
    let s = string_of(k);
    let keys = vec!["NAME", "VERSION", "ID", "ID_LIKE", "PRETTY_NAME"];
    proof {
        reveal_strlit("NAME");
        reveal_strlit("VERSION");
        reveal_strlit("ID");
        reveal_strlit("ID_LIKE");
        reveal_strlit("PRETTY_NAME");
    }
    let ghost rk = release_keys();
    assert(forall|a: int, b: int| 0 <= a < b < 5 ==> rk[a] != rk[b]) by {
        assert(rk[0].len() != rk[1].len());
        assert(rk[0].len() != rk[2].len());
        assert(rk[0].len() != rk[3].len());
        assert(rk[0].len() != rk[4].len());
        assert(rk[1].len() != rk[2].len());
        assert(rk[1][0] != rk[3][0]);
        assert(rk[1].len() != rk[4].len());
        assert(rk[2].len() != rk[3].len());
        assert(rk[2].len() != rk[4].len());
        assert(rk[3].len() != rk[4].len());
    }
    let mut i: usize = 0;
    while i < 5
        invariant
            0 <= i <= 5,
            keys@.len() == 5,
            rk == release_keys(),
            forall|j: int| 0 <= j < 5 ==> (#[trigger] keys@[j])@ == rk[j],
            forall|j: int| 0 <= j < i ==> rk[j] != s@,
            s@ == k@,
            forall|a: int, b: int| 0 <= a < b < 5 ==> rk[a] != rk[b],
        decreases 5 - i,
    {
        if str_eq(s.as_str(), keys[i]) {
            assert(rk[i as int] == k@);
            assert(rk.contains(k@));
            let ghost idx = rk.index_of(k@);
            assert(rk[idx] == k@);
            assert(idx == i as int) by {
                if idx < i as int {
                } else if idx > i as int {
                    assert(rk[i as int] != rk[idx]);
                }
            }
            return Some(i);
        }
        i += 1;
    }
    assert(!rk.contains(k@));
    None
}

impl DistroInfoCommand {
    /// The command run for the original output.
    pub fn original(&self) -> (r: SystemCommand)
        ensures
            r.runs("cat"@, seq!["/etc/os-release"@]),
    {
        SystemCommand::new("cat").arg("/etc/os-release")
    }

    /// The release information in the contents of `/etc/os-release` (empty
    /// fields when it could not be read).
    pub fn parse(content: Option<&str>) -> (r: DistroInfo)
        ensures
            r.values() == (match content {
                Some(c) => release_values(lines(c@)),
                None => release_values(seq![]),
            }),
    {
        let mut vals: Vec<String> = vec![String::new(), String::new(), String::new(), String::new(), String::new()];
        if let Some(c) = content {
            let ls = lines_of(c);
            let mut i: usize = 0;
            assert(vals@.map_values(|s: String| s@) =~= release_values(views(ls@).take(0)));
            while i < ls.len()
                invariant
                    0 <= i <= ls.len(),
                    views(ls@) == lines(c@),
                    vals@.len() == 5,
                    vals@.map_values(|s: String| s@) == release_values(views(ls@).take(i as int)),
                decreases ls.len() - i,
            {
                let ghost prev = views(ls@).take(i as int);
                assert(views(ls@).take(i + 1).drop_last() =~= prev);
                let p = split_char(&ls[i], '=');
                if p.len() == 2 {
                    match key_position(&p[0]) {
                        Some(k) => {
                            let v = trim_matches_char(&p[1], '"');
                            let ghost old_vals = vals@.map_values(|s: String| s@);
                            vals.set(k, string_of(&v));
                            assert(vals@.map_values(|s: String| s@) =~= old_vals.update(k as int, v@));
                        },
                        None => {},
                    }
                }
                i += 1;
            }
            assert(views(ls@).take(ls.len() as int) =~= views(ls@));
        } else {
            assert(vals@.map_values(|s: String| s@) =~= release_values(seq![]));
        }
        let r = DistroInfo {
            name: vals[0].clone(),
            version: vals[1].clone(),
            id: vals[2].clone(),
            id_like: vals[3].clone(),
            pretty_name: vals[4].clone(),
        };
        assert(r.values() =~= vals@.map_values(|s: String| s@));
        r
    }
}

impl ExecutableCommand for DistroInfoCommand {
    open spec fn text(&self) -> Seq<char> {
        "distro info"@ + " --format "@ + format_name(self.format)
    }

    open spec fn structured(&self) -> bool {
        is_structured_format(self.format)
    }

    fn as_string(&self) -> (r: String) {
        let mut s = owned("distro info");
        s.append(" --format ");
        s.append(self.format.debug_name());
        s
    }

    fn is_structured(&self) -> (r: bool) {
        self.format.structured()
    }
}

} // verus!
