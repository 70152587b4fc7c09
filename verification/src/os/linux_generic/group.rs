//! Local groups.
use vstd::prelude::*;

use super::common::{SystemCommand, completing_arg, is_completing_arg, lemma_line_one, lemma_line_push, str_views};
use crate::cli::{GroupAction, GroupArgs, OutputFormat, is_structured_format};
use crate::num::{dec, dec_string};
use crate::os::{AnyCommand, AoError, Completion, ExecutableCommand, GroupInfo};
use crate::os::linux_generic::user::{trimmed_lines, trimmed_lines_of};
use crate::text::{
    filter_map, lemma_filter_map_step, lines, lines_of, owned, split_char, split_on, str_eq,
    string_of, string_views, views,
};

verus! {

/// The group domain.
pub struct StandardGroup;

impl StandardGroup {
    /// Maps a parsed `group` invocation to its command.
    pub fn execute(&self, args: &GroupArgs) -> (r: Result<AnyCommand, AoError>)
        ensures
            r matches Ok(c) && match args.action {
                Some(GroupAction::List { format }) => if format == OutputFormat::Original {
                    c matches AnyCommand::System(s) && s.runs("cat"@, seq!["/etc/group"@])
                } else {
                    c == AnyCommand::GroupList(GroupListCommand { format })
                },
                Some(GroupAction::Add { groupname }) => c matches AnyCommand::GroupAdd(g) && g.groupname@ == groupname@,
                Some(GroupAction::Delete { groupname }) => c matches AnyCommand::GroupDel(g) && g.groupname@ == groupname@,
                Some(GroupAction::Modify { groupname, gid }) =>
                    c matches AnyCommand::GroupMod(g) && g.groupname@ == groupname@ && g.gid == gid,
                None => c == AnyCommand::GroupList(GroupListCommand { format: OutputFormat::Table }),
            },
    {
        match &args.action {
            Some(GroupAction::List { format }) => self.ls(*format),
            Some(GroupAction::Add { groupname }) => self.add(groupname.as_str()),
            Some(GroupAction::Delete { groupname }) => self.del(groupname.as_str()),
            Some(GroupAction::Modify { groupname, gid }) => self.mod_group(groupname.as_str(), *gid),
            None => self.ls(OutputFormat::Table),
        }
    }

    /// What to offer while completing `words`: the groups, for the argument
    /// of `delete` and `modify`.
    pub fn complete(&self, words: &[&str]) -> (r: Completion)
        ensures
            (completing_arg(str_views(words@), seq!["ao"@, "group"@, "delete"@], 1)
                || completing_arg(str_views(words@), seq!["ao"@, "group"@, "modify"@], 1)) ==> r is Groups,
            !(completing_arg(str_views(words@), seq!["ao"@, "group"@, "delete"@], 1)
                || completing_arg(str_views(words@), seq!["ao"@, "group"@, "modify"@], 1)) ==> r is Nothing,
    {
        let del = vec!["ao", "group", "delete"];
        let modify = vec!["ao", "group", "modify"];
        assert(str_views(del@) =~= seq!["ao"@, "group"@, "delete"@]);
        assert(str_views(modify@) =~= seq!["ao"@, "group"@, "modify"@]);
        if is_completing_arg(words, del.as_slice(), 1, false) || is_completing_arg(words, modify.as_slice(), 1, false) {
            Completion::Groups
        } else {
            Completion::Nothing
        }
    }

    /// The listing of groups; the original output is `/etc/group` itself.
    pub fn ls(&self, format: OutputFormat) -> (r: Result<AnyCommand, AoError>)
        ensures
            r matches Ok(c) && if format == OutputFormat::Original {
                c matches AnyCommand::System(s) && s.runs("cat"@, seq!["/etc/group"@])
            } else {
                c == AnyCommand::GroupList(GroupListCommand { format })
            },
    {
        if matches!(format, OutputFormat::Original) {
            return Ok(AnyCommand::System(SystemCommand::new("cat").arg("/etc/group")));
        }
        Ok(AnyCommand::GroupList(GroupListCommand { format }))
    }

    pub fn add(&self, groupname: &str) -> (r: Result<AnyCommand, AoError>)
        ensures
            r matches Ok(c) && c matches AnyCommand::GroupAdd(g) && g.groupname@ == groupname@,
    {
        Ok(AnyCommand::GroupAdd(GroupAddCommand { groupname: owned(groupname) }))
    }

    pub fn del(&self, groupname: &str) -> (r: Result<AnyCommand, AoError>)
        ensures
            r matches Ok(c) && c matches AnyCommand::GroupDel(g) && g.groupname@ == groupname@,
    {
        Ok(AnyCommand::GroupDel(GroupDelCommand { groupname: owned(groupname) }))
    }

    pub fn mod_group(&self, groupname: &str, gid: u32) -> (r: Result<AnyCommand, AoError>)
        ensures
            r matches Ok(c) && c matches AnyCommand::GroupMod(g) && g.groupname@ == groupname@ && g.gid == gid,
    {
        Ok(AnyCommand::GroupMod(GroupModCommand { groupname: owned(groupname), gid }))
    }

    /// The query that lists the group names.
    pub fn groups_query() -> (r: SystemCommand)
        ensures
            r.runs("cut"@, seq!["-d:"@, "-f1"@, "/etc/group"@]),
    {
        SystemCommand::new("cut").arg("-d:").arg("-f1").arg("/etc/group")
    }

    /// The group names: the lines of the query's output, trimmed.
    pub fn get_groups(stdout: &str) -> (r: Vec<String>)
        ensures
            string_views(r@) == trimmed_lines(stdout@),
    {
        trimmed_lines_of(stdout)
    }
}

/// Lists the groups with their members.
pub struct GroupListCommand {
    pub format: OutputFormat,
}

/// The non-empty pieces of a comma-separated list.
pub open spec fn member_list(s: Seq<char>) -> Seq<Seq<char>> {
    filter_map(split_on(s, ','), |m: Seq<char>| if m.len() > 0 { Some(m) } else { None })
}

/// The record that a line of `/etc/group` gives: lines of at least four
/// `:`-separated fields.
pub open spec fn group_row(line: Seq<char>) -> Option<(Seq<char>, Seq<char>, Seq<Seq<char>>)> {
    let p = split_on(line, ':');
    if p.len() >= 4 {
        Some((p[0], p[2], member_list(p[3])))
    } else {
        None
    }
}

pub open spec fn group_rows(out: Seq<char>) -> Seq<(Seq<char>, Seq<char>, Seq<Seq<char>>)> {
    filter_map(lines(out), |l: Seq<char>| group_row(l))
}

impl GroupInfo {
    /// Name, gid and members.
    pub open spec fn record(&self) -> (Seq<char>, Seq<char>, Seq<Seq<char>>) {
        (self.name@, self.gid@, string_views(self.members@))
    }
}

pub open spec fn group_records(s: Seq<GroupInfo>) -> Seq<(Seq<char>, Seq<char>, Seq<Seq<char>>)> {
    s.map_values(|g: GroupInfo| g.record())
}

/// The non-empty pieces of a comma-separated list, as strings.
fn members_of(s: &Vec<char>) -> (r: Vec<String>)
    ensures
        string_views(r@) == member_list(s@),
{
    let parts = split_char(s, ',');
    let ghost f = |m: Seq<char>| if m.len() > 0 { Some(m) } else { None };
    let mut out: Vec<String> = Vec::new();
    let mut i: usize = 0;
    while i < parts.len()
        invariant
            0 <= i <= parts.len(),
            views(parts@) == split_on(s@, ','),
            f == (|m: Seq<char>| if m.len() > 0 { Some(m) } else { None }),
            string_views(out@) == filter_map(views(parts@).take(i as int), f),
        decreases parts.len() - i,
    {
        proof {
            lemma_filter_map_step(views(parts@), f, i as int);
        }
        if parts[i].len() > 0 {
            out.push(string_of(&parts[i]));
            assert(string_views(out@) =~= filter_map(views(parts@).take(i as int), f).push(parts@[i as int]@));
        }
        i += 1;
    }
    assert(views(parts@).take(parts.len() as int) =~= views(parts@));
    out
}

impl GroupListCommand {
    /// The command whose output is parsed.
    pub fn query(&self) -> (r: SystemCommand)
        ensures
            r.runs("cat"@, seq!["/etc/group"@]),
    {
        SystemCommand::new("cat").arg("/etc/group")
    }

    /// The groups that `/etc/group` describes, in file order.
    pub fn parse(stdout: &str) -> (r: Vec<GroupInfo>)
        ensures
            group_records(r@) == group_rows(stdout@),
    {
        let ls = lines_of(stdout);
        let ghost f = |l: Seq<char>| group_row(l);
        let mut out: Vec<GroupInfo> = Vec::new();
        let mut i: usize = 0;
        while i < ls.len()
            invariant
                0 <= i <= ls.len(),
                views(ls@) == lines(stdout@),
                f == (|l: Seq<char>| group_row(l)),
                group_records(out@) == filter_map(views(ls@).take(i as int), f),
            decreases ls.len() - i,
        {
            proof {
                lemma_filter_map_step(views(ls@), f, i as int);
            }
            let p = split_char(&ls[i], ':');
            if p.len() >= 4 {
                let g = GroupInfo { name: string_of(&p[0]), gid: string_of(&p[2]), members: members_of(&p[3]) };
                assert(g.record() == group_row(views(ls@)[i as int]).unwrap());
                out.push(g);
                assert(group_records(out@) =~= filter_map(views(ls@).take(i as int), f).push(g.record()));
            }
            i += 1;
        }
        assert(views(ls@).take(ls.len() as int) =~= views(ls@));
        out
    }

    /// Whether `user` is among the members of `g`, which the table marks.
    pub fn has_member(g: &GroupInfo, user: &str) -> (r: bool)
        ensures
            r == string_views(g.members@).contains(user@),
    {
        let mut i: usize = 0;
        while i < g.members.len()
            invariant
                0 <= i <= g.members.len(),
                forall|j: int| 0 <= j < i ==> g.members@[j]@ != user@,
            decreases g.members.len() - i,
        {
            if str_eq(g.members[i].as_str(), user) {
                assert(string_views(g.members@)[i as int] == user@);
                return true;
            }
            i += 1;
        }
        assert(!string_views(g.members@).contains(user@));
        false
    }
}

impl ExecutableCommand for GroupListCommand {
    open spec fn text(&self) -> Seq<char> {
        "cat /etc/group"@
    }

    open spec fn structured(&self) -> bool {
        is_structured_format(self.format)
    }

    fn as_string(&self) -> (r: String) {
        owned("cat /etc/group")
    }

    fn is_structured(&self) -> (r: bool) {
        self.format.structured()
    }
}

/// Creates a group.
pub struct GroupAddCommand {
    pub groupname: String,
}

/// Deletes a group.
pub struct GroupDelCommand {
    pub groupname: String,
}

/// Sets a group's id.
pub struct GroupModCommand {
    pub groupname: String,
    pub gid: u32,
}

impl GroupAddCommand {
    /// The command that is run.
    pub fn plan(&self) -> (r: SystemCommand)
        ensures
            r.runs("groupadd"@, seq!["--"@, self.groupname@]),
            r.text() == self.text(),
    {
        proof {
            lemma_line_one("groupadd"@, "--"@);
            lemma_line_push("groupadd"@, seq!["--"@], self.groupname@);
            assert(seq!["--"@].push(self.groupname@) =~= seq!["--"@, self.groupname@]);
            reveal_strlit("groupadd");
            reveal_strlit("--");
            reveal_strlit(" ");
            reveal_strlit("groupadd -- ");
            assert("groupadd"@ + " "@ + "--"@ + " "@ =~= "groupadd -- "@);
        }
        SystemCommand::new("groupadd").arg("--").arg(self.groupname.as_str())
    }
}

impl ExecutableCommand for GroupAddCommand {
    open spec fn text(&self) -> Seq<char> {
        "groupadd -- "@ + self.groupname@
    }

    open spec fn structured(&self) -> bool {
        false
    }

    fn as_string(&self) -> (r: String) {
        let mut s = owned("groupadd -- ");
        s.append(self.groupname.as_str());
        s
    }

    fn is_structured(&self) -> (r: bool) {
        false
    }
}

impl GroupDelCommand {
    /// The command that is run.
    pub fn plan(&self) -> (r: SystemCommand)
        ensures
            r.runs("groupdel"@, seq!["--"@, self.groupname@]),
            r.text() == self.text(),
    {
        proof {
            lemma_line_one("groupdel"@, "--"@);
            lemma_line_push("groupdel"@, seq!["--"@], self.groupname@);
            assert(seq!["--"@].push(self.groupname@) =~= seq!["--"@, self.groupname@]);
            reveal_strlit("groupdel");
            reveal_strlit("--");
            reveal_strlit(" ");
            reveal_strlit("groupdel -- ");
            assert("groupdel"@ + " "@ + "--"@ + " "@ =~= "groupdel -- "@);
        }
        SystemCommand::new("groupdel").arg("--").arg(self.groupname.as_str())
    }
}

impl ExecutableCommand for GroupDelCommand {
    open spec fn text(&self) -> Seq<char> {
        "groupdel -- "@ + self.groupname@
    }

    open spec fn structured(&self) -> bool {
        false
    }

    fn as_string(&self) -> (r: String) {
        let mut s = owned("groupdel -- ");
        s.append(self.groupname.as_str());
        s
    }

    fn is_structured(&self) -> (r: bool) {
        false
    }
}

impl GroupModCommand {
    /// The command that is run.
    pub fn plan(&self) -> (r: SystemCommand)
        ensures
            r.runs("groupmod"@, seq!["--gid"@, dec(self.gid as nat), "--"@, self.groupname@]),
            r.text() == self.text(),
    {
        proof {
            let g = dec(self.gid as nat);
            lemma_line_one("groupmod"@, "--gid"@);
            lemma_line_push("groupmod"@, seq!["--gid"@], g);
            lemma_line_push("groupmod"@, seq!["--gid"@, g], "--"@);
            lemma_line_push("groupmod"@, seq!["--gid"@, g, "--"@], self.groupname@);
            assert(seq!["--gid"@].push(g) =~= seq!["--gid"@, g]);
            assert(seq!["--gid"@, g].push("--"@) =~= seq!["--gid"@, g, "--"@]);
            assert(seq!["--gid"@, g, "--"@].push(self.groupname@) =~= seq!["--gid"@, g, "--"@, self.groupname@]);
            reveal_strlit("groupmod");
            reveal_strlit("--gid");
            reveal_strlit("--");
            reveal_strlit(" ");
            reveal_strlit("groupmod --gid ");
            reveal_strlit(" -- ");
            assert("groupmod"@ + " "@ + "--gid"@ + " "@ =~= "groupmod --gid "@);
            assert(" "@ + "--"@ + " "@ =~= " -- "@);
        }
        let g = dec_string(self.gid as u64);
        SystemCommand::new("groupmod").arg("--gid").arg(g.as_str()).arg("--").arg(self.groupname.as_str())
    }
}

impl ExecutableCommand for GroupModCommand {
    open spec fn text(&self) -> Seq<char> {
        "groupmod --gid "@ + dec(self.gid as nat) + " -- "@ + self.groupname@
    }

    open spec fn structured(&self) -> bool {
        false
    }

    fn as_string(&self) -> (r: String) {
        let mut s = owned("groupmod --gid ");
        let g = dec_string(self.gid as u64);
        s.append(g.as_str());
        s.append(" -- ");
        s.append(self.groupname.as_str());
        s
    }

    fn is_structured(&self) -> (r: bool) {
        false
    }
}

} // verus!
