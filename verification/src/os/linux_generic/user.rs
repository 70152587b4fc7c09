//! Local users: listing, creation, deletion, changes, passwords and login
//! sessions.
use vstd::prelude::*;

use super::common::{
    SystemCommand, completing_arg, is_completing_arg, lemma_line_five, lemma_line_four, lemma_line_three,
    lemma_line_two, lemma_shown_push, opt_view, shown_line, str_views, command_line,
};
use crate::cli::{OutputFormat, UserAction, UserArgs, is_structured_format};
use crate::num::{dec, dec_string, parse_u32, parse_uint};
use crate::os::{AnyCommand, AoError, Completion, ExecutableCommand, UserInfo, UserSessionInfo};
use crate::sort::{num_lt, reorder, sort_by_number, stable_order};
use crate::text::{
    contains, contains_char, contains_pat, occurs_at, fields, filter_map, find, find_pat, has_prefix,
    join, lemma_filter_map_step, lines, lines_of, owned, slice_chars, split_char, split_on,
    split_whitespace, starts_with, str_eq, string_of, string_views, trim, trim_matches_pair,
    trim_pair, trim_ws, views, chars_of,
};

verus! {

/// The user domain.
pub struct StandardUser;

/// The changes that `user modify` knows.
pub open spec fn modify_actions() -> Seq<Seq<char>> {
    seq!["add-group"@, "del-group"@, "shell"@, "home"@]
}

/// The changes are four different words.
proof fn lemma_modify_actions_distinct()
    ensures
        "add-group"@ != "del-group"@,
        "add-group"@ != "shell"@,
        "add-group"@ != "home"@,
        "del-group"@ != "shell"@,
        "del-group"@ != "home"@,
        "shell"@ != "home"@,
        modify_actions()[0] == "add-group"@,
        modify_actions()[1] == "del-group"@,
        modify_actions()[2] == "shell"@,
        modify_actions()[3] == "home"@,
        modify_actions().len() == 4,
{
    reveal_strlit("add-group");
    reveal_strlit("del-group");
    reveal_strlit("shell");
    reveal_strlit("home");
    assert("add-group"@[0] != "del-group"@[0]);
    assert("shell"@.len() != "home"@.len());
}

/// What completion offers for `user` words.
pub open spec fn user_completion(w: Seq<Seq<char>>) -> int {
    if completing_arg(w, seq!["ao"@, "user"@, "delete"@], 1)
        || completing_arg(w, seq!["ao"@, "user"@, "modify"@], 1)
        || completing_arg(w, seq!["ao"@, "user"@, "passwd"@], 1) {
        1
    } else if completing_arg(w, seq!["ao"@, "user"@, "modify"@], 2) {
        2
    } else if completing_arg(w, seq!["ao"@, "user"@, "modify"@], 3) {
        let action = w[w.len() - 2];
        if action == "add-group"@ || action == "del-group"@ {
            3
        } else if action == "shell"@ {
            4
        } else {
            0
        }
    } else {
        0
    }
}

/// The lines of an output, each trimmed.
pub open spec fn trimmed_lines(out: Seq<char>) -> Seq<Seq<char>> {
    lines(out).map_values(|l: Seq<char>| trim(l))
}

/// The lines of `stdout`, each trimmed.
pub fn trimmed_lines_of(stdout: &str) -> (r: Vec<String>)
    ensures
        string_views(r@) == trimmed_lines(stdout@),
{
    let ls = lines_of(stdout);
    let mut out: Vec<String> = Vec::new();
    let mut i: usize = 0;
    while i < ls.len()
        invariant
            0 <= i <= ls.len(),
            views(ls@) == lines(stdout@),
            out@.len() == i,
            forall|j: int| 0 <= j < i ==> out@[j]@ == trim(ls@[j]@),
        decreases ls.len() - i,
    {
        let t = trim_ws(&ls[i]);
        out.push(string_of(&t));
        i += 1;
    }
    assert(string_views(out@) =~= trimmed_lines(stdout@));
    out
}

/// The login shells listed in `/etc/shells`: lines that are neither empty
/// nor comments, trimmed.
pub open spec fn shell_lines(out: Seq<char>) -> Seq<Seq<char>> {
    filter_map(lines(out), |l: Seq<char>| if l.len() > 0 && l[0] != '#' { Some(trim(l)) } else { None })
}

impl StandardUser {
    /// Maps a parsed `user` invocation to its command.
    pub fn execute(&self, args: &UserArgs) -> (r: Result<AnyCommand, AoError>)
        ensures
            r matches Ok(c) && match args.action {
                Some(UserAction::List { all, groups, format }) =>
                    if format == OutputFormat::Original {
                        c matches AnyCommand::System(s) && s.runs("cat"@, seq!["/etc/passwd"@])
                    } else {
                        c == AnyCommand::UserList(UserListCommand { all, groups, format })
                    },
                Some(UserAction::Add { username, name, email, groups, shell, system, no_create_home }) =>
                    c matches AnyCommand::UserAdd(a) && a.username@ == username@ && a.name == name && a.email == email
                        && a.groups == groups && a.shell == shell && a.system == system && a.no_create_home == no_create_home,
                Some(UserAction::Delete { username, purge }) =>
                    c matches AnyCommand::UserDel(d) && d.username@ == username@ && d.purge == purge,
                Some(UserAction::Modify { username, action, value }) =>
                    c matches AnyCommand::UserMod(m) && m.username@ == username@ && m.action@ == action@ && m.value@ == value@,
                Some(UserAction::Passwd { username }) =>
                    c matches AnyCommand::Passwd(p) && p.username@ == username@,
                Some(UserAction::Session { username, all, n, format }) =>
                    c matches AnyCommand::UserSession(s) && s.username == username && s.all == all && s.n == n && s.format == format,
                None => c == AnyCommand::UserList(UserListCommand { all: false, groups: false, format: OutputFormat::Table }),
            },
    {
        match &args.action {
            Some(UserAction::List { all, groups, format }) => self.list(*all, *groups, *format),
            Some(UserAction::Add { username, name, email, groups, shell, system, no_create_home }) => {
                Ok(AnyCommand::UserAdd(UserAddCommand {
                    username: username.clone(),
                    name: name.clone(),
                    email: email.clone(),
                    groups: groups.clone(),
                    shell: shell.clone(),
                    system: *system,
                    no_create_home: *no_create_home,
                }))
            },
            Some(UserAction::Delete { username, purge }) => self.delete(username.as_str(), *purge),
            Some(UserAction::Modify { username, action, value }) => self.modify_user(
                username.as_str(),
                action.as_str(),
                value.as_str(),
            ),
            Some(UserAction::Passwd { username }) => self.passwd(username.as_str()),
            Some(UserAction::Session { username, all, n, format }) => Ok(
                AnyCommand::UserSession(UserSessionCommand { username: username.clone(), all: *all, n: *n, format: *format }),
            ),
            None => self.list(false, false, OutputFormat::Table),
        }
    }

    /// What to offer while completing `words`: users for the first argument
    /// of `delete`, `modify` and `passwd`; the changes for the second of
    /// `modify`; groups or shells for its third, by the change named.
    pub fn complete(&self, words: &[&str]) -> (r: Completion)
        ensures
            user_completion(str_views(words@)) == 1 ==> r is Users,
            user_completion(str_views(words@)) == 2 ==> (r matches Completion::Words(v) && string_views(v@) == modify_actions()),
            user_completion(str_views(words@)) == 3 ==> r is Groups,
            user_completion(str_views(words@)) == 4 ==> r is Shells,
            user_completion(str_views(words@)) == 0 ==> r is Nothing,
    {
        let ghost w = str_views(words@);
        let del = vec!["ao", "user", "delete"];
        let modify = vec!["ao", "user", "modify"];
        let pass = vec!["ao", "user", "passwd"];
        assert(str_views(del@) =~= seq!["ao"@, "user"@, "delete"@]);
        assert(str_views(modify@) =~= seq!["ao"@, "user"@, "modify"@]);
        assert(str_views(pass@) =~= seq!["ao"@, "user"@, "passwd"@]);
        if is_completing_arg(words, del.as_slice(), 1, false) || is_completing_arg(words, modify.as_slice(), 1, false)
            || is_completing_arg(words, pass.as_slice(), 1, false) {
            return Completion::Users;
        }
        if is_completing_arg(words, modify.as_slice(), 2, false) {
            let v = vec![owned("add-group"), owned("del-group"), owned("shell"), owned("home")];
            assert(string_views(v@) =~= modify_actions());
            return Completion::Words(v);
        }
        if is_completing_arg(words, modify.as_slice(), 3, false) {
            let action = words[words.len() - 2];
            assert(action@ == w[w.len() - 2]);
            if str_eq(action, "add-group") || str_eq(action, "del-group") {
                return Completion::Groups;
            } else if str_eq(action, "shell") {
                return Completion::Shells;
            }
        }
        Completion::Nothing
    }

    /// The query that lists the user names.
    pub fn users_query() -> (r: SystemCommand)
        ensures
            r.runs("cut"@, seq!["-d:"@, "-f1"@, "/etc/passwd"@]),
    {
        SystemCommand::new("cut").arg("-d:").arg("-f1").arg("/etc/passwd")
    }

    /// The user names: the lines of the query's output.
    pub fn get_users(stdout: &str) -> (r: Vec<String>)
        ensures
            string_views(r@) == lines(stdout@),
    {
        let ls = lines_of(stdout);
        let mut out: Vec<String> = Vec::new();
        let mut i: usize = 0;
        while i < ls.len()
            invariant
                0 <= i <= ls.len(),
                views(ls@) == lines(stdout@),
                out@.len() == i,
                forall|j: int| 0 <= j < i ==> out@[j]@ == ls@[j]@,
            decreases ls.len() - i,
        {
            out.push(string_of(&ls[i]));
            i += 1;
        }
        assert(string_views(out@) =~= lines(stdout@));
        out
    }

    /// The query that reads the list of login shells.
    pub fn shells_query() -> (r: SystemCommand)
        ensures
            r.runs("cat"@, seq!["/etc/shells"@]),
    {
        SystemCommand::new("cat").arg("/etc/shells")
    }

    /// The login shells in the contents of `/etc/shells`.
    pub fn get_shells(stdout: &str) -> (r: Vec<String>)
        ensures
            string_views(r@) == shell_lines(stdout@),
    {
        let ls = lines_of(stdout);
        let ghost f = |l: Seq<char>| if l.len() > 0 && l[0] != '#' { Some(trim(l)) } else { None };
        let mut out: Vec<String> = Vec::new();
        let mut i: usize = 0;
        while i < ls.len()
            invariant
                0 <= i <= ls.len(),
                views(ls@) == lines(stdout@),
                f == (|l: Seq<char>| if l.len() > 0 && l[0] != '#' { Some(trim(l)) } else { None }),
                string_views(out@) == filter_map(views(ls@).take(i as int), f),
            decreases ls.len() - i,
        {
            proof {
                lemma_filter_map_step(views(ls@), f, i as int);
            }
            if ls[i].len() > 0 && ls[i][0] != '#' {
                let t = trim_ws(&ls[i]);
                out.push(string_of(&t));
                assert(string_views(out@) =~= filter_map(views(ls@).take(i as int), f).push(t@));
            }
            i += 1;
        }
        assert(views(ls@).take(ls.len() as int) =~= views(ls@));
        out
    }

    /// The listing of users; the original output is `/etc/passwd` itself.
    pub fn list(&self, all: bool, groups: bool, format: OutputFormat) -> (r: Result<AnyCommand, AoError>)
        ensures
            r matches Ok(c) && if format == OutputFormat::Original {
                c matches AnyCommand::System(s) && s.runs("cat"@, seq!["/etc/passwd"@])
            } else {
                c == AnyCommand::UserList(UserListCommand { all, groups, format })
            },
    {
        if matches!(format, OutputFormat::Original) {
            return Ok(AnyCommand::System(SystemCommand::new("cat").arg("/etc/passwd")));
        }
        Ok(AnyCommand::UserList(UserListCommand { all, groups, format }))
    }

    pub fn delete(&self, username: &str, purge: bool) -> (r: Result<AnyCommand, AoError>)
        ensures
            r matches Ok(c) && c matches AnyCommand::UserDel(d) && d.username@ == username@ && d.purge == purge,
    {
        Ok(AnyCommand::UserDel(UserDelCommand { username: owned(username), purge }))
    }

    pub fn modify_user(&self, username: &str, action: &str, value: &str) -> (r: Result<AnyCommand, AoError>)
        ensures
            r matches Ok(c) && c matches AnyCommand::UserMod(m) && m.username@ == username@ && m.action@ == action@
                && m.value@ == value@,
    {
        Ok(AnyCommand::UserMod(UserModCommand { username: owned(username), action: owned(action), value: owned(value) }))
    }

    pub fn passwd(&self, username: &str) -> (r: Result<AnyCommand, AoError>)
        ensures
            r matches Ok(c) && c matches AnyCommand::Passwd(p) && p.username@ == username@,
    {
        Ok(AnyCommand::Passwd(PasswdCommand { username: owned(username) }))
    }
}

// ---------------------------------------------------------------------------
// Listing
// ---------------------------------------------------------------------------

/// Lists the users, regular accounts first, each kind by user id.
pub struct UserListCommand {
    pub all: bool,
    pub groups: bool,
    pub format: OutputFormat,
}

/// The user id that a field holds, 0 where it is no `u32`.
pub open spec fn uid_value(s: Seq<char>) -> nat {
    match parse_uint(s, u32::MAX as nat) {
        Some(v) => v,
        None => 0,
    }
}

/// Root and ids from 1000 up are regular users; the others are system users.
pub open spec fn is_regular_uid(uid: nat) -> bool {
    uid == 0 || uid >= 1000
}

pub open spec fn user_kind(uid: nat) -> Seq<char> {
    if is_regular_uid(uid) {
        "Regular"@
    } else {
        "System"@
    }
}

impl UserInfo {
    /// The fields as they are shown: username, uid, gid, home, shell and
    /// kind.
    pub open spec fn cells(&self) -> Seq<Seq<char>> {
        seq![self.username@, self.uid@, self.gid@, self.home@, self.shell@, self.user_type@]
    }
}

/// The record that a line of `/etc/passwd` gives: lines of at least seven
/// `:`-separated fields.
pub open spec fn user_row(line: Seq<char>) -> Option<Seq<Seq<char>>> {
    let p = split_on(line, ':');
    if p.len() >= 7 {
        Some(seq![p[0], p[2], p[3], p[5], p[6], user_kind(uid_value(p[2]))])
    } else {
        None
    }
}

/// The user that a line of `/etc/passwd` describes follows passwd(5): of
/// its `:`-separated fields the first is the name, the third the user id,
/// the fourth the group id, the sixth the home directory and the seventh
/// the login shell; a line with fewer than seven fields describes no user.
pub proof fn lemma_passwd_fields(line: Seq<char>, u: UserInfo)
    ensures
        user_row(line) is Some <==> split_on(line, ':').len() >= 7,
        user_row(line) == Some(u.cells()) ==> {
            let p = split_on(line, ':');
            &&& u.username@ == p[0]
            &&& u.uid@ == p[2]
            &&& u.gid@ == p[3]
            &&& u.home@ == p[5]
            &&& u.shell@ == p[6]
            &&& u.user_type@ == user_kind(uid_value(p[2]))
        },
{
    if user_row(line) == Some(u.cells()) {
        let c = u.cells();
        assert(c[0] == u.username@ && c[1] == u.uid@ && c[2] == u.gid@);
        assert(c[3] == u.home@ && c[4] == u.shell@ && c[5] == u.user_type@);
    }
}

pub open spec fn user_rows(out: Seq<char>) -> Seq<Seq<Seq<char>>> {
    filter_map(lines(out), |l: Seq<char>| user_row(l))
}

pub open spec fn user_cells(s: Seq<UserInfo>) -> Seq<Seq<Seq<char>>> {
    s.map_values(|u: UserInfo| u.cells())
}

/// The key by which users are ordered: regular users before system users,
/// then by numeric user id.
pub open spec fn user_key(row: Seq<Seq<char>>) -> u64 {
    let uid = uid_value(row[1]);
    ((if is_regular_uid(uid) { 0nat } else { 1nat }) * 0x1_0000_0000 + uid) as u64
}

impl UserListCommand {
    /// The command whose output is parsed.
    pub fn query(&self) -> (r: SystemCommand)
        ensures
            r.runs("cat"@, seq!["/etc/passwd"@]),
    {
        SystemCommand::new("cat").arg("/etc/passwd")
    }

    /// The users that `/etc/passwd` describes, in file order.
    pub fn parse(stdout: &str) -> (r: Vec<UserInfo>)
        ensures
            user_cells(r@) == user_rows(stdout@),
            forall|i: int| 0 <= i < r@.len() ==> (#[trigger] r@[i]).groups@.len() == 0,
    {
        let ls = lines_of(stdout);
        let ghost f = |l: Seq<char>| user_row(l);
        let mut out: Vec<UserInfo> = Vec::new();
        let mut i: usize = 0;
        while i < ls.len()
            invariant
                0 <= i <= ls.len(),
                views(ls@) == lines(stdout@),
                f == (|l: Seq<char>| user_row(l)),
                user_cells(out@) == filter_map(views(ls@).take(i as int), f),
                forall|j: int| 0 <= j < out@.len() ==> (#[trigger] out@[j]).groups@.len() == 0,
            decreases ls.len() - i,
        {
            proof {
                lemma_filter_map_step(views(ls@), f, i as int);
            }
            let p = split_char(&ls[i], ':');
            if p.len() >= 7 {
                let uid = match parse_u32(&p[2]) {
                    Some(v) => v,
                    None => 0,
                };
                assert(uid as nat == uid_value(p@[2]@));
                let kind = if uid == 0 || uid >= 1000 {
                    owned("Regular")
                } else {
                    owned("System")
                };
                let info = UserInfo {
                    username: string_of(&p[0]),
                    uid: string_of(&p[2]),
                    gid: string_of(&p[3]),
                    home: string_of(&p[5]),
                    shell: string_of(&p[6]),
                    groups: Vec::new(),
                    user_type: kind,
                };
                assert(info.cells() =~= user_row(views(ls@)[i as int]).unwrap());
                out.push(info);
                assert(user_cells(out@) =~= filter_map(views(ls@).take(i as int), f).push(info.cells()));
            }
            i += 1;
        }
        assert(views(ls@).take(ls.len() as int) =~= views(ls@));
        out
    }

    /// The users that `/etc/passwd` describes, regular users first and each
    /// kind by numeric user id; users that compare equal keep their order.
    pub fn users(stdout: &str) -> (r: Vec<UserInfo>)
        ensures
            exists|p: Seq<int>|
                stable_order(user_rows(stdout@).map_values(|row: Seq<Seq<char>>| user_key(row)), p, |a: u64, b: u64| num_lt(a, b))
                    && user_cells(r@) == reorder(user_rows(stdout@), p),
    {
        let users = Self::parse(stdout);
        let ghost rows = user_rows(stdout@);
        let mut keys: Vec<u64> = Vec::new();
        let mut i: usize = 0;
        while i < users.len()
            invariant
                0 <= i <= users.len(),
                user_cells(users@) == rows,
                keys@.len() == i,
                forall|j: int| 0 <= j < i ==> keys@[j] == user_key(#[trigger] rows[j]),
            decreases users.len() - i,
        {
            let u = &users[i];
            let c = chars_of(u.uid.as_str());
            let uid: u64 = match parse_u32(&c) {
                Some(v) => v as u64,
                None => 0,
            };
            assert(users@[i as int].cells() == rows[i as int]);
            let rank: u64 = if uid == 0 || uid >= 1000 {
                0
            } else {
                1
            };
            keys.push(rank * 0x1_0000_0000 + uid);
            i += 1;
        }
        let ghost ks = rows.map_values(|row: Seq<Seq<char>>| user_key(row));
        assert(keys@ =~= ks);
        let sorted = sort_by_number(users, &keys);
        proof {
            let p = choose|p: Seq<int>| stable_order(keys@, p, |a: u64, b: u64| num_lt(a, b)) && sorted@ == reorder(users@, p);
            assert(user_cells(sorted@) =~= reorder(rows, p));
        }
        sorted
    }
}

impl ExecutableCommand for UserListCommand {
    open spec fn text(&self) -> Seq<char> {
        "cat /etc/passwd"@
    }

    open spec fn structured(&self) -> bool {
        is_structured_format(self.format)
    }

    fn as_string(&self) -> (r: String) {
        owned("cat /etc/passwd")
    }

    fn is_structured(&self) -> (r: bool) {
        self.format.structured()
    }
}

// ---------------------------------------------------------------------------
// Creation and deletion
// ---------------------------------------------------------------------------

/// Creates a user.
pub struct UserAddCommand {
    pub username: String,
    pub name: Option<String>,
    pub email: Option<String>,
    pub groups: Option<String>,
    pub shell: Option<String>,
    pub system: bool,
    pub no_create_home: bool,
}

/// The parts of the comment field: the full name, then the address in
/// angle brackets.
pub open spec fn comment_parts(name: Option<String>, email: Option<String>) -> Seq<Seq<char>> {
    let a: Seq<Seq<char>> = match name {
        Some(n) => seq![n@],
        None => seq![],
    };
    match email {
        Some(e) => a.push("<"@ + e@ + ">"@),
        None => a,
    }
}

/// `prefix` and the value, when there is one.
pub open spec fn opt_text(o: Option<String>, prefix: Seq<char>) -> Seq<char> {
    match o {
        Some(s) => prefix + s@,
        None => seq![],
    }
}

/// The flag and the value, when there is one.
pub open spec fn opt_args(o: Option<String>, flag: Seq<char>) -> Seq<Seq<char>> {
    match o {
        Some(s) => seq![flag, s@],
        None => seq![],
    }
}

impl UserAddCommand {
    pub open spec fn comment(&self) -> Seq<Seq<char>> {
        comment_parts(self.name, self.email)
    }

    /// `useradd` with its flags.
    pub open spec fn flags_text(&self) -> Seq<char> {
        "useradd"@ + (if !self.no_create_home { " -m"@ } else { seq![] }) + (if self.system {
            " --system"@
        } else {
            seq![]
        })
    }

    /// The comment option, quoted, when there is a comment.
    pub open spec fn comment_text(&self) -> Seq<char> {
        if self.comment().len() > 0 {
            " -c \""@ + join(self.comment(), " "@) + "\""@
        } else {
            seq![]
        }
    }

    /// The arguments of `useradd`.
    pub open spec fn argv(&self) -> Seq<Seq<char>> {
        (if !self.no_create_home { seq!["-m"@] } else { seq![] })
            + (if self.system { seq!["--system"@] } else { seq![] })
            + opt_args(self.shell, "--shell"@)
            + opt_args(self.groups, "--groups"@)
            + (if self.comment().len() > 0 { seq!["-c"@, join(self.comment(), " "@)] } else { seq![] })
            + seq!["--"@, self.username@]
    }

    /// The leading flags: `-m` unless no home is made, `--system` for a
    /// system account.
    pub open spec fn flag_args(&self) -> Seq<Seq<char>> {
        (if !self.no_create_home { seq!["-m"@] } else { seq![] }) + (if self.system {
            seq!["--system"@]
        } else {
            seq![]
        })
    }

    /// The comment option with the comment in double quotes, when there is
    /// a comment.
    pub open spec fn quoted_comment(&self) -> Seq<Seq<char>> {
        if self.comment().len() > 0 {
            seq!["-c"@, "\""@ + join(self.comment(), " "@) + "\""@]
        } else {
            seq![]
        }
    }

    /// The arguments as the shown text writes them: the comment in double
    /// quotes.
    pub open spec fn shown_argv(&self) -> Seq<Seq<char>> {
        self.flag_args() + opt_args(self.shell, "--shell"@) + opt_args(self.groups, "--groups"@)
            + self.quoted_comment() + seq!["--"@, self.username@]
    }

    /// The comment parts, as strings.
    fn comment_strings(&self) -> (r: Vec<String>)
        ensures
            string_views(r@) == self.comment(),
    {
        let mut comment: Vec<String> = Vec::new();
        if let Some(n) = &self.name {
            comment.push(n.clone());
        }
        if let Some(e) = &self.email {
            let mut s = owned("<");
            s.append(e.as_str());
            s.append(">");
            comment.push(s);
        }
        assert(string_views(comment@) =~= self.comment());
        comment
    }

    /// The command that is run.
    pub fn plan(&self) -> (r: SystemCommand)
        ensures
            r.runs("useradd"@, self.argv()),
            self.comment().len() == 0 ==> r.text() == self.text(),
    {
        let cmd = self.build();
        proof {
            lemma_user_add_shown(*self);
        }
        cmd
    }

    /// Builds the `useradd` command.
    fn build(&self) -> (r: SystemCommand)
        ensures
            r.runs("useradd"@, self.argv()),
    {
        let mut cmd = SystemCommand::new("useradd");
        if !self.no_create_home {
            cmd = cmd.arg("-m");
        }
        if self.system {
            cmd = cmd.arg("--system");
        }
        if let Some(s) = &self.shell {
            cmd = cmd.arg("--shell").arg(s.as_str());
        }
        if let Some(g) = &self.groups {
            cmd = cmd.arg("--groups").arg(g.as_str());
        }
        let comment = self.comment_strings();
        if comment.len() > 0 {
            let joined = crate::text::join_strings(&comment, " ");
            cmd = cmd.arg("-c").arg(joined.as_str());
        }
        cmd = cmd.arg("--").arg(self.username.as_str());
        proof {
            reveal_strlit(" ");
        }
        cmd
    }
}

/// The shown text after an optional flag and value.
proof fn lemma_shown_opt(b: Seq<char>, a: Seq<Seq<char>>, o: Option<String>, flag: Seq<char>)
    ensures
        shown_line(b, a + opt_args(o, flag)) == shown_line(b, a) + opt_text(o, " "@ + flag + " "@),
{
    match o {
        Some(v) => {
            lemma_shown_push(b, a, flag);
            lemma_shown_push(b, a.push(flag), v@);
            assert(a + opt_args(o, flag) =~= a.push(flag).push(v@));
            assert(shown_line(b, a) + " "@ + flag + " "@ + v@ =~= shown_line(b, a) + opt_text(o, " "@ + flag + " "@));
        },
        None => {
            assert(a + opt_args(o, flag) =~= a);
            assert(shown_line(b, a) + opt_text(o, " "@ + flag + " "@) =~= shown_line(b, a));
        },
    }
}

/// The shown text of `useradd` with its leading flags.
proof fn lemma_shown_flags(c: UserAddCommand)
    ensures
        shown_line("useradd"@, c.flag_args()) == c.flags_text(),
{
    reveal_strlit(" -m");
    reveal_strlit("-m");
    reveal_strlit(" --system");
    reveal_strlit("--system");
    reveal_strlit(" ");
    let b = "useradd"@;
    let e: Seq<Seq<char>> = seq![];
    let m: Seq<Seq<char>> = if !c.no_create_home { seq!["-m"@] } else { seq![] };
    if !c.no_create_home {
        lemma_shown_push(b, e, "-m"@);
        assert(e.push("-m"@) =~= m);
    }
    assert(shown_line(b, m) =~= b + (if !c.no_create_home { " -m"@ } else { seq![] }));
    if c.system {
        lemma_shown_push(b, m, "--system"@);
        assert(m.push("--system"@) =~= c.flag_args());
    } else {
        assert(c.flag_args() =~= m);
    }
}

/// The shown text after the quoted comment, when there is one.
proof fn lemma_shown_comment(b: Seq<char>, a: Seq<Seq<char>>, c: UserAddCommand)
    ensures
        shown_line(b, a + c.quoted_comment()) == shown_line(b, a) + c.comment_text(),
{
    reveal_strlit(" -c \"");
    reveal_strlit("-c");
    reveal_strlit("\"");
    reveal_strlit(" ");
    let q = "\""@ + join(c.comment(), " "@) + "\""@;
    if c.comment().len() > 0 {
        lemma_shown_push(b, a, "-c"@);
        lemma_shown_push(b, a.push("-c"@), q);
        assert(a.push("-c"@).push(q) =~= a + c.quoted_comment());
        assert(shown_line(b, a) + " "@ + "-c"@ + " "@ + q =~= shown_line(b, a) + c.comment_text());
    } else {
        assert(a + c.quoted_comment() =~= a);
        assert(shown_line(b, a) + c.comment_text() =~= shown_line(b, a));
    }
}

/// The text of a command whose arguments end with `--` and a name.
proof fn lemma_shown_tail(b: Seq<char>, a: Seq<Seq<char>>, u: Seq<char>)
    ensures
        command_line(b, a + seq!["--"@, u]) == shown_line(b, a) + " -- "@ + u,
{
    reveal_strlit(" -- ");
    reveal_strlit("--");
    reveal_strlit(" ");
    lemma_shown_push(b, a, "--"@);
    lemma_shown_push(b, a.push("--"@), u);
    assert(a.push("--"@).push(u) =~= a + seq!["--"@, u]);
    assert(shown_line(b, a) + " "@ + "--"@ + " "@ + u =~= shown_line(b, a) + " -- "@ + u);
}

/// What is shown for `user add` is the text of the `useradd` command that
/// runs, with the comment in double quotes; without a name and an address
/// it is that text exactly.
pub proof fn lemma_user_add_shown(c: UserAddCommand)
    ensures
        command_line("useradd"@, c.shown_argv()) == c.text(),
        c.comment().len() == 0 ==> c.shown_argv() == c.argv() && command_line("useradd"@, c.argv()) == c.text(),
{
    let b = "useradd"@;
    lemma_shown_flags(c);
    let a2 = c.flag_args();
    let a3 = a2 + opt_args(c.shell, "--shell"@);
    lemma_shown_opt(b, a2, c.shell, "--shell"@);
    assert(" "@ + "--shell"@ + " "@ == " --shell "@) by {
        reveal_strlit(" --shell ");
        reveal_strlit("--shell");
        reveal_strlit(" ");
        assert(" "@ + "--shell"@ + " "@ =~= " --shell "@);
    }
    let a4 = a3 + opt_args(c.groups, "--groups"@);
    lemma_shown_opt(b, a3, c.groups, "--groups"@);
    assert(" "@ + "--groups"@ + " "@ == " --groups "@) by {
        reveal_strlit(" --groups ");
        reveal_strlit("--groups");
        reveal_strlit(" ");
        assert(" "@ + "--groups"@ + " "@ =~= " --groups "@);
    }
    let a5 = a4 + c.quoted_comment();
    lemma_shown_comment(b, a4, c);
    lemma_shown_tail(b, a5, c.username@);
    assert(a5 + seq!["--"@, c.username@] =~= c.shown_argv());
    assert(c.flags_text() + opt_text(c.shell, " --shell "@) + opt_text(c.groups, " --groups "@) + c.comment_text()
        + " -- "@ + c.username@ =~= c.text());
    if c.comment().len() == 0 {
        assert(c.shown_argv() =~= c.argv());
    }
}

/// Appends `prefix` and the value, when there is one.
fn push_opt(s: &mut String, o: &Option<String>, prefix: &str)
    ensures
        final(s)@ == old(s)@ + opt_text(*o, prefix@),
{
    if let Some(v) = o {
        s.append(prefix);
        s.append(v.as_str());
    } else {
        assert(old(s)@ + opt_text(*o, prefix@) =~= old(s)@);
    }
}

impl UserAddCommand {
    /// The quoted comment option, when there is a comment.
    fn comment_piece(&self) -> (r: String)
        ensures
            r@ == self.comment_text(),
    {
        let comment = self.comment_strings();
        if comment.len() > 0 {
            let mut s = owned(" -c \"");
            let joined = crate::text::join_strings(&comment, " ");
            s.append(joined.as_str());
            s.append("\"");
            s
        } else {
            String::new()
        }
    }
}

impl ExecutableCommand for UserAddCommand {
    open spec fn text(&self) -> Seq<char> {
        self.flags_text() + opt_text(self.shell, " --shell "@) + opt_text(self.groups, " --groups "@)
            + self.comment_text() + " -- "@ + self.username@
    }

    open spec fn structured(&self) -> bool {
        false
    }

    fn as_string(&self) -> (r: String) {
        let mut s = owned("useradd");
        if !self.no_create_home {
            s.append(" -m");
        }
        if self.system {
            s.append(" --system");
        }
        assert(s@ =~= self.flags_text());
        push_opt(&mut s, &self.shell, " --shell ");
        push_opt(&mut s, &self.groups, " --groups ");
        let c = self.comment_piece();
        s.append(c.as_str());
        s.append(" -- ");
        s.append(self.username.as_str());
        s
    }

    fn is_structured(&self) -> (r: bool) {
        false
    }
}

/// Deletes a user, and with `purge` its home directory too.
pub struct UserDelCommand {
    pub username: String,
    pub purge: bool,
}

impl UserDelCommand {
    /// The command that is run; its text is the text shown.
    pub fn plan(&self) -> (r: SystemCommand)
        ensures
            r.runs("userdel"@, (if self.purge { seq!["-r"@] } else { seq![] }) + seq!["--"@, self.username@]),
            r.text() == self.text(),
    {
        proof {
            let u = self.username@;
            reveal_strlit("userdel");
            reveal_strlit("-r");
            reveal_strlit("--");
            reveal_strlit(" ");
            reveal_strlit("userdel -r -- ");
            reveal_strlit("userdel -- ");
            if self.purge {
                lemma_line_three("userdel"@, "-r"@, "--"@, u);
                assert(seq!["-r"@] + seq!["--"@, u] =~= seq!["-r"@, "--"@, u]);
                assert("userdel"@ + " "@ + "-r"@ + " "@ + "--"@ + " "@ =~= "userdel -r -- "@);
            } else {
                lemma_line_two("userdel"@, "--"@, u);
                assert(Seq::<Seq<char>>::empty() + seq!["--"@, u] =~= seq!["--"@, u]);
                assert("userdel"@ + " "@ + "--"@ + " "@ =~= "userdel -- "@);
            }
        }
        let mut cmd = SystemCommand::new("userdel");
        if self.purge {
            cmd = cmd.arg("-r");
        }
        let r = cmd.arg("--").arg(self.username.as_str());
        if self.purge {
            assert(r.argv() == seq!["-r"@, "--"@, self.username@]);
            assert(r.text() == command_line("userdel"@, seq!["-r"@, "--"@, self.username@]));
            assert(r.text() == "userdel -r -- "@ + self.username@);
        }
        r
    }
}

impl ExecutableCommand for UserDelCommand {
    open spec fn text(&self) -> Seq<char> {
        if self.purge {
            "userdel -r -- "@ + self.username@
        } else {
            "userdel -- "@ + self.username@
        }
    }

    open spec fn structured(&self) -> bool {
        false
    }

    fn as_string(&self) -> (r: String) {
        let mut s = if self.purge {
            owned("userdel -r -- ")
        } else {
            owned("userdel -- ")
        };
        s.append(self.username.as_str());
        s
    }

    fn is_structured(&self) -> (r: bool) {
        false
    }
}

// ---------------------------------------------------------------------------
// Changes and passwords
// ---------------------------------------------------------------------------

/// Changes one property of a user: adds it to a group, removes it from one,
/// or sets its shell or home directory.
pub struct UserModCommand {
    pub username: String,
    pub action: String,
    pub value: String,
}

impl UserModCommand {
    /// The command that is run, or the error for a change it does not know.
    pub fn plan(&self) -> (r: Result<SystemCommand, AoError>)
        ensures
            self.action@ == "add-group"@ ==> (r matches Ok(c) && c.runs("usermod"@, seq!["-aG"@, self.value@, "--"@, self.username@])),
            self.action@ == "del-group"@ ==> (r matches Ok(c) && c.runs("gpasswd"@, seq!["-d"@, self.username@, "--"@, self.value@])),
            self.action@ == "shell"@ ==> (r matches Ok(c) && c.runs("usermod"@, seq!["-s"@, self.value@, "--"@, self.username@])),
            self.action@ == "home"@ ==> (r matches Ok(c) && c.runs("usermod"@, seq!["-d"@, self.value@, "-m"@, "--"@, self.username@])),
            !modify_actions().contains(self.action@) ==> (r matches Err(e)
                && e.message@ == "Unsupported user modification action: "@ + self.action@),
            r matches Ok(c) ==> c.text() == self.text(),
    {
        proof {
            lemma_modify_actions_distinct();
            let (u, v) = (self.username@, self.value@);
            reveal_strlit("usermod");
            reveal_strlit("gpasswd");
            reveal_strlit("-aG");
            reveal_strlit("-d");
            reveal_strlit("-s");
            reveal_strlit("-m");
            reveal_strlit("--");
            reveal_strlit(" ");
            reveal_strlit("usermod -aG ");
            reveal_strlit("gpasswd -d ");
            reveal_strlit("usermod -s ");
            reveal_strlit("usermod -d ");
            reveal_strlit(" -- ");
            reveal_strlit(" -m -- ");
            lemma_line_four("usermod"@, "-aG"@, v, "--"@, u);
            lemma_line_four("gpasswd"@, "-d"@, u, "--"@, v);
            lemma_line_four("usermod"@, "-s"@, v, "--"@, u);
            lemma_line_five("usermod"@, "-d"@, v, "-m"@, "--"@, u);
            assert("usermod"@ + " "@ + "-aG"@ + " "@ =~= "usermod -aG "@);
            assert("gpasswd"@ + " "@ + "-d"@ + " "@ =~= "gpasswd -d "@);
            assert("usermod"@ + " "@ + "-s"@ + " "@ =~= "usermod -s "@);
            assert("usermod"@ + " "@ + "-d"@ + " "@ =~= "usermod -d "@);
            assert(" "@ + "--"@ + " "@ =~= " -- "@);
            assert(" "@ + "-m"@ + " "@ + "--"@ + " "@ =~= " -m -- "@);
        }
        let a = self.action.as_str();
        let (u, v) = (self.username.as_str(), self.value.as_str());
        if str_eq(a, "add-group") {
            let c = SystemCommand::new("usermod").arg("-aG").arg(v).arg("--").arg(u);
            assert(c.argv() == seq!["-aG"@, v@, "--"@, u@]);
            assert(c.text() == command_line("usermod"@, seq!["-aG"@, v@, "--"@, u@]));
            Ok(c)
        } else if str_eq(a, "del-group") {
            let c = SystemCommand::new("gpasswd").arg("-d").arg(u).arg("--").arg(v);
            assert(c.argv() == seq!["-d"@, u@, "--"@, v@]);
            assert(c.text() == command_line("gpasswd"@, seq!["-d"@, u@, "--"@, v@]));
            Ok(c)
        } else if str_eq(a, "shell") {
            let c = SystemCommand::new("usermod").arg("-s").arg(v).arg("--").arg(u);
            assert(c.argv() == seq!["-s"@, v@, "--"@, u@]);
            assert(c.text() == command_line("usermod"@, seq!["-s"@, v@, "--"@, u@]));
            Ok(c)
        } else if str_eq(a, "home") {
            let c = SystemCommand::new("usermod").arg("-d").arg(v).arg("-m").arg("--").arg(u);
            assert(c.argv() == seq!["-d"@, v@, "-m"@, "--"@, u@]);
            assert(c.text() == command_line("usermod"@, seq!["-d"@, v@, "-m"@, "--"@, u@]));
            Ok(c)
        } else {
            let mut m = owned("Unsupported user modification action: ");
            m.append(a);
            Err(AoError::new(m))
        }
    }
}

impl ExecutableCommand for UserModCommand {
    open spec fn text(&self) -> Seq<char> {
        if self.action@ == "add-group"@ {
            "usermod -aG "@ + self.value@ + " -- "@ + self.username@
        } else if self.action@ == "del-group"@ {
            "gpasswd -d "@ + self.username@ + " -- "@ + self.value@
        } else if self.action@ == "shell"@ {
            "usermod -s "@ + self.value@ + " -- "@ + self.username@
        } else if self.action@ == "home"@ {
            "usermod -d "@ + self.value@ + " -m -- "@ + self.username@
        } else {
            "usermod (invalid action) -- "@ + self.username@
        }
    }

    open spec fn structured(&self) -> bool {
        false
    }

    fn as_string(&self) -> (r: String) {
        proof {
            lemma_modify_actions_distinct();
        }
        let a = self.action.as_str();
        let (head, mid, tail) = if str_eq(a, "add-group") {
            ("usermod -aG ", " -- ", &self.username)
        } else if str_eq(a, "del-group") {
            ("gpasswd -d ", " -- ", &self.value)
        } else if str_eq(a, "shell") {
            ("usermod -s ", " -- ", &self.username)
        } else if str_eq(a, "home") {
            ("usermod -d ", " -m -- ", &self.username)
        } else {
            let mut s = owned("usermod (invalid action) -- ");
            s.append(self.username.as_str());
            return s;
        };
        let mut s = owned(head);
        if str_eq(a, "del-group") {
            s.append(self.username.as_str());
        } else {
            s.append(self.value.as_str());
        }
        s.append(mid);
        s.append(tail.as_str());
        s
    }

    fn is_structured(&self) -> (r: bool) {
        false
    }
}

/// Sets a user's password, read twice from the terminal.
pub struct PasswdCommand {
    pub username: String,
}

impl PasswdCommand {
    /// The command that sets the password, given the password and its
    /// confirmation; an error when they differ.
    pub fn plan(&self, password: &str, confirm: &str) -> (r: Result<SystemCommand, AoError>)
        ensures
            password@ != confirm@ ==> (r matches Err(e) && e.message@ == "Passwords do not match"@),
            password@ == confirm@ ==> (r matches Ok(c) && c.binary@ == "chpasswd"@ && c.argv() == Seq::<Seq<char>>::empty()
                && opt_view(c.stdin_data) == Some(self.username@ + ":"@ + password@) && !c.ignore_exit_code),
    {
        if !str_eq(password, confirm) {
            return Err(AoError::new(owned("Passwords do not match")));
        }
        let mut creds = self.username.clone();
        creds.append(":");
        creds.append(password);
        let c = SystemCommand::new("chpasswd").stdin(creds.as_str());
        assert(c.argv() =~= Seq::<Seq<char>>::empty());
        Ok(c)
    }
}

impl ExecutableCommand for PasswdCommand {
    open spec fn text(&self) -> Seq<char> {
        "chpasswd (for user "@ + self.username@ + ")"@
    }

    open spec fn structured(&self) -> bool {
        false
    }

    fn as_string(&self) -> (r: String) {
        let mut s = owned("chpasswd (for user ");
        s.append(self.username.as_str());
        s.append(")");
        s
    }

    fn is_structured(&self) -> (r: bool) {
        false
    }
}

// ---------------------------------------------------------------------------
// Sessions
// ---------------------------------------------------------------------------

/// Shows login sessions, newest last in `last`'s output and first here.
pub struct UserSessionCommand {
    pub username: Option<String>,
    pub all: bool,
    pub n: Option<u32>,
    pub format: OutputFormat,
}

/// Whether a field looks like an ISO timestamp: it has a `T` and a `-` and
/// starts with an ASCII digit.
pub open spec fn is_stamp(p: Seq<char>) -> bool {
    p.contains('T') && p.contains('-') && p.len() > 0 && '0' <= p[0] && p[0] <= '9'
}

/// The first field from `from` on that looks like a timestamp.
pub open spec fn first_stamp(parts: Seq<Seq<char>>, from: int) -> Option<int>
    decreases parts.len() - from,
{
    if from < 0 || from >= parts.len() {
        None
    } else if is_stamp(parts[from]) {
        Some(from)
    } else {
        first_stamp(parts, from + 1)
    }
}

/// What a line of `last`'s output gives.
pub enum SessionLine {
    /// A line that describes no session.
    Skip,
    /// A line on which the text between terminal and start time cannot be
    /// cut out.
    Broken,
    /// A session: user, terminal, host, start, end and duration.
    Entry(Seq<Seq<char>>),
}

/// How a session ended when `last` gives no end time.
pub open spec fn end_note(line: Seq<char>) -> Seq<char> {
    if contains(line, "still logged in"@) {
        "still logged in"@
    } else if contains(line, "gone - no logout"@) {
        "gone - no logout"@
    } else if contains(line, "crash"@) {
        "crash"@
    } else if contains(line, "down"@) {
        "down"@
    } else {
        seq![]
    }
}

/// Whether the start time is followed by `-` and an end time.
pub open spec fn session_ended(parts: Seq<Seq<char>>, si: int) -> bool {
    si + 2 < parts.len() && parts[si + 1] == "-"@ && parts[si + 2].contains('T') && parts[si + 2].contains('-')
}

/// The end of a session: the end time, or else how it ended.
pub open spec fn session_end(line: Seq<char>, parts: Seq<Seq<char>>, si: int) -> Seq<char> {
    if session_ended(parts, si) {
        parts[si + 2]
    } else {
        end_note(line)
    }
}

/// The duration of a session that ended: the last field without its
/// parentheses.
pub open spec fn session_duration(parts: Seq<Seq<char>>, si: int) -> Seq<char> {
    if session_ended(parts, si) {
        trim_pair(parts.last(), '(', ')')
    } else {
        seq![]
    }
}

/// The session of a trimmed line whose fields are `parts`, the start time
/// being field `si`: the host is the text between the first occurrences of
/// the terminal and of the start time.
#[verifier::opaque]
pub open spec fn session_at(line: Seq<char>, parts: Seq<Seq<char>>, si: int) -> SessionLine {
    let tty = parts[1];
    let start = parts[si];
    match (find(line, tty), find(line, start)) {
        (Some(tp), Some(sp)) => if sp < tp + tty.len() {
            SessionLine::Broken
        } else {
            SessionLine::Entry(
                seq![
                    parts[0],
                    tty,
                    trim(line.subrange(tp + tty.len(), sp)),
                    start,
                    session_end(line, parts, si),
                    session_duration(parts, si),
                ],
            )
        },
        _ => SessionLine::Broken,
    }
}

/// The session that a raw line of `last --time-format iso` describes.
#[verifier::opaque]
pub open spec fn session_line(raw: Seq<char>) -> SessionLine {
    let line = trim(raw);
    let parts = fields(line);
    if line.len() == 0 || starts_with(line, "wtmp begins"@) || parts.len() < 3 {
        SessionLine::Skip
    } else {
        match first_stamp(parts, 2) {
            None => SessionLine::Skip,
            Some(si) => session_at(line, parts, si),
        }
    }
}

/// Whether some line of the output cannot be read.
pub open spec fn sessions_broken(out: Seq<char>) -> bool {
    exists|i: int| 0 <= i < lines(out).len() && session_line(#[trigger] lines(out)[i]) is Broken
}

pub open spec fn session_entries(out: Seq<char>) -> Seq<Seq<Seq<char>>> {
    filter_map(
        lines(out),
        |l: Seq<char>|
            match session_line(l) {
                SessionLine::Entry(e) => Some(e),
                _ => None,
            },
    )
}

impl UserSessionInfo {
    /// The fields: user, terminal, host, start, end and duration.
    pub open spec fn cells(&self) -> Seq<Seq<char>> {
        seq![self.username@, self.line@, self.host@, self.start@, self.end@, self.duration@]
    }
}

pub open spec fn session_cells(s: Seq<UserSessionInfo>) -> Seq<Seq<Seq<char>>> {
    s.map_values(|x: UserSessionInfo| x.cells())
}

/// Whether field `i` of `parts` looks like a timestamp.
fn stamp_at(parts: &Vec<Vec<char>>, i: usize) -> (r: bool)
    requires
        i < parts.len(),
    ensures
        r == is_stamp(parts@[i as int]@),
{
    let p = &parts[i];
    contains_char(p, 'T') && contains_char(p, '-') && p.len() > 0 && '0' <= p[0] && p[0] <= '9'
}

/// The end note of a session line.
fn end_note_of(line: &Vec<char>) -> (r: Vec<char>)
    ensures
        r@ == end_note(line@),
{
    let a = chars_of("still logged in");
    let b = chars_of("gone - no logout");
    let c = chars_of("crash");
    let d = chars_of("down");
    if contains_pat(line, &a) {
        a
    } else if contains_pat(line, &b) {
        b
    } else if contains_pat(line, &c) {
        c
    } else if contains_pat(line, &d) {
        d
    } else {
        Vec::new()
    }
}

/// The end and duration of a session.
fn end_and_duration(line: &Vec<char>, parts: &Vec<Vec<char>>, si: usize) -> (r: (Vec<char>, Vec<char>))
    requires
        si < parts.len(),
    ensures
        r.0@ == session_end(line@, views(parts@), si as int),
        r.1@ == session_duration(parts@.map_values(|p: Vec<char>| p@), si as int),
{
    let dash = chars_of("-");
    proof {
        reveal_strlit("-");
    }
    let ended = parts.len() > 2 && si < parts.len() - 2 && crate::sort::text_eq(&parts[si + 1], &dash) && contains_char(&parts[si + 2], 'T')
        && contains_char(&parts[si + 2], '-');
    assert(ended == session_ended(views(parts@), si as int));
    if ended {
        (parts[si + 2].clone(), trim_matches_pair(&parts[parts.len() - 1], '(', ')'))
    } else {
        (end_note_of(line), Vec::new())
    }
}

/// The session of a trimmed line, given its fields and the start field.
fn session_at_line(line: &Vec<char>, parts: &Vec<Vec<char>>, si: usize) -> (r: Option<UserSessionInfo>)
    requires
        2 <= si < parts.len(),
    ensures
        !(session_at(line@, views(parts@), si as int) is Skip),
        session_at(line@, views(parts@), si as int) is Broken <==> r is None,
        session_at(line@, views(parts@), si as int) matches SessionLine::Entry(e) ==> (r matches Some(s) && s.cells() == e),
{
    reveal(session_at);
    let tty = &parts[1];
    let start = &parts[si];
    let tp = match find_pat(line, tty) {
        Some(p) => p,
        None => return None,
    };
    let sp = match find_pat(line, start) {
        Some(p) => p,
        None => return None,
    };
    let tlen = tty.len();
    assert(tp + tlen <= line.len()) by {
        assert(occurs_at(line@, tty@, tp as int));
    }
    let tend = tp + tlen;
    if sp < tend {
        assert(find(line@, views(parts@)[1]) == Some(tp as int));
        assert(find(line@, views(parts@)[si as int]) == Some(sp as int));
        return None;
    }
    let ghost pv = views(parts@);
    assert(find(line@, pv[1]) == Some(tp as int));
    assert(find(line@, pv[si as int]) == Some(sp as int));
    let between = slice_chars(line, tend, sp);
    let host = trim_ws(&between);
    let (end, duration) = end_and_duration(line, parts, si);
    assert(session_at(line@, pv, si as int) == SessionLine::Entry(
        seq![
            pv[0],
            pv[1],
            trim(line@.subrange(tp + pv[1].len(), sp as int)),
            pv[si as int],
            session_end(line@, pv, si as int),
            session_duration(pv, si as int),
        ],
    ));
    let info = UserSessionInfo {
        username: string_of(&parts[0]),
        line: string_of(tty),
        host: string_of(&host),
        start: string_of(start),
        end: string_of(&end),
        duration: string_of(&duration),
    };
    assert(info.cells() =~= session_at(line@, views(parts@), si as int)->Entry_0);
    Some(info)
}

/// Reads one line of `last`'s output: `None` where the line cannot be
/// read, `Some(None)` where it describes no session.
pub fn read_session_line(raw: &Vec<char>) -> (r: Option<Option<UserSessionInfo>>)
    ensures
        session_line(raw@) is Broken <==> r is None,
        session_line(raw@) is Skip <==> r == Some(None::<UserSessionInfo>),
        session_line(raw@) matches SessionLine::Entry(e) ==> (r matches Some(Some(s)) && s.cells() == e),
{
    reveal(session_line);
    let line = trim_ws(raw);
    let parts = split_whitespace(&line);
    let wtmp = chars_of("wtmp begins");
    if line.len() == 0 || has_prefix(&line, &wtmp) || parts.len() < 3 {
        return Some(None);
    }
    let mut si: usize = 2;
    while si < parts.len() && !stamp_at(&parts, si)
        invariant
            2 <= si <= parts.len(),
            first_stamp(views(parts@), 2) == first_stamp(views(parts@), si as int),
        decreases parts.len() - si,
    {
        si += 1;
    }
    if si == parts.len() {
        return Some(None);
    }
    match session_at_line(&line, &parts, si) {
        Some(info) => Some(Some(info)),
        None => None,
    }
}

/// A time of day without its zone: cut at the first `+`, or else at the
/// first `-`.
pub open spec fn zone_cut(tz: Seq<char>) -> Seq<char> {
    match find(tz, seq!['+']) {
        Some(p) => tz.take(p),
        None => match find(tz, seq!['-']) {
            Some(p) => tz.take(p),
            None => tz,
        },
    }
}

/// The timestamp's date and time of day: the parts before and after the
/// first `T`, the time without its zone.
pub open spec fn date_time_split(dt: Seq<char>) -> (Seq<char>, Seq<char>) {
    if dt.contains('T') {
        let parts = split_on(dt, 'T');
        (parts[0], zone_cut(parts[1]))
    } else {
        (dt, seq![])
    }
}

fn cut_zone(tz: &Vec<char>) -> (r: Vec<char>)
    ensures
        r@ == zone_cut(tz@),
{
    let plus = vec!['+'];
    let minus = vec!['-'];
    assert(plus@ =~= seq!['+']);
    assert(minus@ =~= seq!['-']);
    let fp = find_pat(tz, &plus);
    if let Some(p) = fp {
        assert(find(tz@, seq!['+']) == Some(p as int));
        return slice_chars(tz, 0, p);
    }
    assert(find(tz@, seq!['+']) is None);
    let fm = find_pat(tz, &minus);
    if let Some(p) = fm {
        assert(find(tz@, seq!['-']) == Some(p as int));
        return slice_chars(tz, 0, p);
    }
    assert(find(tz@, seq!['-']) is None);
    tz.clone()
}

/// How a session shows: still open, ended abnormally, or ended.
#[derive(Clone, Copy, Debug, PartialEq, Eq, Structural)]
pub enum SessionState {
    Active,
    Failed,
    Closed,
}

pub open spec fn session_state(end: Seq<char>) -> SessionState {
    if end == "still logged in"@ {
        SessionState::Active
    } else if end == "crash"@ || end == "down"@ || end == "gone - no logout"@ {
        SessionState::Failed
    } else {
        SessionState::Closed
    }
}

impl UserSessionCommand {
    /// Whether the query needs the name of the current user: no user was
    /// named and not all users were asked for.
    pub fn needs_current_user(&self) -> (r: bool)
        ensures
            r == (self.username is None && !self.all),
    {
        self.username.is_none() && !self.all
    }

    /// The command that names the current user.
    pub fn whoami_query() -> (r: SystemCommand)
        ensures
            r.runs("whoami"@, seq![]),
    {
        SystemCommand::new("whoami")
    }

    /// The `last` invocation, given the output of the current-user query
    /// (ignored unless it is needed).
    pub fn query(&self, whoami_out: &str) -> (r: SystemCommand)
        ensures
            r.runs(
                "last"@,
                seq!["--time-format"@, "iso"@]
                    + (match self.n { Some(n) => seq!["-n"@, dec(n as nat)], None => seq![] })
                    + (match self.username {
                        Some(u) => seq![u@],
                        None => if !self.all && trim(whoami_out@).len() > 0 { seq![trim(whoami_out@)] } else { seq![] },
                    }),
            ),
    {
        let mut cmd = SystemCommand::new("last").arg("--time-format").arg("iso");
        if let Some(n) = self.n {
            let s = dec_string(n as u64);
            cmd = cmd.arg("-n").arg(s.as_str());
        }
        if let Some(u) = &self.username {
            cmd = cmd.arg(u.as_str());
        } else if !self.all {
            let w = chars_of(whoami_out);
            let t = trim_ws(&w);
            if t.len() > 0 {
                let s = string_of(&t);
                cmd = cmd.arg(s.as_str());
            }
        }
        cmd
    }

    /// Whether every line of `last`'s output can be read.
    pub fn readable(stdout: &str) -> (r: bool)
        ensures
            r == !sessions_broken(stdout@),
    {
        let ls = lines_of(stdout);
        let mut i: usize = 0;
        while i < ls.len()
            invariant
                0 <= i <= ls.len(),
                views(ls@) == lines(stdout@),
                forall|j: int| 0 <= j < i ==> !(session_line(#[trigger] lines(stdout@)[j]) is Broken),
            decreases ls.len() - i,
        {
            if read_session_line(&ls[i]).is_none() {
                assert(session_line(lines(stdout@)[i as int]) is Broken);
                return false;
            }
            i += 1;
        }
        true
    }

    /// The sessions that `last`'s output describes, the most recent last;
    /// the output must be readable.
    pub fn parse(stdout: &str) -> (r: Vec<UserSessionInfo>)
        requires
            !sessions_broken(stdout@),
        ensures
            session_cells(r@) == session_entries(stdout@).reverse(),
    {
        let ls = lines_of(stdout);
        let ghost f = |l: Seq<char>|
            match session_line(l) {
                SessionLine::Entry(e) => Some(e),
                _ => None,
            };
        let mut out: Vec<UserSessionInfo> = Vec::new();
        let mut i: usize = 0;
        while i < ls.len()
            invariant
                0 <= i <= ls.len(),
                views(ls@) == lines(stdout@),
                !sessions_broken(stdout@),
                f == (|l: Seq<char>|
                    match session_line(l) {
                        SessionLine::Entry(e) => Some(e),
                        _ => None,
                    }),
                session_cells(out@) == filter_map(views(ls@).take(i as int), f),
            decreases ls.len() - i,
        {
            proof {
                lemma_filter_map_step(views(ls@), f, i as int);
                assert(!(session_line(lines(stdout@)[i as int]) is Broken));
            }
            match read_session_line(&ls[i]) {
                Some(Some(s)) => {
                    let ghost c = s.cells();
                    out.push(s);
                    assert(session_cells(out@) =~= filter_map(views(ls@).take(i as int), f).push(c));
                },
                _ => {},
            }
            i += 1;
        }
        assert(views(ls@).take(ls.len() as int) =~= views(ls@));
        let ghost before = out@;
        let rev = crate::sort::reversed(out);
        assert(session_cells(rev@) =~= session_cells(before).reverse());
        rev
    }

    /// Splits a timestamp into its date and time of day.
    pub fn split_date_time(dt: &str) -> (r: (String, String))
        ensures
            (r.0@, r.1@) == date_time_split(dt@),
    {
        let s = chars_of(dt);
        if contains_char(&s, 'T') {
            let parts = split_char(&s, 'T');
            proof {
                crate::text::lemma_split_count(s@, 'T');
            }
            let time = cut_zone(&parts[1]);
            (string_of(&parts[0]), string_of(&time))
        } else {
            (owned(dt), String::new())
        }
    }

    /// How a session with this end shows.
    pub fn state_of(end: &str) -> (r: SessionState)
        ensures
            r == session_state(end@),
    {
        if str_eq(end, "still logged in") {
            SessionState::Active
        } else if str_eq(end, "crash") || str_eq(end, "down") || str_eq(end, "gone - no logout") {
            SessionState::Failed
        } else {
            SessionState::Closed
        }
    }
}

impl ExecutableCommand for UserSessionCommand {
    open spec fn text(&self) -> Seq<char> {
        "last --time-format iso"@ + (match self.n {
            Some(n) => " -n "@ + dec(n as nat),
            None => seq![],
        }) + opt_text(self.username, " "@)
    }

    open spec fn structured(&self) -> bool {
        is_structured_format(self.format)
    }

    fn as_string(&self) -> (r: String) {
        let mut s = owned("last --time-format iso");
        if let Some(n) = self.n {
            s.append(" -n ");
            let d = dec_string(n as u64);
            s.append(d.as_str());
        }
        if let Some(u) = &self.username {
            s.append(" ");
            s.append(u.as_str());
        }
        s
    }

    fn is_structured(&self) -> (r: bool) {
        self.format.structured()
    }
}

} // verus!
