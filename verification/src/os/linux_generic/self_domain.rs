//! `ao` itself: shell completions, information and updates.
use vstd::prelude::*;

use super::common::{NoopCommand, SystemCommand};
use crate::cli::{CompletionsAction, OutputFormat, SelfAction, SelfArgs, Shell, is_structured_format};
use crate::os::{AnyCommand, AoError, ExecutableCommand, SelfInfo};
use crate::text::{contains, contains_pat, chars_of, owned};

verus! {

/// The self domain.
pub struct StandardSelf;

/// The name that `{:?}` gives a shell.
pub open spec fn shell_name(s: Shell) -> Seq<char> {
    match s {
        Shell::Bash => "Bash"@,
        Shell::Elvish => "Elvish"@,
        Shell::Fish => "Fish"@,
        Shell::PowerShell => "PowerShell"@,
        Shell::Zsh => "Zsh"@,
    }
}

/// The name of a shell, as `{:?}` prints it.
pub fn shell_debug_name(s: Shell) -> (r: &'static str)
    ensures
        r@ == shell_name(s),
{
    match s {
        Shell::Bash => "Bash",
        Shell::Elvish => "Elvish",
        Shell::Fish => "Fish",
        Shell::PowerShell => "PowerShell",
        Shell::Zsh => "Zsh",
    }
}

/// The completion function for bash: it asks the program (`exe`) for the
/// candidates through `AO_COMPLETE`.
pub open spec fn bash_script(bin: Seq<char>, exe: Seq<char>) -> Seq<char> {
    "_"@ + bin
        + "() {\n    local cur prev words cword\n    _get_comp_words_by_ref -n : cur prev words cword\n    \n    local completions\n    completions=$(env AO_COMPLETE=bash _CLAP_COMPLETE_INDEX=\"$cword\" \""@
        + exe
        + "\" -- \"${words[@]}\")\n    if [ $? -eq 0 ]; then\n        COMPREPLY=( $(compgen -W \"${completions}\" -- \"${cur}\") )\n    fi\n}\ncomplete -F _"@
        + bin + " "@ + bin
}

/// The completion function for zsh.
pub open spec fn zsh_script(bin: Seq<char>, exe: Seq<char>) -> Seq<char> {
    "_"@ + bin
        + "() {\n    local -a completions\n    local output\n    output=$(AO_COMPLETE=zsh _CLAP_COMPLETE_INDEX=$(($CURRENT - 1)) \""@
        + exe
        + "\" -- \"${words[@]}\")\n    if [ $? -eq 0 ]; then\n        completions=(${(f)output})\n        if [[ \"$completions[1]\" == *:* ]]; then\n            _describe 'values' completions\n        elif [[ -n \"$completions\" ]]; then\n            compadd -a completions\n        fi\n    fi\n}\ncompdef _"@
        + bin + " "@ + bin
}

/// What a completions action does.
pub enum CompletionWork {
    /// Print this text.
    Print(String),
    /// Print this text on standard error.
    PrintError(String),
    /// Write the script that the completion library generates for this
    /// shell.
    Generate(Shell),
    /// Install completions for this shell.
    Install(Shell),
}

/// The line that loads completions into the current session, for the
/// completions command at `cmd` (such as `self completions`).
pub open spec fn setup_line(shell: Shell, exe: Seq<char>, cmd: Seq<char>) -> Option<Seq<char>> {
    match shell {
        Shell::Bash => Some("eval \"$(AO_COMPLETE=bash "@ + exe + " "@ + cmd + " generate bash)\""@),
        Shell::Zsh => Some("eval \"$(AO_COMPLETE=zsh "@ + exe + " "@ + cmd + " generate zsh)\""@),
        Shell::Fish => Some("AO_COMPLETE=fish "@ + exe + " "@ + cmd + " generate fish | source"@),
        _ => None,
    }
}

/// The configuration file and the line that installing completions
/// appends to it.
pub open spec fn install_target(shell: Shell, home: Seq<char>, exe: Seq<char>, cmd: Seq<char>) -> Option<(Seq<char>, Seq<char>)> {
    match shell {
        Shell::Bash => Some((home + "/.bashrc"@, "\nsource <(AO_COMPLETE=bash \""@ + exe + "\" "@ + cmd + " generate bash)\n"@)),
        Shell::Zsh => Some((home + "/.zshrc"@, "\nsource <(AO_COMPLETE=zsh \""@ + exe + "\" "@ + cmd + " generate zsh)\n"@)),
        Shell::Fish => Some(
            (home + "/.config/fish/config.fish"@, "\nAO_COMPLETE=fish \""@ + exe + "\" "@ + cmd + " generate fish | source\n"@),
        ),
        _ => None,
    }
}

/// What a completions action does, for the completions command at `cmd`.
pub open spec fn work_of(action: CompletionsAction, bin: Seq<char>, exe: Seq<char>, cmd: Seq<char>, w: CompletionWork) -> bool {
    match action {
        CompletionsAction::Generate { shell } => match shell {
            Shell::Bash => w matches CompletionWork::Print(s) && s@ == bash_script(bin, exe),
            Shell::Zsh => w matches CompletionWork::Print(s) && s@ == zsh_script(bin, exe),
            _ => w == CompletionWork::Generate(shell),
        },
        CompletionsAction::Install { shell } => w == CompletionWork::Install(shell),
        CompletionsAction::Setup { shell } => match setup_line(shell, exe, cmd) {
            Some(l) => w matches CompletionWork::Print(s) && s@ == l,
            None => w matches CompletionWork::PrintError(s) && s@ == "Unsupported shell for setup: "@ + shell_name(shell),
        },
    }
}

/// The completion function for bash.
pub fn bash_completion_script(bin: &str, exe: &str) -> (r: String)
    ensures
        r@ == bash_script(bin@, exe@),
{
    let mut s = owned("_");
    s.append(bin);
    s.append(
        "() {\n    local cur prev words cword\n    _get_comp_words_by_ref -n : cur prev words cword\n    \n    local completions\n    completions=$(env AO_COMPLETE=bash _CLAP_COMPLETE_INDEX=\"$cword\" \"",
    );
    s.append(exe);
    s.append(
        "\" -- \"${words[@]}\")\n    if [ $? -eq 0 ]; then\n        COMPREPLY=( $(compgen -W \"${completions}\" -- \"${cur}\") )\n    fi\n}\ncomplete -F _",
    );
    s.append(bin);
    s.append(" ");
    s.append(bin);
    s
}

/// The completion function for zsh.
pub fn zsh_completion_script(bin: &str, exe: &str) -> (r: String)
    ensures
        r@ == zsh_script(bin@, exe@),
{
    let mut s = owned("_");
    s.append(bin);
    s.append(
        "() {\n    local -a completions\n    local output\n    output=$(AO_COMPLETE=zsh _CLAP_COMPLETE_INDEX=$(($CURRENT - 1)) \"",
    );
    s.append(exe);
    s.append(
        "\" -- \"${words[@]}\")\n    if [ $? -eq 0 ]; then\n        completions=(${(f)output})\n        if [[ \"$completions[1]\" == *:* ]]; then\n            _describe 'values' completions\n        elif [[ -n \"$completions\" ]]; then\n            compadd -a completions\n        fi\n    fi\n}\ncompdef _",
    );
    s.append(bin);
    s.append(" ");
    s.append(bin);
    s
}

/// `a`, `b`, a space, `c` and `d`, concatenated.
fn cat4(a: &str, b: &str, c: &str, d: &str) -> (r: String)
    ensures
        r@ == a@ + b@ + " "@ + c@ + d@,
{
    let mut s = owned(a);
    s.append(b);
    s.append(" ");
    s.append(c);
    s.append(d);
    s
}

/// The line that loads completions into the current session.
pub fn setup_command(shell: Shell, exe: &str, cmd: &str) -> (r: Option<String>)
    ensures
        match setup_line(shell, exe@, cmd@) {
            Some(l) => r matches Some(s) && s@ == l,
            None => r is None,
        },
{
    match shell {
        Shell::Bash => Some(cat4("eval \"$(AO_COMPLETE=bash ", exe, cmd, " generate bash)\"")),
        Shell::Zsh => Some(cat4("eval \"$(AO_COMPLETE=zsh ", exe, cmd, " generate zsh)\"")),
        Shell::Fish => Some(cat4("AO_COMPLETE=fish ", exe, cmd, " generate fish | source")),
        _ => None,
    }
}

/// What a completions action does, for the completions command at `cmd`.
pub fn completion_work(action: &CompletionsAction, bin: &str, exe: &str, cmd: &str) -> (r: CompletionWork)
    ensures
        work_of(*action, bin@, exe@, cmd@, r),
{
    match action {
        CompletionsAction::Generate { shell } => match shell {
            Shell::Bash => CompletionWork::Print(bash_completion_script(bin, exe)),
            Shell::Zsh => CompletionWork::Print(zsh_completion_script(bin, exe)),
            _ => CompletionWork::Generate(*shell),
        },
        CompletionsAction::Install { shell } => CompletionWork::Install(*shell),
        CompletionsAction::Setup { shell } => match setup_command(*shell, exe, cmd) {
            Some(l) => CompletionWork::Print(l),
            None => {
                let mut m = owned("Unsupported shell for setup: ");
                m.append(shell_debug_name(*shell));
                CompletionWork::PrintError(m)
            },
        },
    }
}

/// What installing completions does.
pub struct InstallPlan {
    /// The shell's configuration file.
    pub config_path: String,
    /// The line appended to it.
    pub source_cmd: String,
    /// The text that shows that completions are installed.
    pub marker: String,
    /// The notice printed first.
    pub notice: String,
}

/// The plan for installing completions in `home` for the completions
/// command at `cmd`; an error for a shell whose configuration is unknown.
pub fn install_plan(shell: Shell, home: &str, exe: &str, cmd: &str) -> (r: Result<InstallPlan, AoError>)
    ensures
        match install_target(shell, home@, exe@, cmd@) {
            Some((path, line)) => r matches Ok(p) && p.config_path@ == path && p.source_cmd@ == line
                && p.marker@ == "ao "@ + cmd@ + " generate"@ && p.notice@ == "Installing completions for "@
                + shell_name(shell) + " in "@ + path + "..."@,
            None => r matches Err(e) && e.message@ == "Auto-installation for "@ + shell_name(shell)
                + " is not supported yet."@,
        },
{
    let (path_tail, head, tail) = match shell {
        Shell::Bash => ("/.bashrc", "\nsource <(AO_COMPLETE=bash \"", " generate bash)\n"),
        Shell::Zsh => ("/.zshrc", "\nsource <(AO_COMPLETE=zsh \"", " generate zsh)\n"),
        Shell::Fish => ("/.config/fish/config.fish", "\nAO_COMPLETE=fish \"", " generate fish | source\n"),
        _ => {
            let mut m = owned("Auto-installation for ");
            m.append(shell_debug_name(shell));
            m.append(" is not supported yet.");
            return Err(AoError::new(m));
        },
    };
    let mut line = owned(head);
    line.append(exe);
    line.append("\" ");
    line.append(cmd);
    line.append(tail);
    let mut config_path = owned(home);
    config_path.append(path_tail);
    let mut marker = owned("ao ");
    marker.append(cmd);
    marker.append(" generate");
    let mut notice = owned("Installing completions for ");
    notice.append(shell_debug_name(shell));
    notice.append(" in ");
    notice.append(config_path.as_str());
    notice.append("...");
    Ok(InstallPlan { config_path, source_cmd: line, marker, notice })
}

/// Whether a configuration file already loads completions: it holds the
/// marker.
pub fn already_installed(content: Option<&str>, marker: &str) -> (r: bool)
    ensures
        r == (match content {
            Some(c) => contains(c@, marker@),
            None => false,
        }),
{
    match content {
        Some(c) => {
            let a = chars_of(c);
            let b = chars_of(marker);
            contains_pat(&a, &b)
        },
        None => false,
    }
}

/// What a `self` action does.
pub enum SelfWork {
    /// Carry out this completions work, then run the command.
    Completions(CompletionWork, AnyCommand),
    /// Run the command.
    Run(AnyCommand),
}

impl StandardSelf {
    /// Maps a parsed `self` invocation to its work; completions are managed
    /// under `self completions`.
    pub fn execute(&self, args: &SelfArgs, bin: &str, exe: &str) -> (r: Result<SelfWork, AoError>)
        ensures
            r matches Ok(w) && match args.action {
                Some(SelfAction::Completions { action }) => w matches SelfWork::Completions(cw, c)
                    && work_of(action, bin@, exe@, "self completions"@, cw) && c == AnyCommand::CompletionScript(CompletionScriptCommand),
                Some(SelfAction::Info { format }) => w == SelfWork::Run(AnyCommand::SelfInfo(SelfInfoCommand { format })),
                Some(SelfAction::Update) => w matches SelfWork::Run(AnyCommand::System(s)) && s.runs(
                    "echo"@,
                    seq!["Checking for updates... (not implemented)"@],
                ),
                None => w == SelfWork::Run(AnyCommand::SelfInfo(SelfInfoCommand { format: OutputFormat::Table })),
            },
    {
        match &args.action {
            Some(SelfAction::Completions { action }) => {
                let w = completion_work(action, bin, exe, "self completions");
                Ok(SelfWork::Completions(w, AnyCommand::CompletionScript(CompletionScriptCommand)))
            },
            Some(SelfAction::Info { format }) => Ok(SelfWork::Run(AnyCommand::SelfInfo(SelfInfoCommand { format: *format }))),
            Some(SelfAction::Update) => Ok(SelfWork::Run(self.update())),
            None => Ok(SelfWork::Run(AnyCommand::SelfInfo(SelfInfoCommand { format: OutputFormat::Table }))),
        }
    }

    /// Checks for updates (not available yet, which it says).
    pub fn update(&self) -> (r: AnyCommand)
        ensures
            r matches AnyCommand::System(s) && s.runs("echo"@, seq!["Checking for updates... (not implemented)"@]),
    {
        AnyCommand::System(SystemCommand::new("echo").arg("Checking for updates... (not implemented)"))
    }
}

/// Stands for work that was done while the request was read; it shows and
/// runs nothing, and emits raw output.
pub struct CompletionScriptCommand;

impl ExecutableCommand for CompletionScriptCommand {
    open spec fn text(&self) -> Seq<char> {
        seq![]
    }

    open spec fn structured(&self) -> bool {
        true
    }

    fn as_string(&self) -> (r: String) {
        String::new()
    }

    fn is_structured(&self) -> (r: bool) {
        true
    }
}

/// Shows `ao`'s version, architecture and operating system.
pub struct SelfInfoCommand {
    pub format: OutputFormat,
}

impl SelfInfo {
    /// The rows of the table.
    pub open spec fn rows(&self) -> Seq<(Seq<char>, Seq<char>)> {
        seq![("Version"@, self.version@), ("Architecture"@, self.architecture@), ("OS"@, self.os@)]
    }
}

impl SelfInfoCommand {
    /// The information, given the version and the platform.
    pub fn info(version: &str, arch: &str, os: &str) -> (r: SelfInfo)
        ensures
            r.version@ == version@,
            r.architecture@ == arch@,
            r.os@ == os@,
    {
        SelfInfo { version: owned(version), architecture: owned(arch), os: owned(os) }
    }

    /// The table rows.
    pub fn table_rows(info: &SelfInfo) -> (r: Vec<(String, String)>)
        ensures
            r@.map_values(|p: (String, String)| (p.0@, p.1@)) == info.rows(),
    {
        let v = vec![
            (owned("Version"), info.version.clone()),
            (owned("Architecture"), info.architecture.clone()),
            (owned("OS"), info.os.clone()),
        ];
        assert(v@.map_values(|p: (String, String)| (p.0@, p.1@)) =~= info.rows());
        v
    }

    /// The lines of the original output.
    pub fn original_lines(info: &SelfInfo) -> (r: Vec<String>)
        ensures
            r@.map_values(|s: String| s@) == seq![
                "ao version "@ + info.version@,
                "arch: "@ + info.architecture@,
                "os: "@ + info.os@,
            ],
    {
        let mut a = owned("ao version ");
        a.append(info.version.as_str());
        let mut b = owned("arch: ");
        b.append(info.architecture.as_str());
        let mut c = owned("os: ");
        c.append(info.os.as_str());
        let v = vec![a, b, c];
        assert(v@.map_values(|s: String| s@) =~= seq![
            "ao version "@ + info.version@,
            "arch: "@ + info.architecture@,
            "os: "@ + info.os@,
        ]);
        v
    }
}

impl ExecutableCommand for SelfInfoCommand {
    open spec fn text(&self) -> Seq<char> {
        "ao self info"@
    }

    open spec fn structured(&self) -> bool {
        false
    }

    fn as_string(&self) -> (r: String) {
        owned("ao self info")
    }

    fn is_structured(&self) -> (r: bool) {
        false
    }
}

} // verus!
