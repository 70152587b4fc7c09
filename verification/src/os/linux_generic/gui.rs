//! Graphical sessions and displays.
use vstd::prelude::*;

use super::common::SystemCommand;
use crate::cli::{GuiAction, GuiArgs, GuiDisplayAction, OutputFormat, is_structured_format};
use crate::os::{AnyCommand, AoError, DisplayInfo, ExecutableCommand};
use crate::text::{chars_of, contains, contains_char, contains_pat, fields, filter_map, lemma_filter_map_step, lines, lines_of, owned, split_whitespace, string_of, views};

verus! {

/// The GUI domain.
pub struct StandardGui;

/// The session-type query, whatever its exit status.
pub open spec fn gui_info_runs(c: SystemCommand) -> bool {
    &&& c.binary@ == "loginctl"@
    &&& c.argv() =~= seq!["show-session"@, "self"@, "-p"@, "Type"@]
    &&& c.stdin_data is None
    &&& c.ignore_exit_code
}

/// `xrandr --query`, whatever its exit status.
pub open spec fn xrandr_runs(c: SystemCommand) -> bool {
    &&& c.binary@ == "xrandr"@
    &&& c.argv() =~= seq!["--query"@]
    &&& c.stdin_data is None
    &&& c.ignore_exit_code
}

impl StandardGui {
    /// Maps a parsed `gui` invocation to its command.
    pub fn execute(&self, args: &GuiArgs) -> (r: Result<AnyCommand, AoError>)
        ensures
            r matches Ok(c) && match args.action {
                Some(GuiAction::Info) => c matches AnyCommand::System(s) && gui_info_runs(s),
                Some(GuiAction::Display { action }) => match action {
                    GuiDisplayAction::List { format } => displays_plan(format, c),
                },
                None => displays_plan(OutputFormat::Table, c),
            },
    {
        match &args.action {
            Some(GuiAction::Info) => self.info(),
            Some(GuiAction::Display { action }) => match action {
                GuiDisplayAction::List { format } => self.ls_displays(*format),
            },
            None => self.ls_displays(OutputFormat::Table),
        }
    }

    /// The type of the current session.
    pub fn info(&self) -> (r: Result<AnyCommand, AoError>)
        ensures
            r matches Ok(AnyCommand::System(s)) && gui_info_runs(s),
    {
        Ok(
            AnyCommand::System(
                SystemCommand::new("loginctl").arg("show-session").arg("self").arg("-p").arg("Type").ignore_exit_code(),
            ),
        )
    }

    /// The displays; the original output is `xrandr --query`.
    pub fn ls_displays(&self, format: OutputFormat) -> (r: Result<AnyCommand, AoError>)
        ensures
            r matches Ok(c) && displays_plan(format, c),
    {
        if matches!(format, OutputFormat::Original) {
            return Ok(AnyCommand::System(SystemCommand::new("xrandr").arg("--query").ignore_exit_code()));
        }
        Ok(AnyCommand::GuiListDisplays(GuiListDisplaysCommand { format }))
    }
}

pub open spec fn displays_plan(format: OutputFormat, c: AnyCommand) -> bool {
    if format == OutputFormat::Original {
        c matches AnyCommand::System(s) && xrandr_runs(s)
    } else {
        c == AnyCommand::GuiListDisplays(GuiListDisplaysCommand { format })
    }
}

/// Lists the connected displays.
pub struct GuiListDisplaysCommand {
    pub format: OutputFormat,
}

impl DisplayInfo {
    pub open spec fn record(&self) -> (Seq<char>, bool, Seq<char>) {
        (self.name@, self.connected, self.resolution@)
    }
}

/// The first field that holds an `x`.
pub open spec fn first_with_x(f: Seq<Seq<char>>, from: int) -> Option<Seq<char>>
    decreases f.len() - from,
{
    if from < 0 || from >= f.len() {
        None
    } else if f[from].contains('x') {
        Some(f[from])
    } else {
        first_with_x(f, from + 1)
    }
}

/// A display of `xrandr`'s output: a line with ` connected`, named by its
/// first field, at the resolution of its first field that holds an `x`
/// (`unknown` when none does).
pub open spec fn display_row(line: Seq<char>) -> Option<(Seq<char>, bool, Seq<char>)> {
    let f = fields(line);
    if contains(line, " connected"@) && f.len() > 0 {
        Some(
            (
                f[0],
                true,
                match first_with_x(f, 0) {
                    Some(r) => r,
                    None => "unknown"@,
                },
            ),
        )
    } else {
        None
    }
}

pub open spec fn display_rows(out: Seq<char>) -> Seq<(Seq<char>, bool, Seq<char>)> {
    filter_map(lines(out), |l: Seq<char>| display_row(l))
}

impl GuiListDisplaysCommand {
    /// The command run for the original output, and whose output is
    /// parsed; `wlr-randr` stands in when it cannot run.
    pub fn queries(&self) -> (r: (SystemCommand, SystemCommand))
        ensures
            xrandr_runs(r.0),
            r.1.binary@ == "wlr-randr"@ && r.1.argv() =~= seq![] && r.1.stdin_data is None && r.1.ignore_exit_code,
    {
        (
            SystemCommand::new("xrandr").arg("--query").ignore_exit_code(),
            SystemCommand::new("wlr-randr").ignore_exit_code(),
        )
    }

    /// The connected displays of `xrandr`'s output.
    pub fn parse(stdout: &str) -> (r: Vec<DisplayInfo>)
        ensures
            r@.map_values(|d: DisplayInfo| d.record()) == display_rows(stdout@),
    {
        let ls = lines_of(stdout);
        let pat = chars_of(" connected");
        let ghost f = |l: Seq<char>| display_row(l);
        let mut out: Vec<DisplayInfo> = Vec::new();
        let mut i: usize = 0;
        while i < ls.len()
            invariant
                0 <= i <= ls.len(),
                views(ls@) == lines(stdout@),
                pat@ == " connected"@,
                f == (|l: Seq<char>| display_row(l)),
                out@.map_values(|d: DisplayInfo| d.record()) == filter_map(views(ls@).take(i as int), f),
            decreases ls.len() - i,
        {
            proof {
                lemma_filter_map_step(views(ls@), f, i as int);
            }
            if contains_pat(&ls[i], &pat) {
                let fs = split_whitespace(&ls[i]);
                if fs.len() > 0 {
                    let mut k: usize = 0;
                    while k < fs.len() && !contains_char(&fs[k], 'x')
                        invariant
                            0 <= k <= fs.len(),
                            first_with_x(views(fs@), 0) == first_with_x(views(fs@), k as int),
                        decreases fs.len() - k,
                    {
                        k += 1;
                    }
                    let res = if k < fs.len() {
                        string_of(&fs[k])
                    } else {
                        owned("unknown")
                    };
                    let d = DisplayInfo { name: string_of(&fs[0]), connected: true, resolution: res };
                    let ghost rec = d.record();
                    out.push(d);
                    assert(out@.map_values(|d: DisplayInfo| d.record()) =~= filter_map(views(ls@).take(i as int), f).push(rec));
                }
            }
            i += 1;
        }
        assert(views(ls@).take(ls.len() as int) =~= views(ls@));
        out
    }
}

impl ExecutableCommand for GuiListDisplaysCommand {
    open spec fn text(&self) -> Seq<char> {
        "xrandr --query || wlr-randr"@
    }

    open spec fn structured(&self) -> bool {
        is_structured_format(self.format)
    }

    fn as_string(&self) -> (r: String) {
        owned("xrandr --query || wlr-randr")
    }

    fn is_structured(&self) -> (r: bool) {
        self.format.structured()
    }
}

} // verus!
