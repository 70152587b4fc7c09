//! Building blocks shared by every domain: a plain system command and its
//! builder, sequences of commands, completion matching, and the renderings
//! of durations and byte counts.
use vstd::prelude::*;

use crate::num::{dec, dec_string, f64_of, f64_value, fixed2, fixed2_chars};
use crate::os::ExecutableCommand;
use crate::text::{join, join_strings, owned, str_eq, string_of, string_views};

verus! {

/// A program with its arguments, the text to feed its standard input, and
/// whether a failing exit status is tolerated.
pub struct SystemCommand {
    pub binary: String,
    pub args: Vec<String>,
    pub stdin_data: Option<String>,
    pub ignore_exit_code: bool,
}

/// The characters of an optional string.
pub open spec fn opt_view(o: Option<String>) -> Option<Seq<char>> {
    match o {
        Some(s) => Some(s@),
        None => None,
    }
}

/// The text of a command without the space that follows a program run
/// with no arguments.
pub open spec fn shown_line(binary: Seq<char>, argv: Seq<Seq<char>>) -> Seq<char> {
    if argv.len() > 0 {
        command_line(binary, argv)
    } else {
        binary
    }
}

impl SystemCommand {
    /// The arguments as character sequences.
    pub open spec fn argv(&self) -> Seq<Seq<char>> {
        string_views(self.args@)
    }

    /// Whether the command runs `binary` with exactly the arguments `argv`,
    /// no input and a strict exit status.
    pub open spec fn runs(&self, binary: Seq<char>, argv: Seq<Seq<char>>) -> bool {
        &&& self.binary@ == binary
        &&& self.argv() =~= argv
        &&& self.stdin_data is None
        &&& !self.ignore_exit_code
    }

    /// A command that runs `binary` with no arguments.
    pub fn new(binary: &str) -> (r: Self)
        ensures
            r.runs(binary@, seq![]),
    {
        let r = SystemCommand {
            binary: owned(binary),
            args: Vec::new(),
            stdin_data: None,
            ignore_exit_code: false,
        };
        assert(r.argv() =~= seq![]);
        r
    }

    /// The same command, with any exit status accepted.
    pub fn ignore_exit_code(self) -> (r: Self)
        ensures
            r.binary@ == self.binary@,
            r.argv() == self.argv(),
            opt_view(r.stdin_data) == opt_view(self.stdin_data),
            r.ignore_exit_code,
    {
        let mut s = self;
        s.ignore_exit_code = true;
        s
    }

    /// The same command with one more argument; its text grows by a space
    /// and the argument.
    pub fn arg(self, arg: &str) -> (r: Self)
        ensures
            r.binary@ == self.binary@,
            r.argv() == self.argv().push(arg@),
            opt_view(r.stdin_data) == opt_view(self.stdin_data),
            r.ignore_exit_code == self.ignore_exit_code,
            r.text() == shown_line(self.binary@, self.argv()) + " "@ + arg@,
    {
        let mut s = self;
        s.args.push(owned(arg));
        assert(s.argv() =~= self.argv().push(arg@));
        proof {
            lemma_shown_push(self.binary@, self.argv(), arg@);
        }
        s
    }

    /// The same command with the given arguments appended, in order.
    pub fn args(self, args: &[String]) -> (r: Self)
        ensures
            r.binary@ == self.binary@,
            r.argv() == self.argv() + string_views(args@),
            opt_view(r.stdin_data) == opt_view(self.stdin_data),
            r.ignore_exit_code == self.ignore_exit_code,
    {
        let mut s = self;
        let mut i: usize = 0;
        while i < args.len()
            invariant
                0 <= i <= args.len(),
                s.binary@ == self.binary@,
                s.args@.len() == self.args@.len() + i,
                forall|j: int| 0 <= j < self.args@.len() ==> s.args@[j]@ == self.args@[j]@,
                forall|j: int| 0 <= j < i ==> s.args@[self.args@.len() + j]@ == args@[j]@,
                opt_view(s.stdin_data) == opt_view(self.stdin_data),
                s.ignore_exit_code == self.ignore_exit_code,
            decreases args.len() - i,
        {
            let a = args[i].clone();
            s.args.push(a);
            i += 1;
        }
        assert(s.argv() =~= self.argv() + string_views(args@));
        s
    }

    /// The same command, fed `data` on its standard input.
    pub fn stdin(self, data: &str) -> (r: Self)
        ensures
            r.binary@ == self.binary@,
            r.argv() == self.argv(),
            opt_view(r.stdin_data) == Some(data@),
            r.ignore_exit_code == self.ignore_exit_code,
    {
        let mut s = self;
        s.stdin_data = Some(owned(data));
        s
    }
}

/// The text of a plain command: the program, a space, and the arguments
/// separated by spaces.
pub open spec fn command_line(binary: Seq<char>, argv: Seq<Seq<char>>) -> Seq<char> {
    binary + " "@ + join(argv, " "@)
}

/// One more argument lengthens the text by a space and the argument.
pub proof fn lemma_line_push(binary: Seq<char>, argv: Seq<Seq<char>>, a: Seq<char>)
    requires
        argv.len() > 0,
    ensures
        command_line(binary, argv.push(a)) == command_line(binary, argv) + " "@ + a,
{
    assert(argv.push(a).drop_last() =~= argv);
    assert(binary + " "@ + (join(argv, " "@) + " "@ + a) =~= binary + " "@ + join(argv, " "@) + " "@ + a);
}

/// One more argument lengthens the shown text by a space and the argument,
/// also when there was none.
pub proof fn lemma_shown_push(binary: Seq<char>, argv: Seq<Seq<char>>, a: Seq<char>)
    ensures
        shown_line(binary, argv.push(a)) == shown_line(binary, argv) + " "@ + a,
        command_line(binary, argv.push(a)) == shown_line(binary, argv) + " "@ + a,
{
    if argv.len() > 0 {
        lemma_line_push(binary, argv, a);
    } else {
        assert(argv.push(a) =~= seq![a]);
        lemma_line_one(binary, a);
    }
}

/// The text of a command with one argument.
pub proof fn lemma_line_one(binary: Seq<char>, a: Seq<char>)
    ensures
        command_line(binary, seq![a]) == binary + " "@ + a,
{
}

/// The text of a command with two arguments.
pub proof fn lemma_line_two(b: Seq<char>, a1: Seq<char>, a2: Seq<char>)
    ensures
        command_line(b, seq![a1, a2]) == b + " "@ + a1 + " "@ + a2,
{
    lemma_line_push(b, seq![a1], a2);
    assert(seq![a1].push(a2) =~= seq![a1, a2]);
}

/// The text of a command with three arguments.
pub proof fn lemma_line_three(b: Seq<char>, a1: Seq<char>, a2: Seq<char>, a3: Seq<char>)
    ensures
        command_line(b, seq![a1, a2, a3]) == b + " "@ + a1 + " "@ + a2 + " "@ + a3,
{
    lemma_line_two(b, a1, a2);
    lemma_line_push(b, seq![a1, a2], a3);
    assert(seq![a1, a2].push(a3) =~= seq![a1, a2, a3]);
}

/// The text of a command with four arguments.
pub proof fn lemma_line_four(b: Seq<char>, a1: Seq<char>, a2: Seq<char>, a3: Seq<char>, a4: Seq<char>)
    ensures
        command_line(b, seq![a1, a2, a3, a4]) == b + " "@ + a1 + " "@ + a2 + " "@ + a3 + " "@ + a4,
{
    lemma_line_three(b, a1, a2, a3);
    lemma_line_push(b, seq![a1, a2, a3], a4);
    assert(seq![a1, a2, a3].push(a4) =~= seq![a1, a2, a3, a4]);
}

/// The text of a command with five arguments.
pub proof fn lemma_line_five(b: Seq<char>, a1: Seq<char>, a2: Seq<char>, a3: Seq<char>, a4: Seq<char>, a5: Seq<char>)
    ensures
        command_line(b, seq![a1, a2, a3, a4, a5]) == b + " "@ + a1 + " "@ + a2 + " "@ + a3 + " "@ + a4 + " "@ + a5,
{
    lemma_line_four(b, a1, a2, a3, a4);
    lemma_line_push(b, seq![a1, a2, a3, a4], a5);
    assert(seq![a1, a2, a3, a4].push(a5) =~= seq![a1, a2, a3, a4, a5]);
}

impl ExecutableCommand for SystemCommand {
    open spec fn text(&self) -> Seq<char> {
        command_line(self.binary@, self.argv())
    }

    open spec fn structured(&self) -> bool {
        false
    }

    fn as_string(&self) -> (r: String) {
        let mut r = String::from_str(self.binary.as_str());
        r.append(" ");
        let rest = join_strings(&self.args, " ");
        r.append(rest.as_str());
        r
    }

    fn is_structured(&self) -> (r: bool) {
        false
    }
}

/// A banner printed between the parts of a longer output.
pub struct LogHeaderCommand {
    pub text: String,
}

impl ExecutableCommand for LogHeaderCommand {
    open spec fn text(&self) -> Seq<char> {
        "echo --- "@ + self.text@ + " ---"@
    }

    open spec fn structured(&self) -> bool {
        false
    }

    fn as_string(&self) -> (r: String) {
        let mut r = String::from_str("echo --- ");
        r.append(self.text.as_str());
        r.append(" ---");
        r
    }

    fn is_structured(&self) -> (r: bool) {
        false
    }
}

/// One part of a sequence of commands.
pub enum Step {
    Run(SystemCommand),
    Header(LogHeaderCommand),
}

impl ExecutableCommand for Step {
    open spec fn text(&self) -> Seq<char> {
        match self {
            Step::Run(c) => c.text(),
            Step::Header(c) => c.text(),
        }
    }

    open spec fn structured(&self) -> bool {
        false
    }

    fn as_string(&self) -> (r: String) {
        match self {
            Step::Run(c) => c.as_string(),
            Step::Header(c) => c.as_string(),
        }
    }

    fn is_structured(&self) -> (r: bool) {
        false
    }
}

/// The texts of a sequence of steps.
pub open spec fn step_texts(s: Seq<Step>) -> Seq<Seq<char>> {
    s.map_values(|c: Step| c.text())
}

/// Commands run one after the other; the first failure stops the rest.
pub struct CompoundCommand {
    pub commands: Vec<Step>,
}

impl CompoundCommand {
    pub fn new(commands: Vec<Step>) -> (r: Self)
        ensures
            r.commands@ == commands@,
    {
        CompoundCommand { commands }
    }

    /// What running the steps does next, after `ran` of them and with
    /// `failed` telling whether the last one failed: stop at the first
    /// failure, else run the next step in order, else finish.
    pub fn next_step(&self, ran: usize, failed: bool) -> (r: CompoundNext)
        ensures
            failed ==> r == CompoundNext::Stop,
            !failed && ran < self.commands@.len() ==> r == CompoundNext::Run(ran),
            !failed && ran >= self.commands@.len() ==> r == CompoundNext::Finish,
    {
        if failed {
            CompoundNext::Stop
        } else if ran < self.commands.len() {
            CompoundNext::Run(ran)
        } else {
            CompoundNext::Finish
        }
    }
}

/// The next thing to do while running a compound command.
#[derive(Clone, Copy, Debug, PartialEq, Eq, Structural)]
pub enum CompoundNext {
    /// Run the step at this place.
    Run(usize),
    /// Every step ran: the command succeeded.
    Finish,
    /// A step failed: the command fails with its error.
    Stop,
}

impl ExecutableCommand for CompoundCommand {
    open spec fn text(&self) -> Seq<char> {
        join(step_texts(self.commands@), " && "@)
    }

    open spec fn structured(&self) -> bool {
        false
    }

    fn as_string(&self) -> (r: String) {
        let mut texts: Vec<String> = Vec::new();
        let mut i: usize = 0;
        while i < self.commands.len()
            invariant
                0 <= i <= self.commands.len(),
                texts@.len() == i,
                forall|j: int| 0 <= j < i ==> texts@[j]@ == self.commands@[j].text(),
            decreases self.commands.len() - i,
        {
            let t = self.commands[i].as_string();
            texts.push(t);
            i += 1;
        }
        assert(string_views(texts@) =~= step_texts(self.commands@));
        join_strings(&texts, " && ")
    }

    fn is_structured(&self) -> (r: bool) {
        false
    }
}

/// A command that does nothing.
pub struct NoopCommand;

impl ExecutableCommand for NoopCommand {
    open spec fn text(&self) -> Seq<char> {
        seq![]
    }

    open spec fn structured(&self) -> bool {
        false
    }

    fn as_string(&self) -> (r: String) {
        String::new()
    }

    fn is_structured(&self) -> (r: bool) {
        false
    }
}

/// The characters of each string slice of a list.
pub open spec fn str_views(s: Seq<&str>) -> Seq<Seq<char>> {
    s.map_values(|w: &str| w@)
}

/// Whether the words typed so far are the command `cmd_parts` followed by
/// exactly `arg_pos` further words.
pub open spec fn completing_arg(words: Seq<Seq<char>>, cmd_parts: Seq<Seq<char>>, arg_pos: nat) -> bool {
    &&& cmd_parts.len() <= words.len()
    &&& words.take(cmd_parts.len() as int) == cmd_parts
    &&& words.len() - cmd_parts.len() == arg_pos
}

/// Whether the words typed so far complete the argument at `arg_pos` of
/// the command `cmd_parts`.
pub fn is_completing_arg(words: &[&str], cmd_parts: &[&str], arg_pos: usize, _last_word_complete: bool) -> (r: bool)
    ensures
        r == completing_arg(str_views(words@), str_views(cmd_parts@), arg_pos as nat),
{
    let ghost w = str_views(words@);
    let ghost c = str_views(cmd_parts@);
    if words.len() < cmd_parts.len() {
        return false;
    }
    let mut i: usize = 0;
    while i < cmd_parts.len()
        invariant
            cmd_parts@.len() <= words@.len(),
            w == str_views(words@),
            c == str_views(cmd_parts@),
            0 <= i <= cmd_parts@.len(),
            forall|j: int| 0 <= j < i ==> w[j] == c[j],
        decreases cmd_parts.len() - i,
    {
        if !str_eq(words[i], cmd_parts[i]) {
            assert(w.take(c.len() as int)[i as int] != c[i as int]);
            return false;
        }
        i += 1;
    }
    assert(w.take(c.len() as int) =~= c);
    words.len() - cmd_parts.len() == arg_pos
}

/// The parts of a duration of `seconds`: whole days, hours, minutes and
/// seconds, each left out when zero, except that a duration with no other
/// part shows its seconds.
pub open spec fn duration_parts(seconds: nat) -> Seq<Seq<char>> {
    let days = seconds / 86400;
    let hours = (seconds % 86400) / 3600;
    let minutes = (seconds % 3600) / 60;
    let secs = seconds % 60;
    let p1: Seq<Seq<char>> = if days > 0 { seq![dec(days) + "d"@] } else { seq![] };
    let p2 = if hours > 0 { p1.push(dec(hours) + "h"@) } else { p1 };
    let p3 = if minutes > 0 { p2.push(dec(minutes) + "m"@) } else { p2 };
    if secs > 0 || p3.len() == 0 { p3.push(dec(secs) + "s"@) } else { p3 }
}

/// A duration of `seconds` such as `1d 2h 3m 4s`.
pub open spec fn duration_text(seconds: nat) -> Seq<char> {
    join(duration_parts(seconds), " "@)
}

/// A number followed by a unit letter.
fn with_unit(n: u64, unit: &str) -> (r: String)
    ensures
        r@ == dec(n as nat) + unit@,
{
    let mut s = dec_string(n);
    s.append(unit);
    s
}

/// Renders a duration given in seconds as days, hours, minutes and seconds.
pub fn format_duration(seconds: u64) -> (r: String)
    ensures
        r@ == duration_text(seconds as nat),
{
    let days = seconds / 86400;
    let hours = (seconds % 86400) / 3600;
    let minutes = (seconds % 3600) / 60;
    let secs = seconds % 60;
    let mut parts: Vec<String> = Vec::new();
    let ghost p0 = string_views(parts@);
    assert(p0 =~= seq![]);
    if days > 0 {
        parts.push(with_unit(days, "d"));
    }
    let ghost p1 = string_views(parts@);
    assert(p1 =~= (if days > 0 { seq![dec(days as nat) + "d"@] } else { seq![] }));
    if hours > 0 {
        parts.push(with_unit(hours, "h"));
    }
    let ghost p2 = string_views(parts@);
    assert(p2 =~= (if hours > 0 { p1.push(dec(hours as nat) + "h"@) } else { p1 }));
    if minutes > 0 {
        parts.push(with_unit(minutes, "m"));
    }
    let ghost p3 = string_views(parts@);
    assert(p3 =~= (if minutes > 0 { p2.push(dec(minutes as nat) + "m"@) } else { p2 }));
    if secs > 0 || parts.len() == 0 {
        parts.push(with_unit(secs, "s"));
    }
    assert(string_views(parts@) =~= duration_parts(seconds as nat));
    join_strings(&parts, " ")
}

pub const KB: u64 = 1024;

pub const MB: u64 = 1048576;

pub const GB: u64 = 1073741824;

pub const TB: u64 = 1099511627776;

/// `bytes` in the largest binary unit (up to terabytes) that it reaches,
/// with two decimals (`{:.2}` of the `f64` quotient); below a kilobyte, the
/// plain number of bytes.
pub open spec fn bytes_text(bytes: nat) -> Seq<char> {
    if bytes >= TB {
        fixed2(f64_value(bytes), TB as nat) + " TB"@
    } else if bytes >= GB {
        fixed2(f64_value(bytes), GB as nat) + " GB"@
    } else if bytes >= MB {
        fixed2(f64_value(bytes), MB as nat) + " MB"@
    } else if bytes >= KB {
        fixed2(f64_value(bytes), KB as nat) + " KB"@
    } else {
        dec(bytes) + " B"@
    }
}

/// The value of `bytes` in units of `unit`, with two decimals, then `suffix`.
pub fn scaled(bytes: u64, unit: u64, suffix: &str) -> (r: String)
    requires
        unit >= 1024,
    ensures
        r@ == fixed2(f64_value(bytes as nat), unit as nat) + suffix@,
{
    let v = f64_of(bytes);
    let digits = fixed2_chars(v, unit as u128);
    let mut s = string_of(&digits);
    s.append(suffix);
    s
}

/// Renders a byte count in B, KB, MB, GB or TB.
pub fn format_bytes(bytes: u64) -> (r: String)
    ensures
        r@ == bytes_text(bytes as nat),
{
    if bytes >= TB {
        scaled(bytes, TB, " TB")
    } else if bytes >= GB {
        scaled(bytes, GB, " GB")
    } else if bytes >= MB {
        scaled(bytes, MB, " MB")
    } else if bytes >= KB {
        scaled(bytes, KB, " KB")
    } else {
        with_unit(bytes, " B")
    }
}

/// The symbols used to mark states and kinds in tables.
#[derive(Clone, Copy, Debug, PartialEq, Eq, Structural)]
pub enum Emoji {
    Up,
    Down,
    Unknown,
    Physical,
    Wireless,
    Virtual,
    Cpu,
    Ram,
    Network,
    Disk,
    Used,
    Total,
    Pci,
    Usb,
    Loop,
    Nvme,
    Ssd,
    Hdd,
    Printer,
}

pub open spec fn emoji_text(e: Emoji) -> Seq<char> {
    match e {
        Emoji::Up => "🟢"@,
        Emoji::Down => "🔴"@,
        Emoji::Unknown => "🟡"@,
        Emoji::Physical => "🏗️"@,
        Emoji::Wireless => "📶"@,
        Emoji::Virtual => "☁️"@,
        Emoji::Cpu => "💻"@,
        Emoji::Ram => "🧠"@,
        Emoji::Network => "🌐"@,
        Emoji::Disk => "💾"@,
        Emoji::Used => "⬛"@,
        Emoji::Total => "⬜"@,
        Emoji::Pci => "🏗️"@,
        Emoji::Usb => "🔌"@,
        Emoji::Loop => "🔁"@,
        Emoji::Nvme => "🚀"@,
        Emoji::Ssd => "⚡"@,
        Emoji::Hdd => "💾"@,
        Emoji::Printer => "🖨️"@,
    }
}

impl Emoji {
    /// The symbol.
    pub fn get(&self) -> (r: &'static str)
        ensures
            r@ == emoji_text(*self),
    {
        match self {
            Emoji::Up => "🟢",
            Emoji::Down => "🔴",
            Emoji::Unknown => "🟡",
            Emoji::Physical => "🏗️",
            Emoji::Wireless => "📶",
            Emoji::Virtual => "☁️",
            Emoji::Cpu => "💻",
            Emoji::Ram => "🧠",
            Emoji::Network => "🌐",
            Emoji::Disk => "💾",
            Emoji::Used => "⬛",
            Emoji::Total => "⬜",
            Emoji::Pci => "🏗️",
            Emoji::Usb => "🔌",
            Emoji::Loop => "🔁",
            Emoji::Nvme => "🚀",
            Emoji::Ssd => "⚡",
            Emoji::Hdd => "💾",
            Emoji::Printer => "🖨️",
        }
    }
}

} // verus!
