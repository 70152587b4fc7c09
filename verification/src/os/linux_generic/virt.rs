//! Containers.
use vstd::prelude::*;

use super::common::SystemCommand;
use crate::cli::{OutputFormat, VirtualizationAction, VirtualizationArgs, is_structured_format};
use crate::os::{AnyCommand, AoError, ContainerInfo, ExecutableCommand};
use crate::text::{filter_map, lemma_filter_map_step, lines, lines_of, owned, split_char, split_on, string_of, views};

verus! {

/// The virtualization domain on Docker.
pub struct StandardVirt;

/// `docker` on one container.
pub open spec fn docker_runs(c: SystemCommand, verb: Seq<Seq<char>>, name: Seq<char>) -> bool {
    c.runs("docker"@, verb + seq!["--"@, name])
}

pub open spec fn virt_ls_plan(format: OutputFormat, c: AnyCommand) -> bool {
    if format == OutputFormat::Original {
        c matches AnyCommand::System(s) && s.runs("docker"@, seq!["ps"@])
    } else {
        c == AnyCommand::VirtPs(VirtPsCommand { format })
    }
}

impl StandardVirt {
    /// Maps a parsed `virtualization` invocation to its command.
    pub fn execute(&self, args: &VirtualizationArgs) -> (r: Result<AnyCommand, AoError>)
        ensures
            r matches Ok(c) && match args.action {
                Some(VirtualizationAction::List { format }) => virt_ls_plan(format, c),
                Some(VirtualizationAction::Start { name }) => c matches AnyCommand::System(s)
                    && docker_runs(s, seq!["start"@], name@),
                Some(VirtualizationAction::Stop { name }) => c matches AnyCommand::System(s)
                    && docker_runs(s, seq!["stop"@], name@),
                Some(VirtualizationAction::Remove { name }) => c matches AnyCommand::System(s)
                    && docker_runs(s, seq!["rm"@, "-f"@], name@),
                Some(VirtualizationAction::Logs { name }) => c matches AnyCommand::System(s)
                    && docker_runs(s, seq!["logs"@, "-f"@], name@),
                None => virt_ls_plan(OutputFormat::Table, c),
            },
    {
        match &args.action {
            Some(VirtualizationAction::List { format }) => self.ls(*format),
            Some(VirtualizationAction::Start { name }) => self.start(name.as_str()),
            Some(VirtualizationAction::Stop { name }) => self.stop(name.as_str()),
            Some(VirtualizationAction::Remove { name }) => self.del(name.as_str()),
            Some(VirtualizationAction::Logs { name }) => self.logs(name.as_str()),
            None => self.ls(OutputFormat::Table),
        }
    }

    /// The containers; the original output is `docker ps`.
    pub fn ls(&self, format: OutputFormat) -> (r: Result<AnyCommand, AoError>)
        ensures
            r matches Ok(c) && virt_ls_plan(format, c),
    {
        if matches!(format, OutputFormat::Original) {
            return Ok(AnyCommand::System(SystemCommand::new("docker").arg("ps")));
        }
        Ok(AnyCommand::VirtPs(VirtPsCommand { format }))
    }

    pub fn start(&self, name: &str) -> (r: Result<AnyCommand, AoError>)
        ensures
            r matches Ok(AnyCommand::System(s)) && docker_runs(s, seq!["start"@], name@),
    {
        Ok(AnyCommand::System(SystemCommand::new("docker").arg("start").arg("--").arg(name)))
    }

    pub fn stop(&self, name: &str) -> (r: Result<AnyCommand, AoError>)
        ensures
            r matches Ok(AnyCommand::System(s)) && docker_runs(s, seq!["stop"@], name@),
    {
        Ok(AnyCommand::System(SystemCommand::new("docker").arg("stop").arg("--").arg(name)))
    }

    pub fn del(&self, name: &str) -> (r: Result<AnyCommand, AoError>)
        ensures
            r matches Ok(AnyCommand::System(s)) && docker_runs(s, seq!["rm"@, "-f"@], name@),
    {
        Ok(AnyCommand::System(SystemCommand::new("docker").arg("rm").arg("-f").arg("--").arg(name)))
    }

    pub fn logs(&self, name: &str) -> (r: Result<AnyCommand, AoError>)
        ensures
            r matches Ok(AnyCommand::System(s)) && docker_runs(s, seq!["logs"@, "-f"@], name@),
    {
        Ok(AnyCommand::System(SystemCommand::new("docker").arg("logs").arg("-f").arg("--").arg(name)))
    }
}

/// Lists the running containers.
pub struct VirtPsCommand {
    pub format: OutputFormat,
}

impl ContainerInfo {
    /// Id, image, command, creation, status and names.
    pub open spec fn cells(&self) -> Seq<Seq<char>> {
        seq![self.id@, self.image@, self.command@, self.created@, self.status@, self.names@]
    }
}

/// A container of the tab-separated listing: lines of at least six fields.
pub open spec fn container_row(line: Seq<char>) -> Option<Seq<Seq<char>>> {
    let p = split_on(line, '\t');
    if p.len() >= 6 {
        Some(seq![p[0], p[1], p[2], p[3], p[4], p[5]])
    } else {
        None
    }
}

pub open spec fn container_rows(out: Seq<char>) -> Seq<Seq<Seq<char>>> {
    filter_map(lines(out), |l: Seq<char>| container_row(l))
}

impl VirtPsCommand {
    /// The command whose output is parsed.
    pub fn query(&self) -> (r: SystemCommand)
        ensures
            r.runs(
                "docker"@,
                seq!["ps"@, "--format"@, "{{.ID}}\t{{.Image}}\t{{.Command}}\t{{.CreatedAt}}\t{{.Status}}\t{{.Names}}"@],
            ),
    {
        SystemCommand::new("docker").arg("ps").arg("--format").arg(
            "{{.ID}}\t{{.Image}}\t{{.Command}}\t{{.CreatedAt}}\t{{.Status}}\t{{.Names}}",
        )
    }

    /// The containers of the listing.
    pub fn parse(stdout: &str) -> (r: Vec<ContainerInfo>)
        ensures
            r@.map_values(|c: ContainerInfo| c.cells()) == container_rows(stdout@),
    {
        let ls = lines_of(stdout);
        let ghost f = |l: Seq<char>| container_row(l);
        let mut out: Vec<ContainerInfo> = Vec::new();
        let mut i: usize = 0;
        while i < ls.len()
            invariant
                0 <= i <= ls.len(),
                views(ls@) == lines(stdout@),
                f == (|l: Seq<char>| container_row(l)),
                out@.map_values(|c: ContainerInfo| c.cells()) == filter_map(views(ls@).take(i as int), f),
            decreases ls.len() - i,
        {
            proof {
                lemma_filter_map_step(views(ls@), f, i as int);
            }
            let p = split_char(&ls[i], '\t');
            if p.len() >= 6 {
                let c = ContainerInfo {
                    id: string_of(&p[0]),
                    image: string_of(&p[1]),
                    command: string_of(&p[2]),
                    created: string_of(&p[3]),
                    status: string_of(&p[4]),
                    names: string_of(&p[5]),
                };
                let ghost cells = c.cells();
                assert(cells =~= container_row(views(ls@)[i as int]).unwrap());
                out.push(c);
                assert(out@.map_values(|c: ContainerInfo| c.cells()) =~= filter_map(views(ls@).take(i as int), f).push(cells));
            }
            i += 1;
        }
        assert(views(ls@).take(ls.len() as int) =~= views(ls@));
        out
    }

    /// A container's row in the table: id, image, status and names.
    pub fn row(c: &ContainerInfo) -> (r: Vec<String>)
        ensures
            r@.map_values(|s: String| s@) == seq![c.id@, c.image@, c.status@, c.names@],
    {
        let v = vec![c.id.clone(), c.image.clone(), c.status.clone(), c.names.clone()];
        assert(v@.map_values(|s: String| s@) =~= seq![c.id@, c.image@, c.status@, c.names@]);
        v
    }
}

impl ExecutableCommand for VirtPsCommand {
    open spec fn text(&self) -> Seq<char> {
        "docker ps"@
    }

    open spec fn structured(&self) -> bool {
        is_structured_format(self.format)
    }

    fn as_string(&self) -> (r: String) {
        owned("docker ps")
    }

    fn is_structured(&self) -> (r: bool) {
        self.format.structured()
    }
}

} // verus!
