# ao

`ao` ("Admin Operation") is one command line for administering Linux and
macOS systems: packages, services, users and groups, disks and partitions,
networking, logs, devices, containers, boot entries and more, with the same
words on every distribution.

The crate is written in Verus. The library under `src/` decides what `ao`
does and proves it:

- `cli` holds the parsed command line as plain values;
- `os` maps each domain's invocation to the command that runs, parses what
  the system tools print into records, and detects the system
  (`os::detector`); `os::linux_generic` holds the tools that Linux systems
  share, `os::macos` the macOS ones;
- `shell` holds the completion protocol and the interactive mode's checks;
- `dashboard` holds the state machine of the live dashboard: navigation,
  key handling, process filtering, the sorted process lists
  (`dashboard::order`), the process tree with its subtree totals
  (`dashboard::forest`) and its rows, histories; the CPU shares are
  floating-point measurements that the program orders and sums itself;
- `text`, `num` and `sort` are the string, number and ordering helpers the
  rest is proved with;
- `config` is the settings model and its defaults.

`app/` is the program around it: argument parsing with `clap`, spawning the
tools, reading files, and printing tables, JSON and YAML.
