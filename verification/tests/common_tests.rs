use ao_cli::os::linux_generic::common::{
    format_bytes, format_duration, is_completing_arg, CompoundCommand, Emoji, LogHeaderCommand, NoopCommand, Step,
    SystemCommand,
};
use ao_cli::os::ExecutableCommand;

#[test]
fn test_format_bytes() {
    assert_eq!(format_bytes(0), "0 B");
    assert_eq!(format_bytes(512), "512 B");
    assert_eq!(format_bytes(1024), "1.00 KB");
    assert_eq!(format_bytes(1536), "1.50 KB");
    assert_eq!(format_bytes(1024 * 1024), "1.00 MB");
    assert_eq!(format_bytes(1024 * 1024 * 1024), "1.00 GB");
    assert_eq!(format_bytes(1024 * 1024 * 1024 * 1024), "1.00 TB");
    assert_eq!(format_bytes(1024 * 1024 * 1024 * 1024 + 256 * 1024 * 1024 * 1024), "1.25 TB");
}

#[test]
fn bytes_round_half_to_even_at_the_second_decimal() {
    // 1029 / 1024 = 1.0048828125, which rounds down.
    assert_eq!(format_bytes(1029), "1.00 KB");
    // 1030 / 1024 = 1.005859375, which rounds up.
    assert_eq!(format_bytes(1030), "1.01 KB");
    assert_eq!(format_bytes(u64::MAX), "16777216.00 TB");
}

#[test]
fn durations_leave_out_zero_parts() {
    assert_eq!(format_duration(0), "0s");
    assert_eq!(format_duration(59), "59s");
    assert_eq!(format_duration(60), "1m");
    assert_eq!(format_duration(3661), "1h 1m 1s");
    assert_eq!(format_duration(86400 + 5), "1d 5s");
    assert_eq!(format_duration(90061), "1d 1h 1m 1s");
}

#[test]
fn a_command_line_is_the_program_and_its_arguments() {
    let c = SystemCommand::new("apt-get").arg("install").arg("-y").args(&["vim".to_string(), "git".to_string()]);
    assert_eq!(c.binary, "apt-get");
    assert_eq!(c.args, vec!["install", "-y", "vim", "git"]);
    assert_eq!(c.as_string(), "apt-get install -y vim git");
    assert!(!c.is_structured());
    assert!(!c.ignore_exit_code);
    assert!(c.stdin_data.is_none());
    let bare = SystemCommand::new("date");
    assert_eq!(bare.as_string(), "date ");
}

#[test]
fn input_and_exit_status_are_kept() {
    let c = SystemCommand::new("chpasswd").stdin("alice:secret").ignore_exit_code();
    assert_eq!(c.stdin_data.as_deref(), Some("alice:secret"));
    assert!(c.ignore_exit_code);
    assert!(c.args.is_empty());
}

#[test]
fn compound_commands_join_with_and() {
    let c = CompoundCommand::new(vec![
        Step::Header(LogHeaderCommand { text: "Kernel".to_string() }),
        Step::Run(SystemCommand::new("uname").arg("-r")),
    ]);
    assert_eq!(c.as_string(), "echo --- Kernel --- && uname -r");
    assert_eq!(CompoundCommand::new(vec![]).as_string(), "");
    assert_eq!(NoopCommand.as_string(), "");
}

#[test]
fn completion_matches_the_command_and_the_position() {
    let words = ["ao", "service", "up", "cr"];
    assert!(is_completing_arg(&words, &["ao", "service", "up"], 1, false));
    assert!(!is_completing_arg(&words, &["ao", "service", "down"], 1, false));
    assert!(!is_completing_arg(&words, &["ao", "service", "up"], 2, false));
    assert!(!is_completing_arg(&["ao"], &["ao", "service"], 0, false));
}

#[test]
fn emojis_are_fixed_symbols() {
    assert_eq!(Emoji::Up.get(), "🟢");
    assert_eq!(Emoji::Down.get(), "🔴");
    assert_eq!(Emoji::Disk.get(), Emoji::Hdd.get());
    assert_eq!(Emoji::Printer.get(), "🖨️");
}
