use ao_cli::dashboard::app::push_history;
use ao_cli::dashboard::utils::format_uptime;
use ao_cli::os::linux_generic::common::{CompoundCommand, CompoundNext, LogHeaderCommand, Step, SystemCommand};
use ao_cli::os::linux_generic::monitor::is_cpu_sensor;

#[test]
fn compound_commands_stop_at_the_first_failure() {
    let c = CompoundCommand::new(vec![
        Step::Header(LogHeaderCommand { text: "Kernel".to_string() }),
        Step::Run(SystemCommand::new("uname").arg("-r")),
    ]);
    assert_eq!(c.next_step(0, false), CompoundNext::Run(0));
    assert_eq!(c.next_step(1, false), CompoundNext::Run(1));
    assert_eq!(c.next_step(2, false), CompoundNext::Finish);
    assert_eq!(c.next_step(2, true), CompoundNext::Stop);
    assert_eq!(c.next_step(1, true), CompoundNext::Stop);
    assert_eq!(CompoundCommand::new(vec![]).next_step(0, false), CompoundNext::Finish);
}

#[test]
fn processor_sensors_name_a_cpu_or_a_core() {
    assert!(is_cpu_sensor("CPU Package"));
    assert!(is_cpu_sensor("Core 0"));
    assert!(is_cpu_sensor("k10temp Tctl cpu"));
    assert!(!is_cpu_sensor("nvme Composite"));
    assert!(!is_cpu_sensor("acpitz"));
    assert!(!is_cpu_sensor(""));
}

#[test]
fn uptimes_are_shown_to_the_minute() {
    assert_eq!(format_uptime(3599), "59m");
    assert_eq!(format_uptime(3540), "59m");
    assert_eq!(format_uptime(59), "0m");
    assert_eq!(format_uptime(90061), "1d 1h 1m");
    assert_eq!(format_uptime(90060), "1d 1h 1m");
    assert_eq!(format_uptime(7260), "2h 1m");
}

#[test]
fn a_full_history_loses_only_its_oldest_sample() {
    let mut h: Vec<u32> = (0..60).collect();
    push_history(&mut h, 60);
    assert_eq!(h, (1..61).collect::<Vec<u32>>());
    let mut short: Vec<u32> = vec![1, 2];
    push_history(&mut short, 3);
    assert_eq!(short, vec![1, 2, 3]);
}
