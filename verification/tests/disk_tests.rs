use ao_cli::os::linux_generic::disk::DiskListCommand;
use ao_cli::os::linux_generic::monitor::LiveStatsCommand;
use ao_cli::os::DiskInfo;

fn disk(name: &str, device_type: &str, rota: bool, tran: Option<&str>) -> DiskInfo {
    DiskInfo {
        name: name.to_string(),
        path: format!("/dev/{}", name),
        size: "1T".to_string(),
        mountpoint: None,
        fstype: None,
        device_type: device_type.to_string(),
        rota,
        tran: tran.map(|t| t.to_string()),
        children: None,
    }
}

#[test]
fn transport_is_shown_in_capitals() {
    assert_eq!(DiskListCommand::transport(&disk("sda", "disk", true, Some("sata"))), "SATA");
    assert_eq!(DiskListCommand::transport(&disk("nvme0n1", "disk", false, Some("nvme"))), "NVME");
    assert_eq!(DiskListCommand::transport(&disk("loop0", "loop", false, None)), "UNKNOWN");
}

#[test]
fn medium_tells_loop_rotating_and_solid_state_apart() {
    assert_eq!(DiskListCommand::medium(&disk("loop0", "loop", true, None)), "Loop");
    assert_eq!(DiskListCommand::medium(&disk("sda", "disk", true, Some("sata"))), "HDD");
    assert_eq!(DiskListCommand::medium(&disk("sdb", "disk", false, Some("usb"))), "SSD");
}

#[test]
fn smart_health_is_read_from_the_json_report() {
    assert_eq!(DiskListCommand::smart_status(Some(r#"{"smart_status":{"passed":true}}"#)), "PASSED");
    assert_eq!(DiskListCommand::smart_status(Some(r#"{"smart_status":{"passed":false}}"#)), "FAILED");
    assert_eq!(DiskListCommand::smart_status(Some(r#"{"smart_status":{}}"#)), "Unknown");
    assert_eq!(DiskListCommand::smart_status(Some("not json")), "Unknown");
    assert_eq!(DiskListCommand::smart_status(None), "Unknown");
}

#[test]
fn subtype_symbols_ignore_case() {
    assert_eq!(LiveStatsCommand::subtype_symbol("PHYSICAL"), LiveStatsCommand::subtype_symbol("physical"));
    assert_eq!(LiveStatsCommand::subtype_symbol("Wireless"), "📶");
    assert_eq!(LiveStatsCommand::subtype_symbol("Virtual"), "☁️");
    assert_eq!(LiveStatsCommand::subtype_symbol("Removable"), "📟");
}
