//! Connected devices: PCI, USB, Bluetooth and printers.
use vstd::prelude::*;

use super::common::{Emoji, SystemCommand, emoji_text};
use crate::cli::{BluetoothAction, DeviceAction, DeviceArgs, OutputFormat, PrintAction, is_structured_format};
use crate::os::{AnyCommand, AoError, DevManager, DeviceInfo, ExecutableCommand, PrinterInfo};
use crate::text::{
    chars_of, fields, filter_map, join, join_chars, lemma_filter_map_step, lines, lines_of, owned, parts_from,
    split_on_pat, split_pattern, split_whitespace, str_eq, string_of, trim_char, trim_matches_char, views,
};

verus! {

/// The device domain.
pub struct StandardDev;

/// The PCI listing: `lspci` itself for the original output.
pub open spec fn pci_plan(format: OutputFormat, c: AnyCommand) -> bool {
    if format == OutputFormat::Original {
        c matches AnyCommand::System(s) && s.runs("lspci"@, seq![])
    } else {
        c == AnyCommand::DevPci(DevPciCommand { format })
    }
}

/// The USB listing: `lsusb` itself for the original output.
pub open spec fn usb_plan(format: OutputFormat, c: AnyCommand) -> bool {
    if format == OutputFormat::Original {
        c matches AnyCommand::System(s) && s.runs("lsusb"@, seq![])
    } else {
        c == AnyCommand::DevUsb(DevUsbCommand { format })
    }
}

/// The printer listing: `lpstat -p` itself for the original output.
pub open spec fn printers_plan(format: OutputFormat, c: AnyCommand) -> bool {
    if format == OutputFormat::Original {
        c matches AnyCommand::System(s) && s.runs("lpstat"@, seq!["-p"@])
    } else {
        c == AnyCommand::DevPrinters(DevPrintersCommand { format })
    }
}

/// Whether `c` runs `bluetoothctl` with exactly `argv`.
pub open spec fn bluetoothctl(c: AnyCommand, argv: Seq<Seq<char>>) -> bool {
    c matches AnyCommand::System(s) && s.runs("bluetoothctl"@, argv)
}

/// The command that a device action stands for.
pub open spec fn dev_plan(action: Option<DeviceAction>, c: AnyCommand) -> bool {
    match action {
        Some(DeviceAction::List { format }) => c == AnyCommand::DevListAll(DevListAllCommand { format }),
        Some(DeviceAction::Pci { format }) => pci_plan(format, c),
        Some(DeviceAction::Usb { format }) => usb_plan(format, c),
        Some(DeviceAction::Bluetooth { action }) => match action {
            BluetoothAction::Status => bluetoothctl(c, seq!["show"@]),
            BluetoothAction::Scan => bluetoothctl(c, seq!["scan"@, "on"@]),
            BluetoothAction::Pair { address } => bluetoothctl(c, seq!["pair"@, "--"@, address@]),
            BluetoothAction::Connect { address } => bluetoothctl(c, seq!["connect"@, "--"@, address@]),
        },
        Some(DeviceAction::Print { action }) => match action {
            PrintAction::List { format } => printers_plan(format, c),
        },
        None => c == AnyCommand::DevListAll(DevListAllCommand { format: OutputFormat::Table }),
    }
}

impl StandardDev {
    /// Maps a parsed `device` invocation to its command.
    pub fn execute(&self, args: &DeviceArgs) -> (r: Result<AnyCommand, AoError>)
        ensures
            r matches Ok(c) && dev_plan(args.action, c),
    {
        match &args.action {
            Some(DeviceAction::List { format }) => self.ls(*format),
            Some(DeviceAction::Pci { format }) => self.pci(*format),
            Some(DeviceAction::Usb { format }) => self.usb(*format),
            Some(DeviceAction::Bluetooth { action }) => match action {
                BluetoothAction::Status => self.bt_status(),
                BluetoothAction::Scan => self.bt_scan(),
                BluetoothAction::Pair { address } => self.bt_pair(address.as_str()),
                BluetoothAction::Connect { address } => self.bt_connect(address.as_str()),
            },
            Some(DeviceAction::Print { action }) => match action {
                PrintAction::List { format } => self.ls_printers(*format),
            },
            None => self.ls(OutputFormat::Table),
        }
    }
}

impl DevManager for StandardDev {
    /// The summary of all devices.
    fn ls(&self, format: OutputFormat) -> (r: Result<AnyCommand, AoError>)
        ensures
            r == Ok::<AnyCommand, AoError>(AnyCommand::DevListAll(DevListAllCommand { format })),
    {
        Ok(AnyCommand::DevListAll(DevListAllCommand { format }))
    }

    fn pci(&self, format: OutputFormat) -> (r: Result<AnyCommand, AoError>)
        ensures
            r matches Ok(c) && pci_plan(format, c),
    {
        if matches!(format, OutputFormat::Original) {
            return Ok(AnyCommand::System(SystemCommand::new("lspci")));
        }
        Ok(AnyCommand::DevPci(DevPciCommand { format }))
    }

    fn usb(&self, format: OutputFormat) -> (r: Result<AnyCommand, AoError>)
        ensures
            r matches Ok(c) && usb_plan(format, c),
    {
        if matches!(format, OutputFormat::Original) {
            return Ok(AnyCommand::System(SystemCommand::new("lsusb")));
        }
        Ok(AnyCommand::DevUsb(DevUsbCommand { format }))
    }

    fn bt_status(&self) -> (r: Result<AnyCommand, AoError>)
        ensures
            r matches Ok(c) && bluetoothctl(c, seq!["show"@]),
    {
        Ok(AnyCommand::System(SystemCommand::new("bluetoothctl").arg("show")))
    }

    fn bt_scan(&self) -> (r: Result<AnyCommand, AoError>)
        ensures
            r matches Ok(c) && bluetoothctl(c, seq!["scan"@, "on"@]),
    {
        Ok(AnyCommand::System(SystemCommand::new("bluetoothctl").arg("scan").arg("on")))
    }

    fn bt_pair(&self, address: &str) -> (r: Result<AnyCommand, AoError>)
        ensures
            r matches Ok(c) && bluetoothctl(c, seq!["pair"@, "--"@, address@]),
    {
        Ok(AnyCommand::System(SystemCommand::new("bluetoothctl").arg("pair").arg("--").arg(address)))
    }

    fn bt_connect(&self, address: &str) -> (r: Result<AnyCommand, AoError>)
        ensures
            r matches Ok(c) && bluetoothctl(c, seq!["connect"@, "--"@, address@]),
    {
        Ok(AnyCommand::System(SystemCommand::new("bluetoothctl").arg("connect").arg("--").arg(address)))
    }

    fn ls_printers(&self, format: OutputFormat) -> (r: Result<AnyCommand, AoError>)
        ensures
            r matches Ok(c) && printers_plan(format, c),
    {
        if matches!(format, OutputFormat::Original) {
            return Ok(AnyCommand::System(SystemCommand::new("lpstat").arg("-p")));
        }
        Ok(AnyCommand::DevPrinters(DevPrintersCommand { format }))
    }
}

impl DeviceInfo {
    /// Bus, class, id and description.
    pub open spec fn record(&self) -> (Seq<char>, Seq<char>, Seq<char>, Seq<char>) {
        (self.bus@, self.device@, self.id@, self.description@)
    }
}

pub open spec fn device_records(s: Seq<DeviceInfo>) -> Seq<(Seq<char>, Seq<char>, Seq<char>, Seq<char>)> {
    s.map_values(|d: DeviceInfo| d.record())
}

/// The quoted fields of a line of `lspci -mm`, split at `" "`.
pub open spec fn pci_parts(line: Seq<char>) -> Seq<Seq<char>> {
    split_on_pat(line, "\" \""@)
}

/// A device of `lspci -mm`: lines of at least four quoted fields; the
/// description is the fourth field on, rejoined by spaces, all without
/// their quotes.
pub open spec fn pci_row(line: Seq<char>) -> Option<(Seq<char>, Seq<char>, Seq<char>, Seq<char>)> {
    let p = pci_parts(line);
    if p.len() >= 4 {
        Some((trim_char(p[0], '"'), trim_char(p[1], '"'), trim_char(p[2], '"'), trim_char(join(p.skip(3), " "@), '"')))
    } else {
        None
    }
}

/// A device of `lsusb`: lines of at least six fields.
pub open spec fn usb_row(line: Seq<char>) -> Option<(Seq<char>, Seq<char>, Seq<char>, Seq<char>)> {
    let f = fields(line);
    if f.len() >= 6 {
        Some((f[1], trim_char(f[3], ':'), f[5], join(f.skip(6), " "@)))
    } else {
        None
    }
}

/// A printer of `lpstat -p`: lines of at least two fields.
pub open spec fn printer_row(line: Seq<char>) -> Option<(Seq<char>, Seq<char>)> {
    let f = fields(line);
    if f.len() >= 2 {
        Some((f[1], join(f.skip(2), " "@)))
    } else {
        None
    }
}

/// The single space, as characters.
fn space() -> (r: Vec<char>)
    ensures
        r@ == " "@,
{
    let v = vec![' '];
    proof {
        reveal_strlit(" ");
    }
    assert(v@ =~= " "@);
    v
}

/// The fields from `start` on, rejoined by single spaces.
fn rest_joined(parts: &Vec<Vec<char>>, start: usize) -> (r: Vec<char>)
    requires
        start <= parts.len(),
    ensures
        r@ == join(views(parts@).skip(start as int), " "@),
{
    let rest = parts_from(parts, start);
    join_chars(&rest, &space())
}

/// Reads a line of `lspci -mm`.
fn read_pci(line: &Vec<char>) -> (r: Option<(Vec<char>, Vec<char>, Vec<char>, Vec<char>)>)
    ensures
        match pci_row(line@) {
            Some(t) => r matches Some(x) && (x.0@, x.1@, x.2@, x.3@) == t,
            None => r is None,
        },
{
    let sep = chars_of("\" \"");
    proof {
        reveal_strlit("\" \"");
    }
    let p = split_pattern(line, &sep);
    if p.len() >= 4 {
        let d = rest_joined(&p, 3);
        Some((trim_matches_char(&p[0], '"'), trim_matches_char(&p[1], '"'), trim_matches_char(&p[2], '"'), trim_matches_char(&d, '"')))
    } else {
        None
    }
}

/// Reads a line of `lsusb`.
fn read_usb(line: &Vec<char>) -> (r: Option<(Vec<char>, Vec<char>, Vec<char>, Vec<char>)>)
    ensures
        match usb_row(line@) {
            Some(t) => r matches Some(x) && (x.0@, x.1@, x.2@, x.3@) == t,
            None => r is None,
        },
{
    let f = split_whitespace(line);
    if f.len() >= 6 {
        Some((f[1].clone(), trim_matches_char(&f[3], ':'), f[5].clone(), rest_joined(&f, 6)))
    } else {
        None
    }
}

/// Reads a line of `lpstat -p`.
fn read_printer(line: &Vec<char>) -> (r: Option<(Vec<char>, Vec<char>)>)
    ensures
        match printer_row(line@) {
            Some(t) => r matches Some(x) && (x.0@, x.1@) == t,
            None => r is None,
        },
{
    let f = split_whitespace(line);
    if f.len() >= 2 {
        Some((f[1].clone(), rest_joined(&f, 2)))
    } else {
        None
    }
}

/// What kind of listing a device line comes from.
#[derive(Clone, Copy, Debug, PartialEq, Eq, Structural)]
pub enum DeviceSource {
    /// `lspci -mm`, each device with its own bus field.
    Pci,
    /// `lspci -mm`, in the summary: the bus is `PCI`.
    PciSummary,
    /// `lsusb`.
    Usb,
    /// `lsusb`, in the summary: bus `USB`, class `Device`.
    UsbSummary,
    /// `lpstat -p`, in the summary: bus and class `Printer`.
    PrinterSummary,
}

/// The entry that a line of a source's listing gives.
pub open spec fn source_row(src: DeviceSource, l: Seq<char>) -> Option<(Seq<char>, Seq<char>, Seq<char>, Seq<char>)> {
    match src {
        DeviceSource::Pci => pci_row(l),
        DeviceSource::PciSummary => match pci_row(l) {
            Some(t) => Some(("PCI"@, t.1, t.2, t.3)),
            None => None,
        },
        DeviceSource::Usb => usb_row(l),
        DeviceSource::UsbSummary => match usb_row(l) {
            Some(t) => Some(("USB"@, "Device"@, t.2, t.3)),
            None => None,
        },
        DeviceSource::PrinterSummary => match printer_row(l) {
            Some(t) => Some(("Printer"@, "Printer"@, t.0, t.1)),
            None => None,
        },
    }
}

pub open spec fn source_entries(src: DeviceSource, out: Seq<char>) -> Seq<(Seq<char>, Seq<char>, Seq<char>, Seq<char>)> {
    filter_map(lines(out), |l: Seq<char>| source_row(src, l))
}

/// The printers of `lpstat -p`.
pub open spec fn printers(out: Seq<char>) -> Seq<(Seq<char>, Seq<char>)> {
    filter_map(lines(out), |l: Seq<char>| printer_row(l))
}

/// The entry that one line gives for a source.
fn read_entry(src: DeviceSource, line: &Vec<char>) -> (r: Option<DeviceInfo>)
    ensures
        match source_row(src, line@) {
            Some(t) => r matches Some(d) && d.record() == t,
            None => r is None,
        },
{
    match src {
        DeviceSource::Pci => match read_pci(line) {
            Some((a, b, c, d)) => Some(
                DeviceInfo { bus: string_of(&a), device: string_of(&b), id: string_of(&c), description: string_of(&d) },
            ),
            None => None,
        },
        DeviceSource::PciSummary => match read_pci(line) {
            Some((_a, b, c, d)) => Some(
                DeviceInfo { bus: owned("PCI"), device: string_of(&b), id: string_of(&c), description: string_of(&d) },
            ),
            None => None,
        },
        DeviceSource::Usb => match read_usb(line) {
            Some((a, b, c, d)) => Some(
                DeviceInfo { bus: string_of(&a), device: string_of(&b), id: string_of(&c), description: string_of(&d) },
            ),
            None => None,
        },
        DeviceSource::UsbSummary => match read_usb(line) {
            Some((_a, _b, c, d)) => Some(
                DeviceInfo { bus: owned("USB"), device: owned("Device"), id: string_of(&c), description: string_of(&d) },
            ),
            None => None,
        },
        DeviceSource::PrinterSummary => match read_printer(line) {
            Some((a, b)) => Some(
                DeviceInfo { bus: owned("Printer"), device: owned("Printer"), id: string_of(&a), description: string_of(&b) },
            ),
            None => None,
        },
    }
}

/// Appends the entries that the listing `out` of a source gives.
pub fn read_devices(src: DeviceSource, out: &str, devices: &mut Vec<DeviceInfo>)
    ensures
        device_records(final(devices)@) == device_records(old(devices)@) + source_entries(src, out@),
{
    let ls = lines_of(out);
    let ghost base = device_records(devices@);
    let ghost f = |l: Seq<char>| source_row(src, l);
    let mut i: usize = 0;
    while i < ls.len()
        invariant
            0 <= i <= ls.len(),
            views(ls@) == lines(out@),
            f == (|l: Seq<char>| source_row(src, l)),
            device_records(devices@) == base + filter_map(views(ls@).take(i as int), f),
        decreases ls.len() - i,
    {
        proof {
            lemma_filter_map_step(views(ls@), f, i as int);
        }
        match read_entry(src, &ls[i]) {
            Some(d) => {
                let ghost rec = d.record();
                let ghost old_d = devices@;
                devices.push(d);
                assert(device_records(devices@) =~= device_records(old_d).push(rec));
                assert(device_records(devices@) =~= base + filter_map(views(ls@).take(i as int), f).push(rec));
            },
            None => {},
        }
        i += 1;
    }
    assert(views(ls@).take(ls.len() as int) =~= views(ls@));
}

/// Summarises the PCI and USB devices and the printers.
pub struct DevListAllCommand {
    pub format: OutputFormat,
}

/// The symbol of a device's bus in the summary.
pub open spec fn bus_symbol(bus: Seq<char>) -> Seq<char> {
    if bus == "PCI"@ {
        emoji_text(Emoji::Pci)
    } else if bus == "USB"@ {
        emoji_text(Emoji::Usb)
    } else if bus == "Printer"@ {
        emoji_text(Emoji::Printer)
    } else {
        "📟"@
    }
}

impl DevListAllCommand {
    /// The commands whose outputs make the summary: `lspci -mm`, `lsusb`
    /// and `lpstat -p`, each of which may fail.
    pub fn queries(&self) -> (r: (SystemCommand, SystemCommand, SystemCommand))
        ensures
            r.0.runs("lspci"@, seq!["-mm"@]),
            r.1.runs("lsusb"@, seq![]),
            r.2.runs("lpstat"@, seq!["-p"@]),
    {
        (SystemCommand::new("lspci").arg("-mm"), SystemCommand::new("lsusb"), SystemCommand::new("lpstat").arg("-p"))
    }

    /// The summary of the listings that could be read.
    pub fn summary(pci: Option<&str>, usb: Option<&str>, lp: Option<&str>) -> (r: Vec<DeviceInfo>)
        ensures
            device_records(r@) == (match pci {
                Some(o) => source_entries(DeviceSource::PciSummary, o@),
                None => seq![],
            }) + (match usb {
                Some(o) => source_entries(DeviceSource::UsbSummary, o@),
                None => seq![],
            }) + (match lp {
                Some(o) => source_entries(DeviceSource::PrinterSummary, o@),
                None => seq![],
            }),
    {
        let mut devices: Vec<DeviceInfo> = Vec::new();
        assert(device_records(devices@) =~= seq![]);
        if let Some(o) = pci {
            read_devices(DeviceSource::PciSummary, o, &mut devices);
        }
        let ghost d1 = device_records(devices@);
        if let Some(o) = usb {
            read_devices(DeviceSource::UsbSummary, o, &mut devices);
        }
        let ghost d2 = device_records(devices@);
        if let Some(o) = lp {
            read_devices(DeviceSource::PrinterSummary, o, &mut devices);
        }
        assert(device_records(devices@) =~= (match pci {
            Some(o) => source_entries(DeviceSource::PciSummary, o@),
            None => seq![],
        }) + (match usb {
            Some(o) => source_entries(DeviceSource::UsbSummary, o@),
            None => seq![],
        }) + (match lp {
            Some(o) => source_entries(DeviceSource::PrinterSummary, o@),
            None => seq![],
        }));
        devices
    }

    /// The symbol shown for a device's bus.
    pub fn symbol(bus: &str) -> (r: &'static str)
        ensures
            r@ == bus_symbol(bus@),
    {
        if str_eq(bus, "PCI") {
            Emoji::Pci.get()
        } else if str_eq(bus, "USB") {
            Emoji::Usb.get()
        } else if str_eq(bus, "Printer") {
            Emoji::Printer.get()
        } else {
            "📟"
        }
    }

    /// A device as the original output prints it: `[bus] id class
    /// description`.
    pub fn original_line(d: &DeviceInfo) -> (r: String)
        ensures
            r@ == "["@ + d.bus@ + "] "@ + d.id@ + " "@ + d.device@ + " "@ + d.description@,
    {
        let mut s = owned("[");
        s.append(d.bus.as_str());
        s.append("] ");
        s.append(d.id.as_str());
        s.append(" ");
        s.append(d.device.as_str());
        s.append(" ");
        s.append(d.description.as_str());
        s
    }
}

impl ExecutableCommand for DevListAllCommand {
    open spec fn text(&self) -> Seq<char> {
        "lspci -mm && lsusb"@
    }

    open spec fn structured(&self) -> bool {
        false
    }

    fn as_string(&self) -> (r: String) {
        owned("lspci -mm && lsusb")
    }

    fn is_structured(&self) -> (r: bool) {
        false
    }
}

/// Lists the PCI devices.
pub struct DevPciCommand {
    pub format: OutputFormat,
}

impl DevPciCommand {
    /// The command whose output is parsed.
    pub fn query(&self) -> (r: SystemCommand)
        ensures
            r.runs("lspci"@, seq!["-mm"@]),
    {
        SystemCommand::new("lspci").arg("-mm")
    }

    /// The devices of `lspci -mm`.
    pub fn parse(stdout: &str) -> (r: Vec<DeviceInfo>)
        ensures
            device_records(r@) == source_entries(DeviceSource::Pci, stdout@),
    {
        let mut v: Vec<DeviceInfo> = Vec::new();
        assert(device_records(v@) =~= seq![]);
        read_devices(DeviceSource::Pci, stdout, &mut v);
        assert(device_records(v@) =~= source_entries(DeviceSource::Pci, stdout@));
        v
    }
}

impl ExecutableCommand for DevPciCommand {
    open spec fn text(&self) -> Seq<char> {
        "lspci -mm"@
    }

    open spec fn structured(&self) -> bool {
        is_structured_format(self.format)
    }

    fn as_string(&self) -> (r: String) {
        owned("lspci -mm")
    }

    fn is_structured(&self) -> (r: bool) {
        self.format.structured()
    }
}

/// Lists the USB devices.
pub struct DevUsbCommand {
    pub format: OutputFormat,
}

impl DevUsbCommand {
    /// The command whose output is parsed.
    pub fn query(&self) -> (r: SystemCommand)
        ensures
            r.runs("lsusb"@, seq![]),
    {
        SystemCommand::new("lsusb")
    }

    /// The devices of `lsusb`.
    pub fn parse(stdout: &str) -> (r: Vec<DeviceInfo>)
        ensures
            device_records(r@) == source_entries(DeviceSource::Usb, stdout@),
    {
        let mut v: Vec<DeviceInfo> = Vec::new();
        assert(device_records(v@) =~= seq![]);
        read_devices(DeviceSource::Usb, stdout, &mut v);
        assert(device_records(v@) =~= source_entries(DeviceSource::Usb, stdout@));
        v
    }
}

impl ExecutableCommand for DevUsbCommand {
    open spec fn text(&self) -> Seq<char> {
        "lsusb"@
    }

    open spec fn structured(&self) -> bool {
        is_structured_format(self.format)
    }

    fn as_string(&self) -> (r: String) {
        owned("lsusb")
    }

    fn is_structured(&self) -> (r: bool) {
        self.format.structured()
    }
}

/// Lists the printers.
pub struct DevPrintersCommand {
    pub format: OutputFormat,
}

impl PrinterInfo {
    pub open spec fn record(&self) -> (Seq<char>, Seq<char>) {
        (self.name@, self.status@)
    }
}

impl DevPrintersCommand {
    /// The command whose output is parsed.
    pub fn query(&self) -> (r: SystemCommand)
        ensures
            r.runs("lpstat"@, seq!["-p"@]),
    {
        SystemCommand::new("lpstat").arg("-p")
    }

    /// The printers of `lpstat -p`.
    pub fn parse(stdout: &str) -> (r: Vec<PrinterInfo>)
        ensures
            r@.map_values(|p: PrinterInfo| p.record()) == printers(stdout@),
    {
        let ls = lines_of(stdout);
        let ghost f = |l: Seq<char>| printer_row(l);
        let mut out: Vec<PrinterInfo> = Vec::new();
        let mut i: usize = 0;
        while i < ls.len()
            invariant
                0 <= i <= ls.len(),
                views(ls@) == lines(stdout@),
                f == (|l: Seq<char>| printer_row(l)),
                out@.map_values(|p: PrinterInfo| p.record()) == filter_map(views(ls@).take(i as int), f),
            decreases ls.len() - i,
        {
            proof {
                lemma_filter_map_step(views(ls@), f, i as int);
            }
            match read_printer(&ls[i]) {
                Some((a, b)) => {
                    let p = PrinterInfo { name: string_of(&a), status: string_of(&b) };
                    let ghost rec = p.record();
                    out.push(p);
                    assert(out@.map_values(|p: PrinterInfo| p.record()) =~= filter_map(views(ls@).take(i as int), f).push(rec));
                },
                None => {},
            }
            i += 1;
        }
        assert(views(ls@).take(ls.len() as int) =~= views(ls@));
        out
    }
}

impl ExecutableCommand for DevPrintersCommand {
    open spec fn text(&self) -> Seq<char> {
        "lpstat -p"@
    }

    open spec fn structured(&self) -> bool {
        is_structured_format(self.format)
    }

    fn as_string(&self) -> (r: String) {
        owned("lpstat -p")
    }

    fn is_structured(&self) -> (r: bool) {
        self.format.structured()
    }
}

} // verus!
