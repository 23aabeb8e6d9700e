//! What is known of a serial port, and which port to suggest.

use vstd::prelude::*;
use crate::parse::string_views;
use crate::data::text::{append_decimal, decimal, push_char};

verus! {

/// What a USB serial adapter tells of itself.
#[derive(Debug, Clone, PartialEq, Eq)]
pub struct UsbInfo {
    pub vid: u16,
    pub pid: u16,
    pub manufacturer: Option<String>,
    pub product: Option<String>,
}

/// How a serial port is attached.
#[derive(Debug, Clone, PartialEq, Eq)]
pub enum PortKind {
    Usb(UsbInfo),
    Pci,
    Bluetooth,
    Unknown,
}

/// A serial port that the system offers.
#[derive(Debug, Clone, PartialEq, Eq)]
pub struct PortInfo {
    pub port_name: String,
    pub port_type: PortKind,
}

/// The place of the first USB port at or after `from`, or the number of
/// ports where there is none.
pub open spec fn first_usb(ports: Seq<PortInfo>, from: int) -> int
    decreases ports.len() - from,
{
    if from >= ports.len() {
        ports.len() as int
    } else if ports[from].port_type is Usb {
        from
    } else {
        first_usb(ports, from + 1)
    }
}

/// The place of the port to suggest: the first USB port, else the first port
/// of any kind, else none.
pub open spec fn suggested(ports: Seq<PortInfo>) -> Option<int> {
    if ports.len() == 0 {
        None
    } else if first_usb(ports, 0) < ports.len() {
        Some(first_usb(ports, 0))
    } else {
        Some(0)
    }
}

/// The system that the program runs on, as far as port names go.
#[derive(Debug, Clone, Copy, PartialEq, Eq, Structural)]
pub enum Platform {
    Windows,
    Linux,
    MacOs,
    Other,
}

/// The lower-case hexadecimal digit for a value below sixteen.
pub open spec fn lower_hex_digit(n: u16) -> char
    recommends
        n < 16,
{
    if n < 10 {
        ((48 + n) as u8) as char
    } else {
        ((87 + n) as u8) as char
    }
}

/// A 16-bit identifier as four lower-case hexadecimal digits.
pub open spec fn hex4(id: u16) -> Seq<char> {
    seq![
        lower_hex_digit(id / 4096),
        lower_hex_digit(id / 256 % 16),
        lower_hex_digit(id / 16 % 16),
        lower_hex_digit(id % 16),
    ]
}

/// The line for a detail that may be missing: the label and the detail, or
/// no line.
pub open spec fn detail_lines(label: Seq<char>, detail: Option<String>) -> Seq<Seq<char>> {
    match detail {
        Some(text) => seq![label + text@],
        None => Seq::empty(),
    }
}

/// The lines that tell how a port is attached.
pub open spec fn kind_lines(kind: PortKind) -> Seq<Seq<char>> {
    match kind {
        PortKind::Usb(info) => seq!["      Type: USB"@] + detail_lines(
            "      Manufacturer: "@,
            info.manufacturer,
        ) + detail_lines("      Product: "@, info.product) + seq![
            "      VID:PID: "@ + hex4(info.vid) + ":"@ + hex4(info.pid),
        ],
        PortKind::Pci => seq!["      Type: PCI"@],
        PortKind::Bluetooth => seq!["      Type: Bluetooth"@],
        PortKind::Unknown => seq!["      Type: Unknown"@],
    }
}

/// The numbered head line of a port in a list.
pub open spec fn entry_line(number: nat, name: Seq<char>) -> Seq<char> {
    "  ["@ + decimal(number) + "] "@ + name
}

/// The lines for the ports, numbered from one: for each its name, how it is
/// attached, and an empty line.
pub open spec fn port_lines(ports: Seq<PortInfo>) -> Seq<Seq<char>>
    decreases ports.len(),
{
    if ports.len() == 0 {
        Seq::empty()
    } else {
        port_lines(ports.drop_last()) + seq![entry_line(ports.len(), ports.last().port_name@)]
            + kind_lines(ports.last().port_type) + seq![Seq::empty()]
    }
}

/// The port names that are usual on a platform, as one line, if any are
/// known.
pub open spec fn common_ports(platform: Platform) -> Seq<Seq<char>> {
    match platform {
        Platform::Windows => seq!["    Windows: COM1, COM3, COM4"@],
        Platform::Linux => seq!["    Linux: /dev/ttyUSB0, /dev/ttyUSB1, /dev/ttyACM0"@],
        Platform::MacOs => seq!["    macOS: /dev/cu.usbserial, /dev/cu.usbmodem"@],
        Platform::Other => Seq::empty(),
    }
}

/// The listing of the ports: their lines, or, where there is none, a notice
/// and the usual names to check.
pub open spec fn listing(ports: Seq<PortInfo>, platform: Platform) -> Seq<Seq<char>> {
    if ports.len() == 0 {
        seq!["  No serial ports detected."@, "  Common ports to check:"@] + common_ports(platform)
    } else {
        port_lines(ports)
    }
}

/// Looks over the serial ports of the system.
pub struct PortDetector;

impl PortDetector {
    pub fn new() -> Self {
        PortDetector
    }

    /// The listing of `ports` for display, line by line.
    pub fn list_ports(&self, ports: &Vec<PortInfo>, platform: Platform) -> (lines: Vec<String>)
        ensures
            string_views(lines@) == listing(ports@, platform),
    {
        let mut lines: Vec<String> = Vec::new();
        if ports.len() == 0 {
            lines.push(String::from_str("  No serial ports detected."));
            lines.push(String::from_str("  Common ports to check:"));
            self.suggest_common_ports(&mut lines, platform);
            assert(string_views(lines@) =~= listing(ports@, platform));
            return lines;
        }
        let mut i: usize = 0;
        assert(ports@.take(0) =~= Seq::empty());
        assert(string_views(lines@) =~= Seq::empty());
        while i < ports.len()
            invariant
                i <= ports.len(),
                string_views(lines@) == port_lines(ports@.take(i as int)),
            decreases ports.len() - i,
        {
            let port = &ports[i];
            let ghost before = string_views(lines@);
            proof {
                let next = ports@.take(i + 1);
                assert(next.drop_last() == ports@.take(i as int));
                assert(next.last() == *port);
            }
            lines.push(Self::entry(i + 1, port.port_name.as_str()));
            match &port.port_type {
                PortKind::Usb(info) => {
                    lines.push(String::from_str("      Type: USB"));
                    match &info.manufacturer {
                        Some(manufacturer) => {
                            let mut line = String::from_str("      Manufacturer: ");
                            line.append(manufacturer.as_str());
                            lines.push(line);
                        },
                        None => {},
                    }
                    match &info.product {
                        Some(product) => {
                            let mut line = String::from_str("      Product: ");
                            line.append(product.as_str());
                            lines.push(line);
                        },
                        None => {},
                    }
                    let mut line = String::from_str("      VID:PID: ");
                    Self::append_hex4(&mut line, info.vid);
                    line.append(":");
                    Self::append_hex4(&mut line, info.pid);
                    lines.push(line);
                },
                PortKind::Pci => {
                    lines.push(String::from_str("      Type: PCI"));
                },
                PortKind::Bluetooth => {
                    lines.push(String::from_str("      Type: Bluetooth"));
                },
                PortKind::Unknown => {
                    lines.push(String::from_str("      Type: Unknown"));
                },
            }
            lines.push(String::new());
            assert(string_views(lines@) =~= before + seq![
                entry_line((i + 1) as nat, port.port_name@),
            ] + kind_lines(port.port_type) + seq![Seq::<char>::empty()]);
            i += 1;
        }
        assert(ports@.take(ports@.len() as int) == ports@);
        lines
    }

    /// Adds the line of usual port names for the platform.
    fn suggest_common_ports(&self, lines: &mut Vec<String>, platform: Platform)
        ensures
            string_views(final(lines)@) == string_views(old(lines)@) + common_ports(platform),
    {
        let ghost before = string_views(lines@);
        match platform {
            Platform::Windows => {
                lines.push(String::from_str("    Windows: COM1, COM3, COM4"));
            },
            Platform::Linux => {
                lines.push(String::from_str("    Linux: /dev/ttyUSB0, /dev/ttyUSB1, /dev/ttyACM0"));
            },
            Platform::MacOs => {
                lines.push(String::from_str("    macOS: /dev/cu.usbserial, /dev/cu.usbmodem"));
            },
            Platform::Other => {},
        }
        assert(string_views(lines@) =~= before + common_ports(platform));
    }

    /// The numbered head line of a port in a list.
    pub fn entry(number: usize, name: &str) -> (line: String)
        ensures
            line@ == entry_line(number as nat, name@),
    {
        let mut line = String::from_str("  [");
        append_decimal(&mut line, number);
        line.append("] ");
        line.append(name);
        line
    }

    /// Appends a 16-bit identifier as four lower-case hexadecimal digits.
    fn append_hex4(out: &mut String, id: u16)
        ensures
            final(out)@ == old(out)@ + hex4(id),
    {
        push_char(out, Self::lower_hex(id / 4096));
        push_char(out, Self::lower_hex(id / 256 % 16));
        push_char(out, Self::lower_hex(id / 16 % 16));
        push_char(out, Self::lower_hex(id % 16));
    }

    /// The lower-case hexadecimal digit for a value below sixteen.
    fn lower_hex(n: u16) -> (c: char)
        requires
            n < 16,
        ensures
            c == lower_hex_digit(n),
    {
        if n < 10 {
            ((48 + n) as u8) as char
        } else {
            ((87 + n) as u8) as char
        }
    }

    /// The name of the port to try first among `ports`: that of the first USB
    /// port, else that of the first port, else nothing.
    pub fn suggest_port(&self, ports: &Vec<PortInfo>) -> (name: Option<String>)
        ensures
            match name {
                Some(n) => suggested(ports@) matches Some(i) && n@ == ports@[i].port_name@,
                None => suggested(ports@) is None,
            },
    {
        let mut i: usize = 0;
        while i < ports.len()
            invariant
                i <= ports.len(),
                first_usb(ports@, 0) == first_usb(ports@, i as int),
            decreases ports.len() - i,
        {
            match &ports[i].port_type {
                PortKind::Usb(_) => {
                    return Some(ports[i].port_name.clone());
                },
                _ => {},
            }
            i += 1;
        }
        if ports.len() > 0 {
            Some(ports[0].port_name.clone())
        } else {
            None
        }
    }
}

impl Default for PortDetector {
    fn default() -> Self {
        PortDetector::new()
    }
}

} // verus!
