use vital_reader::port::{
    Platform, PortDetector, PortInfo, PortKind, PortSelector, Selection, UsbInfo,
};

fn port(name: &str, kind: PortKind) -> PortInfo {
    PortInfo { port_name: name.to_string(), port_type: kind }
}

fn usb(vid: u16, pid: u16, manufacturer: Option<&str>, product: Option<&str>) -> PortKind {
    PortKind::Usb(UsbInfo {
        vid,
        pid,
        manufacturer: manufacturer.map(|m| m.to_string()),
        product: product.map(|p| p.to_string()),
    })
}

#[test]
fn first_usb_port_is_suggested() {
    let detector = PortDetector::new();
    let ports = vec![
        port("/dev/ttyS0", PortKind::Pci),
        port("/dev/ttyUSB0", usb(1, 2, None, None)),
        port("/dev/ttyUSB1", usb(3, 4, None, None)),
    ];
    assert_eq!(detector.suggest_port(&ports), Some("/dev/ttyUSB0".to_string()));
}

#[test]
fn first_port_is_suggested_without_usb() {
    let detector = PortDetector::new();
    let ports = vec![port("rfcomm0", PortKind::Bluetooth), port("ttyS1", PortKind::Unknown)];
    assert_eq!(detector.suggest_port(&ports), Some("rfcomm0".to_string()));
    assert_eq!(detector.suggest_port(&Vec::new()), None);
}

#[test]
fn listing_without_ports_names_the_usual_ones() {
    let detector = PortDetector::new();
    assert_eq!(
        detector.list_ports(&Vec::new(), Platform::Linux),
        vec![
            "  No serial ports detected.",
            "  Common ports to check:",
            "    Linux: /dev/ttyUSB0, /dev/ttyUSB1, /dev/ttyACM0",
        ]
    );
    assert_eq!(
        detector.list_ports(&Vec::new(), Platform::Windows)[2],
        "    Windows: COM1, COM3, COM4"
    );
    assert_eq!(
        detector.list_ports(&Vec::new(), Platform::MacOs)[2],
        "    macOS: /dev/cu.usbserial, /dev/cu.usbmodem"
    );
    assert_eq!(detector.list_ports(&Vec::new(), Platform::Other).len(), 2);
}

#[test]
fn listing_tells_of_each_port() {
    let detector = PortDetector::new();
    let ports = vec![
        port("COM3", usb(0x0403, 0x6001, Some("FTDI"), Some("FT232R"))),
        port("COM4", usb(0xabcd, 0x000f, None, None)),
        port("COM1", PortKind::Pci),
        port("COM9", PortKind::Bluetooth),
        port("COM7", PortKind::Unknown),
    ];
    assert_eq!(
        detector.list_ports(&ports, Platform::Windows),
        vec![
            "  [1] COM3",
            "      Type: USB",
            "      Manufacturer: FTDI",
            "      Product: FT232R",
            "      VID:PID: 0403:6001",
            "",
            "  [2] COM4",
            "      Type: USB",
            "      VID:PID: abcd:000f",
            "",
            "  [3] COM1",
            "      Type: PCI",
            "",
            "  [4] COM9",
            "      Type: Bluetooth",
            "",
            "  [5] COM7",
            "      Type: Unknown",
            "",
        ]
    );
}

#[test]
fn menu_shows_ports_and_hints() {
    let ports = vec![
        port("COM3", usb(1, 2, Some("FTDI"), Some("FT232R"))),
        port("COM4", usb(1, 2, Some("FTDI"), None)),
        port("COM9", PortKind::Bluetooth),
        port("COM1", PortKind::Pci),
    ];
    assert_eq!(
        PortSelector::select_interactive(&ports, Platform::Windows),
        vec![
            "",
            "Available ports:",
            "  [1] COM3",
            "      \u{2192} FT232R",
            "  [2] COM4",
            "  [3] COM9",
            "      \u{2192} Bluetooth Serial Port",
            "  [4] COM1",
            "  [0] Enter custom port name",
        ]
    );
    assert_eq!(PortSelector::prompt(4), "\nSelect port [1-4]: ");
    assert_eq!(PortSelector::prompt(12), "\nSelect port [1-12]: ");
}

#[test]
fn menu_without_ports_warns() {
    assert_eq!(
        PortSelector::select_interactive(&Vec::new(), Platform::Linux),
        vec![
            "",
            "\u{26a0} No serial ports detected!",
            "  No serial ports detected.",
            "  Common ports to check:",
            "    Linux: /dev/ttyUSB0, /dev/ttyUSB1, /dev/ttyACM0",
        ]
    );
}

#[test]
fn answer_selects_a_port() {
    assert_eq!(PortSelector::select("1", 3), Selection::Listed(0));
    assert_eq!(PortSelector::select(" 3\n", 3), Selection::Listed(2));
    assert_eq!(PortSelector::select("+2", 3), Selection::Listed(1));
    assert_eq!(PortSelector::select("0", 3), Selection::Manual);
    assert_eq!(PortSelector::select("", 3), Selection::Manual);
    assert_eq!(PortSelector::select("two", 3), Selection::Manual);
    assert_eq!(PortSelector::select("-1", 3), Selection::Manual);
    assert_eq!(PortSelector::select("4", 3), Selection::FirstInstead);
    assert_eq!(PortSelector::select("18446744073709551615", 3), Selection::FirstInstead);
    assert_eq!(PortSelector::select("18446744073709551616", 3), Selection::Manual);
    assert_eq!(PortSelector::select("1", 0), Selection::Manual);
}

#[test]
fn port_of_the_command_line_is_taken() {
    assert_eq!(PortSelector::get_port(Some("/dev/ttyUSB0")), Some("/dev/ttyUSB0".to_string()));
    assert_eq!(PortSelector::get_port(Some("")), Some(String::new()));
    assert_eq!(PortSelector::get_port(None), None);
}
