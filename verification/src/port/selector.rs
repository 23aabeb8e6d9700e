//! Which port a session reads: the one named on the command line, or the
//! user's pick from the list.

use vstd::prelude::*;
use crate::parse::string_views;
use crate::data::text::{append_decimal, decimal};
use crate::parse::{parse_number, parse_unsigned, trim, trimmed_chars};
use crate::port::detector::{entry_line, listing, Platform, PortDetector, PortInfo, PortKind};

verus! {

/// What an answer to the port menu selects.
#[derive(Debug, Clone, Copy, PartialEq, Eq, Structural)]
pub enum Selection {
    /// The user names the port by hand.
    Manual,
    /// The port at this place in the list, counted from zero.
    Listed(usize),
    /// The answer names no entry; the first port is taken.
    FirstInstead,
}

/// What `answer` selects from a menu of `count` ports. The answer is read
/// without the whitespace around it. A number from one to `count` selects
/// that entry; zero, or anything that is no number that the machine can hold,
/// asks for a name by hand, and so does any answer when there is no port to
/// list; a number past the list falls back on the first port.
pub open spec fn selection_of(answer: Seq<char>, count: nat) -> Selection {
    let choice = match parse_unsigned(trim(answer), usize::MAX as nat) {
        Some(n) => n,
        None => 0,
    };
    if choice == 0 || count == 0 {
        Selection::Manual
    } else if choice <= count {
        Selection::Listed((choice - 1) as usize)
    } else {
        Selection::FirstInstead
    }
}

/// The hint under a menu entry: the product of a USB port that names one,
/// a fixed word for a Bluetooth port, nothing for any other.
pub open spec fn hint_lines(kind: PortKind) -> Seq<Seq<char>> {
    match kind {
        PortKind::Usb(info) => match info.product {
            Some(product) => seq!["      \u{2192} "@ + product@],
            None => Seq::empty(),
        },
        PortKind::Bluetooth => seq!["      \u{2192} Bluetooth Serial Port"@],
        _ => Seq::empty(),
    }
}

/// The menu entries of the ports, numbered from one, each with its hint.
pub open spec fn menu_entries(ports: Seq<PortInfo>) -> Seq<Seq<char>>
    decreases ports.len(),
{
    if ports.len() == 0 {
        Seq::empty()
    } else {
        menu_entries(ports.drop_last()) + seq![entry_line(ports.len(), ports.last().port_name@)]
            + hint_lines(ports.last().port_type)
    }
}

/// What is shown before the user picks a port. Where there is none, a
/// warning and the listing with the usual names; else, under a heading, the
/// numbered ports and the entry for a name typed by hand.
pub open spec fn menu(ports: Seq<PortInfo>, platform: Platform) -> Seq<Seq<char>> {
    if ports.len() == 0 {
        seq![Seq::empty(), "\u{26a0} No serial ports detected!"@] + listing(ports, platform)
    } else {
        seq![Seq::empty(), "Available ports:"@] + menu_entries(ports) + seq![
            "  [0] Enter custom port name"@,
        ]
    }
}

/// The question that follows a menu of `count` ports.
pub open spec fn question(count: nat) -> Seq<char> {
    "\nSelect port [1-"@ + decimal(count) + "]: "@
}

/// Interactive choice of a port.
pub struct PortSelector;

impl PortSelector {
    /// What is shown before the user picks one of `ports`, line by line.
    pub fn select_interactive(ports: &Vec<PortInfo>, platform: Platform) -> (lines: Vec<String>)
        ensures
            string_views(lines@) == menu(ports@, platform),
    {
        let mut lines: Vec<String> = Vec::new();
        lines.push(String::new());
        if ports.len() == 0 {
            lines.push(String::from_str("\u{26a0} No serial ports detected!"));
            let ghost head = string_views(lines@);
            let mut rest = PortDetector::new().list_ports(ports, platform);
            let ghost tail = string_views(rest@);
            lines.append(&mut rest);
            assert(string_views(lines@) =~= head + tail);
            assert(head =~= seq![Seq::empty(), "\u{26a0} No serial ports detected!"@]);
            return lines;
        }
        lines.push(String::from_str("Available ports:"));
        let ghost head = string_views(lines@);
        assert(head =~= seq![Seq::empty(), "Available ports:"@]);
        let mut i: usize = 0;
        assert(ports@.take(0) =~= Seq::empty());
        assert(string_views(lines@) =~= head + menu_entries(ports@.take(0)));
        while i < ports.len()
            invariant
                i <= ports.len(),
                string_views(lines@) == head + menu_entries(ports@.take(i as int)),
            decreases ports.len() - i,
        {
            let port = &ports[i];
            let ghost before = string_views(lines@);
            proof {
                let next = ports@.take(i + 1);
                assert(next.drop_last() == ports@.take(i as int));
                assert(next.last() == *port);
            }
            lines.push(PortDetector::entry(i + 1, port.port_name.as_str()));
            match &port.port_type {
                PortKind::Usb(info) => {
                    match &info.product {
                        Some(product) => {
                            let mut line = String::from_str("      \u{2192} ");
                            line.append(product.as_str());
                            lines.push(line);
                        },
                        None => {},
                    }
                },
                PortKind::Bluetooth => {
                    lines.push(String::from_str("      \u{2192} Bluetooth Serial Port"));
                },
                _ => {},
            }
            assert(string_views(lines@) =~= before + seq![
                entry_line((i + 1) as nat, port.port_name@),
            ] + hint_lines(port.port_type));
            i += 1;
        }
        assert(ports@.take(ports@.len() as int) == ports@);
        let ghost entries = string_views(lines@);
        lines.push(String::from_str("  [0] Enter custom port name"));
        assert(string_views(lines@) =~= entries + seq!["  [0] Enter custom port name"@]);
        lines
    }

    /// The question that follows a menu of `count` ports.
    pub fn prompt(count: usize) -> (text: String)
        ensures
            text@ == question(count as nat),
    {
        let mut text = String::from_str("\nSelect port [1-");
        append_decimal(&mut text, count);
        text.append("]: ");
        text
    }

    /// What the user's answer selects from a menu of `count` ports.
    pub fn select(answer: &str, count: usize) -> (selection: Selection)
        ensures
            selection == selection_of(answer@, count as nat),
    {
        let chars = trimmed_chars(answer);
        let choice: u64 = match parse_number(chars.as_slice(), usize::MAX as u64) {
            Some(n) => n,
            None => 0,
        };
        if choice == 0 || count == 0 {
            Selection::Manual
        } else if choice <= count as u64 {
            Selection::Listed((choice - 1) as usize)
        } else {
            Selection::FirstInstead
        }
    }

    /// The port named on the command line, if one was; else the user is to
    /// be asked.
    pub fn get_port(cli_port: Option<&str>) -> (port: Option<String>)
        ensures
            match cli_port {
                Some(given) => port matches Some(name) && name@ == given@,
                None => port is None,
            },
    {
        match cli_port {
            Some(given) => Some(given.to_owned()),
            None => None,
        }
    }
}

} // verus!
