//! The commands of the interactive mode, as far as they decide or compute.

use vstd::prelude::*;
use crate::config::serial_config::{DataBits, Parity, SerialConfig, StopBits};
use crate::parse::{
    chars_of, is_word, lowered, number_or, number_or_default, parse_unsigned, same_text, split,
    split_chars,
};

verus! {

/// The baud rate where none is given or the given one cannot be read.
pub const DEFAULT_BAUD: u32 = 115200;

/// The longest wait for a first byte, in nanoseconds: five seconds.
pub const NO_DATA_LIMIT: u128 = 5_000_000_000;

/// The longest reading in the interactive mode, in nanoseconds: thirty
/// seconds.
pub const READING_LIMIT: u128 = 30_000_000_000;

/// What a read from the port came back with.
#[derive(Debug, Clone, Copy, PartialEq, Eq, Structural)]
pub enum ReadEvent {
    /// Bytes arrived.
    Data,
    /// The read returned without a byte.
    Empty,
    /// The read ran into its timeout.
    TimedOut,
    /// The read failed.
    Failed,
}

/// How an interactive reading goes on after a read.
#[derive(Debug, Clone, Copy, PartialEq, Eq, Structural)]
pub enum ReadStep {
    Continue,
    /// No byte has arrived within the limit: give up.
    NoData,
    /// The read failed: give up.
    Failed,
    /// The reading has lasted its time: stop.
    TimeLimit,
}

/// A preset of test data.
#[derive(Debug, Clone, Copy, PartialEq, Eq, Structural)]
pub enum Preset {
    VitalSigns,
    Waveform,
    Hl7,
    Text,
    Hex,
    Continuous,
}

/// The baud rate that a text gives: its number, or the default where it is
/// none.
pub open spec fn baud_of(text: Seq<char>) -> u32 {
    number_or_default(text, u32::MAX as nat, DEFAULT_BAUD as nat) as u32
}

/// The data bits that a text gives: five, six or seven where it is that
/// number, else eight.
pub open spec fn lenient_data_bits(text: Seq<char>) -> DataBits {
    match parse_unsigned(text, i32::MAX as nat) {
        Some(n) => if n == 5 {
            DataBits::Five
        } else if n == 6 {
            DataBits::Six
        } else if n == 7 {
            DataBits::Seven
        } else {
            DataBits::Eight
        },
        None => DataBits::Eight,
    }
}

/// The stop bits that a text gives: two where it is that number, else one.
pub open spec fn lenient_stop_bits(text: Seq<char>) -> StopBits {
    if parse_unsigned(text, i32::MAX as nat) == Some(2nat) {
        StopBits::Two
    } else {
        StopBits::One
    }
}

/// The parity that a number in a text gives: odd for 1, even for 2, else
/// none.
pub open spec fn lenient_parity_number(text: Seq<char>) -> Parity {
    match parse_unsigned(text, u8::MAX as nat) {
        Some(n) => if n == 1 {
            Parity::Odd
        } else if n == 2 {
            Parity::Even
        } else {
            Parity::NoParity
        },
        None => Parity::NoParity,
    }
}

/// The parity that a name gives: odd or even where it is that word or its
/// first letter, in any case, else none.
pub open spec fn lenient_parity_name(name: Seq<char>) -> Parity {
    let word = lowered(name);
    if word == "odd"@ || word == "o"@ {
        Parity::Odd
    } else if word == "even"@ || word == "e"@ {
        Parity::Even
    } else {
        Parity::NoParity
    }
}

/// The settings that a settings string gives when every field that cannot be
/// read falls back on its default: nothing unless there are four fields.
pub open spec fn lenient_settings(text: Seq<char>) -> Option<SerialConfig> {
    let fields = split(text, ',');
    if fields.len() != 4 {
        None
    } else {
        Some(
            SerialConfig {
                baud: baud_of(fields[0]),
                data_bits: lenient_data_bits(fields[2]),
                parity: lenient_parity_number(fields[1]),
                stop_bits: lenient_stop_bits(fields[3]),
            },
        )
    }
}

/// The parity number of a settings string for a parity name.
pub open spec fn parity_digit(name: Seq<char>) -> Seq<char> {
    match lenient_parity_name(name) {
        Parity::Odd => "1"@,
        Parity::Even => "2"@,
        Parity::NoParity => "0"@,
    }
}

/// The settings string of four answers.
pub open spec fn settings_string(
    baud: Seq<char>,
    parity: Seq<char>,
    data_bits: Seq<char>,
    stop_bits: Seq<char>,
) -> Seq<char> {
    baud + ","@ + parity_digit(parity) + ","@ + data_bits + ","@ + stop_bits
}

/// The command line that starts a listener.
pub open spec fn command_line(
    program: Seq<char>,
    port: Seq<char>,
    config: Option<Seq<char>>,
    show_stats: bool,
) -> Seq<char> {
    program + " --port "@ + port + match config {
        Some(c) => " --config \""@ + c + "\""@,
        None => Seq::empty(),
    } + if show_stats {
        " --stats"@
    } else {
        Seq::empty()
    }
}

/// How a reading goes on. A failed read ends it. A read without a byte ends
/// it when nothing has been received at all and the last five seconds brought
/// nothing. Otherwise it ends when it has lasted more than thirty seconds.
pub open spec fn next_step(event: ReadEvent, received: u64, idle: u128, elapsed: u128) -> ReadStep {
    if event == ReadEvent::Failed {
        ReadStep::Failed
    } else if event == ReadEvent::Empty && idle > NO_DATA_LIMIT && received == 0 {
        ReadStep::NoData
    } else if elapsed > READING_LIMIT {
        ReadStep::TimeLimit
    } else {
        ReadStep::Continue
    }
}

/// The preset that an answer selects: a number from 1 to 6.
pub open spec fn preset_of(answer: Seq<char>) -> Option<Preset> {
    if answer == "1"@ {
        Some(Preset::VitalSigns)
    } else if answer == "2"@ {
        Some(Preset::Waveform)
    } else if answer == "3"@ {
        Some(Preset::Hl7)
    } else if answer == "4"@ {
        Some(Preset::Text)
    } else if answer == "5"@ {
        Some(Preset::Hex)
    } else if answer == "6"@ {
        Some(Preset::Continuous)
    } else {
        None
    }
}

/// The commands of the interactive mode.
pub struct Commands;

impl Commands {
    /// The baud rate that an answer gives.
    pub fn baud(answer: &str) -> (baud: u32)
        ensures
            baud == baud_of(answer@),
    {
        let chars = chars_of(answer);
        number_or(chars.as_slice(), u32::MAX as u64, DEFAULT_BAUD as u64) as u32
    }

    /// The number of seconds that an answer gives, ten where it gives none.
    pub fn seconds(answer: &str) -> (seconds: u64)
        ensures
            seconds == number_or_default(answer@, u64::MAX as nat, 10),
    {
        let chars = chars_of(answer);
        number_or(chars.as_slice(), u64::MAX, 10)
    }

    /// The settings of a settings string, each field that cannot be read
    /// taken at its default.
    pub fn get_config_from_string(config_str: &str) -> (config: Option<SerialConfig>)
        ensures
            config == lenient_settings(config_str@),
    {
        let chars = chars_of(config_str);
        let fields = split_chars(chars.as_slice(), ',');
        if fields.len() != 4 {
            return None;
        }
        assert(forall|i: int|
            0 <= i < 4 ==> #[trigger] crate::parse::field_views(fields@)[i] == fields@[i]@);
        let baud = number_or(fields[0].as_slice(), u32::MAX as u64, DEFAULT_BAUD as u64) as u32;
        let parity_number = number_or(fields[1].as_slice(), u8::MAX as u64, 0);
        let parity = if parity_number == 1 {
            Parity::Odd
        } else if parity_number == 2 {
            Parity::Even
        } else {
            Parity::NoParity
        };
        let data_bits = Self::data_bits(fields[2].as_slice());
        let stop_bits = Self::stop_bits(fields[3].as_slice());
        Some(SerialConfig { baud, data_bits, parity, stop_bits })
    }

    /// The settings of four answers, each that cannot be read taken at its
    /// default.
    pub fn get_config_individually(
        baud: &str,
        data_bits: &str,
        parity: &str,
        stop_bits: &str,
    ) -> (config: SerialConfig)
        ensures
            config == (SerialConfig {
                baud: baud_of(baud@),
                data_bits: lenient_data_bits(data_bits@),
                parity: lenient_parity_name(parity@),
                stop_bits: lenient_stop_bits(stop_bits@),
            }),
    {
        let baud = Self::baud(baud);
        let data_bits = Self::data_bits(chars_of(data_bits).as_slice());
        let parity = Self::parity(parity);
        let stop_bits = Self::stop_bits(chars_of(stop_bits).as_slice());
        SerialConfig { baud, data_bits, parity, stop_bits }
    }

    /// The settings string of four answers.
    pub fn config_string(baud: &str, parity: &str, data_bits: &str, stop_bits: &str) -> (text:
        String)
        ensures
            text@ == settings_string(baud@, parity@, data_bits@, stop_bits@),
    {
        let mut text = baud.to_owned();
        text.append(",");
        match Self::parity(parity) {
            Parity::Odd => text.append("1"),
            Parity::Even => text.append("2"),
            Parity::NoParity => text.append("0"),
        }
        text.append(",");
        text.append(data_bits);
        text.append(",");
        text.append(stop_bits);
        text
    }

    /// The command line that starts a listener on `port_name`.
    pub fn generate_command(
        program: &str,
        port_name: &str,
        config: Option<&str>,
        show_stats: bool,
    ) -> (command: String)
        ensures
            command@ == command_line(
                program@,
                port_name@,
                match config {
                    Some(c) => Some(c@),
                    None => None,
                },
                show_stats,
            ),
    {
        let mut command = program.to_owned();
        command.append(" --port ");
        command.append(port_name);
        match config {
            Some(c) => {
                command.append(" --config \"");
                command.append(c);
                command.append("\"");
            },
            None => {
                assert(command@ + Seq::<char>::empty() == command@);
            },
        }
        if show_stats {
            command.append(" --stats");
        } else {
            assert(command@ + Seq::<char>::empty() == command@);
        }
        command
    }

    /// Whether an answer asks for statistics: `y` in either case.
    pub fn wants_stats(answer: &str) -> (wanted: bool)
        ensures
            wanted == (lowered(answer@) == "y"@),
    {
        is_word(chars_of(answer).as_slice(), "y")
    }

    /// How a reading goes on after a read, given the bytes received so far,
    /// the time since the last byte and the time since the start, both in
    /// nanoseconds.
    pub fn read_step(event: ReadEvent, received: u64, idle: u128, elapsed: u128) -> (step: ReadStep)
        ensures
            step == next_step(event, received, idle, elapsed),
    {
        match event {
            ReadEvent::Failed => ReadStep::Failed,
            ReadEvent::Empty => {
                if idle > NO_DATA_LIMIT && received == 0 {
                    ReadStep::NoData
                } else if elapsed > READING_LIMIT {
                    ReadStep::TimeLimit
                } else {
                    ReadStep::Continue
                }
            },
            _ => {
                if elapsed > READING_LIMIT {
                    ReadStep::TimeLimit
                } else {
                    ReadStep::Continue
                }
            },
        }
    }

    /// The preset of test data that an answer selects.
    pub fn preset(answer: &str) -> (preset: Option<Preset>)
        ensures
            preset == preset_of(answer@),
    {
        if same_text(answer, "1") {
            Some(Preset::VitalSigns)
        } else if same_text(answer, "2") {
            Some(Preset::Waveform)
        } else if same_text(answer, "3") {
            Some(Preset::Hl7)
        } else if same_text(answer, "4") {
            Some(Preset::Text)
        } else if same_text(answer, "5") {
            Some(Preset::Hex)
        } else if same_text(answer, "6") {
            Some(Preset::Continuous)
        } else {
            None
        }
    }

    /// The parity that a name gives.
    fn parity(name: &str) -> (parity: Parity)
        ensures
            parity == lenient_parity_name(name@),
    {
        let chars = chars_of(name);
        let name = chars.as_slice();
        if is_word(name, "odd") || is_word(name, "o") {
            Parity::Odd
        } else if is_word(name, "even") || is_word(name, "e") {
            Parity::Even
        } else {
            Parity::NoParity
        }
    }

    /// The data bits that a field gives.
    fn data_bits(field: &[char]) -> (bits: DataBits)
        ensures
            bits == lenient_data_bits(field@),
    {
        match crate::parse::parse_number(field, i32::MAX as u64) {
            Some(n) => if n == 5 {
                DataBits::Five
            } else if n == 6 {
                DataBits::Six
            } else if n == 7 {
                DataBits::Seven
            } else {
                DataBits::Eight
            },
            None => DataBits::Eight,
        }
    }

    /// The stop bits that a field gives.
    fn stop_bits(field: &[char]) -> (bits: StopBits)
        ensures
            bits == lenient_stop_bits(field@),
    {
        match crate::parse::parse_number(field, i32::MAX as u64) {
            Some(2) => StopBits::Two,
            _ => StopBits::One,
        }
    }
}

} // verus!
