//! The serial line's settings and the two notations that they are read from.

use vstd::prelude::*;
use crate::data::text::append_decimal;
use crate::parse::{chars_of, is_word, lowered, parse_number, parse_unsigned, split, split_chars, string_of};

verus! {

/// The number of data bits in a character.
#[derive(Debug, Clone, Copy, PartialEq, Eq, Structural)]
pub enum DataBits {
    Five,
    Six,
    Seven,
    Eight,
}

/// The parity checking mode.
#[derive(Debug, Clone, Copy, PartialEq, Eq, Structural)]
pub enum Parity {
    NoParity,
    Odd,
    Even,
}

/// The number of stop bits after a character.
#[derive(Debug, Clone, Copy, PartialEq, Eq, Structural)]
pub enum StopBits {
    One,
    Two,
}

/// Why settings were not accepted.
#[derive(Debug, Clone, PartialEq, Eq)]
pub enum ConfigError {
    /// The settings string does not hold four fields.
    Format,
    /// The baud rate is no number that fits 32 bits.
    Baud,
    /// The parity is no number that fits 8 bits.
    ParityNumber,
    /// The parity number is none of 0, 1 and 2.
    ParityRange,
    /// The data bits are no number that fits 8 bits.
    DataBitsNumber,
    /// There is no such number of data bits.
    DataBits(u8),
    /// The stop bits are no number that fits 8 bits.
    StopBitsNumber,
    /// There is no such number of stop bits.
    StopBits(u8),
    /// There is no parity of that name.
    ParityName(String),
}

/// A reason for not accepting settings, as contracts speak of it.
pub enum ConfigFault {
    Format,
    Baud,
    ParityNumber,
    ParityRange,
    DataBitsNumber,
    DataBits(u8),
    StopBitsNumber,
    StopBits(u8),
    ParityName(Seq<char>),
}

impl View for ConfigError {
    type V = ConfigFault;

    open spec fn view(&self) -> ConfigFault {
        match self {
            ConfigError::Format => ConfigFault::Format,
            ConfigError::Baud => ConfigFault::Baud,
            ConfigError::ParityNumber => ConfigFault::ParityNumber,
            ConfigError::ParityRange => ConfigFault::ParityRange,
            ConfigError::DataBitsNumber => ConfigFault::DataBitsNumber,
            ConfigError::DataBits(n) => ConfigFault::DataBits(*n),
            ConfigError::StopBitsNumber => ConfigFault::StopBitsNumber,
            ConfigError::StopBits(n) => ConfigFault::StopBits(*n),
            ConfigError::ParityName(name) => ConfigFault::ParityName(name@),
        }
    }
}

/// The settings of a serial line.
#[derive(Debug, Clone, Copy, PartialEq, Eq, Structural)]
pub struct SerialConfig {
    pub baud: u32,
    pub data_bits: DataBits,
    pub parity: Parity,
    pub stop_bits: StopBits,
}

/// The data bits for a count: five to eight.
pub open spec fn data_bits_of(bits: u8) -> Option<DataBits> {
    if bits == 5 {
        Some(DataBits::Five)
    } else if bits == 6 {
        Some(DataBits::Six)
    } else if bits == 7 {
        Some(DataBits::Seven)
    } else if bits == 8 {
        Some(DataBits::Eight)
    } else {
        None
    }
}

/// The stop bits for a count: one or two.
pub open spec fn stop_bits_of(bits: u8) -> Option<StopBits> {
    if bits == 1 {
        Some(StopBits::One)
    } else if bits == 2 {
        Some(StopBits::Two)
    } else {
        None
    }
}

/// The parity for a number: 0 is none, 1 odd, 2 even.
pub open spec fn parity_of_number(number: u8) -> Option<Parity> {
    if number == 0 {
        Some(Parity::NoParity)
    } else if number == 1 {
        Some(Parity::Odd)
    } else if number == 2 {
        Some(Parity::Even)
    } else {
        None
    }
}

/// The parity for a name: the word or its first letter, in any mix of upper
/// and lower case.
pub open spec fn parity_of_name(name: Seq<char>) -> Option<Parity> {
    let word = lowered(name);
    if word == "none"@ || word == "n"@ {
        Some(Parity::NoParity)
    } else if word == "odd"@ || word == "o"@ {
        Some(Parity::Odd)
    } else if word == "even"@ || word == "e"@ {
        Some(Parity::Even)
    } else {
        None
    }
}

/// What the four settings given one by one make: the settings, or the first
/// fault in the order data bits, parity, stop bits.
pub open spec fn settings_of(baud: u32, data_bits: u8, parity: Seq<char>, stop_bits: u8) -> Result<
    SerialConfig,
    ConfigFault,
> {
    match data_bits_of(data_bits) {
        None => Err(ConfigFault::DataBits(data_bits)),
        Some(d) => match parity_of_name(parity) {
            None => Err(ConfigFault::ParityName(parity)),
            Some(p) => match stop_bits_of(stop_bits) {
                None => Err(ConfigFault::StopBits(stop_bits)),
                Some(s) => Ok(SerialConfig { baud, data_bits: d, parity: p, stop_bits: s }),
            },
        },
    }
}

/// What a settings string makes. It holds four fields between commas: baud
/// rate, parity number, data bits, stop bits, each an unsigned decimal number
/// with nothing around it. The fields are read in that order, and the first
/// fault is the result.
pub open spec fn parse_settings(text: Seq<char>) -> Result<SerialConfig, ConfigFault> {
    let fields = split(text, ',');
    if fields.len() != 4 {
        Err(ConfigFault::Format)
    } else {
        match parse_unsigned(fields[0], u32::MAX as nat) {
            None => Err(ConfigFault::Baud),
            Some(baud) => match parse_unsigned(fields[1], u8::MAX as nat) {
                None => Err(ConfigFault::ParityNumber),
                Some(parity) => match parity_of_number(parity as u8) {
                    None => Err(ConfigFault::ParityRange),
                    Some(p) => match parse_unsigned(fields[2], u8::MAX as nat) {
                        None => Err(ConfigFault::DataBitsNumber),
                        Some(data_bits) => match data_bits_of(data_bits as u8) {
                            None => Err(ConfigFault::DataBits(data_bits as u8)),
                            Some(d) => match parse_unsigned(fields[3], u8::MAX as nat) {
                                None => Err(ConfigFault::StopBitsNumber),
                                Some(stop_bits) => match stop_bits_of(stop_bits as u8) {
                                    None => Err(ConfigFault::StopBits(stop_bits as u8)),
                                    Some(s) => Ok(
                                        SerialConfig {
                                            baud: baud as u32,
                                            data_bits: d,
                                            parity: p,
                                            stop_bits: s,
                                        },
                                    ),
                                },
                            },
                        },
                    },
                },
            },
        }
    }
}

/// Whether `result` is what `expected` says: the same settings, or the error
/// of the same fault.
pub open spec fn is_outcome(
    result: Result<SerialConfig, ConfigError>,
    expected: Result<SerialConfig, ConfigFault>,
) -> bool {
    match result {
        Ok(config) => expected == Ok::<SerialConfig, ConfigFault>(config),
        Err(error) => expected == Err::<SerialConfig, ConfigFault>(error@),
    }
}

/// The wording of a fault.
pub open spec fn fault_text(fault: ConfigFault) -> Seq<char> {
    match fault {
        ConfigFault::Format => "Invalid config format. Expected: baud,parity,data_bits,stop_bits (e.g., 57600,0,8,1)"@,
        ConfigFault::Baud => "Invalid baud rate"@,
        ConfigFault::ParityNumber => "Invalid parity (0=none, 1=odd, 2=even)"@,
        ConfigFault::ParityRange => "Parity must be 0 (none), 1 (odd), or 2 (even)"@,
        ConfigFault::DataBitsNumber => "Invalid data bits"@,
        ConfigFault::DataBits(n) => "Invalid data bits: "@ + crate::data::text::decimal(n as nat),
        ConfigFault::StopBitsNumber => "Invalid stop bits"@,
        ConfigFault::StopBits(n) => "Invalid stop bits: "@ + crate::data::text::decimal(n as nat),
        ConfigFault::ParityName(name) => "Invalid parity: "@ + name,
    }
}

impl ConfigError {
    /// The error in words.
    pub fn message(&self) -> (text: String)
        ensures
            text@ == fault_text(self@),
    {
        match self {
            ConfigError::Format => String::from_str(
                "Invalid config format. Expected: baud,parity,data_bits,stop_bits (e.g., 57600,0,8,1)",
            ),
            ConfigError::Baud => String::from_str("Invalid baud rate"),
            ConfigError::ParityNumber => String::from_str("Invalid parity (0=none, 1=odd, 2=even)"),
            ConfigError::ParityRange => String::from_str(
                "Parity must be 0 (none), 1 (odd), or 2 (even)",
            ),
            ConfigError::DataBitsNumber => String::from_str("Invalid data bits"),
            ConfigError::DataBits(n) => {
                let mut text = String::from_str("Invalid data bits: ");
                append_decimal(&mut text, *n as usize);
                text
            },
            ConfigError::StopBitsNumber => String::from_str("Invalid stop bits"),
            ConfigError::StopBits(n) => {
                let mut text = String::from_str("Invalid stop bits: ");
                append_decimal(&mut text, *n as usize);
                text
            },
            ConfigError::ParityName(name) => {
                let mut text = String::from_str("Invalid parity: ");
                text.append(name.as_str());
                text
            },
        }
    }
}

impl SerialConfig {
    /// Settings from the four values given one by one.
    pub fn new(baud: u32, data_bits: u8, parity: &str, stop_bits: u8) -> (result: Result<
        Self,
        ConfigError,
    >)
        ensures
            is_outcome(result, settings_of(baud, data_bits, parity@, stop_bits)),
    {
        let data_bits = match Self::parse_data_bits(data_bits) {
            Ok(d) => d,
            Err(e) => {
                return Err(e);
            },
        };
        let parity = match Self::parse_parity(parity) {
            Ok(p) => p,
            Err(e) => {
                return Err(e);
            },
        };
        let stop_bits = match Self::parse_stop_bits(stop_bits) {
            Ok(s) => s,
            Err(e) => {
                return Err(e);
            },
        };
        Ok(SerialConfig { baud, data_bits, parity, stop_bits })
    }

    /// Settings from a string of the form `baud,parity,data_bits,stop_bits`,
    /// such as `115200,0,8,1`, where the parity is 0 for none, 1 for odd and
    /// 2 for even.
    pub fn from_string(config: &str) -> (result: Result<Self, ConfigError>)
        ensures
            is_outcome(result, parse_settings(config@)),
    {
        let chars = chars_of(config);
        let fields = split_chars(chars.as_slice(), ',');
        if fields.len() != 4 {
            return Err(ConfigError::Format);
        }
        assert(field_views_at(fields@, 0) && field_views_at(fields@, 1) && field_views_at(
            fields@,
            2,
        ) && field_views_at(fields@, 3));
        let baud: u32 = match parse_number(fields[0].as_slice(), u32::MAX as u64) {
            Some(n) => n as u32,
            None => {
                return Err(ConfigError::Baud);
            },
        };
        let parity_number: u8 = match parse_number(fields[1].as_slice(), u8::MAX as u64) {
            Some(n) => n as u8,
            None => {
                return Err(ConfigError::ParityNumber);
            },
        };
        let parity = if parity_number == 0 {
            Parity::NoParity
        } else if parity_number == 1 {
            Parity::Odd
        } else if parity_number == 2 {
            Parity::Even
        } else {
            return Err(ConfigError::ParityRange);
        };
        let data_bits_number: u8 = match parse_number(fields[2].as_slice(), u8::MAX as u64) {
            Some(n) => n as u8,
            None => {
                return Err(ConfigError::DataBitsNumber);
            },
        };
        let data_bits = match Self::parse_data_bits(data_bits_number) {
            Ok(d) => d,
            Err(e) => {
                return Err(e);
            },
        };
        let stop_bits_number: u8 = match parse_number(fields[3].as_slice(), u8::MAX as u64) {
            Some(n) => n as u8,
            None => {
                return Err(ConfigError::StopBitsNumber);
            },
        };
        let stop_bits = match Self::parse_stop_bits(stop_bits_number) {
            Ok(s) => s,
            Err(e) => {
                return Err(e);
            },
        };
        Ok(SerialConfig { baud, data_bits, parity, stop_bits })
    }

    /// The data bits for a count.
    pub fn parse_data_bits(bits: u8) -> (result: Result<DataBits, ConfigError>)
        ensures
            match result {
                Ok(d) => data_bits_of(bits) == Some(d),
                Err(e) => data_bits_of(bits) is None && e == ConfigError::DataBits(bits),
            },
    {
        if bits == 5 {
            Ok(DataBits::Five)
        } else if bits == 6 {
            Ok(DataBits::Six)
        } else if bits == 7 {
            Ok(DataBits::Seven)
        } else if bits == 8 {
            Ok(DataBits::Eight)
        } else {
            Err(ConfigError::DataBits(bits))
        }
    }

    /// The parity for a name.
    pub fn parse_parity(parity: &str) -> (result: Result<Parity, ConfigError>)
        ensures
            match result {
                Ok(p) => parity_of_name(parity@) == Some(p),
                Err(e) => parity_of_name(parity@) is None && e@ == ConfigFault::ParityName(
                    parity@,
                ),
            },
    {
        let chars = chars_of(parity);
        let name = chars.as_slice();
        if is_word(name, "none") || is_word(name, "n") {
            Ok(Parity::NoParity)
        } else if is_word(name, "odd") || is_word(name, "o") {
            Ok(Parity::Odd)
        } else if is_word(name, "even") || is_word(name, "e") {
            Ok(Parity::Even)
        } else {
            Err(ConfigError::ParityName(string_of(name)))
        }
    }

    /// The stop bits for a count.
    pub fn parse_stop_bits(bits: u8) -> (result: Result<StopBits, ConfigError>)
        ensures
            match result {
                Ok(s) => stop_bits_of(bits) == Some(s),
                Err(e) => stop_bits_of(bits) is None && e == ConfigError::StopBits(bits),
            },
    {
        if bits == 1 {
            Ok(StopBits::One)
        } else if bits == 2 {
            Ok(StopBits::Two)
        } else {
            Err(ConfigError::StopBits(bits))
        }
    }
}

/// The view of the field at `i` is the field's view.
spec fn field_views_at(fields: Seq<Vec<char>>, i: int) -> bool {
    crate::parse::field_views(fields)[i] == fields[i]@
}

impl Default for SerialConfig {
    /// 115200 baud, eight data bits, no parity, one stop bit.
    fn default() -> (config: Self)
        ensures
            config == (SerialConfig {
                baud: 115200,
                data_bits: DataBits::Eight,
                parity: Parity::NoParity,
                stop_bits: StopBits::One,
            }),
    {
        SerialConfig {
            baud: 115200,
            data_bits: DataBits::Eight,
            parity: Parity::NoParity,
            stop_bits: StopBits::One,
        }
    }
}

} // verus!
