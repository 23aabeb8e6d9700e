use vital_reader::config::{ConfigError, DataBits, Parity, SerialConfig, StopBits};
use vital_reader::parse::{
    chars_of, is_word, number_or, parse_number, same_text, split_chars, string_of, trimmed_chars,
};

fn chars(text: &str) -> Vec<char> {
    text.chars().collect()
}

#[test]
fn settings_string_gives_each_field() {
    let config = SerialConfig::from_string("57600,2,7,2").unwrap();
    assert_eq!(config.baud, 57600);
    assert_eq!(config.parity, Parity::Even);
    assert_eq!(config.data_bits, DataBits::Seven);
    assert_eq!(config.stop_bits, StopBits::Two);
    let config = SerialConfig::from_string("+300,01,005,+1").unwrap();
    assert_eq!(config.baud, 300);
    assert_eq!(config.parity, Parity::Odd);
    assert_eq!(config.data_bits, DataBits::Five);
    assert_eq!(config.stop_bits, StopBits::One);
    assert_eq!(SerialConfig::from_string("4294967295,0,8,1").unwrap().baud, u32::MAX);
}

#[test]
fn settings_string_names_its_first_fault() {
    let fault = |text: &str| SerialConfig::from_string(text).unwrap_err();
    assert_eq!(fault(""), ConfigError::Format);
    assert_eq!(fault("115200,0,8"), ConfigError::Format);
    assert_eq!(fault("115200,0,8,1,"), ConfigError::Format);
    assert_eq!(fault("x,y,z,w"), ConfigError::Baud);
    assert_eq!(fault(",0,8,1"), ConfigError::Baud);
    assert_eq!(fault("4294967296,0,8,1"), ConfigError::Baud);
    assert_eq!(fault("-1,0,8,1"), ConfigError::Baud);
    assert_eq!(fault("9600,x,9,3"), ConfigError::ParityNumber);
    assert_eq!(fault("9600,256,8,1"), ConfigError::ParityNumber);
    assert_eq!(fault("9600, 0,8,1"), ConfigError::ParityNumber);
    assert_eq!(fault("9600,3,9,3"), ConfigError::ParityRange);
    assert_eq!(fault("9600,0,x,3"), ConfigError::DataBitsNumber);
    assert_eq!(fault("9600,0,9,3"), ConfigError::DataBits(9));
    assert_eq!(fault("9600,0,4,1"), ConfigError::DataBits(4));
    assert_eq!(fault("9600,0,8,"), ConfigError::StopBitsNumber);
    assert_eq!(fault("9600,0,8,3"), ConfigError::StopBits(3));
    assert_eq!(fault("9600,0,8,0"), ConfigError::StopBits(0));
}

#[test]
fn settings_one_by_one_name_their_first_fault() {
    let fault = |d: u8, p: &str, s: u8| SerialConfig::new(9600, d, p, s).unwrap_err();
    assert_eq!(fault(9, "bad", 3), ConfigError::DataBits(9));
    assert_eq!(fault(8, "bad", 3), ConfigError::ParityName("bad".to_string()));
    assert_eq!(fault(8, "", 3), ConfigError::ParityName(String::new()));
    assert_eq!(fault(8, "odd ", 1), ConfigError::ParityName("odd ".to_string()));
    assert_eq!(fault(8, "odd", 3), ConfigError::StopBits(3));
    let config = SerialConfig::new(1200, 6, "EvEn", 2).unwrap();
    assert_eq!(config.baud, 1200);
    assert_eq!(config.data_bits, DataBits::Six);
    assert_eq!(config.parity, Parity::Even);
    assert_eq!(config.stop_bits, StopBits::Two);
    assert_eq!(SerialConfig::new(1200, 6, "O", 2).unwrap().parity, Parity::Odd);
    assert_eq!(SerialConfig::new(1200, 6, "N", 2).unwrap().parity, Parity::NoParity);
}

#[test]
fn faults_read_as_sentences() {
    assert_eq!(
        ConfigError::Format.message(),
        "Invalid config format. Expected: baud,parity,data_bits,stop_bits (e.g., 57600,0,8,1)"
    );
    assert_eq!(ConfigError::Baud.message(), "Invalid baud rate");
    assert_eq!(ConfigError::ParityNumber.message(), "Invalid parity (0=none, 1=odd, 2=even)");
    assert_eq!(ConfigError::ParityRange.message(), "Parity must be 0 (none), 1 (odd), or 2 (even)");
    assert_eq!(ConfigError::DataBitsNumber.message(), "Invalid data bits");
    assert_eq!(ConfigError::DataBits(9).message(), "Invalid data bits: 9");
    assert_eq!(ConfigError::StopBitsNumber.message(), "Invalid stop bits");
    assert_eq!(ConfigError::StopBits(255).message(), "Invalid stop bits: 255");
    assert_eq!(ConfigError::ParityName("mark".to_string()).message(), "Invalid parity: mark");
}

#[test]
fn split_keeps_empty_fields() {
    let fields = |text: &str| -> Vec<String> {
        split_chars(&chars(text), ',').iter().map(|f| f.iter().collect()).collect()
    };
    assert_eq!(fields(""), vec![""]);
    assert_eq!(fields("a"), vec!["a"]);
    assert_eq!(fields("a,b"), vec!["a", "b"]);
    assert_eq!(fields(",a,,b,"), vec!["", "a", "", "b", ""]);
    for text in ["", ",", "1,2,3", "x,,y", "no comma"] {
        let expected: Vec<String> = text.split(',').map(|f| f.to_string()).collect();
        assert_eq!(fields(text), expected);
    }
}

#[test]
fn numbers_read_as_the_standard_library_reads_them() {
    let texts = [
        "", "+", "-", "0", "+0", "-0", "007", "+12", "12a", "a12", " 12", "12 ", "1_000", "255",
        "256", "4294967295", "4294967296", "18446744073709551615", "18446744073709551616",
        "99999999999999999999999999", "++1", "1+", "\u{661}",
    ];
    for text in texts {
        assert_eq!(parse_number(&chars(text), u8::MAX as u64), text.parse::<u8>().ok().map(u64::from), "{:?}", text);
        assert_eq!(parse_number(&chars(text), u32::MAX as u64), text.parse::<u32>().ok().map(u64::from), "{:?}", text);
        assert_eq!(parse_number(&chars(text), u64::MAX), text.parse::<u64>().ok(), "{:?}", text);
        assert_eq!(number_or(&chars(text), u32::MAX as u64, 115200), text.parse::<u32>().unwrap_or(115200) as u64);
    }
}

#[test]
fn trimming_is_what_the_standard_library_trims() {
    for text in ["", " ", "a", " a", "a ", "\t a b \r\n", "\u{a0}x\u{3000}", " \u{2003} ", "a\u{b}b"] {
        let trimmed: String = trimmed_chars(text).iter().collect();
        assert_eq!(trimmed, text.trim());
    }
}

#[test]
fn words_match_without_regard_to_case() {
    assert!(is_word(&chars("NONE"), "none"));
    assert!(is_word(&chars("nOnE"), "none"));
    assert!(!is_word(&chars("none "), "none"));
    assert!(!is_word(&chars("non"), "none"));
    assert!(!is_word(&chars(""), "n"));
    assert!(!is_word(&chars("\u{212a}"), "k"));
    assert!(same_text("q", "q"));
    assert!(!same_text("Q", "q"));
    assert!(!same_text("q ", "q"));
}

#[test]
fn characters_and_strings_convert_both_ways() {
    for text in ["", "abc", "gr\u{fc}n \u{1f600}"] {
        assert_eq!(chars_of(text), chars(text));
        assert_eq!(string_of(&chars(text)), text);
    }
}

#[test]
fn only_ascii_capitals_fold_to_the_letters_of_parity_names() {
    let mut c = 0u32;
    while c <= 0x10ffff {
        if let Some(ch) = char::from_u32(c) {
            let folded: String = ch.to_lowercase().collect();
            if ["n", "o", "e", "d", "v"].contains(&folded.as_str()) {
                assert!(ch.is_ascii(), "U+{:04X}", c);
            }
        }
        c += 1;
    }
    for name in ["none", "NONE", "n", "N", "odd", "Odd", "o", "even", "EVEN", "e", "E", "", "mark", "no", "evenn"] {
        let expected = match name.to_lowercase().as_str() {
            "none" | "n" => Some(Parity::NoParity),
            "odd" | "o" => Some(Parity::Odd),
            "even" | "e" => Some(Parity::Even),
            _ => None,
        };
        assert_eq!(SerialConfig::parse_parity(name).ok(), expected, "{:?}", name);
    }
}
