use vital_reader::cli::commands::{Preset, ReadEvent, ReadStep};
use vital_reader::cli::{menu_choice, Commands, MenuChoice, UI};
use vital_reader::config::{DataBits, Parity, StopBits};

#[test]
fn menu_answers_select_entries() {
    assert_eq!(menu_choice("1"), MenuChoice::ListPorts);
    assert_eq!(menu_choice("2"), MenuChoice::TestPort);
    assert_eq!(menu_choice("3"), MenuChoice::ConnectAndRead);
    assert_eq!(menu_choice("4"), MenuChoice::SendFakeData);
    assert_eq!(menu_choice("5"), MenuChoice::GenerateCommand);
    assert_eq!(menu_choice("q"), MenuChoice::Quit);
    assert_eq!(menu_choice("Q"), MenuChoice::Quit);
    for other in ["", "0", "6", "11", " 1", "quit", "x"] {
        assert_eq!(menu_choice(other), MenuChoice::Invalid);
    }
}

#[test]
fn answer_falls_back_on_the_default() {
    assert_eq!(UI::prompt_with_default("9600\n", "115200"), "9600");
    assert_eq!(UI::prompt_with_default("  odd \r\n", "none"), "odd");
    assert_eq!(UI::prompt_with_default("\n", "115200"), "115200");
    assert_eq!(UI::prompt_with_default("   ", "8"), "8");
    assert_eq!(UI::prompt_with_default("", ""), "");
}

#[test]
fn baud_falls_back_on_its_default() {
    assert_eq!(Commands::baud("9600"), 9600);
    assert_eq!(Commands::baud("+57600"), 57600);
    assert_eq!(Commands::baud(""), 115200);
    assert_eq!(Commands::baud("fast"), 115200);
    assert_eq!(Commands::baud("4294967296"), 115200);
    assert_eq!(Commands::seconds("30"), 30);
    assert_eq!(Commands::seconds("soon"), 10);
}

#[test]
fn lenient_settings_take_defaults() {
    let config = Commands::get_config_from_string("9600,2,7,2").unwrap();
    assert_eq!(
        (config.baud, config.data_bits, config.parity, config.stop_bits),
        (9600, DataBits::Seven, Parity::Even, StopBits::Two)
    );
    let config = Commands::get_config_from_string("x,9,4,3").unwrap();
    assert_eq!(
        (config.baud, config.data_bits, config.parity, config.stop_bits),
        (115200, DataBits::Eight, Parity::NoParity, StopBits::One)
    );
    let config = Commands::get_config_from_string(",1,-6,+2").unwrap();
    assert_eq!(
        (config.baud, config.data_bits, config.parity, config.stop_bits),
        (115200, DataBits::Eight, Parity::Odd, StopBits::Two)
    );
    let config = Commands::get_config_from_string("1,1,2147483648,2147483647").unwrap();
    assert_eq!((config.data_bits, config.stop_bits), (DataBits::Eight, StopBits::One));
    assert!(Commands::get_config_from_string("9600,0,8").is_none());
    assert!(Commands::get_config_from_string("").is_none());
    assert!(Commands::get_config_from_string("9600,0,8,1,").is_none());
}

#[test]
fn settings_of_four_answers_take_defaults() {
    let config = Commands::get_config_individually("19200", "5", "E", "2");
    assert_eq!(
        (config.baud, config.data_bits, config.parity, config.stop_bits),
        (19200, DataBits::Five, Parity::Even, StopBits::Two)
    );
    let config = Commands::get_config_individually("", "9", "mark", "0");
    assert_eq!(
        (config.baud, config.data_bits, config.parity, config.stop_bits),
        (115200, DataBits::Eight, Parity::NoParity, StopBits::One)
    );
    assert_eq!(Commands::get_config_individually("1", "6", "Odd", "1").parity, Parity::Odd);
}

#[test]
fn command_line_is_put_together() {
    assert_eq!(Commands::config_string("57600", "none", "8", "1"), "57600,0,8,1");
    assert_eq!(Commands::config_string("9600", "EVEN", "7", "2"), "9600,2,7,2");
    assert_eq!(Commands::config_string("9600", "o", "x", ""), "9600,1,x,");
    assert_eq!(
        Commands::generate_command("vital-reader", "COM3", Some("57600,0,8,1"), true),
        "vital-reader --port COM3 --config \"57600,0,8,1\" --stats"
    );
    assert_eq!(
        Commands::generate_command("./target/release/vital-reader", "/dev/ttyUSB0", None, false),
        "./target/release/vital-reader --port /dev/ttyUSB0"
    );
    assert!(Commands::wants_stats("y"));
    assert!(Commands::wants_stats("Y"));
    assert!(!Commands::wants_stats("yes"));
    assert!(!Commands::wants_stats(""));
}

#[test]
fn reading_goes_on_until_a_limit() {
    let second: u128 = 1_000_000_000;
    assert_eq!(Commands::read_step(ReadEvent::Data, 10, 0, second), ReadStep::Continue);
    assert_eq!(Commands::read_step(ReadEvent::Empty, 0, 5 * second, second * 5), ReadStep::Continue);
    assert_eq!(Commands::read_step(ReadEvent::Empty, 0, 5 * second + 1, second * 6), ReadStep::NoData);
    assert_eq!(Commands::read_step(ReadEvent::Empty, 1, 6 * second, second * 6), ReadStep::Continue);
    assert_eq!(Commands::read_step(ReadEvent::TimedOut, 0, 6 * second, second * 6), ReadStep::Continue);
    assert_eq!(Commands::read_step(ReadEvent::Failed, 5, 0, 0), ReadStep::Failed);
    assert_eq!(Commands::read_step(ReadEvent::Data, 5, 0, 30 * second), ReadStep::Continue);
    assert_eq!(Commands::read_step(ReadEvent::Data, 5, 0, 30 * second + 1), ReadStep::TimeLimit);
    assert_eq!(Commands::read_step(ReadEvent::TimedOut, 0, 0, 31 * second), ReadStep::TimeLimit);
    assert_eq!(Commands::read_step(ReadEvent::Empty, 0, 31 * second, 31 * second), ReadStep::NoData);
}

#[test]
fn preset_answers_select_presets() {
    assert_eq!(Commands::preset("1"), Some(Preset::VitalSigns));
    assert_eq!(Commands::preset("2"), Some(Preset::Waveform));
    assert_eq!(Commands::preset("3"), Some(Preset::Hl7));
    assert_eq!(Commands::preset("4"), Some(Preset::Text));
    assert_eq!(Commands::preset("5"), Some(Preset::Hex));
    assert_eq!(Commands::preset("6"), Some(Preset::Continuous));
    assert_eq!(Commands::preset("7"), None);
    assert_eq!(Commands::preset(""), None);
}
