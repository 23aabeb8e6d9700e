use std::num::IntErrorKind;
use vital_reader::fake::generators::HexError;
use vital_reader::fake::vital_signs::VitalSigns;
use vital_reader::fake::{CustomGenerator, Hl7Generator, VitalSignsGenerator, WaveformGenerator};

#[test]
fn waveform_packet_is_framed() {
    assert_eq!(WaveformGenerator::packet(0, 128), vec![0x02, 0, 128, 128, 0x03]);
    assert_eq!(WaveformGenerator::packet(7, 250), vec![0x02, 7, 250, 1, 0x03]);
    assert_eq!(WaveformGenerator::packet(256 + 255, 255), vec![0x02, 255, 255, 254, 0x03]);
    for i in [0usize, 1, 99, 300, 70000] {
        for value in [0u8, 1, 127, 200, 255] {
            let seq = (i % 256) as u8;
            assert_eq!(
                WaveformGenerator::packet(i, value),
                vec![0x02, seq, value, seq.wrapping_add(value), 0x03]
            );
        }
    }
}

#[test]
fn vital_signs_walk_their_ranges() {
    assert_eq!(
        VitalSignsGenerator::sample(1),
        VitalSigns { hr: 61, spo2: 96, bp_sys: 111, bp_dia: 71 }
    );
    assert_eq!(
        VitalSignsGenerator::sample(20),
        VitalSigns { hr: 60, spo2: 95, bp_sys: 110, bp_dia: 70 }
    );
    assert_eq!(
        VitalSignsGenerator::sample(39),
        VitalSigns { hr: 79, spo2: 99, bp_sys: 129, bp_dia: 79 }
    );
    assert_eq!(
        VitalSignsGenerator::line(3, "36.8", "12:00:00"),
        "PATIENT_ID=12345|HR=63|SPO2=98|BP=113/73|TEMP=36.8|TIME=12:00:00\n"
    );
}

#[test]
fn text_is_sent_as_a_line() {
    assert_eq!(CustomGenerator::send_text("  hello world \r\n"), "hello world\n");
    assert_eq!(CustomGenerator::send_text("\n"), "\n");
}

#[test]
fn hex_words_give_bytes() {
    assert_eq!(CustomGenerator::send_hex("02 1A FF 3C\n"), Ok(vec![0x02, 0x1a, 0xff, 0x3c]));
    assert_eq!(CustomGenerator::send_hex("  a\tB  +c 0ff 000\u{a0}7f"), Ok(vec![10, 11, 12, 255, 0, 127]));
    assert_eq!(CustomGenerator::send_hex(""), Ok(vec![]));
    assert_eq!(CustomGenerator::send_hex(" \n"), Ok(vec![]));
    assert_eq!(CustomGenerator::send_hex("02 1G"), Err(HexError::InvalidDigit));
    assert_eq!(CustomGenerator::send_hex("100"), Err(HexError::TooLarge));
    assert_eq!(CustomGenerator::send_hex("+"), Err(HexError::InvalidDigit));
    assert_eq!(CustomGenerator::send_hex("-1"), Err(HexError::InvalidDigit));
    assert_eq!(CustomGenerator::send_hex("0x10"), Err(HexError::InvalidDigit));
    assert_eq!(CustomGenerator::send_hex("1FFz zz"), Err(HexError::TooLarge));
    assert_eq!(CustomGenerator::send_hex("zz 100"), Err(HexError::InvalidDigit));
    assert_eq!(CustomGenerator::send_hex("100 zz"), Err(HexError::TooLarge));
}

#[test]
fn hex_words_read_as_the_standard_library_reads_them() {
    for word in ["0", "f", "F", "ff", "0ff", "100", "g", "", "+", "+7", "-7", "1g", "1ffg", "fg1", "+ff", "++1"] {
        let chars: Vec<char> = word.chars().collect();
        let expected = u8::from_str_radix(word, 16).map_err(|e| match e.kind() {
            IntErrorKind::PosOverflow => HexError::TooLarge,
            _ => HexError::InvalidDigit,
        });
        assert_eq!(CustomGenerator::parse_hex_byte(&chars), expected, "{:?}", word);
    }
}

#[test]
fn continuous_stream_is_the_congruential_one() {
    let data = CustomGenerator::send_continuous(1000);
    assert_eq!(data.len(), 1000);
    let mut rng = 0u32;
    for byte in &data {
        rng = rng.wrapping_mul(1664525).wrapping_add(1013904223);
        assert_eq!(*byte, (rng % 256) as u8);
    }
    assert_eq!(&data[..4], &[95, 50, 233, 52]);
    assert!(CustomGenerator::send_continuous(0).is_empty());
}

#[test]
fn hl7_message_is_complete() {
    let lines = Hl7Generator::send("20250104120000");
    assert_eq!(lines.len(), 1 + 2 + 23 + 8 + 3);
    assert_eq!(
        lines[0],
        "MSH|^~\\&|GE_MONITOR|ICU_01|VITAL_REC|HOSPITAL|20250104120000||ORU^R01|MSG000001|P|2.5\r"
    );
    assert!(lines[1].starts_with("PID|1||123456"));
    assert!(lines[2].starts_with("PV1|1|I|ICU"));
    assert_eq!(
        lines[3],
        "OBR|1|ORD123456|RES123456|VS^VITAL SIGNS^LOCAL|||20250104120000||||||||123456^SMITH^ROBERT^A^^^DR\r"
    );
    assert_eq!(
        lines[4],
        "OBX|1|NM|8867-4^Heart Rate^LN||72|bpm^beats/min^UCUM|60-100|N|||F|||20250104120000||GE_MONITOR^ECG_MODULE\r"
    );
    assert_eq!(
        lines[21],
        "OBX|18|NM|90371-9^BIS Index^LN||45|{score}^score^UCUM|40-60|N|||F|||20250104120000||GE_MONITOR^BIS_MODULE\r"
    );
    assert!(lines[26].starts_with("OBR|2|VENT123456"));
    assert_eq!(
        lines[36],
        "OBX|32|NM|90401-4^Water Level^LN||85|%^percent^UCUM|50-100|N|||F|||20250104120000||DRAGER^HUMIDIFIER\r"
    );
    for line in &lines {
        assert!(line.ends_with('\r'));
    }
    assert_eq!(Hl7Generator::send_header("t"), lines[0].replace("20250104120000", "t"));
    assert_eq!(Hl7Generator::send_patient_info(), lines[1..3].to_vec());
    assert_eq!(Hl7Generator::send_ge_monitor_data("20250104120000"), lines[3..26].to_vec());
    assert_eq!(Hl7Generator::send_drager_ventilator_data("20250104120000"), lines[26..34].to_vec());
    assert_eq!(Hl7Generator::send_drager_humidifier_data("20250104120000"), lines[34..].to_vec());
}
