use vital_reader::data::classifier::StreamClassifier;
use vital_reader::data::text::is_whitespace_char;
use vital_reader::data::{DataFormatter, DataParser, DataType};

fn bytes_of(lines: &[vital_reader::data::parser::Line]) -> Vec<Vec<u8>> {
    lines.iter().map(|l| l.bytes.clone()).collect()
}

#[test]
fn total_is_the_sum_of_the_chunk_lengths() {
    let mut parser = DataParser::new();
    let chunks: Vec<&[u8]> = vec![b"abc", b"", b"\r\n", &[0u8, 1, 2, 255], b"tail"];
    let mut sum = 0u64;
    for chunk in chunks {
        parser.feed(chunk, "t");
        sum += chunk.len() as u64;
        assert_eq!(parser.total_count(), sum);
        assert!(parser.ascii_count() <= parser.total_count());
        assert_eq!(parser.ascii_count() + parser.binary_count(), parser.total_count());
    }
    assert_eq!(parser.total_count(), 13);
    assert_eq!(parser.ascii_count(), 9);
    assert_eq!(parser.binary_count(), 4);
}

#[test]
fn classifier_counts_each_byte() {
    let mut classifier = StreamClassifier::new();
    assert_eq!(classifier.total_count(), 0);
    assert_eq!(classifier.classify(), DataType::Mixed);
    for byte in [b'a', 0u8, b'\t', 127u8, 31u8, b'~'] {
        classifier.observe(byte);
    }
    assert_eq!(classifier.total_count(), 6);
    assert_eq!(classifier.printable_count(), 3);
}

#[test]
fn verdict_holds_below_a_hundred_bytes() {
    let mut parser = DataParser::new();
    parser.feed(&[0u8; 99], "t");
    assert_eq!(parser.detected_type(), DataType::Mixed);
    parser.feed(&[0u8; 1], "t");
    assert_eq!(parser.detected_type(), DataType::Binary);

    let mut parser = DataParser::new();
    parser.feed(&[b'x'; 99], "t");
    assert_eq!(parser.detected_type(), DataType::Mixed);
    parser.feed(&[b'x'; 1], "t");
    assert_eq!(parser.detected_type(), DataType::Ascii);
}

#[test]
fn thousand_printable_bytes_are_ascii() {
    let mut parser = DataParser::new();
    let data: Vec<u8> = (0..1000u32).map(|i| 32 + (i % 95) as u8).collect();
    parser.feed(&data, "t");
    assert_eq!(parser.detected_type(), DataType::Ascii);
}

#[test]
fn thousand_zero_bytes_are_binary() {
    let mut parser = DataParser::new();
    parser.feed(&[0u8; 1000], "t");
    assert_eq!(parser.detected_type(), DataType::Binary);
}

#[test]
fn alternating_bytes_are_mixed() {
    let mut parser = DataParser::new();
    let data: Vec<u8> = (0..1000u32).map(|i| if i % 2 == 0 { b'A' } else { 0 }).collect();
    parser.feed(&data, "t");
    assert_eq!(parser.detected_type(), DataType::Mixed);
}

#[test]
fn verdict_bounds_are_mixed() {
    assert_eq!(StreamClassifier::verdict_of(95, 100), DataType::Mixed);
    assert_eq!(StreamClassifier::verdict_of(96, 100), DataType::Ascii);
    assert_eq!(StreamClassifier::verdict_of(30, 100), DataType::Mixed);
    assert_eq!(StreamClassifier::verdict_of(29, 100), DataType::Binary);
    assert_eq!(StreamClassifier::verdict_of(951, 1000), DataType::Ascii);
    assert_eq!(StreamClassifier::verdict_of(299, 1000), DataType::Binary);
    assert_eq!(StreamClassifier::verdict_of(u64::MAX, u64::MAX), DataType::Ascii);
    assert_eq!(StreamClassifier::verdict_of(0, u64::MAX), DataType::Binary);
}

#[test]
fn verdict_can_slide_with_later_traffic() {
    let mut parser = DataParser::new();
    parser.feed(&[b'a'; 100], "t");
    assert_eq!(parser.detected_type(), DataType::Ascii);
    parser.feed(&[0u8; 100], "t");
    assert_eq!(parser.detected_type(), DataType::Mixed);
    parser.feed(&[0u8; 200], "t");
    assert_eq!(parser.detected_type(), DataType::Binary);
}

#[test]
fn crlf_gives_one_line() {
    let mut parser = DataParser::new();
    let lines = parser.feed(b"Line1\r\n", "12:00:00");
    assert_eq!(bytes_of(&lines), vec![b"Line1\r".to_vec()]);
    assert_eq!(lines[0].timestamp, "12:00:00");
    assert_eq!(lines[0].verdict, DataType::Mixed);
    assert!(parser.pending().is_empty());
}

#[test]
fn crlf_split_over_two_chunks_gives_one_line() {
    let mut parser = DataParser::new();
    let first = parser.feed(b"Line1\r", "a");
    let second = parser.feed(b"\nLine2", "b");
    assert_eq!(bytes_of(&first), vec![b"Line1\r".to_vec()]);
    assert!(second.is_empty());
    assert_eq!(parser.pending(), b"Line2");
}

#[test]
fn cr_ends_each_line() {
    let mut parser = DataParser::new();
    let lines = parser.feed(b"Line1\rLine2\r", "t");
    assert_eq!(bytes_of(&lines), vec![b"Line1\r".to_vec(), b"Line2\r".to_vec()]);
}

#[test]
fn lf_ends_each_line() {
    let mut parser = DataParser::new();
    let lines = parser.feed(b"Line1\nLine2\n", "t");
    assert_eq!(bytes_of(&lines), vec![b"Line1\n".to_vec(), b"Line2\n".to_vec()]);
}

#[test]
fn bare_terminators_give_lines_of_their_own() {
    let mut parser = DataParser::new();
    let lines = parser.feed(b"\r\r\n\n\r", "t");
    assert_eq!(
        bytes_of(&lines),
        vec![b"\r".to_vec(), b"\r".to_vec(), b"\n".to_vec(), b"\r".to_vec()]
    );
}

#[test]
fn long_run_is_forced_out() {
    let mut parser = DataParser::new();
    let lines = parser.feed(&vec![b'A'; 70000], "t");
    assert_eq!(lines.len(), 1);
    assert_eq!(lines[0].bytes.len(), 65537);
    assert!(lines[0].bytes.iter().all(|b| *b == b'A'));
    assert_eq!(parser.pending().len(), 70000 - 65537);
    let sum: usize = lines.iter().map(|l| l.bytes.len()).sum();
    assert_eq!(sum + parser.pending().len(), 70000);
}

#[test]
fn pending_line_holds_at_its_bound() {
    let mut parser = DataParser::new();
    let lines = parser.feed(&vec![b'A'; 65536], "t");
    assert!(lines.is_empty());
    assert_eq!(parser.pending().len(), 65536);
    let lines = parser.feed(b"B", "t");
    assert_eq!(lines.len(), 1);
    assert_eq!(lines[0].bytes.len(), 65537);
    assert!(parser.pending().is_empty());
}

#[test]
fn line_carries_the_verdict_of_its_last_byte() {
    let mut parser = DataParser::new();
    let mut data = vec![b'a'; 99];
    data.push(b'\n');
    data.extend_from_slice(b"next\n");
    let lines = parser.feed(&data, "t");
    assert_eq!(lines.len(), 2);
    assert_eq!(lines[0].verdict, DataType::Ascii);
    assert_eq!(lines[1].verdict, DataType::Ascii);

    let mut parser = DataParser::new();
    let mut data = vec![b'a'; 98];
    data.push(b'\n');
    data.extend_from_slice(b"next\n");
    let lines = parser.feed(&data, "t");
    assert_eq!(lines[0].verdict, DataType::Mixed);
    assert_eq!(lines[1].verdict, DataType::Ascii);
}

#[test]
fn records_follow_the_lines() {
    let mut parser = DataParser::new();
    let records = parser.process_data(b"Line1\r\nLi\x00ne2\nrest", "12:00:00");
    assert_eq!(records, vec!["[12:00:00] MIXED: Line1", "[12:00:00] MIXED: Li[00]ne2"]);
    let mut data = vec![b'a'; 100];
    data.extend_from_slice(b"\n \n\xff\n");
    let records = parser.process_data(&data, "later");
    assert_eq!(records.len(), 1);
    assert_eq!(records[0], format!("[later] ASCII: rest{}", "a".repeat(100)));
}

#[test]
fn render_lines_renders_each_under_its_verdict() {
    let mut parser = DataParser::new();
    let lines = parser.feed(b"one\ntwo\n", "t");
    let records = DataParser::render_lines(&lines);
    assert_eq!(records, vec!["[t] MIXED: one", "[t] MIXED: two"]);
}

#[test]
fn empty_line_renders_by_verdict() {
    assert_eq!(DataFormatter::format_data(b"", &DataType::Ascii, "t"), None);
    assert_eq!(
        DataFormatter::format_data(b"", &DataType::Binary, "t"),
        Some("[t] BINARY: [] (0 bytes)".to_string())
    );
    assert_eq!(
        DataFormatter::format_data(b"", &DataType::Mixed, "t"),
        Some("[t] MIXED: ".to_string())
    );
}

#[test]
fn ascii_record_is_exact() {
    assert_eq!(
        DataFormatter::format_ascii(b"Hello World \t\r\n", "12:00:00"),
        Some("[12:00:00] ASCII: Hello World".to_string())
    );
    assert_eq!(
        DataFormatter::format_ascii(b"  lead\rmid\n", "t"),
        Some("[t] ASCII:   lead\rmid".to_string())
    );
    assert_eq!(
        DataFormatter::format_ascii("gr\u{fc}n \u{3000}\u{a0}".as_bytes(), "t"),
        Some("[t] ASCII: gr\u{fc}n".to_string())
    );
}

#[test]
fn ascii_declines_what_is_not_text() {
    assert_eq!(DataFormatter::format_ascii(&[0xff, 0x41], "t"), None);
    assert_eq!(DataFormatter::format_ascii(&[0xc3], "t"), None);
    assert_eq!(DataFormatter::format_ascii(&[0xed, 0xa0, 0x80], "t"), None);
    assert_eq!(DataFormatter::format_ascii(b" \t\r\n", "t"), None);
    assert_eq!(DataFormatter::format_ascii("\u{2003}\u{85}".as_bytes(), "t"), None);
}

#[test]
fn binary_record_is_exact() {
    assert_eq!(
        DataFormatter::format_binary(&[0x02, 0x1a, 0xff, 0x3c], "12:00:00"),
        "[12:00:00] BINARY: [02 1A FF 3C] (4 bytes)"
    );
    assert_eq!(DataFormatter::format_binary(&[0x00], "t"), "[t] BINARY: [00] (1 bytes)");
    let data: Vec<u8> = (0..=255u8).collect();
    let record = DataFormatter::format_binary(&data, "t");
    assert!(record.starts_with("[t] BINARY: [00 01 02 03 04 05 06 07 08 09 0A 0B 0C 0D 0E 0F 10 "));
    assert!(record.ends_with(" FD FE FF] (256 bytes)"));
    assert_eq!(DataFormatter::format_binary(&[7u8; 1090], "t").rsplit('(').next(), Some("1090 bytes)"));
}

#[test]
fn mixed_record_is_exact() {
    assert_eq!(DataFormatter::format_mixed(b"Text\x00\xff", "12:00:00"), "[12:00:00] MIXED: Text[00 FF]");
    assert_eq!(DataFormatter::format_mixed(b"\xff\xaaab\x01c", "t"), "[t] MIXED: [FF AA]ab[01]c");
    assert_eq!(DataFormatter::format_mixed(b"\x01\r\n\x02x", "t"), "[t] MIXED: [01 02]x");
    assert_eq!(DataFormatter::format_mixed(b"a \t", "t"), "[t] MIXED: a");
    assert_eq!(DataFormatter::format_mixed(b"a\t\x7f \r\n", "t"), "[t] MIXED: a\t[7F]");
    assert_eq!(DataFormatter::format_mixed(b"Line1\nLine2\r\nData\x00", "t"), "[t] MIXED: Line1Line2Data[00]");
}

fn hex_back(list: &str) -> Vec<u8> {
    list.split(' ').filter(|p| !p.is_empty()).map(|p| u8::from_str_radix(p, 16).unwrap()).collect()
}

#[test]
fn bracketed_lists_give_the_bytes_back() {
    let data: Vec<u8> = vec![0x00, b'a', 0x80, 0x81, b'\n', 0x82, b' ', b'z', 0xff, 0x1f];
    let binary = DataFormatter::format_binary(&data, "t");
    let body = &binary["[t] BINARY: [".len()..binary.rfind("] (").unwrap()];
    assert_eq!(hex_back(body), data);

    let mixed = DataFormatter::format_mixed(&data, "t");
    let mut rest = &mixed["[t] MIXED: ".len()..];
    let mut found: Vec<u8> = Vec::new();
    while let Some(open) = rest.find('[') {
        let close = open + rest[open..].find(']').unwrap();
        found.extend(hex_back(&rest[open + 1..close]));
        rest = &rest[close + 1..];
    }
    let expected: Vec<u8> =
        data.iter().copied().filter(|b| !DataFormatter::is_printable_ascii(*b)).collect();
    assert_eq!(found, expected);
}

#[test]
fn whitespace_is_what_the_standard_library_trims() {
    let mut c = 0u32;
    while c <= 0x10ffff {
        if let Some(ch) = char::from_u32(c) {
            assert_eq!(is_whitespace_char(ch), ch.is_whitespace(), "U+{:04X}", c);
        }
        c += 1;
    }
}

#[test]
fn most_common_ranks_by_count() {
    let mut parser = DataParser::new();
    parser.feed(b"aaaaabbbbcccddeffffff", "t");
    let top = parser.most_common();
    assert_eq!(top, vec![(b'f', 6), (b'a', 5), (b'b', 4), (b'c', 3), (b'd', 2)]);
    assert_eq!(parser.byte_count(b'e'), 1);
    assert_eq!(parser.byte_count(b'z'), 0);

    let mut parser = DataParser::new();
    assert!(parser.most_common().is_empty());
    parser.feed(b"xyx", "t");
    assert_eq!(parser.most_common(), vec![(b'x', 2), (b'y', 1)]);
}

#[test]
fn most_common_leaves_ties_open() {
    let mut parser = DataParser::new();
    parser.feed(b"abcdefg", "t");
    let top = parser.most_common();
    assert_eq!(top.len(), 5);
    for (i, (byte, count)) in top.iter().enumerate() {
        assert_eq!(*count, 1);
        assert!(b"abcdefg".contains(byte));
        assert!(top[..i].iter().all(|(other, _)| other != byte));
    }
}
