use vital_reader::data::DataType;
use vital_reader::reader::{ReaderSession, SessionCommand};

#[test]
fn keys_give_commands() {
    assert_eq!(ReaderSession::command_for_key('q'), Some(SessionCommand::Quit));
    assert_eq!(ReaderSession::command_for_key('s'), Some(SessionCommand::Send));
    assert_eq!(ReaderSession::command_for_key('h'), Some(SessionCommand::Help));
    for key in ['Q', 'S', 'H', 'x', ' ', '\n'] {
        assert_eq!(ReaderSession::command_for_key(key), None);
    }
}

#[test]
fn command_is_sent_with_crlf() {
    assert_eq!(ReaderSession::send_command("START\n"), Some("START\r\n".to_string()));
    assert_eq!(ReaderSession::send_command("  get id  "), Some("get id\r\n".to_string()));
    assert_eq!(ReaderSession::send_command(" \r\n"), None);
    assert_eq!(ReaderSession::send_command(""), None);
}

#[test]
fn session_counts_what_it_receives() {
    let mut session = ReaderSession::new(true);
    assert!(session.show_stats());
    assert_eq!(session.stats().total_bytes(), 0);
    let records = session.receive(b"HR=72\r\nSPO2", "12:00:00");
    assert_eq!(records, vec!["[12:00:00] MIXED: HR=72"]);
    let records = session.receive(b"=98\n", "12:00:01");
    assert_eq!(records, vec!["[12:00:01] MIXED: SPO2=98"]);
    assert_eq!(session.stats().total_bytes(), 15);
    assert_eq!(session.parser().total_count(), 15);
    assert_eq!(session.parser().detected_type(), DataType::Mixed);
    assert!(!ReaderSession::new(false).show_stats());
}
