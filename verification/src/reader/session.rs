//! The decisions of a reading session: what a key asks for, what is sent to
//! the device, and what received bytes lead to.

use vstd::prelude::*;
use crate::data::parser::DataParser;
use crate::data::stream::{rendered, StreamState};
use crate::parse::{string_of, string_views, trim, trimmed_chars};
use crate::reader::stats::SessionStats;

verus! {

/// What the user asks of a running session.
#[derive(Debug, Clone, Copy, PartialEq, Eq, Structural)]
pub enum SessionCommand {
    Quit,
    Send,
    Help,
}

/// The command behind a key: `q` quits, `s` sends, `h` helps; no other key
/// means anything.
pub open spec fn command_of(key: char) -> Option<SessionCommand> {
    if key == 'q' {
        Some(SessionCommand::Quit)
    } else if key == 's' {
        Some(SessionCommand::Send)
    } else if key == 'h' {
        Some(SessionCommand::Help)
    } else {
        None
    }
}

/// What goes to the device for a command line that the user typed: the line
/// without the whitespace around it, ended by carriage return and line feed;
/// nothing when nothing is left of the line.
pub open spec fn outgoing(input: Seq<char>) -> Option<Seq<char>> {
    if trim(input).len() == 0 {
        None
    } else {
        Some(trim(input) + "\r\n"@)
    }
}

/// A reading session without its port: the parser and the byte count.
pub struct ReaderSession {
    parser: DataParser,
    stats: SessionStats,
    show_stats: bool,
}

impl ReaderSession {
    /// The state of the stream.
    pub closed spec fn stream(&self) -> StreamState {
        self.parser@
    }

    /// The number of bytes received.
    pub closed spec fn received(&self) -> nat {
        self.stats.total()
    }

    /// Whether statistics are shown when the session ends.
    pub closed spec fn shows_stats(&self) -> bool {
        self.show_stats
    }

    /// The parser is sound, and the session has counted the bytes that the
    /// parser has taken.
    pub closed spec fn wf(&self) -> bool {
        &&& self.parser.wf()
        &&& self.stats.total() == self.parser@.classifier.total
    }

    /// A session that has received nothing.
    pub fn new(show_stats: bool) -> (session: Self)
        ensures
            session.wf(),
            session.stream() == StreamState::initial(),
            session.received() == 0,
            session.shows_stats() == show_stats,
    {
        ReaderSession { parser: DataParser::new(), stats: SessionStats::new(), show_stats }
    }

    /// Takes bytes that were read from the port at the moment `timestamp`:
    /// counts them, and hands back the display records of the lines that
    /// they complete.
    pub fn receive(&mut self, data: &[u8], timestamp: &str) -> (records: Vec<String>)
        requires
            old(self).wf(),
            old(self).received() + data@.len() <= u64::MAX,
        ensures
            final(self).wf(),
            final(self).received() == old(self).received() + data@.len(),
            final(self).shows_stats() == old(self).shows_stats(),
            final(self).stream() == old(self).stream().run(data@, timestamp@).0,
            string_views(records@) == rendered(old(self).stream().run(data@, timestamp@).1),
    {
        self.stats.add_bytes(data.len());
        self.parser.process_data(data, timestamp)
    }

    /// The command behind a key.
    pub fn command_for_key(key: char) -> (command: Option<SessionCommand>)
        ensures
            command == command_of(key),
    {
        if key == 'q' {
            Some(SessionCommand::Quit)
        } else if key == 's' {
            Some(SessionCommand::Send)
        } else if key == 'h' {
            Some(SessionCommand::Help)
        } else {
            None
        }
    }

    /// What goes to the device for a command line that the user typed.
    pub fn send_command(input: &str) -> (data: Option<String>)
        ensures
            match data {
                Some(d) => outgoing(input@) == Some(d@),
                None => outgoing(input@) is None,
            },
    {
        let chars = trimmed_chars(input);
        if chars.len() == 0 {
            None
        } else {
            let mut data = string_of(chars.as_slice());
            data.append("\r\n");
            Some(data)
        }
    }

    /// Whether statistics are shown when the session ends.
    pub fn show_stats(&self) -> (shown: bool)
        ensures
            shown == self.shows_stats(),
    {
        self.show_stats
    }

    /// The parser of the session.
    pub fn parser(&self) -> (parser: &DataParser)
        ensures
            parser@ == self.stream(),
            self.wf() ==> parser.wf(),
    {
        &self.parser
    }

    /// The byte count and start time of the session.
    pub fn stats(&self) -> (stats: &SessionStats)
        ensures
            stats.total() == self.received(),
    {
        &self.stats
    }
}

} // verus!
