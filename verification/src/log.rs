//! Game log entries that show up in the UI.

use vstd::prelude::*;

verus! {

/// One line of the game log.
#[derive(Clone, Debug)]
pub struct LogEntry(String);

impl View for LogEntry {
    type V = Seq<char>;

    closed spec fn view(&self) -> Seq<char> {
        self.0@
    }
}

impl LogEntry {
    /// A log entry holding `contents`.
    pub fn new(contents: &str) -> (r: LogEntry)
        ensures
            r@ == contents@,
    {
        LogEntry(contents.to_owned())
    }

    /// The text of the entry.
    pub fn contents(&self) -> (r: &String)
        ensures
            r@ == self@,
    {
        &self.0
    }
}

/// The accumulated game log: entries pushed by game systems, drained by
/// the renderer.
#[derive(Debug)]
pub struct GameLog {
    entries: Vec<LogEntry>,
}

impl GameLog {
    /// The entries accumulated so far, oldest first.
    pub closed spec fn spec_entries(self) -> Seq<LogEntry> {
        self.entries@
    }

    /// Drain the log: every entry accumulated so far, oldest first,
    /// leaving the log empty.
    pub fn take(&mut self) -> (r: Vec<LogEntry>)
        ensures
            r@ == old(self).spec_entries(),
            final(self).spec_entries().len() == 0,
    {
        let mut drained: Vec<LogEntry> = Vec::new();
        std::mem::swap(&mut drained, &mut self.entries);
        drained
    }

    /// Append one entry to the log.
    pub fn push(&mut self, message: LogEntry)
        ensures
            final(self).spec_entries() == old(self).spec_entries().push(message),
    {
        self.entries.push(message);
    }
}

impl Default for GameLog {
    /// An empty log.
    fn default() -> (r: GameLog)
        ensures
            r.spec_entries().len() == 0,
    {
        GameLog { entries: Vec::new() }
    }
}

} // verus!
