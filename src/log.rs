//! Log entries: the text of one echo cycle, tagged with the time it was taken.
use vstd::prelude::*;

verus! {

/// Relies on `chrono::Local::now` and the `Display` of `chrono::DateTime`, which
/// writes the local date and time, a space, and the offset: never empty.
/// On a broken host it panics: chrono expects the system clock to read after
/// 1970 and the local time-zone lookup to succeed, which no argument can ensure.
#[verifier::external_body]
fn local_timestamp() -> (r: String)
    ensures
        r@.len() > 0,
{
    chrono::Local::now().to_string()
}

pub ghost struct LogEntryModel {
    pub stamp: Seq<char>,
    pub text: Seq<char>,
}

/// The line written for an entry: its timestamp, a tab, and its text.
pub open spec fn log_line(e: LogEntryModel) -> Seq<char> {
    e.stamp + seq!['\t'] + e.text
}

/// An immutable record of one received message.
pub struct LogEntry {
    stamp: String,
    text: String,
}

impl View for LogEntry {
    type V = LogEntryModel;

    closed spec fn view(&self) -> LogEntryModel {
        LogEntryModel { stamp: self.stamp@, text: self.text@ }
    }
}

impl LogEntry {
    /// An entry with the given timestamp and text.
    pub fn new(stamp: String, text: String) -> (r: LogEntry)
        ensures
            r@ == (LogEntryModel { stamp: stamp@, text: text@ }),
    {
        LogEntry { stamp, text }
    }

    /// An entry for `text`, stamped with the current local time.
    pub fn stamped(text: String) -> (r: LogEntry)
        ensures
            r@.text == text@,
            r@.stamp.len() > 0,
    {
        LogEntry { stamp: local_timestamp(), text }
    }

    pub fn stamp(&self) -> (r: &str)
        ensures
            r@ == self@.stamp,
    {
        self.stamp.as_str()
    }

    pub fn text(&self) -> (r: &str)
        ensures
            r@ == self@.text,
    {
        self.text.as_str()
    }

    /// The output line: `"<timestamp>\t<text>"`.
    pub fn line(&self) -> (r: String)
        ensures
            r@ == log_line(self@),
    {
        let mut out = self.stamp.clone();
        out.append("\t");
        out.append(self.text.as_str());
        proof {
            reveal_strlit("\t");
        }
        out
    }
}

} // verus!
