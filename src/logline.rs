use vstd::prelude::*;
use vstd::string::StrSliceExecFns;
use vstd::string::StringExecFns;

use crate::dispatch::{LogEntry, LogLevel, note};

verus! {

/// A moment in UTC, split into calendar and clock fields.
#[derive(Clone, Copy, PartialEq, Eq, Structural, Debug)]
pub struct UtcTime {
    pub year: u32,
    pub month: u32,
    pub day: u32,
    pub hour: u32,
    pub minute: u32,
    pub second: u32,
}

impl UtcTime {
    /// Every field lies in its calendar or clock range; the year has at
    /// most four digits (a leap second is allowed).
    pub open spec fn wf(&self) -> bool {
        &&& self.year <= 9999
        &&& 1 <= self.month <= 12
        &&& 1 <= self.day <= 31
        &&& self.hour < 24
        &&& self.minute < 60
        &&& self.second <= 60
    }
}

/// The fixed-width tag that opens a log line of the given level.
pub open spec fn level_tag(level: LogLevel) -> Seq<char> {
    match level {
        LogLevel::Log => "LOG  "@,
        LogLevel::Error => "ERROR"@,
    }
}

/// The text of one decimal digit.
pub open spec fn digit_text(d: nat) -> Seq<char> {
    "0123456789"@.subrange(d as int, d as int + 1)
}

/// The lowest `width` decimal digits of `n`, zero-padded on the left.
pub open spec fn decimal(n: nat, width: nat) -> Seq<char>
    decreases width,
{
    if width == 0 {
        Seq::empty()
    } else {
        decimal(n / 10, (width - 1) as nat) + digit_text(n % 10)
    }
}

/// One log line: the level tag, the timestamp, the message and a line end.
pub open spec fn line_text(level: LogLevel, timestamp: Seq<char>, message: Seq<char>) -> Seq<char> {
    level_tag(level) + " "@ + timestamp + ": "@ + message + "\n"@
}

/// `t` as an RFC 3339 timestamp with a zero offset.
pub open spec fn rfc3339_text(t: UtcTime) -> Seq<char> {
    decimal(t.year as nat, 4) + "-"@ + decimal(t.month as nat, 2) + "-"@ + decimal(t.day as nat, 2)
        + "T"@ + decimal(t.hour as nat, 2) + ":"@ + decimal(t.minute as nat, 2) + ":"@
        + decimal(t.second as nat, 2) + "+00:00"@
}

/// The log file of the day of `t`: `{dir}/{base}.{YYYYMMDD}.log`.
pub open spec fn log_path_text(dir: Seq<char>, base: Seq<char>, t: UtcTime) -> Seq<char> {
    dir + "/"@ + base + "."@ + decimal(t.year as nat, 4) + decimal(t.month as nat, 2) + decimal(
        t.day as nat,
        2,
    ) + ".log"@
}

/// The message that a handler's log call records.
pub open spec fn callback_text(message: Seq<char>) -> Seq<char> {
    "Callback - "@ + message
}

fn push_str(out: &mut String, s: &str)
    ensures
        final(out)@ == old(out)@ + s@,
{
    out.append(s);
}

fn push_decimal(out: &mut String, n: u32, width: u32)
    ensures
        final(out)@ == old(out)@ + decimal(n as nat, width as nat),
    decreases width,
{
    if width > 0 {
        let ghost start = out@;
        push_decimal(out, n / 10, width - 1);
        let d = (n % 10) as usize;
        proof {
            reveal_strlit("0123456789");
        }
        push_str(out, "0123456789".substring_char(d, d + 1));
        assert(out@ =~= start + decimal(n as nat, width as nat));
    }
}

/// Lays out one log line: `{tag} {timestamp}: {message}` and a line end,
/// where the tag is `LOG  ` or `ERROR`.
pub fn format_line(level: LogLevel, timestamp: &str, message: &str) -> (r: String)
    ensures
        r@ == line_text(level, timestamp@, message@),
{
    let mut out = String::new();
    match level {
        LogLevel::Log => push_str(&mut out, "LOG  "),
        LogLevel::Error => push_str(&mut out, "ERROR"),
    }
    push_str(&mut out, " ");
    push_str(&mut out, timestamp);
    push_str(&mut out, ": ");
    push_str(&mut out, message);
    push_str(&mut out, "\n");
    assert(out@ =~= line_text(level, timestamp@, message@));
    out
}

/// Writes `t` as an RFC 3339 timestamp with a zero offset,
/// `YYYY-MM-DDTHH:MM:SS+00:00`.
pub fn rfc3339(t: &UtcTime) -> (r: String)
    requires
        t.wf(),
    ensures
        r@ == rfc3339_text(*t),
{
    let mut out = String::new();
    push_decimal(&mut out, t.year, 4);
    push_str(&mut out, "-");
    push_decimal(&mut out, t.month, 2);
    push_str(&mut out, "-");
    push_decimal(&mut out, t.day, 2);
    push_str(&mut out, "T");
    push_decimal(&mut out, t.hour, 2);
    push_str(&mut out, ":");
    push_decimal(&mut out, t.minute, 2);
    push_str(&mut out, ":");
    push_decimal(&mut out, t.second, 2);
    push_str(&mut out, "+00:00");
    assert(out@ =~= rfc3339_text(*t));
    out
}

/// The path of the log file for the UTC day of `t`: one file per day,
/// `{dir}/{base}.{YYYYMMDD}.log`.
pub fn log_file_path(dir: &str, base: &str, t: &UtcTime) -> (r: String)
    requires
        t.wf(),
    ensures
        r@ == log_path_text(dir@, base@, *t),
{
    let mut out = String::new();
    push_str(&mut out, dir);
    push_str(&mut out, "/");
    push_str(&mut out, base);
    push_str(&mut out, ".");
    push_decimal(&mut out, t.year, 4);
    push_decimal(&mut out, t.month, 2);
    push_decimal(&mut out, t.day, 2);
    push_str(&mut out, ".log");
    assert(out@ =~= log_path_text(dir@, base@, *t));
    out
}

/// A log line whose timestamp and message hold no line break is one whole
/// line: it ends in a line break and holds no other.
pub proof fn lemma_line_is_single(level: LogLevel, timestamp: Seq<char>, message: Seq<char>)
    requires
        !timestamp.contains('\n'),
        !message.contains('\n'),
    ensures
        line_text(level, timestamp, message).last() == '\n',
        forall|i: int|
            0 <= i < line_text(level, timestamp, message).len() - 1
                ==> #[trigger] line_text(level, timestamp, message)[i] != '\n',
{
    reveal_strlit("LOG  ");
    reveal_strlit("ERROR");
    reveal_strlit(" ");
    reveal_strlit(": ");
    reveal_strlit("\n");
    let line = line_text(level, timestamp, message);
    let tag = level_tag(level);
    assert(!tag.contains('\n'));
    assert forall|i: int| 0 <= i < line.len() - 1 implies line[i] != '\n' by {
        if i < 5 {
            assert(line[i] == tag[i]);
        } else if i == 5 {
        } else if i < 6 + timestamp.len() {
            assert(line[i] == timestamp[i - 6]);
        } else if i < 8 + timestamp.len() {
        } else {
            assert(line[i] == message[i - 8 - timestamp.len()]);
        }
    }
}

fn callback_entry(level: LogLevel, message: &str) -> (r: LogEntry)
    ensures
        r@ == note(level, callback_text(message@)),
{
    let mut text = String::new();
    push_str(&mut text, "Callback - ");
    push_str(&mut text, message);
    LogEntry { level, message: text }
}

/// The log entry that a message handler records to report progress.
pub fn recv_callback_log(message: &str) -> (r: LogEntry)
    ensures
        r@ == note(LogLevel::Log, callback_text(message@)),
{
    callback_entry(LogLevel::Log, message)
}

/// The log entry that a message handler records to report a failure.
pub fn recv_callback_error(message: &str) -> (r: LogEntry)
    ensures
        r@ == note(LogLevel::Error, callback_text(message@)),
{
    callback_entry(LogLevel::Error, message)
}

} // verus!
