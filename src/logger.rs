use vstd::prelude::*;
use vstd::string::StringExecFns;
use crate::once::first_wins;

verus! {

/// The severity of a log record.
#[derive(Clone, Copy, PartialEq, Eq, Structural)]
pub enum Level {
    Info,
    Error,
}

/// The tag written for `level`.
pub open spec fn level_tag(level: Level) -> Seq<char> {
    match level {
        Level::Info => seq!['I', 'N', 'F', 'O'],
        Level::Error => seq!['E', 'R', 'R', 'O', 'R'],
    }
}

/// The one record written for `message` at `level`, stamped `timestamp`:
/// `<timestamp> [<LEVEL>]: <message>` and a newline.
pub open spec fn record_line(level: Level, timestamp: Seq<char>, message: Seq<char>) -> Seq<
    char,
> {
    timestamp + seq![' ', '['] + level_tag(level) + seq![']', ':', ' '] + message + seq!['\n']
}

/// A record for a message that holds no newline is exactly one line: its
/// last character is the newline, and no other character is one.
pub proof fn lemma_record_is_one_line(level: Level, timestamp: Seq<char>, message: Seq<char>)
    requires
        is_timestamp(timestamp),
        forall|i: int| 0 <= i < message.len() ==> message[i] != '\n',
    ensures
        record_line(level, timestamp, message).last() == '\n',
        forall|i: int|
            0 <= i < record_line(level, timestamp, message).len() - 1
                ==> #[trigger] record_line(level, timestamp, message)[i] != '\n',
{
    let r = record_line(level, timestamp, message);
    let head = timestamp + seq![' ', '['] + level_tag(level) + seq![']', ':', ' '];
    assert(r == head + message + seq!['\n']);
    assert forall|i: int| 0 <= i < r.len() - 1 implies #[trigger] r[i] != '\n' by {
        if i < timestamp.len() {
            assert(r[i] == timestamp[i]);
            assert(is_timestamp_char(timestamp[i]));
        } else if i < head.len() {
            assert(r[i] == head[i]);
        } else {
            assert(r[i] == message[i - head.len()]);
        }
    }
}

/// A character of a timestamp: digits, the signs, and the separators of
/// date, time, fraction and offset.
pub open spec fn is_timestamp_char(c: char) -> bool {
    is_digit(c) || c == '-' || c == '+' || c == ':' || c == '.' || c == 'T'
}

pub open spec fn is_digit(c: char) -> bool {
    '0' <= c && c <= '9'
}

pub open spec fn all_digits(s: Seq<char>) -> bool {
    forall|i: int| 0 <= i < s.len() ==> is_digit(#[trigger] s[i])
}

pub open spec fn is_sign(c: char) -> bool {
    c == '+' || c == '-'
}

/// Four digits, or a sign and at least four digits for a year outside 0 to
/// 9999.
pub open spec fn is_year_text(y: Seq<char>) -> bool {
    (y.len() == 4 && all_digits(y)) || (y.len() >= 5 && is_sign(y[0]) && all_digits(
        y.drop_first(),
    ))
}

pub open spec fn is_two_digits(s: Seq<char>) -> bool {
    s.len() == 2 && all_digits(s)
}

/// No fraction of a second, or a point and 3, 6 or 9 digits.
pub open spec fn is_fraction_text(f: Seq<char>) -> bool {
    f.len() == 0 || (f[0] == '.' && (f.len() == 4 || f.len() == 7 || f.len() == 10)
        && all_digits(f.drop_first()))
}

/// The offset from UTC, as `+HH:MM` or `-HH:MM`.
pub open spec fn is_offset_text(o: Seq<char>) -> bool {
    &&& o.len() == 6
    &&& is_sign(o[0])
    &&& is_digit(o[1]) && is_digit(o[2])
    &&& o[3] == ':'
    &&& is_digit(o[4]) && is_digit(o[5])
}

/// The RFC 3339 (ISO 8601) layout of a local date and time with its offset,
/// such as `2024-03-01T14:05:09.123+01:00`.
pub open spec fn is_rfc3339(s: Seq<char>) -> bool {
    exists|
        y: Seq<char>,
        mo: Seq<char>,
        d: Seq<char>,
        h: Seq<char>,
        mi: Seq<char>,
        se: Seq<char>,
        f: Seq<char>,
        o: Seq<char>,
    |
        {
            &&& is_year_text(y)
            &&& is_two_digits(mo) && is_two_digits(d)
            &&& is_two_digits(h) && is_two_digits(mi) && is_two_digits(se)
            &&& is_fraction_text(f)
            &&& is_offset_text(o)
            &&& s == y + seq!['-'] + mo + seq!['-'] + d + seq!['T'] + h + seq![':'] + mi + seq![':']
                + se + f + o
        }
}

/// A timestamp as records carry it: RFC 3339 text, none of whose characters
/// ends a line.
pub open spec fn is_timestamp(s: Seq<char>) -> bool {
    &&& s.len() > 0
    &&& is_rfc3339(s)
    &&& forall|i: int| 0 <= i < s.len() ==> is_timestamp_char(#[trigger] s[i])
}

/// The RFC 3339 text of the instant `utc_seconds` seconds and `nanosecond`
/// nanoseconds after the Unix epoch, shown at `offset_seconds` from UTC.
pub uninterp spec fn rfc3339_text(utc_seconds: i64, nanosecond: u32, offset_seconds: i32) -> Seq<
    char,
>;

/// The first whole second of the year 1, UTC, counted from the Unix epoch.
pub const FIRST_SECOND: i64 = -62_135_596_800;

/// The last whole second of the year 9999, UTC, counted from the Unix epoch.
pub const LAST_SECOND: i64 = 253_402_300_799;

/// An offset from UTC of less than a day either way.
pub open spec fn is_offset_in_range(offset_seconds: i32) -> bool {
    -86_400 < offset_seconds < 86_400
}

/// Relies on chrono's `FixedOffset::east_opt` (`Some` exactly for an offset
/// of less than a day), `DateTime::from_timestamp` (`Some` for a nanosecond
/// under 10^9 and a second of the years 1 to 9999, among others),
/// `with_timezone`, and `to_rfc3339`, which writes the date (a sign before a
/// year outside 0 to 9999), `T`, the time, a fraction of 3, 6 or 9 digits
/// when the nanosecond is not 0, and the offset as `+HH:MM`. None of them
/// panics on the values that reach it.
#[verifier::external_body]
fn rfc3339_of(utc_seconds: i64, nanosecond: u32, offset_seconds: i32) -> (r: Option<String>)
    ensures
        r.is_some() ==> r.unwrap()@ == rfc3339_text(utc_seconds, nanosecond, offset_seconds),
        r.is_some() ==> is_timestamp(r.unwrap()@),
        r.is_some() ==> is_offset_in_range(offset_seconds),
        is_offset_in_range(offset_seconds) && nanosecond < 1_000_000_000 && FIRST_SECOND
            <= utc_seconds <= LAST_SECOND ==> r.is_some(),
{
    let offset = chrono::FixedOffset::east_opt(offset_seconds)?;
    let utc = chrono::DateTime::from_timestamp(utc_seconds, nanosecond)?;
    Some(utc.with_timezone(&offset).to_rfc3339())
}

/// A moment as the local clock shows it: an instant, counted from the Unix
/// epoch, and the offset of local time from UTC at that instant.
#[derive(Clone, Copy, PartialEq, Eq, Structural)]
pub struct LocalTime {
    pub utc_seconds: i64,
    pub nanosecond: u32,
    pub offset_seconds: i32,
}

/// The timestamp of `t`.
pub open spec fn timestamp_of(t: LocalTime) -> Seq<char> {
    rfc3339_text(t.utc_seconds, t.nanosecond, t.offset_seconds)
}

/// `t` lies where every moment can be shown: the years 1 to 9999 UTC, a
/// nanosecond under 10^9 and an offset of less than a day.
pub open spec fn is_showable(t: LocalTime) -> bool {
    &&& FIRST_SECOND <= t.utc_seconds <= LAST_SECOND
    &&& t.nanosecond < 1_000_000_000
    &&& is_offset_in_range(t.offset_seconds)
}

/// The timestamp of `t`, or `None` when `t` cannot be shown.
pub fn timestamp_text(t: LocalTime) -> (r: Option<String>)
    ensures
        r.is_some() ==> r.unwrap()@ == timestamp_of(t) && is_timestamp(r.unwrap()@),
        is_showable(t) ==> r.is_some(),
        !is_offset_in_range(t.offset_seconds) ==> r.is_none(),
{
    rfc3339_of(t.utc_seconds, t.nanosecond, t.offset_seconds)
}

/// Why no record could be made.
#[derive(Clone, Copy, Debug, PartialEq, Eq, Structural)]
pub enum LogError {
    /// No logger was bound: logging before initialization.
    NotInitialized,
    /// The moment given cannot be shown as a timestamp.
    ClockOutOfRange,
}

/// The record for `message` at `level`, stamped `timestamp`.
pub fn format_record(level: Level, timestamp: &str, message: &str) -> (r: String)
    ensures
        r@ == record_line(level, timestamp@, message@),
{
    let mut r = String::from_str(timestamp);
    r.append(" [");
    match level {
        Level::Info => r.append("INFO"),
        Level::Error => r.append("ERROR"),
    }
    r.append("]: ");
    r.append(message);
    r.append("\n");
    proof {
        reveal_strlit(" [");
        reveal_strlit("INFO");
        reveal_strlit("ERROR");
        reveal_strlit("]: ");
        reveal_strlit("\n");
    }
    r
}

/// Where log records go.
#[derive(Clone)]
pub enum Destination {
    /// Standard output.
    Stdout,
    /// A file, created if absent and appended to.
    File(String),
}

impl View for Destination {
    type V = Option<Seq<char>>;

    /// The path of the file, or `None` for standard output.
    open spec fn view(&self) -> Option<Seq<char>> {
        match self {
            Destination::Stdout => None,
            Destination::File(p) => Some(p@),
        }
    }
}

/// The destination chosen by an initializing call given `filename`.
pub open spec fn destination_of(filename: Option<&str>) -> Option<Seq<char>> {
    match filename {
        Some(f) => Some(f@),
        None => None,
    }
}

/// The notice that tells which destination was bound.
pub open spec fn notice_text(destination: Option<Seq<char>>) -> Seq<char> {
    match destination {
        Some(f) => "Initializing logging to "@ + f,
        None => "No log file given; logging to stdout"@,
    }
}

/// A logger bound to one destination.
#[derive(Clone)]
pub struct Logger {
    destination: Destination,
}

impl View for Logger {
    type V = Option<Seq<char>>;

    /// The destination bound (see `Destination`'s view).
    closed spec fn view(&self) -> Option<Seq<char>> {
        self.destination@
    }
}

impl Logger {
    /// A logger bound to the file `filename`, or to standard output when
    /// there is none.
    pub fn new(filename: Option<&str>) -> (r: Logger)
        ensures
            r@ == destination_of(filename),
    {
        let destination = match filename {
            Some(f) => Destination::File(String::from_str(f)),
            None => Destination::Stdout,
        };
        Logger { destination }
    }

    /// The destination bound.
    pub fn destination(&self) -> (r: &Destination)
        ensures
            r@ == self@,
    {
        &self.destination
    }

    /// The one-line notice, for standard output, that tells which
    /// destination was bound.
    pub fn notice(&self) -> (r: String)
        ensures
            r@ == notice_text(self@),
    {
        match &self.destination {
            Destination::File(f) => {
                let mut r = String::from_str("Initializing logging to ");
                r.append(f.as_str());
                r
            },
            Destination::Stdout => String::from_str("No log file given; logging to stdout"),
        }
    }

    /// The informational record for `message`, stamped `now`, for the
    /// logger bound in `cell`. Logging before a logger is bound is an error.
    pub fn info(cell: &LoggerCell, now: LocalTime, message: &str) -> (r: Result<String, LogError>)
        ensures
            cell@.is_none() <==> r == Err::<String, LogError>(LogError::NotInitialized),
            cell@.is_some() && is_showable(now) ==> r.is_ok(),
            r.is_ok() ==> r.unwrap()@ == record_line(Level::Info, timestamp_of(now), message@),
            r.is_ok() ==> is_timestamp(timestamp_of(now)),
            r == Err::<String, LogError>(LogError::ClockOutOfRange) ==> !is_showable(now),
    {
        cell.record(Level::Info, now, message)
    }

    /// The error record for `message`, stamped `now`, for the logger bound
    /// in `cell`. Logging before a logger is bound is an error.
    pub fn error(cell: &LoggerCell, now: LocalTime, message: &str) -> (r: Result<String, LogError>)
        ensures
            cell@.is_none() <==> r == Err::<String, LogError>(LogError::NotInitialized),
            cell@.is_some() && is_showable(now) ==> r.is_ok(),
            r.is_ok() ==> r.unwrap()@ == record_line(Level::Error, timestamp_of(now), message@),
            r.is_ok() ==> is_timestamp(timestamp_of(now)),
            r == Err::<String, LogError>(LogError::ClockOutOfRange) ==> !is_showable(now),
    {
        cell.record(Level::Error, now, message)
    }
}

/// The slot of the process-wide logger: empty until the first initializing
/// call, which binds the destination for good.
pub struct LoggerCell {
    instance: Option<Logger>,
}

impl View for LoggerCell {
    type V = Option<Option<Seq<char>>>;

    /// The destination of the logger held, if any.
    closed spec fn view(&self) -> Option<Option<Seq<char>>> {
        match self.instance {
            Some(l) => Some(l@),
            None => None,
        }
    }
}

impl LoggerCell {
    /// An empty cell.
    pub fn new() -> (r: LoggerCell)
        ensures
            r@ == None::<Option<Seq<char>>>,
    {
        LoggerCell { instance: None }
    }

    /// Binds a logger to `filename` (standard output when there is none) if
    /// the cell is empty, and returns whether this call did so. On a cell
    /// that holds a logger, nothing changes, whatever `filename` is.
    pub fn init(&mut self, filename: Option<&str>) -> (bound: bool)
        ensures
            final(self)@ == first_wins(old(self)@, destination_of(filename)),
            bound == old(self)@.is_none(),
    {
        if self.instance.is_none() {
            self.instance = Some(Logger::new(filename));
            true
        } else {
            false
        }
    }

    /// The logger held, if the cell was initialized.
    pub fn logger(&self) -> (r: Option<&Logger>)
        ensures
            self@.is_none() ==> r.is_none(),
            self@.is_some() ==> r.is_some() && r.unwrap()@ == self@.unwrap(),
    {
        self.instance.as_ref()
    }

    /// The record to write for `message` at `level`, stamped `now`: an
    /// error when no logger was bound, for there is no sink to write to, or
    /// when `now` cannot be shown.
    pub fn record(&self, level: Level, now: LocalTime, message: &str) -> (r: Result<
        String,
        LogError,
    >)
        ensures
            self@.is_none() <==> r == Err::<String, LogError>(LogError::NotInitialized),
            self@.is_some() && is_showable(now) ==> r.is_ok(),
            self@.is_some() && !is_offset_in_range(now.offset_seconds) ==> r == Err::<
                String,
                LogError,
            >(LogError::ClockOutOfRange),
            r.is_ok() ==> r.unwrap()@ == record_line(level, timestamp_of(now), message@),
            r.is_ok() ==> is_timestamp(timestamp_of(now)),
            r == Err::<String, LogError>(LogError::ClockOutOfRange) ==> !is_showable(now),
    {
        if self.instance.is_none() {
            return Err(LogError::NotInitialized);
        }
        match timestamp_text(now) {
            Some(ts) => Ok(format_record(level, ts.as_str(), message)),
            None => Err(LogError::ClockOutOfRange),
        }
    }
}

} // verus!
