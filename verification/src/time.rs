//! Instants, calendar days and the distance between them.

use chrono::Datelike;
use vstd::prelude::*;

verus! {

/// Nanoseconds in one second.
pub const NANOS_PER_SECOND: u32 = 1_000_000_000;

/// The first second of year 0, counted from the Unix epoch.
pub const MIN_SECONDS: i64 = -62_167_219_200;

/// The last second of year 9999, counted from the Unix epoch.
pub const MAX_SECONDS: i64 = 253_402_300_799;

/// The largest distance from UTC, in seconds, that a zone offset may have.
pub const MAX_OFFSET: i32 = 86_399;

/// A calendar day, counted in days from 1970-01-01.
#[derive(Clone, Copy, Debug, PartialEq, Eq, Structural)]
pub struct Date {
    pub days: i64,
}

/// An instant together with the zone offset it was observed in.
///
/// `secs` and `nanos` count from the Unix epoch in UTC; `offset` is the number
/// of seconds that local time is ahead of UTC.
#[derive(Clone, Copy, Debug, PartialEq, Eq, Structural)]
pub struct Timestamp {
    pub secs: i64,
    pub nanos: u32,
    pub offset: i32,
}

/// The text of an instant with its offset, as `chrono` writes a
/// `DateTime<FixedOffset>` in RFC 3339 form, its fraction of a second in as
/// many groups of three digits as it needs and `Z` for an offset of zero.
pub uninterp spec fn rfc3339_text(secs: int, nanos: int, offset: int) -> Seq<char>;

/// The seconds, nanoseconds and offset that `chrono` reads from a text as a
/// `DateTime<FixedOffset>`, or `None` where it reads none.
pub uninterp spec fn rfc3339_value(text: Seq<char>) -> Option<(int, int, int)>;

/// The calendar year, on the local clock, of an instant observed at `offset`.
pub uninterp spec fn civil_year(secs: int, offset: int) -> int;

/// The month of the year, on the local clock, of an instant observed at `offset`.
pub uninterp spec fn civil_month(secs: int, offset: int) -> int;

/// The whole seconds in `nanos` nanoseconds, rounded toward zero.
pub open spec fn whole_seconds(nanos: int) -> int {
    if nanos >= 0 {
        nanos / 1_000_000_000
    } else {
        -((-nanos) / 1_000_000_000)
    }
}

/// The whole seconds that pass from `start` to `end`, rounded toward zero;
/// negative when `end` is the earlier of the two.
pub open spec fn seconds_between(start: Timestamp, end: Timestamp) -> int {
    whole_seconds(end.total_nanos() - start.total_nanos())
}

/// The day of the week of `date`, counted from Monday as 0 to Sunday as 6.
pub open spec fn days_from_monday(date: Date) -> int {
    (date.days + 3) % 7
}

/// The Monday on or before `date`.
pub open spec fn week_start(date: Date) -> Date {
    Date { days: (date.days - days_from_monday(date)) as i64 }
}

/// The Sunday on or after `date`.
pub open spec fn week_end(date: Date) -> Date {
    Date { days: (date.days - days_from_monday(date) + 6) as i64 }
}

/// The timestamp that a text stands for: what `chrono` reads from it, where
/// that is in range.
pub open spec fn timestamp_of(text: Seq<char>) -> Option<Timestamp> {
    match rfc3339_value(text) {
        Some((secs, nanos, offset)) => {
            let read = Timestamp { secs: secs as i64, nanos: nanos as u32, offset: offset as i32 };
            if read.secs == secs && read.nanos == nanos && read.offset == offset && read.wf() {
                Some(read)
            } else {
                None
            }
        },
        None => None,
    }
}

/// The parts of a clock reading or of a parsed text, as integers.
pub open spec fn parts_view(parts: Option<(i64, u32, i32)>) -> Option<(int, int, int)> {
    match parts {
        Some((secs, nanos, offset)) => Some((secs as int, nanos as int, offset as int)),
        None => None,
    }
}

/// Reads the clock with `chrono::Local::now` and hands out the reading's Unix
/// seconds, its nanoseconds and the local offset. Nothing is claimed of them.
#[verifier::external_body]
fn clock_reading() -> (parts: (i64, u32, i32)) {
    let now = chrono::Local::now();
    (now.timestamp(), now.timestamp_subsec_nanos(), now.offset().local_minus_utc())
}

/// Writes an instant as `chrono::DateTime::to_rfc3339_opts` does with
/// `SecondsFormat::AutoSi` and `Z` allowed. The parts are in range, so `chrono`
/// can hold the instant and its local time; the text depends on them alone.
#[verifier::external_body]
fn chrono_text(secs: i64, nanos: u32, offset: i32) -> (text: String)
    requires
        (Timestamp { secs, nanos, offset }).wf(),
    ensures
        text@ == rfc3339_text(secs as int, nanos as int, offset as int),
{
    let zone = chrono::FixedOffset::east_opt(offset).unwrap();
    let instant = chrono::DateTime::from_timestamp(secs, nanos).unwrap();
    instant.with_timezone(&zone).to_rfc3339_opts(chrono::SecondsFormat::AutoSi, true)
}

/// Reads a text with the `FromStr` of `chrono::DateTime<FixedOffset>`, which
/// takes RFC 3339 loosely, and hands out the parts of what it read, or `None`
/// where `chrono` refuses the text. The outcome depends on the text alone.
#[verifier::external_body]
fn chrono_value(text: &str) -> (parts: Option<(i64, u32, i32)>)
    ensures
        parts_view(parts) == rfc3339_value(text@),
{
    match text.parse::<chrono::DateTime<chrono::FixedOffset>>() {
        Ok(read) => Some(
            (read.timestamp(), read.timestamp_subsec_nanos(), read.offset().local_minus_utc()),
        ),
        Err(_) => None,
    }
}

/// The year that `chrono::Datelike::year` gives for an instant seen at
/// `offset`. The parts are in range, so `chrono` can hold the instant.
#[verifier::external_body]
fn chrono_year(secs: i64, offset: i32) -> (year: i32)
    requires
        (Timestamp { secs, nanos: 0, offset }).wf(),
    ensures
        year == civil_year(secs as int, offset as int),
{
    let zone = chrono::FixedOffset::east_opt(offset).unwrap();
    chrono::DateTime::from_timestamp(secs, 0).unwrap().with_timezone(&zone).year()
}

/// The month that `chrono::Datelike::month` gives for an instant seen at
/// `offset`. The parts are in range, so `chrono` can hold the instant.
#[verifier::external_body]
fn chrono_month(secs: i64, offset: i32) -> (month: u32)
    requires
        (Timestamp { secs, nanos: 0, offset }).wf(),
    ensures
        month == civil_month(secs as int, offset as int),
{
    let zone = chrono::FixedOffset::east_opt(offset).unwrap();
    chrono::DateTime::from_timestamp(secs, 0).unwrap().with_timezone(&zone).month()
}

impl Date {
    /// Whether the week around this day can be computed in 64 bits.
    pub open spec fn wf(self) -> bool {
        i64::MIN + 6 <= self.days <= i64::MAX - 6
    }

    /// The day of the week, counted from Monday as 0 to Sunday as 6.
    pub fn days_from_monday(&self) -> (count: i64)
        ensures
            count == days_from_monday(*self),
            0 <= count <= 6,
    {
        // 7 * 2^61 lifts every day number above zero without changing its weekday.
        let lifted: i128 = self.days as i128 + 3 + 16_140_901_064_495_857_664;
        ((lifted as u128) % 7) as i64
    }
}

impl Timestamp {
    /// Whether the parts are in range: a year from 0 to 9999 in UTC, less than
    /// a second of nanoseconds, and an offset of less than a day.
    pub open spec fn wf(self) -> bool {
        &&& MIN_SECONDS <= self.secs <= MAX_SECONDS
        &&& self.nanos < NANOS_PER_SECOND
        &&& -MAX_OFFSET <= self.offset <= MAX_OFFSET
    }

    /// Nanoseconds since the Unix epoch.
    pub open spec fn total_nanos(self) -> int {
        self.secs * 1_000_000_000 + self.nanos
    }

    /// The calendar day on the local clock.
    pub open spec fn spec_date(self) -> Date {
        Date { days: ((self.secs + self.offset) / 86_400) as i64 }
    }

    /// The text that stands for this timestamp in a file.
    pub open spec fn text(self) -> Seq<char> {
        rfc3339_text(self.secs as int, self.nanos as int, self.offset as int)
    }

    /// The calendar year on the local clock.
    pub open spec fn spec_year(self) -> i32 {
        civil_year(self.secs as int, self.offset as int) as i32
    }

    /// The month of the year on the local clock.
    pub open spec fn spec_month(self) -> u32 {
        civil_month(self.secs as int, self.offset as int) as u32
    }

    /// Builds a timestamp from its parts, or refuses parts that are out of range.
    pub fn new(secs: i64, nanos: u32, offset: i32) -> (made: Option<Timestamp>)
        ensures
            made == (if (Timestamp { secs, nanos, offset }).wf() {
                Some(Timestamp { secs, nanos, offset })
            } else {
                None
            }),
    {
        if MIN_SECONDS <= secs && secs <= MAX_SECONDS && nanos < NANOS_PER_SECOND && -MAX_OFFSET
            <= offset && offset <= MAX_OFFSET {
            Some(Timestamp { secs, nanos, offset })
        } else {
            None
        }
    }

    /// The time on the clock, or `None` where the clock shows a time that is
    /// out of range.
    pub fn now() -> (reading: Option<Timestamp>)
        ensures
            reading matches Some(read) ==> read.wf(),
    {
        let parts = clock_reading();
        Timestamp::new(parts.0, parts.1, parts.2)
    }

    /// Writes the timestamp as it stands in a file.
    pub fn to_text(&self) -> (text: String)
        requires
            self.wf(),
        ensures
            text@ == self.text(),
    {
        chrono_text(self.secs, self.nanos, self.offset)
    }

    /// Reads a timestamp from its text; `None` where the text is none or
    /// stands for an instant that is out of range.
    pub fn parse(text: &str) -> (read: Option<Timestamp>)
        ensures
            read == timestamp_of(text@),
            read matches Some(t) ==> t.wf(),
    {
        match chrono_value(text) {
            Some(parts) => Timestamp::new(parts.0, parts.1, parts.2),
            None => None,
        }
    }

    /// The calendar year on the local clock.
    pub fn year(&self) -> (year: i32)
        requires
            self.wf(),
        ensures
            year == self.spec_year(),
    {
        chrono_year(self.secs, self.offset)
    }

    /// The month of the year on the local clock.
    pub fn month(&self) -> (month: u32)
        requires
            self.wf(),
        ensures
            month == self.spec_month(),
    {
        chrono_month(self.secs, self.offset)
    }

    /// The calendar day on the local clock.
    pub fn date(&self) -> (date: Date)
        requires
            self.wf(),
        ensures
            date == self.spec_date(),
            date.wf(),
    {
        // One day more than the days from year 0 to 1970 lifts every local
        // second in range above zero.
        let lifted: i64 = self.secs + self.offset as i64 + 62_167_305_600;
        Date { days: (lifted as u64 / 86_400) as i64 - 719_529 }
    }

    /// The whole seconds from `earlier` to this instant, rounded toward zero.
    pub fn seconds_since(&self, earlier: &Timestamp) -> (elapsed: i64)
        requires
            self.wf(),
            earlier.wf(),
        ensures
            elapsed == seconds_between(*earlier, *self),
    {
        let whole: i64 = self.secs - earlier.secs;
        if whole > 0 && self.nanos < earlier.nanos {
            whole - 1
        } else if whole < 0 && self.nanos > earlier.nanos {
            whole + 1
        } else {
            whole
        }
    }
}

} // verus!
