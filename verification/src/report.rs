//! The lines the watchdog prints on the console.

use vstd::prelude::*;
use vstd::string::*;
use chrono::TimeZone;
use crate::clock::{Sample, NANOS_PER_SEC, SECS_PER_HOUR};
use crate::detector::Interval;

verus! {

/// Printed once when the watchdog starts.
pub const START_LINE: &'static str = "Starting datemon: monitoring system for large time/date jumps";

/// Printed before the orderly reboot is requested.
pub const REBOOT_LINE: &'static str = "Rebooting the system";

/// Printed before each forced reboot is requested.
pub const FORCED_REBOOT_LINE: &'static str = "Triggering forced reboot";

/// The earliest second a timestamp can be written for: the first of the
/// year 262144 BCE, in seconds since the Unix epoch.
pub const EARLIEST_SECS: i64 = -8_334_601_228_800;

/// The latest second a timestamp can be written for: the last of the year
/// 262142 CE, in seconds since the Unix epoch.
pub const LATEST_SECS: i64 = 8_210_266_876_799;

/// The character for one decimal digit.
pub open spec fn digit(d: nat) -> char
    recommends
        d < 10,
{
    if d == 0 {
        '0'
    } else if d == 1 {
        '1'
    } else if d == 2 {
        '2'
    } else if d == 3 {
        '3'
    } else if d == 4 {
        '4'
    } else if d == 5 {
        '5'
    } else if d == 6 {
        '6'
    } else if d == 7 {
        '7'
    } else if d == 8 {
        '8'
    } else {
        '9'
    }
}

/// The decimal numeral of `n`, without sign or leading zeros.
pub open spec fn decimal_text(n: nat) -> Seq<char>
    decreases n,
{
    if n < 10 {
        seq![digit(n)]
    } else {
        decimal_text(n / 10).push(digit(n % 10))
    }
}

/// The line that announces a jump: the timestamps before and after it and
/// its size in whole hours.
pub open spec fn jump_text(from: Seq<char>, to: Seq<char>, hours: nat) -> Seq<char> {
    "System time jumped from "@ + from + " to "@ + to + " (by "@ + decimal_text(hours)
        + " hours)"@
}

/// The line that announces the remedy command.
pub open spec fn execution_text(command: Seq<char>) -> Seq<char> {
    "  executing: "@ + command
}

/// The size of a jump in whole hours, rounded down.
pub open spec fn hours_of(elapsed_nanos: int) -> int {
    elapsed_nanos / (SECS_PER_HOUR * NANOS_PER_SEC)
}

/// Whether a timestamp can be written for the second `secs` after the epoch
/// at `offset` seconds east of UTC: the offset is less than a day, and the
/// second lies within the years 262144 BCE to 262142 CE both in UTC and in
/// local time.
pub open spec fn renderable(secs: int, offset: int) -> bool {
    &&& -86_400 < offset < 86_400
    &&& EARLIEST_SECS <= secs <= LATEST_SECS
    &&& EARLIEST_SECS <= secs + offset <= LATEST_SECS
}

/// The timestamp of the instant `secs` seconds and `nanos` nanoseconds after
/// the Unix epoch, written for a zone `offset` seconds east of UTC: date and
/// time of day to the second, then the offset.
pub uninterp spec fn rfc3339_text(secs: int, nanos: int, offset: int) -> Seq<char>;

/// Formats an instant with chrono: builds the zone with
/// `FixedOffset::east_opt`, the date and time with `TimeZone::timestamp_opt`,
/// and writes them with `DateTime::to_rfc3339_opts`, with whole seconds and
/// `Z` for a zero offset. The contract claims only that the text depends on
/// nothing but the three numbers. Its precondition keeps to the inputs on
/// which chrono builds both values and can form the local date.
#[verifier::external_body]
fn rfc3339_at(secs: i64, nanos: u32, offset: i32) -> (text: String)
    requires
        renderable(secs as int, offset as int),
        nanos < NANOS_PER_SEC,
    ensures
        text@ == rfc3339_text(secs as int, nanos as int, offset as int),
{
    let zone = chrono::FixedOffset::east_opt(offset).unwrap();
    let moment = zone.timestamp_opt(secs, nanos).unwrap();
    moment.to_rfc3339_opts(chrono::SecondsFormat::Secs, true)
}

fn digit_str(d: u64) -> (text: &'static str)
    requires
        d < 10,
    ensures
        text@ == seq![digit(d as nat)],
{
    proof {
        reveal_strlit("0");
        reveal_strlit("1");
        reveal_strlit("2");
        reveal_strlit("3");
        reveal_strlit("4");
        reveal_strlit("5");
        reveal_strlit("6");
        reveal_strlit("7");
        reveal_strlit("8");
        reveal_strlit("9");
    }
    let text = if d == 0 {
        "0"
    } else if d == 1 {
        "1"
    } else if d == 2 {
        "2"
    } else if d == 3 {
        "3"
    } else if d == 4 {
        "4"
    } else if d == 5 {
        "5"
    } else if d == 6 {
        "6"
    } else if d == 7 {
        "7"
    } else if d == 8 {
        "8"
    } else {
        "9"
    };
    assert(text@ =~= seq![digit(d as nat)]);
    text
}

/// Writes `n` in decimal.
pub fn decimal(n: u64) -> (text: String)
    ensures
        text@ == decimal_text(n as nat),
    decreases n,
{
    if n < 10 {
        String::from_str(digit_str(n))
    } else {
        let mut text = decimal(n / 10);
        text.append(digit_str(n % 10));
        assert(text@ =~= decimal_text(n as nat));
        text
    }
}

/// Puts together the line that announces a jump from the two timestamps
/// and the size of the jump in whole hours.
pub fn jump_line(from: &str, to: &str, hours: u64) -> (line: String)
    ensures
        line@ == jump_text(from@, to@, hours as nat),
{
    let mut line = String::from_str("System time jumped from ");
    line.append(from);
    line.append(" to ");
    line.append(to);
    line.append(" (by ");
    line.append(decimal(hours).as_str());
    line.append(" hours)");
    line
}

/// The line that announces the remedy command.
pub fn execution_line(command: &str) -> (line: String)
    ensures
        line@ == execution_text(command@),
{
    let mut line = String::from_str("  executing: ");
    line.append(command);
    line
}

/// Writes the timestamp of `sample` for a zone `offset` seconds east of UTC,
/// or `None` where no timestamp can be written for it.
pub fn timestamp(sample: &Sample, offset: i32) -> (text: Option<String>)
    ensures
        text is Some <==> renderable(sample@ / (NANOS_PER_SEC as int), offset as int),
        text matches Some(t) ==> t@ == rfc3339_text(
            sample@ / (NANOS_PER_SEC as int),
            sample@ % (NANOS_PER_SEC as int),
            offset as int,
        ),
{
    let secs: i64 = sample.secs();
    let nanos: u32 = sample.subsec_nanos();
    if -86_400 < offset && offset < 86_400 && EARLIEST_SECS <= secs && secs <= LATEST_SECS
        && EARLIEST_SECS <= secs + offset as i64 && secs + offset as i64 <= LATEST_SECS {
        Some(rfc3339_at(secs, nanos, offset))
    } else {
        None
    }
}

/// The line that announces the jump `anomaly`, with the reading before it
/// written for the offset `from_offset` and the reading after it for
/// `to_offset`, or `None` where one of the two timestamps cannot be written.
pub fn jump_summary(anomaly: &Interval, from_offset: i32, to_offset: i32) -> (line: Option<String>)
    ensures
        line is Some <==> {
            &&& renderable(anomaly.previous@ / (NANOS_PER_SEC as int), from_offset as int)
            &&& renderable(anomaly.current@ / (NANOS_PER_SEC as int), to_offset as int)
        },
        line matches Some(text) ==> text@ == jump_text(
            rfc3339_text(
                anomaly.previous@ / (NANOS_PER_SEC as int),
                anomaly.previous@ % (NANOS_PER_SEC as int),
                from_offset as int,
            ),
            rfc3339_text(
                anomaly.current@ / (NANOS_PER_SEC as int),
                anomaly.current@ % (NANOS_PER_SEC as int),
                to_offset as int,
            ),
            hours_of(anomaly.elapsed_nanos()) as nat,
        ),
{
    let hours: u64 = anomaly.elapsed().whole_hours();
    match (timestamp(&anomaly.previous, from_offset), timestamp(&anomaly.current, to_offset)) {
        (Some(from), Some(to)) => Some(jump_line(from.as_str(), to.as_str(), hours)),
        _ => None,
    }
}

} // verus!
