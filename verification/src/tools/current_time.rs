//! A tool that tells the current date and time.

use vstd::prelude::*;
use crate::json::{
    Field, FieldView, field_of, is_object, json_field, json_is_object, json_of, json_text,
    json_text_of, parse_json,
};
use chrono::Offset;
use crate::error::{decimal, decimal_text};
use crate::provider::{Tool, function_tool_view, opt_text};
use crate::text::{str_eq, trim, trimmed_of};
use crate::tools::{Outcome, ToolError, ToolErrorView, ToolExecutor, function_tool, outcome_of};

verus! {

/// A moment as a clock tells it: the seconds and nanoseconds since the
/// Unix epoch, and the clock's offset east of UTC in seconds.
#[derive(Debug, Clone, Copy, PartialEq, Eq, Structural)]
pub struct Moment {
    pub seconds: i64,
    pub nanos: u32,
    pub offset: i32,
}

/// How chrono writes a moment by RFC 3339, which is also ISO 8601, or
/// nothing where chrono has no date and time for the moment.
pub uninterp spec fn rfc3339_of(seconds: i64, nanos: u32, offset: i32) -> Option<Seq<char>>;

/// How chrono writes a moment by RFC 2822, or nothing where chrono has no
/// date and time for the moment or the format has none for its year.
pub uninterp spec fn rfc2822_of(seconds: i64, nanos: u32, offset: i32) -> Option<Seq<char>>;

/// How chrono writes a moment by a `strftime` pattern, or nothing where
/// chrono has no date and time for the moment or cannot follow the pattern.
pub uninterp spec fn strftime_of(seconds: i64, nanos: u32, offset: i32, pattern: Seq<char>) -> Option<
    Seq<char>,
>;

/// `chrono::Utc::now`, taken apart by `DateTime::timestamp`,
/// `DateTime::timestamp_subsec_nanos` and the offset's `local_minus_utc`.
/// The moment depends on the clock; of every outcome it holds that UTC is
/// not offset from itself.
#[verifier::external_body]
fn utc_now() -> (r: Moment)
    ensures
        r.offset == 0,
{
    let now = chrono::Utc::now();
    Moment {
        seconds: now.timestamp(),
        nanos: now.timestamp_subsec_nanos(),
        offset: now.offset().fix().local_minus_utc(),
    }
}

/// `chrono::Local::now`, taken apart by `DateTime::timestamp`,
/// `DateTime::timestamp_subsec_nanos` and the offset's `local_minus_utc`.
/// The moment depends on the clock and on the machine's time zone, so
/// nothing is claimed of it.
#[verifier::external_body]
fn local_now() -> (r: Moment) {
    let now = chrono::Local::now();
    Moment {
        seconds: now.timestamp(),
        nanos: now.timestamp_subsec_nanos(),
        offset: now.offset().fix().local_minus_utc(),
    }
}

/// `DateTime::to_rfc3339` of the date and time that
/// `DateTime::from_timestamp` and `FixedOffset::east_opt` make of a moment.
/// The result is named by [`rfc3339_of`].
#[verifier::external_body]
fn rfc3339(at: Moment) -> (r: Option<String>)
    ensures
        opt_text(r) == rfc3339_of(at.seconds, at.nanos, at.offset),
{
    let zone = chrono::FixedOffset::east_opt(at.offset)?;
    let time = chrono::DateTime::from_timestamp(at.seconds, at.nanos)?.with_timezone(&zone);
    Some(time.to_rfc3339())
}

/// The RFC 2822 item of chrono's formatter, which writes what
/// `DateTime::to_rfc2822` writes and fails where that would panic, on the
/// date and time that `DateTime::from_timestamp` and `FixedOffset::east_opt`
/// make of a moment. The result is named by [`rfc2822_of`].
#[verifier::external_body]
fn rfc2822(at: Moment) -> (r: Option<String>)
    ensures
        opt_text(r) == rfc2822_of(at.seconds, at.nanos, at.offset),
{
    let zone = chrono::FixedOffset::east_opt(at.offset)?;
    let time = chrono::DateTime::from_timestamp(at.seconds, at.nanos)?.with_timezone(&zone);
    let items = [chrono::format::Item::Fixed(chrono::format::Fixed::RFC2822)];
    let mut out = String::new();
    time.format_with_items(items.iter()).write_to(&mut out).ok()?;
    Some(out)
}

/// `DateTime::format` with a `strftime` pattern, on the date and time that
/// `DateTime::from_timestamp` and `FixedOffset::east_opt` make of a moment.
/// The result is named by [`strftime_of`].
#[verifier::external_body]
fn strftime(at: Moment, pattern: &str) -> (r: Option<String>)
    ensures
        opt_text(r) == strftime_of(at.seconds, at.nanos, at.offset, pattern@),
{
    let zone = chrono::FixedOffset::east_opt(at.offset)?;
    let time = chrono::DateTime::from_timestamp(at.seconds, at.nanos)?.with_timezone(&zone);
    let mut out = String::new();
    time.format(pattern).write_to(&mut out).ok()?;
    Some(out)
}

/// The name under which the tool is registered.
pub const CURRENT_TIME: &'static str = "current_time";

/// What the tool tells the model about itself.
pub const CURRENT_TIME_DESCRIPTION: &'static str =
    "Get the current date and time. Returns the current timestamp in the specified format and timezone.";

/// The schema of the tool's arguments, as JSON text.
pub const CURRENT_TIME_SCHEMA: &'static str = "{\"type\":\"object\",\"properties\":{\
    \"timezone\":{\"type\":\"string\",\
    \"description\":\"Timezone to use: 'utc' for UTC or 'local' for system local time\",\
    \"enum\":[\"utc\",\"local\"],\"default\":\"local\"},\
    \"format\":{\"type\":\"string\",\
    \"description\":\"Output format: 'iso8601' (2024-01-15T10:30:00), \
    'rfc2822' (Mon, 15 Jan 2024 10:30:00 +0000), 'unix' (timestamp in seconds), \
    'human' (January 15, 2024 10:30 AM)\",\
    \"enum\":[\"iso8601\",\"rfc2822\",\"unix\",\"human\"],\"default\":\"iso8601\"}},\
    \"additionalProperties\":false}";

/// The formats in which the time can be told.
#[derive(Debug, Clone, Copy, PartialEq, Eq, Structural)]
pub enum TimeFormat {
    Iso8601,
    Rfc2822,
    Unix,
    Human,
}

/// The clocks by which the time can be told.
#[derive(Debug, Clone, Copy, PartialEq, Eq, Structural)]
pub enum Clock {
    Utc,
    Local,
}

/// The format that a name stands for: `rfc2822`, `unix` and `human` name
/// their formats, and every other name stands for ISO 8601.
pub open spec fn format_named(name: Seq<char>) -> TimeFormat {
    if name == "rfc2822"@ {
        TimeFormat::Rfc2822
    } else if name == "unix"@ {
        TimeFormat::Unix
    } else if name == "human"@ {
        TimeFormat::Human
    } else {
        TimeFormat::Iso8601
    }
}

/// The clock that a time zone setting stands for: `utc` names UTC, and
/// every other setting, or none, stands for the local clock.
pub open spec fn clock_named(timezone: Option<Seq<char>>) -> Clock {
    match timezone {
        Some(name) => if name == "utc"@ {
            Clock::Utc
        } else {
            Clock::Local
        },
        None => Clock::Local,
    }
}

/// The format that `name` stands for.
pub fn time_format(name: &str) -> (r: TimeFormat)
    ensures
        r == format_named(name@),
{
    if str_eq(name, "rfc2822") {
        TimeFormat::Rfc2822
    } else if str_eq(name, "unix") {
        TimeFormat::Unix
    } else if str_eq(name, "human") {
        TimeFormat::Human
    } else {
        TimeFormat::Iso8601
    }
}

/// The clock and the format that `args` asks for; ISO 8601 where no format
/// is set.
pub fn plan(args: &CurrentTimeArgs) -> (r: (Clock, TimeFormat))
    ensures
        r.0 == clock_named(args@.timezone),
        r.1 == match args@.format {
            Some(name) => format_named(name),
            None => format_named("iso8601"@),
        },
{
    let format = match &args.format {
        Some(format) => time_format(format.as_str()),
        None => time_format("iso8601"),
    };
    let clock = match &args.timezone {
        Some(timezone) => if str_eq(timezone.as_str(), "utc") {
            Clock::Utc
        } else {
            Clock::Local
        },
        None => Clock::Local,
    };
    (clock, format)
}

/// A whole number written in decimal, with a minus sign where it is
/// negative.
pub open spec fn signed_decimal_text(n: int) -> Seq<char> {
    if n >= 0 {
        decimal_text(n as nat)
    } else {
        "-"@ + decimal_text((-n) as nat)
    }
}

/// Writes `n` in decimal.
fn decimal_u64(n: u64) -> (r: String)
    ensures
        r@ == decimal_text(n as nat),
    decreases n,
{
    if n < 10 {
        decimal(n as u16)
    } else {
        let mut out = decimal_u64(n / 10);
        out.append(decimal((n % 10) as u16).as_str());
        out
    }
}

/// Writes `n` in decimal, with a minus sign where it is negative.
pub fn signed_decimal(n: i64) -> (r: String)
    ensures
        r@ == signed_decimal_text(n as int),
{
    if n >= 0 {
        decimal_u64(n as u64)
    } else {
        let magnitude: u64 = (-(n + 1)) as u64 + 1;
        let mut out = "-".to_owned();
        out.append(decimal_u64(magnitude).as_str());
        out
    }
}

/// The pattern by which a clock's time is written for people; UTC is named
/// in it, local time is not.
pub open spec fn human_pattern(clock: Clock) -> Seq<char> {
    match clock {
        Clock::Utc => "%B %d, %Y %I:%M %p UTC"@,
        Clock::Local => "%B %d, %Y %I:%M %p"@,
    }
}

/// How the moment `at`, told by `clock`, is written in `format`: by RFC
/// 2822, as the seconds since the Unix epoch, by the pattern for people, or
/// by RFC 3339. Nothing where chrono cannot write the moment so.
pub open spec fn told(at: Moment, clock: Clock, format: TimeFormat) -> Option<Seq<char>> {
    match format {
        TimeFormat::Rfc2822 => rfc2822_of(at.seconds, at.nanos, at.offset),
        TimeFormat::Unix => Some(signed_decimal_text(at.seconds as int)),
        TimeFormat::Human => strftime_of(at.seconds, at.nanos, at.offset, human_pattern(clock)),
        TimeFormat::Iso8601 => rfc3339_of(at.seconds, at.nanos, at.offset),
    }
}

/// Writes the moment `at`, told by `clock`, in `format`.
pub fn render(at: Moment, clock: Clock, format: TimeFormat) -> (r: Option<String>)
    ensures
        opt_text(r) == told(at, clock, format),
{
    match format {
        TimeFormat::Rfc2822 => rfc2822(at),
        TimeFormat::Unix => Some(signed_decimal(at.seconds)),
        TimeFormat::Human => match clock {
            Clock::Utc => strftime(at, "%B %d, %Y %I:%M %p UTC"),
            Clock::Local => strftime(at, "%B %d, %Y %I:%M %p"),
        },
        TimeFormat::Iso8601 => rfc3339(at),
    }
}

/// The current time in UTC, in the format that `format` names: `rfc2822`,
/// `unix`, `human`, and ISO 8601 for every other name. The text is that of
/// some moment of the UTC clock, written in that format; nothing where
/// the moment cannot be written so.
fn format_time_utc(format: &str) -> (r: Option<String>)
    ensures
        exists|at: Moment| at.offset == 0 && opt_text(r) == #[trigger] told(at, Clock::Utc, format_named(format@)),
{
    let now = utc_now();
    let out = render(now, Clock::Utc, time_format(format));
    assert(opt_text(out) == told(now, Clock::Utc, format_named(format@)));
    out
}

/// The current local time, in the format that `format` names: `rfc2822`,
/// `unix`, `human`, and ISO 8601 for every other name. The text is that of
/// some moment of the local clock, written in that format; nothing where
/// the moment cannot be written so.
fn format_time_local(format: &str) -> (r: Option<String>)
    ensures
        exists|at: Moment| opt_text(r) == #[trigger] told(at, Clock::Local, format_named(format@)),
{
    let now = local_now();
    let out = render(now, Clock::Local, time_format(format));
    assert(opt_text(out) == told(now, Clock::Local, format_named(format@)));
    out
}

/// What the tool was asked for.
#[derive(Debug)]
pub struct CurrentTimeArgs {
    /// `utc` or `local`; local where absent.
    pub timezone: Option<String>,
    /// `iso8601`, `rfc2822`, `unix` or `human`; ISO 8601 where absent.
    pub format: Option<String>,
}

pub struct CurrentTimeArgsView {
    pub timezone: Option<Seq<char>>,
    pub format: Option<Seq<char>>,
}

impl View for CurrentTimeArgs {
    type V = CurrentTimeArgsView;

    open spec fn view(&self) -> CurrentTimeArgsView {
        CurrentTimeArgsView { timezone: opt_text(self.timezone), format: opt_text(self.format) }
    }
}

/// Whether arguments stand for "no arguments": blank text, or the empty
/// object written as `{}`.
pub open spec fn no_arguments(arguments: Seq<char>) -> bool {
    trimmed_of(arguments).len() == 0 || arguments == "{}"@
}

/// The optional text setting that a document holds under `key`: absent and
/// null both mean that it is not set, and anything but a text is refused.
pub open spec fn setting_of(document: serde_json::Value, key: Seq<char>) -> Result<
    Option<Seq<char>>,
    ToolErrorView,
> {
    match json_field(document, key) {
        FieldView::Absent => Ok(None),
        FieldView::Null => Ok(None),
        FieldView::Text(text) => Ok(Some(text)),
        FieldView::Other => Err(
            ToolErrorView::InvalidArguments("invalid type for `"@ + key + "`: expected a string"@),
        ),
    }
}

/// What the tool makes of its arguments. Blank text and `{}` ask for the
/// defaults; anything else has to be a JSON object whose `timezone` and
/// `format`, where present, are texts.
pub open spec fn arguments_of(arguments: Seq<char>) -> Result<CurrentTimeArgsView, ToolErrorView> {
    if no_arguments(arguments) {
        Ok(CurrentTimeArgsView { timezone: None, format: None })
    } else {
        match json_of(arguments) {
            Err(message) => Err(ToolErrorView::InvalidArguments(message)),
            Ok(document) => if !json_is_object(document) {
                Err(ToolErrorView::InvalidArguments("invalid type: expected an object"@))
            } else {
                match setting_of(document, "timezone"@) {
                    Err(e) => Err(e),
                    Ok(timezone) => match setting_of(document, "format"@) {
                        Err(e) => Err(e),
                        Ok(format) => Ok(CurrentTimeArgsView { timezone, format }),
                    },
                }
            },
        }
    }
}

/// How the result of reading arguments reads.
pub open spec fn read_view(r: Result<CurrentTimeArgs, ToolError>) -> Result<
    CurrentTimeArgsView,
    ToolErrorView,
> {
    match r {
        Ok(args) => Ok(args@),
        Err(e) => Err(e@),
    }
}

/// Reads one optional text setting out of an argument document.
fn setting(document: &serde_json::Value, key: &str) -> (r: Result<Option<String>, ToolError>)
    ensures
        match setting_of(*document, key@) {
            Ok(value) => r is Ok && opt_text(r->Ok_0) == value,
            Err(e) => r is Err && r->Err_0@ == e,
        },
{
    match field_of(document, key) {
        Field::Absent => Ok(None),
        Field::Null => Ok(None),
        Field::Text(text) => Ok(Some(text)),
        Field::Other => {
            let mut message = "invalid type for `".to_owned();
            message.append(key);
            message.append("`: expected a string");
            Err(ToolError::InvalidArguments(message))
        },
    }
}

/// Reads the tool's arguments. Blank text and `{}` ask for the defaults;
/// anything else has to be a JSON object whose `timezone` and `format`, where
/// present, are texts.
pub fn read_arguments(arguments: &str) -> (r: Result<CurrentTimeArgs, ToolError>)
    ensures
        read_view(r) == arguments_of(arguments@),
{
    if trim(arguments).is_empty() || str_eq(arguments, "{}") {
        return Ok(CurrentTimeArgs { timezone: None, format: None });
    }
    let document = match parse_json(arguments) {
        Ok(document) => document,
        Err(message) => {
            return Err(ToolError::InvalidArguments(message));
        },
    };
    if !is_object(&document) {
        return Err(ToolError::InvalidArguments("invalid type: expected an object".to_owned()));
    }
    let timezone = match setting(&document, "timezone") {
        Ok(value) => value,
        Err(e) => {
            return Err(e);
        },
    };
    let format = match setting(&document, "format") {
        Ok(value) => value,
        Err(e) => {
            return Err(e);
        },
    };
    Ok(CurrentTimeArgs { timezone, format })
}

/// The schema of the tool's arguments as a JSON document.
pub open spec fn current_time_schema() -> serde_json::Value {
    match json_of(CURRENT_TIME_SCHEMA@) {
        Ok(document) => document,
        Err(message) => json_text_of(message),
    }
}

/// The format that a format setting asks for: the one it names, and ISO
/// 8601 where nothing is set.
pub open spec fn format_wanted(format: Option<Seq<char>>) -> TimeFormat {
    match format {
        Some(name) => format_named(name),
        None => format_named("iso8601"@),
    }
}

/// What the tool tells of the moment `at` when asked for `args`.
pub open spec fn told_for(at: Moment, args: CurrentTimeArgsView) -> Option<Seq<char>> {
    told(at, clock_named(args.timezone), format_wanted(args.format))
}

/// What comes of telling the time: the text, or a failure where the moment
/// cannot be written in the format asked for.
pub open spec fn time_outcome(text: Option<Seq<char>>) -> Outcome {
    match text {
        Some(text) => Ok(text),
        None => Err(ToolErrorView::ExecutionFailed("the time cannot be written in this format"@)),
    }
}

/// Tells the time that `args` asks for: the text is that of some moment of
/// the clock asked for, written in the format asked for; nothing where the
/// moment cannot be written so.
fn tell_time(args: &CurrentTimeArgs) -> (r: Option<String>)
    ensures
        exists|at: Moment| opt_text(r) == #[trigger] told_for(at, args@),
{
    let format = match &args.format {
        Some(format) => format.as_str(),
        None => "iso8601",
    };
    match plan(args).0 {
        Clock::Utc => {
            let out = format_time_utc(format);
            proof {
                let at = choose|at: Moment|
                    at.offset == 0 && opt_text(out) == #[trigger] told(at, Clock::Utc, format_named(format@));
                assert(opt_text(out) == told_for(at, args@));
            }
            out
        },
        Clock::Local => {
            let out = format_time_local(format);
            proof {
                let at = choose|at: Moment|
                    opt_text(out) == #[trigger] told(at, Clock::Local, format_named(format@));
                assert(opt_text(out) == told_for(at, args@));
            }
            out
        },
    }
}

/// The tool that tells the current date and time.
#[derive(Debug)]
pub struct CurrentTimeTool;

impl ToolExecutor for CurrentTimeTool {
    fn name(&self) -> (r: &'static str)
        ensures
            r@ == CURRENT_TIME@,
    {
        CURRENT_TIME
    }

    fn definition(&self) -> (r: Tool)
        ensures
            r@ == function_tool_view(CURRENT_TIME@, CURRENT_TIME_DESCRIPTION@, current_time_schema()),
    {
        let schema = match parse_json(CURRENT_TIME_SCHEMA) {
            Ok(document) => document,
            Err(message) => json_text(message),
        };
        function_tool(CURRENT_TIME, CURRENT_TIME_DESCRIPTION, schema)
    }

    /// Tells the time. Arguments that cannot be read fail as reading them
    /// fails; on the others the tool tells some moment of the clock asked
    /// for in the format asked for, and fails only where that moment cannot
    /// be written so.
    fn execute(&self, arguments: &str) -> (r: Result<String, ToolError>)
        ensures
            match arguments_of(arguments@) {
                Ok(args) => exists|at: Moment| outcome_of(r) == #[trigger] time_outcome(told_for(at, args)),
                Err(e) => r is Err && r->Err_0@ == e,
            },
    {
        match read_arguments(arguments) {
            Ok(args) => {
                let told = tell_time(&args);
                let ghost at = choose|at: Moment| opt_text(told) == #[trigger] told_for(at, args@);
                let out = match told {
                    Some(text) => Ok(text),
                    None => Err(
                        ToolError::ExecutionFailed("the time cannot be written in this format".to_owned()),
                    ),
                };
                assert(outcome_of(out) == time_outcome(told_for(at, args@)));
                out
            },
            Err(e) => Err(e),
        }
    }
}

} // verus!
