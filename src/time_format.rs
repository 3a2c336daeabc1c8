use vstd::prelude::*;
use vstd::string::StringExecFns;

verus! {

/// An instant as milliseconds since the Unix epoch, with the local offset
/// from UTC (in seconds) that it is to be written in.
#[derive(Clone, Copy, Debug, PartialEq, Eq, Structural)]
pub struct SessionTime {
    pub millis: i64,
    pub offset_seconds: i32,
}

/// Timestamp layout for file names: millisecond precision and no `:`.
pub const TIME_FORMAT_FOR_FILENAMES: &'static str = "%Y-%m-%d %H-%M-%S%.3f";

/// Timestamp layout for record rows, millisecond precision.
pub const TIME_FORMAT_FOR_CSV: &'static str = "%Y-%m-%d %H:%M:%S%.3f";

/// The text chrono writes for an instant at a fixed offset in a strftime layout.
pub uninterp spec fn chrono_text(millis: int, offset_seconds: int, pattern: Seq<char>) -> Seq<char>;

pub open spec fn offset_in_range(offset_seconds: int) -> bool {
    -86_400 < offset_seconds < 86_400
}

/// Bound on the instants this library formats, about 253,000 years either
/// side of the epoch: well inside chrono's date range.
pub const MAX_PLACEABLE_MILLIS: i64 = 8_000_000_000_000_000;

/// An instant chrono can always place and write.
pub open spec fn placeable(t: SessionTime) -> bool {
    &&& offset_in_range(t.offset_seconds as int)
    &&& -MAX_PLACEABLE_MILLIS <= t.millis <= MAX_PLACEABLE_MILLIS
}

/// The local time falls in the years 0 to 9999, which chrono writes with
/// exactly four digits.
pub open spec fn four_digit_year(millis: int, offset_seconds: int) -> bool {
    -62_167_219_200_000 <= millis + offset_seconds * 1000 <= 253_402_300_799_999
}

pub open spec fn is_digit(c: char) -> bool {
    '0' <= c <= '9'
}

/// `YYYY-MM-DD HHsMMsSS.mmm`, with `sep` between the time fields.
pub open spec fn stamp_layout(s: Seq<char>, sep: char) -> bool {
    &&& s.len() == 23
    &&& forall|i: int|
        0 <= i < 23 ==> if i == 4 || i == 7 {
            s[i] == '-'
        } else if i == 10 {
            s[i] == ' '
        } else if i == 13 || i == 16 {
            s[i] == sep
        } else if i == 19 {
            s[i] == '.'
        } else {
            is_digit(#[trigger] s[i])
        }
}

/// The separator between hours, minutes and seconds in a layout.
pub open spec fn time_separator(pattern: Seq<char>) -> char {
    if pattern == TIME_FORMAT_FOR_FILENAMES@ {
        '-'
    } else {
        ':'
    }
}

/// Relies on chrono: `DateTime::from_timestamp_millis` (Some inside chrono's
/// date range of about 262,000 years either side of the epoch),
/// `FixedOffset::east_opt` (Some exactly when the offset is under a day),
/// `with_timezone` and `format`. The text depends on the arguments alone; for
/// a four-digit year both layouts write zero-padded two-digit fields and three
/// fraction digits.
#[verifier::external_body]
fn format_instant(millis: i64, offset_seconds: i32, pattern: &str) -> (r: Option<String>)
    requires
        pattern@ == TIME_FORMAT_FOR_FILENAMES@ || pattern@ == TIME_FORMAT_FOR_CSV@,
    ensures
        !offset_in_range(offset_seconds as int) ==> r is None,
        offset_in_range(offset_seconds as int) && -MAX_PLACEABLE_MILLIS <= millis
            <= MAX_PLACEABLE_MILLIS ==> r is Some,
        r matches Some(s) ==> s@ == chrono_text(millis as int, offset_seconds as int, pattern@),
        r matches Some(s) ==> (four_digit_year(millis as int, offset_seconds as int) ==> stamp_layout(
            s@,
            time_separator(pattern@),
        )),
{
    match (chrono::DateTime::from_timestamp_millis(millis), chrono::FixedOffset::east_opt(offset_seconds)) {
        (Some(t), Some(offset)) => Some(t.with_timezone(&offset).format(pattern).to_string()),
        _ => None,
    }
}

/// A stamp in the file-name layout holds no `:`.
pub proof fn lemma_filename_stamp_has_no_colon(s: Seq<char>)
    requires
        stamp_layout(s, '-'),
    ensures
        !s.contains(':'),
{
    assert forall|i: int| 0 <= i < s.len() implies s[i] != ':' by {
        if !(i == 4 || i == 7 || i == 10 || i == 13 || i == 16 || i == 19) {
            assert(is_digit(s[i]));
        }
    }
}

/// The instant written for a file name, to the millisecond and without `:`;
/// `None` only when chrono cannot place it.
pub fn date_time_filename_format(date_time: SessionTime) -> (r: Option<String>)
    ensures
        placeable(date_time) ==> r is Some,
        !offset_in_range(date_time.offset_seconds as int) ==> r is None,
        r matches Some(s) ==> s@ == chrono_text(
            date_time.millis as int,
            date_time.offset_seconds as int,
            TIME_FORMAT_FOR_FILENAMES@,
        ),
        r matches Some(s) ==> (four_digit_year(
            date_time.millis as int,
            date_time.offset_seconds as int,
        ) ==> stamp_layout(s@, '-') && !s@.contains(':')),
{
    let r = format_instant(date_time.millis, date_time.offset_seconds, TIME_FORMAT_FOR_FILENAMES);
    proof {
        if r is Some && four_digit_year(date_time.millis as int, date_time.offset_seconds as int) {
            lemma_filename_stamp_has_no_colon(r->Some_0@);
        }
    }
    r
}

/// The instant written for a record row, to the millisecond; `None` only
/// when chrono cannot place it.
pub fn date_time_csv_format(date_time: SessionTime) -> (r: Option<String>)
    ensures
        placeable(date_time) ==> r is Some,
        !offset_in_range(date_time.offset_seconds as int) ==> r is None,
        r matches Some(s) ==> s@ == chrono_text(
            date_time.millis as int,
            date_time.offset_seconds as int,
            TIME_FORMAT_FOR_CSV@,
        ),
        r matches Some(s) ==> (four_digit_year(
            date_time.millis as int,
            date_time.offset_seconds as int,
        ) ==> stamp_layout(s@, ':')),
{
    proof {
        reveal_strlit("%Y-%m-%d %H-%M-%S%.3f");
        reveal_strlit("%Y-%m-%d %H:%M:%S%.3f");
        assert(TIME_FORMAT_FOR_CSV@[11] != TIME_FORMAT_FOR_FILENAMES@[11]);
    }
    format_instant(date_time.millis, date_time.offset_seconds, TIME_FORMAT_FOR_CSV)
}

/// The name of a session file: the session start for file names, a space and
/// the stream's fixed suffix; `None` only when chrono cannot place the start.
pub fn session_file_name(start: SessionTime, suffix: &str) -> (r: Option<String>)
    ensures
        placeable(start) ==> r is Some,
        !offset_in_range(start.offset_seconds as int) ==> r is None,
        r matches Some(s) ==> s@ == chrono_text(
            start.millis as int,
            start.offset_seconds as int,
            TIME_FORMAT_FOR_FILENAMES@,
        ) + " "@ + suffix@,
        r matches Some(s) ==> (four_digit_year(start.millis as int, start.offset_seconds as int)
            ==> stamp_layout(s@.subrange(0, 23), '-')),
{
    match date_time_filename_format(start) {
        Some(mut name) => {
            let ghost stamp = name@;
            name.append(" ");
            name.append(suffix);
            assert(name@.subrange(0, stamp.len() as int) =~= stamp);
            Some(name)
        },
        None => None,
    }
}

} // verus!
