//! Due dates of issues: reading the `yyyy-mm-dd` text Linear sends and
//! sorting an issue into a due-date category.
use vstd::prelude::*;
use crate::dispatch::{cursor_after, cursor_from_page, PageInfo};
use crate::util::cursor::GraphQLCursor;
use chrono::TimeZone;
use crate::linear::view_resolver::FilterType;
use crate::util::number::{parse_i32, parsed_i32};
use crate::util::text::{push_char, views};

verus! {

/// The pieces of `s` between occurrences of `sep`, as `str::split` yields
/// them: an empty text gives one empty piece, and adjacent separators give
/// empty pieces between them.
pub open spec fn split_on(s: Seq<char>, sep: char) -> Seq<Seq<char>>
    decreases s.len(),
{
    if s.len() == 0 {
        seq![Seq::<char>::empty()]
    } else {
        let rest = split_on(s.drop_last(), sep);
        if s.last() == sep {
            rest.push(Seq::<char>::empty())
        } else {
            rest.update(rest.len() - 1, rest.last().push(s.last()))
        }
    }
}

proof fn lemma_split_nonempty(s: Seq<char>, sep: char)
    ensures
        split_on(s, sep).len() >= 1,
    decreases s.len(),
{
    if s.len() > 0 {
        lemma_split_nonempty(s.drop_last(), sep);
    }
}

/// Splits `s` at every occurrence of `sep`.
pub fn split_str(s: &str, sep: char) -> (r: Vec<String>)
    ensures
        views(r@) == split_on(s@, sep),
{
    let n = s.unicode_len();
    let mut parts: Vec<String> = Vec::new();
    let mut current = String::new();
    let mut i: usize = 0;
    while i < n
        invariant
            n == s@.len(),
            i <= n,
            views(parts@).push(current@) == split_on(s@.take(i as int), sep),
        decreases n - i,
    {
        let c = s.get_char(i);
        proof {
            assert(s@.take(i + 1).drop_last() =~= s@.take(i as int));
            assert(s@.take(i + 1).last() == c);
            lemma_split_nonempty(s@.take(i as int), sep);
        }
        if c == sep {
            let ghost old_parts = views(parts@);
            let ghost old_current = current@;
            parts.push(current);
            current = String::new();
            assert(views(parts@) =~= old_parts.push(old_current));
            assert(views(parts@).push(current@) =~= split_on(s@.take(i + 1), sep));
        } else {
            let ghost old_current = current@;
            push_char(&mut current, c);
            assert(views(parts@).push(current@) =~= split_on(s@.take(i + 1), sep));
        }
        i = i + 1;
    }
    let ghost old_parts = views(parts@);
    let ghost last = current@;
    parts.push(current);
    assert(views(parts@) =~= old_parts.push(last));
    assert(s@.take(n as int) =~= s@);
    parts
}

/// A due date text that splits at '-' into exactly three pieces, each of them
/// an `i32`.
pub open spec fn valid_due_date(s: Seq<char>) -> bool {
    let parts = split_on(s, '-');
    parts.len() == 3 && forall|i: int| 0 <= i < 3 ==> (#[trigger] parsed_i32(parts[i])) is Some
}

/// Whether `due_date_str` can be read by `parse_linear_issue_due_date`.
pub fn is_valid_due_date(due_date_str: &str) -> (r: bool)
    ensures
        r == valid_due_date(due_date_str@),
{
    let parts = split_str(due_date_str, '-');
    assert(parts@.len() == views(parts@).len());
    if parts.len() != 3 {
        return false;
    }
    let mut i: usize = 0;
    while i < 3
        invariant
            views(parts@) == split_on(due_date_str@, '-'),
            parts@.len() == 3,
            i <= 3,
            forall|j: int| 0 <= j < i ==> (#[trigger] parsed_i32(views(parts@)[j])) is Some,
        decreases 3 - i,
    {
        assert(views(parts@)[i as int] == parts@[i as int]@);
        if parse_i32(parts[i].as_str()).is_none() {
            return false;
        }
        i = i + 1;
    }
    true
}

/// Reads a `yyyy-mm-dd` due date into its year, month and day.
pub fn parse_linear_issue_due_date(due_date_str: &str) -> (r: Vec<i32>)
    requires
        valid_due_date(due_date_str@),
    ensures
        r@.len() == 3,
        forall|i: int| 0 <= i < 3 ==> parsed_i32(#[trigger] split_on(due_date_str@, '-')[i]) == Some(r@[i]),
{
    let parts = split_str(due_date_str, '-');
    assert(parts@.len() == views(parts@).len());
    let mut v: Vec<i32> = Vec::new();
    let mut i: usize = 0;
    while i < 3
        invariant
            views(parts@) == split_on(due_date_str@, '-'),
            valid_due_date(due_date_str@),
            parts@.len() == 3,
            i <= 3,
            v@.len() == i,
            forall|j: int| 0 <= j < i ==> parsed_i32(#[trigger] views(parts@)[j]) == Some(v@[j]),
        decreases 3 - i,
    {
        assert(views(parts@)[i as int] == parts@[i as int]@);
        let x = parse_i32(parts[i].as_str());
        assert(parsed_i32(split_on(due_date_str@, '-')[i as int]) is Some);
        match x {
            Some(d) => v.push(d),
            None => {
                assert(false);
                return v;
            },
        }
        i = i + 1;
    }
    v
}

/// Seconds in a day.
pub const SECONDS_PER_DAY: i64 = 86400;

/// The due-date category of an issue due `diff_seconds` from now (the end
/// of its due day, less the present time): overdue once the moment passed,
/// due today within the first day, due soon when at least `threshold` whole
/// days remain, and otherwise simply having a due date.
pub open spec fn due_date_category(diff_seconds: int, threshold: int) -> FilterType {
    if diff_seconds <= 0 {
        FilterType::Overdue
    } else if diff_seconds / 86400 == 0 {
        FilterType::DueToday
    } else if diff_seconds / 86400 >= threshold {
        FilterType::DueSoon
    } else {
        FilterType::HasDueDate
    }
}

/// The order of the due-date categories, from the most pressing.
pub open spec fn category_rank(c: FilterType) -> int {
    match c {
        FilterType::Overdue => 0,
        FilterType::DueToday => 1,
        FilterType::HasDueDate => 2,
        FilterType::DueSoon => 3,
        _ => 4,
    }
}

/// The later an issue is due, the less pressing its category: of two due
/// days seen from the same moment, the later one never falls in a more
/// pressing category.
pub proof fn lemma_category_follows_due_day(
    due1: (i32, u32, u32),
    due2: (i32, u32, u32),
    now: (i32, u32, u32),
    h: u32,
    mi: u32,
    s: u32,
    threshold: int,
)
    requires
        day_number(due1.0 as int, due1.1 as int, due1.2 as int) <= day_number(due2.0 as int, due2.1 as int, due2.2 as int),
        threshold >= 0,
    ensures
        category_rank(due_date_category(seconds_to_day_end(due1, now, h, mi, s), threshold))
            <= category_rank(due_date_category(seconds_to_day_end(due2, now, h, mi, s), threshold)),
{
    let a = seconds_to_day_end(due1, now, h, mi, s);
    let b = seconds_to_day_end(due2, now, h, mi, s);
    assert(a <= b);
    if a > 0 {
        vstd::arithmetic::div_mod::lemma_div_is_ordered(a, b, 86400);
    }
}

pub fn due_date_category_from_diff(diff_seconds: i64, due_soon_day_threshold: u32) -> (r: FilterType)
    ensures
        r == due_date_category(diff_seconds as int, due_soon_day_threshold as int),
{
    if diff_seconds <= 0 {
        FilterType::Overdue
    } else {
        let days: i64 = diff_seconds / SECONDS_PER_DAY;
        if days == 0 {
            FilterType::DueToday
        } else if days >= due_soon_day_threshold as i64 {
            FilterType::DueSoon
        } else {
            FilterType::HasDueDate
        }
    }
}

/// Whether `y` is a leap year of the proleptic Gregorian calendar.
pub open spec fn is_leap_year(y: int) -> bool {
    (y % 4 == 0 && y % 100 != 0) || y % 400 == 0
}

/// The number of days of month `m` of year `y`.
pub open spec fn days_in_month(y: int, m: int) -> int {
    if m == 2 {
        if is_leap_year(y) { 29 } else { 28 }
    } else if m == 4 || m == 6 || m == 9 || m == 11 {
        30
    } else {
        31
    }
}

/// A day of the calendar, in years away from the ends of chrono's range.
pub open spec fn calendar_date_ok(y: int, m: int, d: int) -> bool {
    &&& -262142 <= y <= 262141
    &&& 1 <= m <= 12
    &&& 1 <= d <= days_in_month(y, m)
}

/// The days of the months of year `y` before month `m`.
pub open spec fn days_before_month(y: int, m: int) -> int
    decreases m,
{
    if m <= 1 {
        0
    } else {
        days_before_month(y, m - 1) + days_in_month(y, m - 1)
    }
}

/// A count of days that grows by one from each day of the calendar to the
/// next: the days of the years before `y` (with a leap day in every leap
/// year before it), of the months before `m`, and `d`.
pub open spec fn day_number(y: int, m: int, d: int) -> int {
    365 * y + (y - 1) / 4 - (y - 1) / 100 + (y - 1) / 400 + days_before_month(y, m) + d
}

/// The seconds from `h:mi:s` on the day `now` to the last second of the
/// day `due`, both read as clock times at one place.
pub open spec fn seconds_to_day_end(due: (i32, u32, u32), now: (i32, u32, u32), h: u32, mi: u32, s: u32) -> int {
    (day_number(due.0 as int, due.1 as int, due.2 as int) - day_number(now.0 as int, now.1 as int, now.2 as int)) * 86400
        + (23 * 3600 + 59 * 60 + 59) - (h * 3600 + mi * 60 + s)
}

/// The seconds of a moment, a day of the calendar and a time of day, counted
/// from a fixed origin.
pub open spec fn moment_seconds(m: (i32, u32, u32, u32, u32, u32)) -> int {
    day_number(m.0 as int, m.1 as int, m.2 as int) * 86400 + m.3 * 3600 + m.4 * 60 + m.5
}

/// With chrono, the time from `earlier` to `later`, both read as clock
/// times (year, month, day, hour, minute, second) at the fixed offset
/// `offset` seconds east of UTC: `FixedOffset::east`, `ymd`, `and_hms`,
/// `signed_duration_since` and `num_seconds`.
/// Claimed: the whole seconds between the two calendar times, the offset
/// applying to both; chrono panics on an offset of a day or more, on a day
/// that does not exist and on a time past 23:59:59, which the requirements
/// leave out.
#[verifier::external_body]
#[allow(deprecated)]
fn seconds_between(offset: i32, later: (i32, u32, u32, u32, u32, u32), earlier: (i32, u32, u32, u32, u32, u32)) -> (r: i64)
    requires
        -86400 < offset < 86400,
        moment_ok(later),
        moment_ok(earlier),
    ensures
        r == moment_seconds(later) - moment_seconds(earlier),
{
    let tz = chrono::FixedOffset::east(offset);
    let a = tz.ymd(later.0, later.1, later.2).and_hms(later.3, later.4, later.5);
    let b = tz.ymd(earlier.0, earlier.1, earlier.2).and_hms(earlier.3, earlier.4, earlier.5);
    a.signed_duration_since(b).num_seconds()
}

/// Whether `(y, m, d)` is a day of the calendar (see `calendar_date_ok`).
pub fn is_calendar_date(y: i32, m: u32, d: u32) -> (r: bool)
    ensures
        r == calendar_date_ok(y as int, m as int, d as int),
{
    if y < -262142 || y > 262141 || m < 1 || m > 12 || d < 1 {
        return false;
    }
    let leap = (y % 4 == 0 && y % 100 != 0) || y % 400 == 0;
    assert(leap == is_leap_year(y as int)) by {
        assert((y % 4 == 0) == ((y as int) % 4 == 0));
        assert((y % 100 == 0) == ((y as int) % 100 == 0));
        assert((y % 400 == 0) == ((y as int) % 400 == 0));
    }
    let days: u32 = if m == 2 {
        if leap { 29 } else { 28 }
    } else if m == 4 || m == 6 || m == 9 || m == 11 {
        30
    } else {
        31
    };
    d <= days
}

/// The year, month and day a due date text names, as the dashboard reads
/// them (month and day taken as unsigned).
pub open spec fn due_date_parts(s: Seq<char>) -> (i32, u32, u32) {
    let p = split_on(s, '-');
    (parsed_i32(p[0])->0, parsed_i32(p[1])->0 as u32, parsed_i32(p[2])->0 as u32)
}

/// A due date text that names a day of the calendar.
pub open spec fn due_date_ok(s: Seq<char>) -> bool {
    &&& valid_due_date(s)
    &&& calendar_date_ok(due_date_parts(s).0 as int, due_date_parts(s).1 as int, due_date_parts(s).2 as int)
}

/// Whether a due date text can be sorted into a category.
pub fn is_due_date_ok(due_date_str: &str) -> (r: bool)
    ensures
        r == due_date_ok(due_date_str@),
{
    if !is_valid_due_date(due_date_str) {
        return false;
    }
    let parts = parse_linear_issue_due_date(due_date_str);
    is_calendar_date(parts[0], parts[1] as u32, parts[2] as u32)
}

/// The moment a due date is compared with: a day of the calendar and a
/// time of day.
pub open spec fn moment_ok(now: (i32, u32, u32, u32, u32, u32)) -> bool {
    &&& calendar_date_ok(now.0 as int, now.1 as int, now.2 as int)
    &&& now.3 < 24
    &&& now.4 < 60
    &&& now.5 < 60
}

/// The due-date category of an issue: `NoDueDate` without a due date;
/// otherwise by the seconds from `now` (the clock time of the present,
/// read at the team's offset) to the end of the due day, with
/// `due_soon_day_threshold` days marking "due soon".
pub fn get_issue_due_date_category(
    due_date: Option<&str>,
    utc_offset: i32,
    now: (i32, u32, u32, u32, u32, u32),
    due_soon_day_threshold: u32,
) -> (r: FilterType)
    requires
        due_date is Some ==> -86400 < utc_offset < 86400,
        due_date is Some ==> moment_ok(now),
        due_date matches Some(s) ==> due_date_ok(s@),
    ensures
        due_date is None ==> r == FilterType::NoDueDate,
        due_date matches Some(s) ==> r == due_date_category(
            seconds_to_day_end(due_date_parts(s@), (now.0, now.1, now.2), now.3, now.4, now.5),
            due_soon_day_threshold as int,
        ),
{
    let s = match due_date {
        Some(x) => x,
        None => return FilterType::NoDueDate,
    };
    let parts = parse_linear_issue_due_date(s);
    let due: (i32, u32, u32) = (parts[0], parts[1] as u32, parts[2] as u32);
    assert(due == due_date_parts(s@));
    // the due day ends at its last second
    let due_end: (i32, u32, u32, u32, u32, u32) = (due.0, due.1, due.2, 23, 59, 59);
    let diff = seconds_between(utc_offset, due_end, now);
    due_date_category_from_diff(diff, due_soon_day_threshold)
}

/// A page of teams' time zones arrived: its (team id, time zone) pairs
/// follow those collected so far, and the cursor moves to the end of the
/// page.
pub fn receive_team_timezones(
    pairs: &mut Vec<(String, String)>,
    cursor: &mut GraphQLCursor,
    page: Vec<(String, String)>,
    info: PageInfo,
)
    ensures
        final(pairs)@ == old(pairs)@ + page@,
        *final(cursor) == cursor_after(info),
{
    let mut page = page;
    pairs.append(&mut page);
    *cursor = cursor_from_page(info);
}

} // verus!
