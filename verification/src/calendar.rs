//! Calendar arithmetic for message timestamps: the local day of an instant,
//! its civil date, the time of day, and the Russian date labels of the chat.
//!
//! An instant is a Unix timestamp in nanoseconds; a day is a Julian day
//! number; an offset from UTC is a number of seconds.

use vstd::prelude::*;
use crate::text::{decimal, push_decimal, push_signed_decimal, signed_decimal, two_digits};

verus! {

pub const NANOS_PER_SECOND: i128 = 1_000_000_000;

pub const NANOS_PER_MINUTE: i128 = 60_000_000_000;

pub const NANOS_PER_HOUR: i128 = 3_600_000_000_000;

pub const NANOS_PER_DAY: i128 = 86_400_000_000_000;

/// Julian day number of 1970-01-01.
pub const UNIX_EPOCH_JULIAN_DAY: i32 = 2_440_588;

/// Julian day number of -9999-01-01, the first date the calendar supports.
pub const MIN_JULIAN_DAY: i32 = -1_930_999;

/// Julian day number of 9999-12-31, the last date the calendar supports.
pub const MAX_JULIAN_DAY: i32 = 5_373_484;

/// Largest offset from UTC, in seconds (25:59:59).
pub const MAX_OFFSET_SECONDS: i32 = 93_599;

pub open spec fn valid_julian_day(jd: int) -> bool {
    MIN_JULIAN_DAY <= jd <= MAX_JULIAN_DAY
}

pub open spec fn valid_offset(offset_seconds: int) -> bool {
    -MAX_OFFSET_SECONDS <= offset_seconds <= MAX_OFFSET_SECONDS
}

/// Nanoseconds since the Unix epoch on the local clock at `offset_seconds`.
pub open spec fn local_nanos(unix_nanos: int, offset_seconds: int) -> int {
    unix_nanos + offset_seconds * NANOS_PER_SECOND
}

/// Julian day number of the local date of an instant.
pub open spec fn day_of(unix_nanos: int, offset_seconds: int) -> int {
    local_nanos(unix_nanos, offset_seconds) / (NANOS_PER_DAY as int) + UNIX_EPOCH_JULIAN_DAY
}

/// An instant whose UTC date and local date both lie in the supported range.
pub open spec fn valid_instant(unix_nanos: int, offset_seconds: int) -> bool {
    &&& valid_offset(offset_seconds)
    &&& valid_julian_day(day_of(unix_nanos, 0))
    &&& valid_julian_day(day_of(unix_nanos, offset_seconds))
}

/// First instant (local nanoseconds) of the supported range.
pub const MIN_LOCAL_NANOS: i128 = -377_705_116_800_000_000_000;

/// First instant (local nanoseconds) after the supported range.
pub const END_LOCAL_NANOS: i128 = 253_402_300_800_000_000_000;

proof fn lemma_day_in_range(local: int)
    ensures
        valid_julian_day(local / (NANOS_PER_DAY as int) + UNIX_EPOCH_JULIAN_DAY) <==> (MIN_LOCAL_NANOS
            <= local < END_LOCAL_NANOS),
{
    let d = NANOS_PER_DAY as int;
    vstd::arithmetic::div_mod::lemma_fundamental_div_mod(local, d);
}

/// Whether the calendar supports an offset and an instant seen at it.
pub fn instant_in_range(unix_nanos: i128, offset_seconds: i32) -> (res: bool)
    ensures
        res == valid_instant(unix_nanos as int, offset_seconds as int),
{
    proof {
        lemma_day_in_range(unix_nanos as int);
        lemma_day_in_range(local_nanos(unix_nanos as int, offset_seconds as int));
    }
    if offset_seconds < -MAX_OFFSET_SECONDS || offset_seconds > MAX_OFFSET_SECONDS {
        return false;
    }
    if unix_nanos < MIN_LOCAL_NANOS || unix_nanos >= END_LOCAL_NANOS {
        return false;
    }
    let local = unix_nanos + offset_seconds as i128 * NANOS_PER_SECOND;
    MIN_LOCAL_NANOS <= local && local < END_LOCAL_NANOS
}

/// The offset from UTC, in seconds, of a clock that reports its time zone as
/// `offset_minutes` minutes behind UTC (as a browser's `getTimezoneOffset`
/// does); UTC when that is an offset no time zone has.
pub fn offset_from_timezone_minutes(offset_minutes: i32) -> (res: i32)
    ensures
        valid_offset(-offset_minutes * 60) ==> res == -offset_minutes * 60,
        !valid_offset(-offset_minutes * 60) ==> res == 0,
        valid_offset(res as int),
{
    let seconds: i64 = -(offset_minutes as i64) * 60;
    if -(MAX_OFFSET_SECONDS as i64) <= seconds && seconds <= MAX_OFFSET_SECONDS as i64 {
        seconds as i32
    } else {
        0
    }
}

/// Whether the calendar supports a day, and the day before it (as a "today").
pub fn today_in_range(jd: i32) -> (res: bool)
    ensures
        res == (valid_julian_day(jd as int) && jd > MIN_JULIAN_DAY),
{
    MIN_JULIAN_DAY < jd && jd <= MAX_JULIAN_DAY
}

/// Local hour of the day (0..24).
pub open spec fn hour_of(unix_nanos: int, offset_seconds: int) -> int {
    (local_nanos(unix_nanos, offset_seconds) % (NANOS_PER_DAY as int)) / (NANOS_PER_HOUR as int)
}

/// Local minute of the hour (0..60).
pub open spec fn minute_of(unix_nanos: int, offset_seconds: int) -> int {
    (local_nanos(unix_nanos, offset_seconds) % (NANOS_PER_HOUR as int)) / (NANOS_PER_MINUTE as int)
}

/// Proleptic Gregorian (year, month, day) of a Julian day number.
pub open spec fn civil_date(jd: int) -> (int, int, int) {
    let z = jd - UNIX_EPOCH_JULIAN_DAY + 719468;
    let era = z / 146097;
    let doe = z - era * 146097;
    let yoe = (doe - doe / 1460 + doe / 36524 - doe / 146096) / 365;
    let doy = doe - (365 * yoe + yoe / 4 - yoe / 100);
    let mp = (5 * doy + 2) / 153;
    let d = doy - (153 * mp + 2) / 5 + 1;
    let m = if mp < 10 { mp + 3 } else { mp - 9 };
    let y = yoe + era * 400 + if m <= 2 { 1int } else { 0int };
    (y, m, d)
}

pub open spec fn civil_year(jd: int) -> int {
    civil_date(jd).0
}

pub open spec fn civil_month(jd: int) -> int {
    civil_date(jd).1
}

pub open spec fn civil_day(jd: int) -> int {
    civil_date(jd).2
}

/// Day of the week, 0 for Monday through 6 for Sunday (Julian day 0 was a Monday).
pub open spec fn weekday_index(jd: int) -> int {
    jd % 7
}

/// Wraps `OffsetDateTime::from_unix_timestamp_nanos`, `UtcOffset::from_whole_seconds`,
/// `OffsetDateTime::to_offset` and `to_julian_day`: the Julian day of the local
/// date. The `requires` keeps every conversion in the range where none fails.
#[verifier::external_body]
fn local_julian_day(unix_nanos: i128, offset_seconds: i32) -> (jd: i32)
    requires
        valid_instant(unix_nanos as int, offset_seconds as int),
    ensures
        jd == day_of(unix_nanos as int, offset_seconds as int),
{
    let utc = time::OffsetDateTime::from_unix_timestamp_nanos(unix_nanos).unwrap();
    let offset = time::UtcOffset::from_whole_seconds(offset_seconds).unwrap();
    utc.to_offset(offset).to_julian_day()
}

/// Wraps `Date::from_julian_day` and the getters `year`, `month`, `day` and
/// `weekday().number_days_from_monday()`: the proleptic Gregorian date.
#[verifier::external_body]
fn calendar_parts(jd: i32) -> (res: (i32, u8, u8, u8))
    requires
        valid_julian_day(jd as int),
    ensures
        res.0 == civil_year(jd as int),
        res.1 == civil_month(jd as int),
        res.2 == civil_day(jd as int),
        res.3 == weekday_index(jd as int),
{
    let date = time::Date::from_julian_day(jd).unwrap();
    (date.year(), u8::from(date.month()), date.day(), date.weekday().number_days_from_monday())
}

/// Wraps `format_description::parse_borrowed::<3>` and `OffsetDateTime::format`
/// for the local time of an instant; for the description `[hour]:[minute]` the
/// result is the zero-padded 24-hour time.
#[verifier::external_body]
fn format_local_time(unix_nanos: i128, offset_seconds: i32, description: &str) -> (res: String)
    requires
        valid_instant(unix_nanos as int, offset_seconds as int),
        description@ == "[hour]:[minute]"@,
    ensures
        res@ == two_digits(hour_of(unix_nanos as int, offset_seconds as int) as nat) + seq![':']
            + two_digits(minute_of(unix_nanos as int, offset_seconds as int) as nat),
{
    let format = time::format_description::parse_borrowed::<3>(description).unwrap();
    let utc = time::OffsetDateTime::from_unix_timestamp_nanos(unix_nanos).unwrap();
    let offset = time::UtcOffset::from_whole_seconds(offset_seconds).unwrap();
    utc.to_offset(offset).format(&format).unwrap()
}

/// Wraps `OffsetDateTime::now_utc` and `unix_timestamp_nanos`: the current
/// time read from the system clock. Which instant it reads is not stated;
/// an `OffsetDateTime` holds only dates of the years -9999 to 9999, so the
/// reading lies in the range the calendar supports.
#[verifier::external_body]
fn clock_unix_nanos() -> (res: i128)
    ensures
        valid_instant(res as int, 0),
{
    time::OffsetDateTime::now_utc().unix_timestamp_nanos()
}

/// The current instant, in Unix nanoseconds, as the system clock reads it;
/// which instant it is is not stated, only that the calendar supports it.
pub fn now_unix_nanos() -> (res: i128)
    ensures
        valid_instant(res as int, 0),
{
    clock_unix_nanos()
}

/// Today's local day when the clock reads `now`: the local day of `now` at
/// `offset_seconds`, if the calendar supports that instant and the day before.
pub open spec fn today_of(now: int, offset_seconds: int) -> Option<int> {
    if valid_instant(now, offset_seconds) && day_of(now, offset_seconds) > MIN_JULIAN_DAY {
        Some(day_of(now, offset_seconds))
    } else {
        None
    }
}

/// Today's local day at `offset_seconds` for the clock reading `now`.
pub fn today_at(now: i128, offset_seconds: i32) -> (res: Option<i32>)
    ensures
        match res {
            Some(jd) => today_of(now as int, offset_seconds as int) == Some(jd as int),
            None => today_of(now as int, offset_seconds as int) is None,
        },
{
    if !instant_in_range(now, offset_seconds) {
        return None;
    }
    let jd = local_julian_day(now, offset_seconds);
    if !today_in_range(jd) {
        return None;
    }
    Some(jd)
}

/// Today's local day at `offset_seconds`, as the system clock reads it.
/// Which instant the clock reads is not stated; the result is what `today_at`
/// gives for some reading the calendar supports.
pub fn today(offset_seconds: i32) -> (res: Option<i32>)
    ensures
        res matches Some(jd) ==> valid_julian_day(jd as int) && jd > MIN_JULIAN_DAY
            && exists|now: int| valid_instant(now, offset_seconds as int) && jd == day_of(now, offset_seconds as int),
        !valid_offset(offset_seconds as int) ==> res is None,
        exists|now: int| valid_instant(now, 0) && #[trigger] today_of(now, offset_seconds as int) == match res {
            Some(jd) => Some(jd as int),
            None => None::<int>,
        },
{
    let now = clock_unix_nanos();
    today_at(now, offset_seconds)
}

/// The local day (Julian day number) of a message sent at `unix_nanos`.
pub fn local_day(unix_nanos: i128, offset_seconds: i32) -> (jd: i32)
    requires
        valid_instant(unix_nanos as int, offset_seconds as int),
    ensures
        jd == day_of(unix_nanos as int, offset_seconds as int),
        valid_julian_day(jd as int),
{
    local_julian_day(unix_nanos, offset_seconds)
}

/// The `HH:MM` time shown beside a message.
pub fn message_time_label(unix_nanos: i128, offset_seconds: i32) -> (res: String)
    requires
        valid_instant(unix_nanos as int, offset_seconds as int),
    ensures
        res@ == two_digits(hour_of(unix_nanos as int, offset_seconds as int) as nat) + seq![':']
            + two_digits(minute_of(unix_nanos as int, offset_seconds as int) as nat),
{
    format_local_time(unix_nanos, offset_seconds, "[hour]:[minute]")
}

/// Genitive name of a month (1 = January), as in "5 мая".
pub open spec fn month_genitive(m: int) -> Seq<char> {
    if m == 1 { "января"@ }
    else if m == 2 { "февраля"@ }
    else if m == 3 { "марта"@ }
    else if m == 4 { "апреля"@ }
    else if m == 5 { "мая"@ }
    else if m == 6 { "июня"@ }
    else if m == 7 { "июля"@ }
    else if m == 8 { "августа"@ }
    else if m == 9 { "сентября"@ }
    else if m == 10 { "октября"@ }
    else if m == 11 { "ноября"@ }
    else { "декабря"@ }
}

/// Name of a day of the week (0 = Monday).
pub open spec fn weekday_name(w: int) -> Seq<char> {
    if w == 0 { "понедельник"@ }
    else if w == 1 { "вторник"@ }
    else if w == 2 { "среда"@ }
    else if w == 3 { "четверг"@ }
    else if w == 4 { "пятница"@ }
    else if w == 5 { "суббота"@ }
    else { "воскресенье"@ }
}

/// The months carry their Russian genitive names, January to December, and
/// no two months share a name, so a divider names its date's own month.
pub proof fn law_month_names(m1: int, m2: int)
    ensures
        month_genitive(1) == "января"@,
        month_genitive(2) == "февраля"@,
        month_genitive(3) == "марта"@,
        month_genitive(4) == "апреля"@,
        month_genitive(5) == "мая"@,
        month_genitive(6) == "июня"@,
        month_genitive(7) == "июля"@,
        month_genitive(8) == "августа"@,
        month_genitive(9) == "сентября"@,
        month_genitive(10) == "октября"@,
        month_genitive(11) == "ноября"@,
        month_genitive(12) == "декабря"@,
        1 <= m1 <= 12 && 1 <= m2 <= 12 && m1 != m2 ==> month_genitive(m1) != month_genitive(m2),
{
    reveal_strlit("января");
    reveal_strlit("февраля");
    reveal_strlit("марта");
    reveal_strlit("апреля");
    reveal_strlit("мая");
    reveal_strlit("июня");
    reveal_strlit("июля");
    reveal_strlit("августа");
    reveal_strlit("сентября");
    reveal_strlit("октября");
    reveal_strlit("ноября");
    reveal_strlit("декабря");
    if 1 <= m1 <= 12 && 1 <= m2 <= 12 && m1 != m2 {
        let a = month_genitive(m1);
        let b = month_genitive(m2);
        if a == b {
            assert(a.len() == b.len() && a[0] == b[0] && a[2] == b[2]);
            assert(false);
        }
    }
}

/// The days of the week carry their Russian names, Monday to Sunday, and no
/// two days share a name.
pub proof fn law_weekday_names(w1: int, w2: int)
    ensures
        weekday_name(0) == "понедельник"@,
        weekday_name(1) == "вторник"@,
        weekday_name(2) == "среда"@,
        weekday_name(3) == "четверг"@,
        weekday_name(4) == "пятница"@,
        weekday_name(5) == "суббота"@,
        weekday_name(6) == "воскресенье"@,
        0 <= w1 <= 6 && 0 <= w2 <= 6 && w1 != w2 ==> weekday_name(w1) != weekday_name(w2),
{
    reveal_strlit("понедельник");
    reveal_strlit("вторник");
    reveal_strlit("среда");
    reveal_strlit("четверг");
    reveal_strlit("пятница");
    reveal_strlit("суббота");
    reveal_strlit("воскресенье");
    if 0 <= w1 <= 6 && 0 <= w2 <= 6 && w1 != w2 {
        let a = weekday_name(w1);
        let b = weekday_name(w2);
        if a == b {
            assert(a.len() == b.len() && a[0] == b[0] && a[1] == b[1]);
            assert(false);
        }
    }
}

fn month_genitive_str(m: u8) -> (s: &'static str)
    ensures
        s@ == month_genitive(m as int),
{
    if m == 1 { "января" }
    else if m == 2 { "февраля" }
    else if m == 3 { "марта" }
    else if m == 4 { "апреля" }
    else if m == 5 { "мая" }
    else if m == 6 { "июня" }
    else if m == 7 { "июля" }
    else if m == 8 { "августа" }
    else if m == 9 { "сентября" }
    else if m == 10 { "октября" }
    else if m == 11 { "ноября" }
    else { "декабря" }
}

fn weekday_name_str(w: u8) -> (s: &'static str)
    ensures
        s@ == weekday_name(w as int),
{
    if w == 0 { "понедельник" }
    else if w == 1 { "вторник" }
    else if w == 2 { "среда" }
    else if w == 3 { "четверг" }
    else if w == 4 { "пятница" }
    else if w == 5 { "суббота" }
    else { "воскресенье" }
}

/// Label of the divider above the first message of a day, given today's
/// local day: "Сегодня, 5 мая", "Вчера, 4 мая", "3 мая, суббота" within the
/// current year, "3 мая 2023 г." otherwise.
pub open spec fn date_divider_text(jd: int, today: int) -> Seq<char> {
    let day_month = decimal(civil_day(jd) as nat) + " "@ + month_genitive(civil_month(jd));
    if jd == today {
        "Сегодня, "@ + day_month
    } else if jd == today - 1 {
        "Вчера, "@ + day_month
    } else if civil_year(jd) == civil_year(today) {
        day_month + ", "@ + weekday_name(weekday_index(jd))
    } else {
        day_month + " "@ + signed_decimal(civil_year(jd)) + " г."@
    }
}

/// How a divider names its day: "Сегодня, " and "Вчера, " open the labels
/// of today and yesterday; any other day of the current year ends with its
/// weekday's name and an earlier or later year's day ends with " г.", and
/// every label shows the day of the month followed by the month's name.
pub proof fn law_divider_names_the_day(jd: int, today: int)
    ensures
        jd == today ==> date_divider_text(jd, today) == "Сегодня, "@ + decimal(civil_day(jd) as nat) + " "@
            + month_genitive(civil_month(jd)),
        jd == today - 1 ==> date_divider_text(jd, today) == "Вчера, "@ + decimal(civil_day(jd) as nat) + " "@
            + month_genitive(civil_month(jd)),
        jd != today && jd != today - 1 ==> date_divider_text(jd, today).take(
            (decimal(civil_day(jd) as nat) + " "@ + month_genitive(civil_month(jd))).len() as int,
        ) == decimal(civil_day(jd) as nat) + " "@ + month_genitive(civil_month(jd)),
        jd != today && jd != today - 1 && civil_year(jd) == civil_year(today) ==> date_divider_text(
            jd,
            today,
        ).skip(date_divider_text(jd, today).len() - weekday_name(weekday_index(jd)).len()) == weekday_name(
            weekday_index(jd),
        ),
        jd != today && jd != today - 1 && civil_year(jd) != civil_year(today) ==> date_divider_text(
            jd,
            today,
        ).skip(date_divider_text(jd, today).len() - 3) == " г."@,
{
    let dm = decimal(civil_day(jd) as nat) + " "@ + month_genitive(civil_month(jd));
    let w = weekday_name(weekday_index(jd));
    reveal_strlit(" г.");
    if jd != today && jd != today - 1 {
        if civil_year(jd) == civil_year(today) {
            assert((dm + ", "@ + w).take(dm.len() as int) =~= dm);
            assert((dm + ", "@ + w).skip((dm + ", "@ + w).len() - w.len()) =~= w);
        } else {
            let y = " "@ + signed_decimal(civil_year(jd)) + " г."@;
            assert((dm + y).take(dm.len() as int) =~= dm);
            assert((dm + y).skip((dm + y).len() - 3) =~= " г."@);
        }
    }
}

/// The date divider label for local day `jd`, seen on local day `today`.
pub fn format_date_divider(jd: i32, today: i32) -> (res: String)
    requires
        valid_julian_day(jd as int),
        valid_julian_day(today as int),
        today > MIN_JULIAN_DAY,
    ensures
        res@ == date_divider_text(jd as int, today as int),
{
    let (year, month, day, weekday) = calendar_parts(jd);
    let mut res = if jd == today {
        String::from_str("Сегодня, ")
    } else if jd == today - 1 {
        String::from_str("Вчера, ")
    } else {
        String::new()
    };
    push_decimal(&mut res, day as u64);
    res.append(" ");
    res.append(month_genitive_str(month));
    if jd != today && jd != today - 1 {
        let (today_year, _, _, _) = calendar_parts(today);
        if year == today_year {
            res.append(", ");
            res.append(weekday_name_str(weekday));
        } else {
            res.append(" ");
            push_signed_decimal(&mut res, year as i64);
            res.append(" г.");
        }
    }
    res
}

/// The "Сегодня, 5 мая" badge at the top of a direct-message conversation.
pub fn today_label(today: i32) -> (res: String)
    requires
        valid_julian_day(today as int),
        today > MIN_JULIAN_DAY,
    ensures
        res@ == date_divider_text(today as int, today as int),
{
    format_date_divider(today, today)
}

} // verus!
