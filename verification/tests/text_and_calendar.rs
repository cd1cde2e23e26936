use gilvave_ui::calendar::{
    format_date_divider, local_day, message_time_label, now_unix_nanos, offset_from_timezone_minutes, today, today_at,
    today_label,
};
use gilvave_ui::chat::history_before_now;
use gilvave_ui::messages::enrich_messages_now;
use gilvave_ui::ids::uuid_string;
use gilvave_ui::chat::compose_outgoing;
use gilvave_ui::ids::parse_uuid;
use gilvave_ui::profile::{tag_from_lowercase, user_tag};
use gilvave_ui::servers::members_label;
use gilvave_ui::text::{initial_of, same_text};

const JD_2019_01_01: i32 = 2_458_485;
const NANOS_2019_01_01: i128 = 1_546_300_800_000_000_000;
const HOUR: i128 = 3_600_000_000_000;
const MINUTE: i128 = 60_000_000_000;

#[test]
fn decimal_text_of_numbers() {
    assert_eq!(members_label(0), "0 участников");
    assert_eq!(members_label(7), "7 участников");
    assert_eq!(members_label(1247), "1247 участников");
    assert_eq!(members_label(u64::MAX), format!("{} участников", u64::MAX));
}

#[test]
fn initials_are_upper_cased_first_letters() {
    assert_eq!(initial_of("алексей"), "А");
    assert_eq!(initial_of("rust"), "R");
    assert_eq!(initial_of(""), "?");
    assert_eq!(initial_of("ß"), "SS");
}

#[test]
fn trimming_and_lower_casing() {
    assert_eq!(compose_outgoing("\u{3000} a b \t\n", Some(1)).unwrap().content, "a b");
    assert_eq!(compose_outgoing("\u{85}x\u{2029}", Some(1)).unwrap().content, "x");
    assert_eq!(user_tag("ПРИВЕТ World"), "@привет world");
    assert_eq!(tag_from_lowercase("Keeps"), "@Keeps");
    assert!(same_text("abc", "abc"));
    assert!(!same_text("abc", "abd"));
}

#[test]
fn uuid_canonical_text() {
    assert_eq!(
        uuid_string(0x550e8400_e29b_41d4_a716_446655440001),
        "550e8400-e29b-41d4-a716-446655440001"
    );
    assert_eq!(uuid_string(0), "00000000-0000-0000-0000-000000000000");
    assert_eq!(uuid_string(u128::MAX), "ffffffff-ffff-ffff-ffff-ffffffffffff");
}

#[test]
fn uuid_parsing() {
    let id = 0x550e8400_e29b_41d4_a716_446655440001u128;
    assert_eq!(parse_uuid("550e8400-e29b-41d4-a716-446655440001"), Some(id));
    assert_eq!(parse_uuid("550E8400-E29B-41D4-A716-446655440001"), Some(id));
    assert_eq!(parse_uuid(&uuid_string(u128::MAX)), Some(u128::MAX));
    assert_eq!(parse_uuid(&uuid_string(0)), Some(0));
    assert_eq!(parse_uuid("550e8400e29b41d4a716446655440001"), None);
    assert_eq!(parse_uuid("550e8400-e29b-41d4-a716-44665544000g"), None);
    assert_eq!(parse_uuid("550e8400-e29b-41d4-a716_446655440001"), None);
    assert_eq!(parse_uuid(""), None);
}

#[test]
fn local_days_follow_the_offset() {
    assert_eq!(local_day(0, 0), 2_440_588);
    assert_eq!(local_day(-1, 0), 2_440_587);
    assert_eq!(local_day(NANOS_2019_01_01, 0), JD_2019_01_01);
    // 23:30 UTC on 2018-12-31 is already 2019-01-01 at +01:00.
    assert_eq!(local_day(NANOS_2019_01_01 - 30 * MINUTE, 3600), JD_2019_01_01);
    assert_eq!(local_day(NANOS_2019_01_01 - 30 * MINUTE, 0), JD_2019_01_01 - 1);
    // and 00:30 UTC is still 2018-12-31 at -01:00.
    assert_eq!(local_day(NANOS_2019_01_01 + 30 * MINUTE, -3600), JD_2019_01_01 - 1);
}

#[test]
fn message_times_are_zero_padded_local_times() {
    assert_eq!(message_time_label(NANOS_2019_01_01 + 13 * HOUR + 5 * MINUTE, 0), "13:05");
    assert_eq!(message_time_label(NANOS_2019_01_01 + 13 * HOUR + 5 * MINUTE, 3 * 3600), "16:05");
    assert_eq!(message_time_label(NANOS_2019_01_01 + 59 * MINUTE + 59_000_000_000, 0), "00:59");
    assert_eq!(message_time_label(NANOS_2019_01_01 + 30 * MINUTE, -3600), "23:30");
}

#[test]
fn date_divider_labels() {
    let today = JD_2019_01_01 + 120; // 2019-05-01
    assert_eq!(format_date_divider(today, today), "Сегодня, 1 мая");
    assert_eq!(format_date_divider(today - 1, today), "Вчера, 30 апреля");
    // 2019-03-01 was a Friday.
    assert_eq!(format_date_divider(JD_2019_01_01 + 59, today), "1 марта, пятница");
    assert_eq!(format_date_divider(JD_2019_01_01 - 1, today), "31 декабря 2018 г.");
    assert_eq!(format_date_divider(JD_2019_01_01, JD_2019_01_01 + 1), "Вчера, 1 января");
    assert_eq!(today_label(JD_2019_01_01), "Сегодня, 1 января");
}

#[test]
fn date_divider_weekdays_cover_a_week() {
    let today = JD_2019_01_01 + 200;
    let names = [
        "1 апреля, понедельник",
        "2 апреля, вторник",
        "3 апреля, среда",
        "4 апреля, четверг",
        "5 апреля, пятница",
        "6 апреля, суббота",
        "7 апреля, воскресенье",
    ];
    for (k, name) in names.iter().enumerate() {
        assert_eq!(format_date_divider(JD_2019_01_01 + 90 + k as i32, today), *name);
    }
}

#[test]
fn date_divider_far_years() {
    // 0001-01-01, 0000-01-01 and -0001-01-01 (proleptic Gregorian, year 0 is leap).
    assert_eq!(format_date_divider(1_721_426, 2_458_485), "1 января 1 г.");
    assert_eq!(format_date_divider(1_721_426 - 366, 2_458_485), "1 января 0 г.");
    assert_eq!(format_date_divider(1_721_426 - 366 - 365, 2_458_485), "1 января -1 г.");
}

#[test]
fn no_today_at_an_offset_no_time_zone_has() {
    assert_eq!(today(100_000), None);
    assert_eq!(today(-100_000), None);
    assert!(enrich_messages_now(&Vec::new(), &Vec::new(), &String::new(), &String::new(), 100_000).is_none());
    let day = today(0).expect("the clock reads a supported date");
    let (seen, list) = enrich_messages_now(&Vec::new(), &Vec::new(), &String::new(), &String::new(), 0)
        .expect("an empty list is enriched");
    assert!(list.is_empty());
    assert!(seen == day || seen == day + 1);
}

#[test]
fn browser_time_zone_offsets() {
    assert_eq!(offset_from_timezone_minutes(-180), 10_800);
    assert_eq!(offset_from_timezone_minutes(300), -18_000);
    assert_eq!(offset_from_timezone_minutes(0), 0);
    assert_eq!(offset_from_timezone_minutes(-1_559), 93_540);
    assert_eq!(offset_from_timezone_minutes(-1_560), 0);
    assert_eq!(offset_from_timezone_minutes(i32::MIN), 0);
}

#[test]
fn the_clock_reads_a_supported_instant() {
    let before = now_unix_nanos();
    let query = history_before_now(9);
    assert_eq!(query.channel_id, 9);
    assert!(query.timestamp >= before);
    assert!(local_day(query.timestamp, 0) > 2_440_588);
}

#[test]
fn today_at_a_clock_reading() {
    assert_eq!(today_at(NANOS_2019_01_01 + HOUR, 0), Some(JD_2019_01_01));
    assert_eq!(today_at(NANOS_2019_01_01 - HOUR, 0), Some(JD_2019_01_01 - 1));
    assert_eq!(today_at(NANOS_2019_01_01 - HOUR, 2 * 3600), Some(JD_2019_01_01));
    assert_eq!(today_at(NANOS_2019_01_01, 100_000), None);
    assert_eq!(today_at(i128::MAX, 0), None);
}
