use gilvave_ui::chat::{
    anchored_scroll_top, channel_title, compose_outgoing, history_after_query, history_before_query,
    history_query_at, message_layout, scroll_edges, welcome_text, MessageAvatar,
};
use gilvave_ui::messages::{
    apply_history_after, apply_history_before, apply_new_message, enrich_messages, enrich_messages_at, message_avatar,
    EnrichedMessage, MemberView, MessageView,
};

const JD_2019_01_01: i32 = 2_458_485;
const NANOS_2019_01_01: i128 = 1_546_300_800_000_000_000;
const MINUTE: i128 = 60_000_000_000;
const HOUR: i128 = 60 * MINUTE;

fn msg(id: u128, author: &str, author_id: Option<u128>, at: i128) -> MessageView {
    MessageView {
        id,
        channel_id: 7,
        author_id,
        author_name: author.to_string(),
        content: format!("message {id}"),
        created_at: at,
    }
}

fn member(user_id: u128, name: &str, avatar: &str) -> MemberView {
    MemberView { user_id, username: name.to_string(), avatar: avatar.to_string() }
}

fn flags(list: &[EnrichedMessage]) -> Vec<(bool, bool)> {
    list.iter().map(|e| (e.is_first, e.is_last)).collect()
}

#[test]
fn consecutive_messages_of_one_author_form_a_group() {
    let t = NANOS_2019_01_01 + 10 * HOUR;
    let msgs = vec![
        msg(1, "anna", Some(1), t),
        msg(2, "anna", Some(1), t + MINUTE),
        msg(3, "anna", Some(1), t + 7 * MINUTE),
        msg(4, "boris", Some(2), t + 8 * MINUTE),
        msg(5, "anna", Some(1), t + 9 * MINUTE),
    ];
    let out = enrich_messages(&msgs, &vec![], &String::new(), &String::new(), 0, JD_2019_01_01);
    assert_eq!(out.len(), 5);
    assert_eq!(flags(&out), vec![(true, false), (false, true), (true, true), (true, true), (true, true)]);
    for (e, m) in out.iter().zip(msgs.iter()) {
        assert_eq!(e.message.id, m.id);
    }
}

#[test]
fn a_gap_of_exactly_five_minutes_keeps_the_group() {
    let t = NANOS_2019_01_01 + 10 * HOUR;
    let msgs = vec![msg(1, "anna", None, t), msg(2, "anna", None, t + 5 * MINUTE), msg(3, "anna", None, t + 10 * MINUTE + 1)];
    let out = enrich_messages(&msgs, &vec![], &String::new(), &String::new(), 0, JD_2019_01_01);
    assert_eq!(flags(&out), vec![(true, false), (false, true), (true, true)]);
}

#[test]
fn a_new_local_day_gets_a_divider_and_starts_a_group() {
    // 23:58 and 00:01 UTC: same author, three minutes apart, but another day.
    let t = NANOS_2019_01_01 - 2 * MINUTE;
    let msgs = vec![msg(1, "anna", Some(1), t), msg(2, "anna", Some(1), t + 3 * MINUTE)];
    let out = enrich_messages(&msgs, &vec![], &String::new(), &String::new(), 0, JD_2019_01_01);
    assert_eq!(flags(&out), vec![(true, true), (true, true)]);
    assert_eq!(out[0].date_divider.as_deref(), Some("Вчера, 31 декабря"));
    assert_eq!(out[1].date_divider.as_deref(), Some("Сегодня, 1 января"));
    // At +03:00 both are on 2019-01-01 local time: one group, one divider.
    let out = enrich_messages(&msgs, &vec![], &String::new(), &String::new(), 3 * 3600, JD_2019_01_01);
    assert_eq!(flags(&out), vec![(true, false), (false, true)]);
    assert_eq!(out[0].date_divider.as_deref(), Some("Сегодня, 1 января"));
    assert_eq!(out[1].date_divider, None);
}

#[test]
fn group_boundary_depends_on_whose_author_id_is_known() {
    let t = NANOS_2019_01_01 + HOUR;
    // The first message carries an id, the second none: the first closes its
    // group, yet the second does not open one.
    let msgs = vec![msg(1, "anna", Some(1), t), msg(2, "anna", None, t + MINUTE)];
    let out = enrich_messages(&msgs, &vec![], &String::new(), &String::new(), 0, JD_2019_01_01);
    assert_eq!(flags(&out), vec![(true, true), (false, true)]);
}

#[test]
fn empty_list_stays_empty() {
    let out = enrich_messages(&vec![], &vec![], &String::new(), &String::new(), 0, JD_2019_01_01);
    assert!(out.is_empty());
}

#[test]
fn avatars_come_from_own_profile_then_members() {
    let t = NANOS_2019_01_01;
    let members = vec![member(1, "anna", "a.png"), member(2, "boris", "b.png"), member(3, "anna", "a2.png")];
    let me = "boris".to_string();
    let my_avatar = "me.png".to_string();
    assert_eq!(message_avatar(&msg(1, "boris", Some(2), t), &members, &me, &my_avatar), "me.png");
    assert_eq!(message_avatar(&msg(1, "anna", None, t), &members, &me, &my_avatar), "a.png");
    // Matched by id when the name differs.
    assert_eq!(message_avatar(&msg(1, "renamed", Some(2), t), &members, &me, &my_avatar), "b.png");
    assert_eq!(message_avatar(&msg(1, "nobody", Some(9), t), &members, &me, &my_avatar), "");
    // Without an own avatar the member entry is used for one's own messages.
    assert_eq!(message_avatar(&msg(1, "boris", None, t), &members, &me, &String::new()), "b.png");
    let out = enrich_messages(&vec![msg(1, "anna", None, t)], &members, &me, &my_avatar, 0, JD_2019_01_01);
    assert_eq!(out[0].avatar_url, "a.png");
}

#[test]
fn history_updates_of_the_list() {
    let mut list = vec![msg(3, "a", None, 3), msg(4, "a", None, 4)];
    apply_history_before(&mut list, vec![msg(2, "a", None, 2), msg(1, "a", None, 1)]);
    assert_eq!(list.iter().map(|m| m.id).collect::<Vec<_>>(), vec![1, 2, 3, 4]);
    apply_history_after(&mut list, vec![msg(5, "a", None, 5), msg(6, "a", None, 6)]);
    assert_eq!(list.iter().map(|m| m.id).collect::<Vec<_>>(), vec![1, 2, 3, 4, 5, 6]);
    apply_new_message(&mut list, msg(7, "a", None, 7));
    assert_eq!(list.len(), 7);
    assert_eq!(list[6].id, 7);
}

#[test]
fn message_layouts() {
    let l = message_layout("anna", &"a.png".to_string(), true, true);
    assert_eq!(l.class_list, "message group-first group-last");
    assert!(matches!(l.avatar, MessageAvatar::Image(ref s) if s == "a.png"));
    assert!(l.show_header && !l.show_chained_time);
    let l = message_layout("anna", &String::new(), true, false);
    assert_eq!(l.class_list, "message group-first");
    assert!(matches!(l.avatar, MessageAvatar::Initial(ref s) if s == "A"));
    let l = message_layout("anna", &"a.png".to_string(), false, false);
    assert_eq!(l.class_list, "message chained");
    assert!(matches!(l.avatar, MessageAvatar::Spacer));
    assert!(!l.show_header && l.show_chained_time);
    assert_eq!(message_layout("", &String::new(), false, true).class_list, "message chained group-last");
}

#[test]
fn composing_messages() {
    let o = compose_outgoing("  привет  ", Some(42)).unwrap();
    assert_eq!(o.channel_id, 42);
    assert_eq!(o.content, "привет");
    assert!(compose_outgoing(" \t ", Some(42)).is_none());
    assert!(compose_outgoing("hi", None).is_none());
}

#[test]
fn scrolling_edges_and_anchor() {
    let e = scroll_edges(0, 1000, 400);
    assert!(e.at_top && !e.at_bottom);
    let e = scroll_edges(600, 1000, 400);
    assert!(!e.at_top && e.at_bottom);
    let e = scroll_edges(599, 1000, 400);
    assert!(e.at_bottom);
    let e = scroll_edges(598, 1000, 400);
    assert!(!e.at_bottom);
    let e = scroll_edges(i32::MIN, i32::MAX, i32::MIN);
    assert!(e.at_top && !e.at_bottom);
    assert_eq!(anchored_scroll_top(10, 1000, 1600), 610);
}

#[test]
fn history_queries_use_the_loaded_ends() {
    let list = vec![msg(1, "a", None, 100), msg(2, "a", None, 200)];
    let b = history_before_query(9, &list);
    assert_eq!((b.channel_id, b.timestamp), (9, 100));
    let a = history_after_query(9, &list);
    assert_eq!((a.channel_id, a.timestamp), (9, 200));
}

#[test]
fn channel_titles() {
    assert_eq!(channel_title(Some(&"general".to_string())), "general");
    assert_eq!(channel_title(None), "<UNKNOWN>");
    assert_eq!(welcome_text("general"), "Добро пожаловать на канал general!");
}

#[test]
fn enrichment_at_a_clock_reading() {
    let t = NANOS_2019_01_01 + 10 * HOUR;
    let msgs = vec![msg(1, "anna", Some(1), t - 24 * HOUR), msg(2, "anna", Some(1), t)];
    let now = t + HOUR;
    let (day, out) = enrich_messages_at(&msgs, &vec![], &String::new(), &String::new(), 0, now).unwrap();
    assert_eq!(day, JD_2019_01_01);
    assert_eq!(out[0].date_divider.as_deref(), Some("Вчера, 31 декабря"));
    assert_eq!(out[1].date_divider.as_deref(), Some("Сегодня, 1 января"));
    // Seen from the next day, the same messages are yesterday and the day before.
    let (day, out) = enrich_messages_at(&msgs, &vec![], &String::new(), &String::new(), 0, now + 24 * HOUR).unwrap();
    assert_eq!(day, JD_2019_01_01 + 1);
    assert_eq!(out[1].date_divider.as_deref(), Some("Вчера, 1 января"));
    // A message outside the calendar, or an impossible offset, gives nothing.
    let far = vec![msg(3, "anna", None, i128::MAX)];
    assert!(enrich_messages_at(&far, &vec![], &String::new(), &String::new(), 0, now).is_none());
    assert!(enrich_messages_at(&msgs, &vec![], &String::new(), &String::new(), 100_000, now).is_none());
}

#[test]
fn history_query_carries_its_instant() {
    let q = history_query_at(4, NANOS_2019_01_01);
    assert_eq!((q.channel_id, q.timestamp), (4, NANOS_2019_01_01));
}
