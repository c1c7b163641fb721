use botcore::feed::{FeedItem, parse_feed_json};
use botcore::message::{MENTION_PRIMARY, MENTION_SECONDARY, render_message};
use botcore::poller::{FORWARD_TARGET, ForwardTarget, PollOutcome, poll_cycle};
use botcore::timefmt::{localize_secs, render_local_time};

const PAYLOAD: &str = r#"[{"createTime":1680799575000,"works":{"id":4576832,"name":"CP29【时空中的绘旅人】专区成立","foreword":"——山海相逢，不渝之遇。","content":"【CP29✦活动主页✦】↑点击我想去，开票前即可收到提醒哦↑"}}]"#;

fn item(content: &str, create_time: i64) -> FeedItem {
    FeedItem {
        id: 4576832,
        name: String::from("CP29【时空中的绘旅人】专区成立"),
        foreword: String::from("——山海相逢，不渝之遇。"),
        content: String::from(content),
        create_time,
    }
}

#[test]
fn payload_parses_into_its_fields() {
    let it = parse_feed_json(PAYLOAD).unwrap();
    assert_eq!(it.id, 4576832);
    assert_eq!(it.name, "CP29【时空中的绘旅人】专区成立");
    assert_eq!(it.foreword, "——山海相逢，不渝之遇。");
    assert_eq!(it.create_time, 1680799575000);
    assert!(it.content.contains("票"));
}

#[test]
fn first_poll_forwards_once_to_the_self_channel() {
    let it = parse_feed_json(PAYLOAD).unwrap();
    match poll_cycle(None, &it) {
        PollOutcome::Forward { target, message, new_cursor } => {
            assert_eq!(target, ForwardTarget::SelfChannel { uin: FORWARD_TARGET });
            assert_eq!(new_cursor, 1680799575000);
            assert!(message.text.contains("CP29【时空中的绘旅人】专区成立"));
            assert!(message.text.contains("https://www.allcpp.cn/w/4576832.do"));
            assert!(message.text.contains("2023-04-07 00:46:15"));
            assert_eq!(message.mentions, vec![MENTION_PRIMARY, MENTION_SECONDARY]);
        }
        PollOutcome::Skip => panic!("bootstrap poll must forward"),
    }
}

#[test]
fn repeating_the_same_item_forwards_nothing() {
    let it = parse_feed_json(PAYLOAD).unwrap();
    match poll_cycle(Some(1680799575000), &it) {
        PollOutcome::Forward { .. } => panic!("an item already recorded must not be forwarded"),
        PollOutcome::Skip => {}
    }
}

#[test]
fn a_differing_cursor_forwards_to_the_group() {
    let it = parse_feed_json(PAYLOAD).unwrap();
    match poll_cycle(Some(1), &it) {
        PollOutcome::Forward { target, new_cursor, .. } => {
            assert_eq!(target, ForwardTarget::Group { group_id: FORWARD_TARGET });
            assert_eq!(new_cursor, 1680799575000);
        }
        PollOutcome::Skip => panic!("a never-recorded item must be forwarded"),
    }
}

#[test]
fn ticket_content_renders_mentions_and_prefix() {
    let it = item("本场活动门票信息", 1680799575000);
    let when = render_local_time(it.create_time).unwrap();
    let m = render_message(&it, &when);
    assert_eq!(m.mentions, vec![MENTION_PRIMARY, MENTION_SECONDARY]);
    assert!(m.text.starts_with(" 也许跟门票有关："));
    assert!(m.text.contains("——山海相逢，不渝之遇。"));
}

#[test]
fn plain_content_renders_neither_mention_nor_prefix() {
    let it = item("山海相逢，不渝之遇", 1680799575000);
    let when = render_local_time(it.create_time).unwrap();
    let m = render_message(&it, &when);
    assert!(m.mentions.is_empty());
    assert!(!m.text.contains("也许跟门票有关"));
    assert!(m.text.starts_with("CP29【时空中的绘旅人】专区成立"));
}

#[test]
fn malformed_payloads_degrade_to_nothing() {
    assert!(parse_feed_json("not json at all").is_none());
    assert!(parse_feed_json("[]").is_none());
    assert!(parse_feed_json(r#"{"createTime":1}"#).is_none());
    assert!(parse_feed_json(r#"[{"createTime":1}]"#).is_none());
    assert!(parse_feed_json(r#"[{"createTime":"x","works":{"id":1,"name":"n","foreword":"f","content":"c"}}]"#).is_none());
    assert!(parse_feed_json(r#"[{"createTime":2,"works":{"id":1,"name":"n","foreword":"f"}}]"#).is_none());
}

#[test]
fn an_older_item_never_rewinds_the_cursor() {
    let it = parse_feed_json(PAYLOAD).unwrap();
    match poll_cycle(Some(1680799575001), &it) {
        PollOutcome::Forward { .. } => panic!("an older item must not rewind the cursor"),
        PollOutcome::Skip => {}
    }
}

#[test]
fn unrenderable_timestamps_skip_the_cycle() {
    let it = item("anything", -5);
    match poll_cycle(None, &it) {
        PollOutcome::Forward { .. } => panic!("a negative timestamp must skip the cycle"),
        PollOutcome::Skip => {}
    }
}

#[test]
fn time_is_localized_to_the_feed_zone() {
    assert_eq!(localize_secs(1680799575000), Some(1680828375));
    assert_eq!(localize_secs(-1), None);
    assert_eq!(localize_secs(i64::MAX), None);
    assert_eq!(render_local_time(1680799575000).unwrap(), "2023-04-07 00:46:15");
    assert_eq!(render_local_time(0).unwrap(), "1970-01-01 08:00:00");
}
