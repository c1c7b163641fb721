use vstd::prelude::*;
use crate::feed::FeedItem;
use crate::text::{contains_sub, i64_to_dec, spec_contains, spec_dec_i64};

verus! {

/// First account mentioned when a notification is ticket-related.
pub const MENTION_PRIMARY: i64 = 3040692186;

/// Second account mentioned when a notification is ticket-related.
pub const MENTION_SECONDARY: i64 = 1573856599;

/// The substring of the long-form content that marks a ticket-related item.
pub open spec fn ticket_marker() -> Seq<char> {
    "票"@
}

/// The distinguished prefix of a ticket-related notification.
pub open spec fn ticket_prefix() -> Seq<char> {
    " 也许跟门票有关：\n\n"@
}

/// The detail URL built from one item identifier.
pub open spec fn spec_detail_url(id: int) -> Seq<char> {
    "https://www.allcpp.cn/w/"@ + spec_dec_i64(id) + ".do"@
}

/// The plain template: title, detail URL, localized creation time.
pub open spec fn spec_plain_text(title: Seq<char>, id: int, when: Seq<char>) -> Seq<char> {
    title + "\n\n活动详情:"@ + spec_detail_url(id) + "\n\n发布时间:"@ + when
}

/// The ticket template: the distinguished prefix, then title and foreword,
/// then detail URL and localized creation time.
pub open spec fn spec_ticket_text(
    title: Seq<char>,
    foreword: Seq<char>,
    id: int,
    when: Seq<char>,
) -> Seq<char> {
    ticket_prefix() + title + "\n"@ + foreword + "\n\n活动详情:"@ + spec_detail_url(id)
        + "\n\n发布时间:"@ + when
}

/// The mentions owed to given content: both designated accounts when the
/// content holds the ticket marker, none otherwise.
pub open spec fn spec_mentions(content: Seq<char>) -> Seq<i64> {
    if spec_contains(content, ticket_marker()) {
        seq![MENTION_PRIMARY, MENTION_SECONDARY]
    } else {
        Seq::empty()
    }
}

/// The text owed to one item: the ticket template when its content holds the
/// marker, the plain template otherwise.
pub open spec fn spec_message_text(item: FeedItem, when: Seq<char>) -> Seq<char> {
    if spec_contains(item.content@, ticket_marker()) {
        spec_ticket_text(item.name@, item.foreword@, item.id as int, when)
    } else {
        spec_plain_text(item.name@, item.id as int, when)
    }
}

/// One outbound message: the accounts to mention ahead of the text, then the
/// text itself.
#[derive(Clone, Debug)]
pub struct OutboundMessage {
    pub mentions: Vec<i64>,
    pub text: String,
}

/// The detail URL of one item identifier.
pub fn detail_url(id: i64) -> (r: String)
    ensures
        r@ == spec_detail_url(id as int),
{
    let mut s = String::from_str("https://www.allcpp.cn/w/");
    let d = i64_to_dec(id);
    s.append(d.as_str());
    s.append(".do");
    proof {
        assert(s@ =~= spec_detail_url(id as int));
    }
    s
}

/// Render the notification for one feed item, with its localized creation
/// time already formatted: the ticket template with both designated mentions
/// when the content holds the ticket marker, the plain template with no
/// mentions otherwise.
pub fn render_message(item: &FeedItem, when: &str) -> (m: OutboundMessage)
    ensures
        m.mentions@ == spec_mentions(item.content@),
        m.text@ == spec_message_text(*item, when@),
{
    let ticket = contains_sub(item.content.as_str(), "票");
    let url = detail_url(item.id);
    let mut text = String::new();
    let mut mentions: Vec<i64> = Vec::new();
    if ticket {
        mentions.push(MENTION_PRIMARY);
        mentions.push(MENTION_SECONDARY);
        text.append(" 也许跟门票有关：\n\n");
        text.append(item.name.as_str());
        text.append("\n");
        text.append(item.foreword.as_str());
    } else {
        text.append(item.name.as_str());
    }
    text.append("\n\n活动详情:");
    text.append(url.as_str());
    text.append("\n\n发布时间:");
    text.append(when);
    proof {
        if spec_contains(item.content@, ticket_marker()) {
            assert(mentions@ =~= spec_mentions(item.content@));
            assert(text@ =~= spec_ticket_text(item.name@, item.foreword@, item.id as int, when@));
        } else {
            assert(mentions@ =~= spec_mentions(item.content@));
            assert(text@ =~= spec_plain_text(item.name@, item.id as int, when@));
        }
    }
    OutboundMessage { mentions, text }
}

/// Law: an item whose content holds the ticket marker is rendered with both
/// designated mentions and a text that opens with the distinguished prefix;
/// any other item is rendered with no mentions and the plain template.
pub proof fn lemma_ticket_rendering(item: FeedItem, when: Seq<char>)
    ensures
        spec_contains(item.content@, ticket_marker()) ==> spec_mentions(item.content@) == seq![
            MENTION_PRIMARY,
            MENTION_SECONDARY,
        ] && spec_message_text(item, when).subrange(0, ticket_prefix().len() as int)
            == ticket_prefix(),
        !spec_contains(item.content@, ticket_marker()) ==> spec_mentions(item.content@)
            == Seq::<i64>::empty() && spec_message_text(item, when) == spec_plain_text(
            item.name@,
            item.id as int,
            when,
        ),
{
    if spec_contains(item.content@, ticket_marker()) {
        assert(spec_message_text(item, when).subrange(0, ticket_prefix().len() as int)
            =~= ticket_prefix());
    }
}

} // verus!
