//! Rooms and their history: room references, room summaries, and the
//! classifier that turns one page of raw timeline events into messages.
use vstd::prelude::*;
use vstd::string::*;

use matrix_sdk::ruma::{IdParseError, OwnedRoomId};

use crate::error::SessionError;

verus! {

#[verifier::external_type_specification]
#[verifier::external_body]
pub struct ExOwnedRoomId(OwnedRoomId);

#[verifier::external_type_specification]
#[verifier::external_body]
pub struct ExIdParseError(IdParseError);

/// A room reference that the protocol accepts: it starts with `!` and holds
/// no NUL character.
pub open spec fn is_room_id(s: Seq<char>) -> bool {
    s.len() > 0 && s[0] == '!' && forall|i: int| 0 <= i < s.len() ==> s[i] != '\0'
}

/// Relies on ruma's `FromStr` for `OwnedRoomId`, which runs
/// `ruma_identifiers_validation::room_id::validate`. With the
/// `compat-arbitrary-length-ids` feature, which matrix-sdk turns on, that
/// accepts exactly the strings whose first byte is `!` and that hold no NUL
/// byte.
#[verifier::external_body]
fn parse_owned_room_id(s: &str) -> (r: Result<OwnedRoomId, IdParseError>)
    ensures
        r is Ok <==> is_room_id(s@),
{
    s.parse::<OwnedRoomId>()
}

/// Relies on the `Display` impl of ruma's `IdParseError` for a description
/// of what is wrong with a room reference.
#[verifier::external_body]
fn id_error_text(e: &IdParseError) -> String {
    e.to_string()
}

/// Parses a room reference; `InvalidRoom` when the protocol refuses it.
pub fn parse_room(room_id: &str) -> (r: Result<OwnedRoomId, SessionError>)
    ensures
        r is Ok <==> is_room_id(room_id@),
        r matches Err(e) ==> e is InvalidRoom,
{
    match parse_owned_room_id(room_id) {
        Ok(id) => Ok(id),
        Err(e) => Err(SessionError::InvalidRoom(id_error_text(&e))),
    }
}

/// A room as listed to the user.
#[derive(Clone, Debug)]
pub struct RoomInfo {
    pub room_id: String,
    pub name: Option<String>,
    pub topic: Option<String>,
}

/// The summary of a room: its name is its display name when the engine could
/// compute one, and its id otherwise.
pub fn room_info(room_id: String, display_name: Option<String>, topic: Option<String>) -> (r:
    RoomInfo)
    ensures
        r.room_id@ == room_id@,
        r.name is Some,
        r.name->Some_0@ == match display_name {
            Some(d) => d@,
            None => room_id@,
        },
        r.topic == topic,
{
    let name = match display_name {
        Some(d) => d,
        None => room_id.clone(),
    };
    RoomInfo { room_id, name: Some(name), topic }
}

/// One message of the feed.
#[derive(Clone, Debug)]
pub struct Message {
    pub sender: String,
    pub body: String,
    /// Milliseconds since the Unix epoch; 0 when the event carries none.
    pub timestamp: u64,
}

pub struct MessageView {
    pub sender: Seq<char>,
    pub body: Seq<char>,
    pub timestamp: u64,
}

impl View for Message {
    type V = MessageView;

    open spec fn view(&self) -> MessageView {
        MessageView { sender: self.sender@, body: self.body@, timestamp: self.timestamp }
    }
}

/// The content of a room message, as far as the feed tells kinds apart.
#[derive(Clone, Debug)]
pub enum MessageContent {
    Text(String),
    Notice(String),
    Emote(String),
    /// Any other kind of message (image, file, location, ...).
    Other,
}

/// How the engine delivered one event of the history.
#[derive(Clone, Debug)]
pub enum EventKind {
    /// Decrypted; `sender` is the sender that the encryption layer confirmed.
    Decrypted { sender: String, content: Option<MessageContent> },
    /// Never encrypted; `sender` is the event's own sender field.
    PlainText { sender: String, content: Option<MessageContent> },
    /// Encrypted, and the keys to read it are not available yet.
    UnableToDecrypt,
}

/// One raw event of a history page. `content` is `None` when the event is
/// not a room message that still carries its content (a state event, a redaction, an edit, or
/// something that does not deserialize).
#[derive(Clone, Debug)]
pub struct RawEvent {
    pub kind: EventKind,
    pub timestamp: Option<u64>,
}

pub open spec fn placeholder_sender() -> Seq<char> {
    "[Encrypted]"@
}

pub open spec fn placeholder_body() -> Seq<char> {
    "\u{1F512} Waiting for encryption keys..."@
}

pub open spec fn emote_prefix() -> Seq<char> {
    "* "@
}

/// The text that a message of the given content shows, if it shows one.
pub open spec fn content_body(c: MessageContent) -> Option<Seq<char>> {
    match c {
        MessageContent::Text(b) => Some(b@),
        MessageContent::Notice(b) => Some(b@),
        MessageContent::Emote(b) => Some(emote_prefix() + b@),
        MessageContent::Other => None,
    }
}

pub open spec fn event_time(e: RawEvent) -> u64 {
    match e.timestamp {
        Some(t) => t,
        None => 0,
    }
}

/// The message that one event contributes to the feed, if any.
pub open spec fn event_message(e: RawEvent) -> Option<MessageView> {
    match e.kind {
        EventKind::Decrypted { sender, content } | EventKind::PlainText { sender, content } => {
            match content {
                Some(c) => match content_body(c) {
                    Some(body) => Some(
                        MessageView { sender: sender@, body, timestamp: event_time(e) },
                    ),
                    None => None,
                },
                None => None,
            }
        },
        EventKind::UnableToDecrypt => Some(
            MessageView {
                sender: placeholder_sender(),
                body: placeholder_body(),
                timestamp: event_time(e),
            },
        ),
    }
}

pub open spec fn opt_seq<A>(o: Option<A>) -> Seq<A> {
    match o {
        Some(a) => seq![a],
        None => seq![],
    }
}

/// The feed of a page delivered newest first: each event classified, and the
/// messages in the reverse of delivery order, so oldest first.
pub open spec fn feed(page: Seq<RawEvent>) -> Seq<MessageView>
    decreases page.len(),
{
    if page.len() == 0 {
        seq![]
    } else {
        feed(page.drop_first()) + opt_seq(event_message(page[0]))
    }
}

pub open spec fn views(ms: Seq<Message>) -> Seq<MessageView> {
    ms.map_values(|m: Message| m@)
}

fn content_text(c: &MessageContent) -> (r: Option<String>)
    ensures
        match r {
            Some(b) => content_body(*c) == Some(b@),
            None => content_body(*c) is None,
        },
{
    match c {
        MessageContent::Text(b) => Some(b.clone()),
        MessageContent::Notice(b) => Some(b.clone()),
        MessageContent::Emote(b) => Some("* ".to_owned().concat(b.as_str())),
        MessageContent::Other => None,
    }
}

/// Classifies one event: a decrypted or plain message gives its sender and
/// text, an undecryptable event gives the placeholder, and anything else
/// gives nothing.
pub fn classify_event(event: &RawEvent) -> (r: Option<Message>)
    ensures
        match r {
            Some(m) => event_message(*event) == Some(m@),
            None => event_message(*event) is None,
        },
{
    let timestamp = match event.timestamp {
        Some(t) => t,
        None => 0,
    };
    match &event.kind {
        EventKind::Decrypted { sender, content } | EventKind::PlainText { sender, content } => {
            match content {
                Some(c) => match content_text(c) {
                    Some(body) => Some(Message { sender: sender.clone(), body, timestamp }),
                    None => None,
                },
                None => None,
            }
        },
        EventKind::UnableToDecrypt => Some(
            Message {
                sender: "[Encrypted]".to_owned(),
                body: "\u{1F512} Waiting for encryption keys...".to_owned(),
                timestamp,
            },
        ),
    }
}

/// The feed of one page of history that the engine delivered newest first.
pub fn page_messages(page: &Vec<RawEvent>) -> (r: Vec<Message>)
    ensures
        views(r@) == feed(page@),
{
    let n = page.len();
    let mut out: Vec<Message> = Vec::new();
    let mut i: usize = n;
    assert(page@.subrange(n as int, n as int) =~= Seq::<RawEvent>::empty());
    assert(views(out@) =~= seq![]);
    while i > 0
        invariant
            n == page@.len(),
            i <= n,
            views(out@) == feed(page@.subrange(i as int, n as int)),
        decreases i,
    {
        i = i - 1;
        let ghost before = out@;
        let ghost rest = page@.subrange(i as int, n as int);
        assert(rest.drop_first() =~= page@.subrange(i + 1, n as int));
        assert(rest[0] == page@[i as int]);
        match classify_event(&page[i]) {
            Some(m) => {
                out.push(m);
                assert(views(out@) =~= views(before).push(m@));
            },
            None => {},
        }
        assert(views(out@) =~= feed(rest));
    }
    assert(page@.subrange(0, n as int) =~= page@);
    out
}

/// One page of a room's history as handed to the user.
pub struct MessagesResponse {
    /// Oldest first.
    pub messages: Vec<Message>,
    /// Whether an older page may follow.
    pub has_more: bool,
    /// The cursor from which to fetch the next older page.
    pub next_token: Option<String>,
}

/// Builds the response for a page delivered newest first, with `end` the
/// engine's end-of-page cursor. There is more to fetch only when a cursor
/// came back and the page was not empty.
pub fn messages_response(page: &Vec<RawEvent>, end: Option<String>) -> (r: MessagesResponse)
    ensures
        views(r.messages@) == feed(page@),
        r.has_more == (end is Some && page@.len() > 0),
        r.next_token == end,
{
    let messages = page_messages(page);
    let has_more = end.is_some() && page.len() > 0;
    MessagesResponse { messages, has_more, next_token: end }
}

} // verus!

verus! {

/// The classified events of a page in delivery order.
pub open spec fn classified(page: Seq<RawEvent>) -> Seq<MessageView>
    decreases page.len(),
{
    if page.len() == 0 {
        seq![]
    } else {
        opt_seq(event_message(page[0])) + classified(page.drop_first())
    }
}

/// The feed is the classification of the page, in delivery order, reversed:
/// a page delivered as newest, middle, oldest gives the messages of oldest,
/// middle, newest.
pub proof fn feed_reverses_delivery_order(page: Seq<RawEvent>)
    ensures
        feed(page) == classified(page).reverse(),
    decreases page.len(),
{
    if page.len() > 0 {
        let rest = page.drop_first();
        feed_reverses_delivery_order(rest);
        let o = opt_seq(event_message(page[0]));
        let c = classified(rest);
        assert(classified(page) == o + c);
        assert(feed(page) =~= (o + c).reverse());
    } else {
        assert(feed(page) =~= classified(page).reverse());
    }
}

/// The event times of the page never increase from one event to the next.
pub open spec fn newest_first(page: Seq<RawEvent>) -> bool {
    forall|i: int, j: int| 0 <= i < j < page.len() ==> event_time(page[j]) <= event_time(page[i])
}

pub open spec fn oldest_first(ms: Seq<MessageView>) -> bool {
    forall|i: int, j: int| 0 <= i < j < ms.len() ==> ms[i].timestamp <= ms[j].timestamp
}

proof fn feed_times_bounded(page: Seq<RawEvent>, t: u64)
    requires
        forall|i: int| 0 <= i < page.len() ==> event_time(page[i]) <= t,
    ensures
        forall|k: int| 0 <= k < feed(page).len() ==> feed(page)[k].timestamp <= t,
    decreases page.len(),
{
    if page.len() > 0 {
        let rest = page.drop_first();
        assert forall|i: int| 0 <= i < rest.len() implies event_time(rest[i]) <= t by {
            assert(rest[i] == page[i + 1]);
        }
        feed_times_bounded(rest, t);
        let f = feed(page);
        let fr = feed(rest);
        let o = opt_seq(event_message(page[0]));
        assert(f == fr + o);
        assert forall|k: int| 0 <= k < f.len() implies f[k].timestamp <= t by {
            if k >= fr.len() {
                assert(f[k] == o[k - fr.len()]);
            } else {
                assert(f[k] == fr[k]);
            }
        }
    }
}

/// A page delivered newest first gives a feed whose timestamps never
/// decrease.
pub proof fn feed_is_chronological(page: Seq<RawEvent>)
    requires
        newest_first(page),
    ensures
        oldest_first(feed(page)),
    decreases page.len(),
{
    if page.len() > 0 {
        let rest = page.drop_first();
        assert forall|i: int, j: int| 0 <= i < j < rest.len() implies event_time(rest[j])
            <= event_time(rest[i]) by {
            assert(rest[i] == page[i + 1] && rest[j] == page[j + 1]);
        }
        feed_is_chronological(rest);
        let t = event_time(page[0]);
        assert forall|i: int| 0 <= i < rest.len() implies event_time(rest[i]) <= t by {
            assert(rest[i] == page[i + 1]);
        }
        feed_times_bounded(rest, t);
        let f = feed(page);
        let fr = feed(rest);
        let o = opt_seq(event_message(page[0]));
        assert(f == fr + o);
        assert forall|k: int| 0 <= k < o.len() implies o[k].timestamp == t by {}
        assert forall|i: int, j: int| 0 <= i < j < f.len() implies f[i].timestamp
            <= f[j].timestamp by {
            if j >= fr.len() {
                assert(f[j] == o[j - fr.len()]);
                assert(f[i] == fr[i] || f[i] == o[i - fr.len()]);
            } else {
                assert(f[i] == fr[i] && f[j] == fr[j]);
            }
        }
    }
}

/// Whether a message is the placeholder shown for an event whose keys are
/// missing.
pub open spec fn is_placeholder(m: MessageView) -> bool {
    m.sender == placeholder_sender() && m.body == placeholder_body()
}

pub open spec fn placeholder_count(ms: Seq<MessageView>) -> nat
    decreases ms.len(),
{
    if ms.len() == 0 {
        0
    } else {
        placeholder_count(ms.drop_last()) + if is_placeholder(ms.last()) {
            1nat
        } else {
            0nat
        }
    }
}

pub open spec fn undecryptable_count(page: Seq<RawEvent>) -> nat
    decreases page.len(),
{
    if page.len() == 0 {
        0
    } else {
        undecryptable_count(page.drop_first()) + if page[0].kind is UnableToDecrypt {
            1nat
        } else {
            0nat
        }
    }
}

/// No readable message of the page is itself written like the placeholder.
pub open spec fn no_look_alike(page: Seq<RawEvent>) -> bool {
    forall|i: int|
        #![trigger page[i]]
        0 <= i < page.len() && !(page[i].kind is UnableToDecrypt) && event_message(page[i]) is Some
            ==> !is_placeholder(event_message(page[i])->Some_0)
}

proof fn placeholder_count_append(a: Seq<MessageView>, b: Seq<MessageView>)
    ensures
        placeholder_count(a + b) == placeholder_count(a) + placeholder_count(b),
    decreases b.len(),
{
    if b.len() > 0 {
        placeholder_count_append(a, b.drop_last());
        assert((a + b).drop_last() =~= a + b.drop_last());
    } else {
        assert(a + b =~= a);
    }
}

/// A page with K undecryptable events gives exactly K placeholder messages,
/// as long as no readable message of the page looks like the placeholder.
pub proof fn placeholders_match_undecryptable(page: Seq<RawEvent>)
    requires
        no_look_alike(page),
    ensures
        placeholder_count(feed(page)) == undecryptable_count(page),
    decreases page.len(),
{
    if page.len() > 0 {
        let rest = page.drop_first();
        assert forall|i: int|
            #![trigger rest[i]]
            0 <= i < rest.len() && !(rest[i].kind is UnableToDecrypt) && event_message(
                rest[i],
            ) is Some implies !is_placeholder(event_message(rest[i])->Some_0) by {
            assert(rest[i] == page[i + 1]);
        }
        placeholders_match_undecryptable(rest);
        let o = opt_seq(event_message(page[0]));
        placeholder_count_append(feed(rest), o);
        assert(feed(page) == feed(rest) + o);
        if o.len() > 0 {
            assert(o.drop_last() =~= Seq::<MessageView>::empty());
            assert(placeholder_count(Seq::<MessageView>::empty()) == 0);
            assert(o.last() == event_message(page[0])->Some_0);
        }
        if page[0].kind is UnableToDecrypt {
            assert(placeholder_count(o) == 1);
        } else {
            assert(placeholder_count(o) == 0);
        }
    }
}

} // verus!
