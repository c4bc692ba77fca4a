use vstd::prelude::*;
use vstd::string::*;
use vstd::utf8::*;
use crate::json::{
    compact_json, compact_text, is_object, json_is_object, json_member, json_text, member_of,
    parse_json, parsed_json, set_text_member, text_of, utf8_text,
    with_text_member,
};
use crate::lines::{
    feed, is_white_space, lemma_feed_concat, lemma_feed_prefix, lemma_trim_blank, lossy_text,
    trim_text, trimmed, LineAssembler,
};
use crate::timing::RateFilter;
use crate::topic::{
    code_of, lemma_match_topic_exact, match_topic, subscribed_paths, topic_code, topic_of,
    TopicType,
};

verus! {

/// The characters of an optional text.
pub open spec fn text_view(o: Option<String>) -> Option<Seq<char>> {
    match o {
        Some(s) => Some(s@),
        None => None,
    }
}

/// The message that a serial line carries onto the bus: the compact form of
/// the JSON document on the trimmed line; nothing for a blank line or one
/// that is not JSON.
pub open spec fn line_message(line: Seq<char>) -> Option<Seq<char>> {
    let t = trimmed(line);
    if t.len() == 0 {
        None
    } else {
        match parsed_json(t) {
            Some(v) => Some(compact_text(v)),
            None => None,
        }
    }
}

/// The messages that a run of serial lines carries, in line order.
pub open spec fn messages_of(lines: Seq<Seq<char>>) -> Seq<Seq<char>>
    decreases lines.len(),
{
    if lines.len() == 0 {
        Seq::empty()
    } else {
        let before = messages_of(lines.drop_last());
        match line_message(lines.last()) {
            Some(m) => before.push(m),
            None => before,
        }
    }
}

/// The message that a serial line carries onto the bus, if any.
pub fn serial_line_message(line: &str) -> (r: Option<String>)
    ensures
        text_view(r) == line_message(line@),
{
    let t = trim_text(line);
    if t.unicode_len() == 0 {
        return None;
    }
    match parse_json(t) {
        Some(v) => Some(compact_json(&v)),
        None => None,
    }
}

/// The messages that serial lines carry, in line order.
pub fn line_messages(lines: &Vec<String>) -> (r: Vec<String>)
    ensures
        r@.map_values(|s: String| s@) == messages_of(lines@.map_values(|s: String| s@)),
{
    let ghost all = lines@.map_values(|s: String| s@);
    let mut out: Vec<String> = Vec::new();
    let n = lines.len();
    let mut i: usize = 0;
    assert(all.take(0) =~= Seq::<Seq<char>>::empty());
    while i < n
        invariant
            n == lines@.len(),
            all == lines@.map_values(|s: String| s@),
            i <= n,
            out@.map_values(|s: String| s@) == messages_of(all.take(i as int)),
        decreases n - i,
    {
        let m = serial_line_message(lines[i].as_str());
        proof {
            assert(all.take(i + 1).drop_last() =~= all.take(i as int));
            assert(all.take(i + 1).last() == lines@[i as int]@);
        }
        match m {
            Some(s) => {
                proof {
                    let ghost before = out@;
                    assert(before.push(s).map_values(|x: String| x@) =~= before.map_values(
                        |x: String| x@,
                    ).push(s@));
                }
                out.push(s);
            },
            None => {},
        }
        i = i + 1;
    }
    assert(all.take(n as int) =~= all);
    out
}

/// Messages of consecutive runs of lines come in the order of the runs.
pub proof fn lemma_messages_concat(a: Seq<Seq<char>>, b: Seq<Seq<char>>)
    ensures
        messages_of(a + b) == messages_of(a) + messages_of(b),
    decreases b.len(),
{
    if b.len() == 0 {
        assert(a + b =~= a);
        assert(messages_of(a) + Seq::<Seq<char>>::empty() =~= messages_of(a));
    } else {
        assert((a + b).drop_last() =~= a + b.drop_last());
        assert((a + b).last() == b.last());
        lemma_messages_concat(a, b.drop_last());
        match line_message(b.last()) {
            Some(m) => {
                assert(messages_of(a) + messages_of(b.drop_last()).push(m) =~= (messages_of(a)
                    + messages_of(b.drop_last())).push(m));
            },
            None => {},
        }
    }
}

/// Reads JSON messages from the serial device's byte stream.
pub struct SerialReader {
    assembler: LineAssembler,
}

/// The messages that a piece of text completes after the pending text
/// `pending`, and the text left pending after it.
pub open spec fn serial_messages(pending: Seq<char>, text: Seq<char>) -> (Seq<Seq<char>>, Seq<char>) {
    let (lines, rest) = feed(Seq::empty(), pending, text);
    (messages_of(lines), rest)
}

impl SerialReader {
    /// The text received after the last complete line.
    pub closed spec fn pending(&self) -> Seq<char> {
        self.assembler@
    }

    /// The pending text is an unterminated line.
    pub closed spec fn wf(&self) -> bool {
        self.assembler.wf()
    }

    /// A reader with no pending text.
    pub fn new() -> (r: SerialReader)
        ensures
            r.pending() == Seq::<char>::empty(),
            r.wf(),
    {
        SerialReader { assembler: LineAssembler::new() }
    }

    /// Takes in bytes read from the device and hands out, in order, the
    /// messages on the lines that they complete.
    pub fn receive(&mut self, bytes: &[u8]) -> (r: Vec<String>)
        requires
            old(self).wf(),
        ensures
            final(self).wf(),
            (r@.map_values(|s: String| s@), final(self).pending()) == serial_messages(
                old(self).pending(),
                lossy_text(bytes@),
            ),
    {
        let lines = self.assembler.push_bytes(bytes);
        line_messages(&lines)
    }
}

/// Serial messages leave in the order in which their text arrived, however
/// the text is cut into pieces: two pieces in turn give the messages that
/// the two together give at once.
pub proof fn lemma_serial_order(pending: Seq<char>, a: Seq<char>, b: Seq<char>)
    ensures
        serial_messages(pending, a).0 + serial_messages(serial_messages(pending, a).1, b).0
            == serial_messages(pending, a + b).0,
        serial_messages(serial_messages(pending, a).1, b).1 == serial_messages(pending, a + b).1,
{
    let (la, ra) = feed(Seq::empty(), pending, a);
    lemma_feed_concat(Seq::empty(), pending, a, b);
    lemma_feed_prefix(la, ra, b);
    lemma_messages_concat(la, feed(Seq::empty(), ra, b).0);
}

/// The text that several pieces make one after the other.
pub open spec fn joined(pieces: Seq<Seq<char>>) -> Seq<char>
    decreases pieces.len(),
{
    if pieces.len() == 0 {
        Seq::empty()
    } else {
        joined(pieces.drop_last()) + pieces.last()
    }
}

/// The messages that a reader hands out, in turn, for each of several pieces
/// of text, and the text left pending after the last.
pub open spec fn serial_messages_in_turn(pending: Seq<char>, pieces: Seq<Seq<char>>) -> (
    Seq<Seq<char>>,
    Seq<char>,
)
    decreases pieces.len(),
{
    if pieces.len() == 0 {
        (Seq::empty(), pending)
    } else {
        let (before, rest) = serial_messages_in_turn(pending, pieces.drop_last());
        let (last, left) = serial_messages(rest, pieces.last());
        (before + last, left)
    }
}

/// However many pieces the serial text arrives in, the messages handed out
/// piece by piece are those of the whole text at once, in line order.
pub proof fn lemma_serial_order_in_turn(pending: Seq<char>, pieces: Seq<Seq<char>>)
    ensures
        serial_messages_in_turn(pending, pieces) == serial_messages(pending, joined(pieces)),
    decreases pieces.len(),
{
    if pieces.len() == 0 {
        assert(feed(Seq::empty(), pending, Seq::empty()) == (Seq::<Seq<char>>::empty(), pending));
        assert(messages_of(Seq::empty()) == Seq::<Seq<char>>::empty());
    } else {
        lemma_serial_order_in_turn(pending, pieces.drop_last());
        lemma_serial_order(pending, joined(pieces.drop_last()), pieces.last());
    }
}

/// A blank serial line carries no message.
pub proof fn lemma_blank_line_dropped(line: Seq<char>)
    requires
        forall|i: int| 0 <= i < line.len() ==> is_white_space(#[trigger] line[i]),
    ensures
        line_message(line) is None,
{
    lemma_trim_blank(line);
}

/// The text sent to the serial device for a message: the message and a
/// newline.
pub fn serial_frame(message: &str) -> (r: String)
    ensures
        r@ == message@.push('\n'),
{
    let mut frame = String::from_str(message);
    frame.append("\n");
    proof {
        reveal_strlit("\n");
    }
    assert(frame@ =~= message@.push('\n'));
    frame
}

/// The text published on the bus for a serial message: the `command` member
/// of its JSON document, where the member is a string.
pub open spec fn command_of(message: Seq<char>) -> Option<Seq<char>> {
    match parsed_json(message) {
        Some(v) => match member_of(v, "command"@) {
            Some(c) => text_of(c),
            None => None,
        },
        None => None,
    }
}

/// The text to publish on the command topic for a serial message, if the
/// message has a string `command` member.
pub fn command_payload(message: &str) -> (r: Option<String>)
    ensures
        text_view(r) == command_of(message@),
{
    let v = match parse_json(message) {
        Some(v) => v,
        None => return None,
    };
    let c = match json_member(&v, "command") {
        Some(c) => c,
        None => return None,
    };
    match json_text(c) {
        Some(s) => Some(String::from_str(s)),
        None => None,
    }
}

/// The message that a bus payload of a known topic carries to the serial
/// device: its JSON object, rendered compactly, with the member `topic` set to
/// the topic's code; nothing for a payload that is no JSON object.
pub open spec fn tagged(kind: TopicType, text: Seq<char>) -> Option<Seq<char>> {
    match parsed_json(text) {
        Some(v) => if is_object(v) {
            Some(compact_text(with_text_member(v, "topic"@, code_of(kind))))
        } else {
            None
        },
        None => None,
    }
}

/// Tags the JSON object in a bus payload with its topic's code; the result
/// is one serial line, free of newlines.
pub fn tag_payload(kind: TopicType, text: &str) -> (r: Option<String>)
    requires
        kind != TopicType::Unknown,
    ensures
        text_view(r) == tagged(kind, text@),
        r matches Some(s) ==> !s@.contains('\n'),
{
    let mut v = match parse_json(text) {
        Some(v) => v,
        None => return None,
    };
    if !json_is_object(&v) {
        return None;
    }
    set_text_member(&mut v, "topic", topic_code(kind));
    Some(compact_json(&v))
}

/// The message that a bus publish carries to the serial device, given
/// whether the rate filter lets it through: nothing for an unknown topic, an
/// anemometer reading that the filter holds back, a payload that is not
/// UTF-8, or one that is no JSON object.
pub open spec fn forwarded(topic: Seq<char>, payload: Seq<u8>, passes: bool) -> Option<Seq<char>> {
    let kind = topic_of(topic);
    if kind == TopicType::Unknown {
        None
    } else if kind == TopicType::Anemometer && !passes {
        None
    } else if !valid_utf8(payload) {
        None
    } else {
        tagged(kind, decode_utf8(payload))
    }
}

/// Handles a publish that arrives from the bus at `now`: the message for the
/// serial device, if any. Only anemometer readings consult, and move, the
/// rate filter.
pub fn forward_publish(filter: &mut RateFilter, topic: &str, payload: &[u8], now: u64) -> (r:
    Option<String>)
    ensures
        topic_of(topic@) == TopicType::Anemometer ==> *final(filter) == (RateFilter {
            window: old(filter).window,
            last: if old(filter).admits(now) { Some(now) } else { old(filter).last },
        }),
        topic_of(topic@) != TopicType::Anemometer ==> *final(filter) == *old(filter),
        text_view(r) == forwarded(topic@, payload@, old(filter).admits(now)),
{
    let kind = match_topic(topic);
    if kind == TopicType::Unknown {
        return None;
    }
    if kind == TopicType::Anemometer {
        if !filter.accept(now) {
            return None;
        }
    }
    match utf8_text(payload) {
        Some(text) => tag_payload(kind, text),
        None => None,
    }
}

/// A publish on a topic outside the subscribed set is dropped, whatever its
/// payload and whatever the rate filter says.
pub proof fn lemma_unknown_topic_dropped(topic: Seq<char>, payload: Seq<u8>, passes: bool)
    requires
        !subscribed_paths().contains(topic),
    ensures
        topic_of(topic) == TopicType::Unknown,
        forwarded(topic, payload, passes) is None,
{
    lemma_match_topic_exact(topic);
}

} // verus!
