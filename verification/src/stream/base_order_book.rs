//! A single-connection stream with a fixed subscription text.

use crate::json::{json_get, json_parse, json_view, member, parse_json, Json, JsonView};
use crate::stream::order_book::{outgoing_view, Outgoing, OutgoingView};
use crate::text::{trim_start, trim_start_str};
use vstd::utf8::encode_utf8;
use std::sync::Arc;
use vstd::prelude::*;

verus! {

/// A stream connected to `url`, sending `subscribe_message`, decoding with
/// `decoder` and publishing to `order_book_bus`.
pub struct BaseOrderBookStream<D, B> {
    pub url: String,
    pub subscribe_message: String,
    pub order_book_bus: Arc<B>,
    pub decoder: D,
}

impl<D, B> BaseOrderBookStream<D, B> {
    /// Whether the subscription text is a JSON array whose elements are
    /// sent one by one (its first non-blank character is `[`), rather than
    /// a single message.
    pub fn is_message_list(&self) -> (r: bool)
        ensures
            r == (trim_start(self.subscribe_message@).len() > 0 && trim_start(self.subscribe_message@)[0] == '['),
    {
        let t = trim_start_str(self.subscribe_message.as_str());
        t.unicode_len() > 0 && t.get_char(0) == '['
    }

    /// The reply to a message carrying a `ping` member: `{"pong": <that
    /// value>}`; `None` for other messages.
    pub fn ping_reply(parsed: Json) -> (r: Option<Json>)
        ensures
            match r {
                Some(j) => json_get(parsed, "ping"@) matches Some(p) && json_view(j) == JsonView::Object(
                    seq![("pong"@, json_view(p))],
                ),
                None => json_get(parsed, "ping"@) is None,
            },
    {
        match parsed.take_member("ping") {
            Some(p) => {
                let ghost pv = json_view(p);
                let mut m: Vec<(String, Json)> = Vec::new();
                m.push(member("pong", p));
                let j = Json::object(m);
                assert(json_view(j)->Object_0 =~= seq![("pong"@, pv)]);
                Some(j)
            },
            None => None,
        }
    }
}


/// Whether a subscription text is a message list: its first non-blank
/// character is `[`.
pub open spec fn is_list_text(text: Seq<char>) -> bool {
    trim_start(text).len() > 0 && trim_start(text)[0] == '['
}

/// The messages a subscription text stands for: for a message list, the
/// elements of the JSON array the text holds, in order (`None` where it
/// holds no JSON array); otherwise the text itself, as one message.
pub open spec fn subscription_spec(text: Seq<char>) -> Option<Seq<OutgoingView>> {
    if is_list_text(text) {
        match json_parse(encode_utf8(text)) {
            Some(Json::Array(items)) => Some(items@.map_values(|j: Json| OutgoingView::Json(json_view(j)))),
            _ => None,
        }
    } else {
        Some(seq![OutgoingView::Raw(text)])
    }
}

/// The reply to a received text: `{"pong": v}` where the text is a JSON
/// document with a `ping` member `v`, `None` otherwise.
pub open spec fn text_reply_spec(text: Seq<char>) -> Option<JsonView> {
    match json_parse(encode_utf8(text)) {
        Some(p) => match json_get(p, "ping"@) {
            Some(v) => Some(JsonView::Object(seq![("pong"@, json_view(v))])),
            None => None,
        },
        None => None,
    }
}

impl<D, B> BaseOrderBookStream<D, B> {
    /// The messages to send on connecting; `None` where the text is a
    /// message list that holds no JSON array.
    pub fn subscription(&self) -> (r: Option<Vec<Outgoing>>)
        ensures
            match r {
                Some(v) => subscription_spec(self.subscribe_message@) == Some(
                    v@.map_values(|o: Outgoing| outgoing_view(o)),
                ),
                None => subscription_spec(self.subscribe_message@) is None,
            },
    {
        let mut out: Vec<Outgoing> = Vec::new();
        if !self.is_message_list() {
            out.push(Outgoing::Raw(self.subscribe_message.clone()));
            assert(out@.map_values(|o: Outgoing| outgoing_view(o)) =~= seq![OutgoingView::Raw(self.subscribe_message@)]);
            return Some(out);
        }
        let text = self.subscribe_message.as_str();
        let items = match parse_json(text.as_bytes()) {
            Some(Json::Array(items)) => items,
            _ => return None,
        };
        let ghost orig = items@;
        let n = items.len();
        let ghost f = |j: Json| OutgoingView::Json(json_view(j));
        let mut rest = items;
        let mut k: usize = 0;
        while rest.len() > 0
            invariant
                k <= orig.len(),
                orig.len() == n,
                rest@ == orig.skip(k as int),
                out@.map_values(|o: Outgoing| outgoing_view(o)) == orig.take(k as int).map_values(f),
                f == (|j: Json| OutgoingView::Json(json_view(j))),
            decreases rest@.len(),
        {
            assert(orig.skip(k as int).len() > 0);
            let j = rest.remove(0);
            let ghost before = out@;
            out.push(Outgoing::Json(j));
            assert(orig.take(k + 1) =~= orig.take(k as int).push(j));
            assert(out@.map_values(|o: Outgoing| outgoing_view(o)) =~= before.map_values(|o: Outgoing| outgoing_view(o)).push(f(j)));
            assert(orig.take(k + 1).map_values(f) =~= orig.take(k as int).map_values(f).push(f(j)));
            assert(rest@ =~= orig.skip(k + 1));
            k = k + 1;
        }
        assert(orig.take(k as int) =~= orig);
        Some(out)
    }

    /// The reply to a received text, if it is a JSON `ping`.
    pub fn text_reply(text: &str) -> (r: Option<Json>)
        ensures
            match r {
                Some(j) => text_reply_spec(text@) == Some(json_view(j)),
                None => text_reply_spec(text@) is None,
            },
    {
        match parse_json(text.as_bytes()) {
            Some(p) => Self::ping_reply(p),
            None => None,
        }
    }
}

} // verus!
