//! The decisions of a running exchange stream: what to send when
//! subscribing, what each decoded message leads to, and the heartbeat each
//! exchange expects.

use crate::dto::{ActionDecoder, DecodeError, OrderBookDto};
use crate::exchange::Exchange;
use crate::json::{json_array, json_get, json_view, json_views, member, Json, JsonView};
use crate::text::u64_text;
use vstd::prelude::*;

verus! {

/// Pause between consecutive subscription messages and reconnections, in
/// milliseconds.
pub const SLEEP_DURATION_MS: u64 = 500;

/// Interval between heartbeats, in milliseconds.
pub const PING_DURATION_MS: u64 = 15000;

/// Silence after which a connection is dropped, in milliseconds.
pub const PONG_DURATION_MS: u64 = 20000;

/// Decode failures tolerated on one connection before reconnecting.
pub const MAX_DECODE_FAILURES: u32 = 30;

/// A message to send on the websocket.
#[derive(Debug)]
pub enum Outgoing {
    /// Plain text, sent as is.
    Raw(String),
    /// A JSON document, sent as its text.
    Json(Json),
}

/// An `Outgoing` with its texts as character sequences.
pub enum OutgoingView {
    Raw(Seq<char>),
    Json(JsonView),
}

/// The view of an outgoing message.
pub open spec fn outgoing_view(o: Outgoing) -> OutgoingView {
    match o {
        Outgoing::Raw(s) => OutgoingView::Raw(s@),
        Outgoing::Json(j) => OutgoingView::Json(json_view(j)),
    }
}

/// What the stream does after a message.
#[derive(Debug)]
pub enum StreamAction {
    /// Nothing.
    Continue,
    /// Publish the snapshot.
    Publish(OrderBookDto),
    /// Send this message.
    Send(Outgoing),
    /// Drop the connection and connect again.
    Reconnect,
}

/// The messages to send for one planned subscription: the elements of its
/// `batches` array where it has one, otherwise the subscription itself.
pub open spec fn subscription_messages_spec(batch: Json) -> Seq<Json> {
    match json_array(json_get(batch, "batches"@)) {
        Some(items) => items,
        None => seq![batch],
    }
}

/// The messages to send for one planned subscription.
pub fn subscription_messages(batch: &Json) -> (r: Vec<&Json>)
    ensures
        r@.map_values(|x: &Json| *x) == subscription_messages_spec(*batch),
{
    let mut out: Vec<&Json> = Vec::new();
    match batch.get("batches") {
        Some(v) => match v.as_array() {
            Some(items) => {
                let mut i: usize = 0;
                while i < items.len()
                    invariant
                        i <= items@.len(),
                        out@.map_values(|x: &Json| *x) == items@.take(i as int),
                    decreases items@.len() - i,
                {
                    let item = &items[i];
                    let ghost before = out@;
                    out.push(item);
                    assert(out@ == before.push(item));
                    assert(out@.map_values(|x: &Json| *x) =~= before.map_values(|x: &Json| *x).push(*item));
                    assert(items@.take(i + 1) =~= items@.take(i as int).push(items@[i as int]));
                    i = i + 1;
                }
                assert(items@.take(items@.len() as int) =~= items@);
                return out;
            },
            None => {},
        },
        None => {},
    }
    out.push(batch);
    assert(out@.map_values(|x: &Json| *x) =~= seq![*batch]);
    out
}

/// The heartbeat an exchange expects, sent at every ping interval: the text
/// `ping` for OKX and Bitget, a `spot.ping` request for Gate and a `ping`
/// operation for Bybit, each stamped with `now`; nothing for the others.
pub open spec fn ping_message_spec(exchange: Exchange, now: u64) -> Option<OutgoingView> {
    match exchange {
        Exchange::Okx | Exchange::Bitget => Some(OutgoingView::Raw("ping"@)),
        Exchange::Gate => Some(
            OutgoingView::Json(
                JsonView::Object(
                    seq![("time"@, JsonView::Number(u64_text(now))), ("channel"@, JsonView::Str("spot.ping"@))],
                ),
            ),
        ),
        Exchange::Bybit => Some(
            OutgoingView::Json(
                JsonView::Object(
                    seq![("req_id"@, JsonView::Number(u64_text(now))), ("op"@, JsonView::Str("ping"@))],
                ),
            ),
        ),
        _ => None,
    }
}

/// The heartbeat an exchange expects at time `now`.
pub fn ping_message(exchange: Exchange, now: u64) -> (r: Option<Outgoing>)
    ensures
        match r {
            Some(o) => ping_message_spec(exchange, now) == Some(outgoing_view(o)),
            None => ping_message_spec(exchange, now) is None,
        },
{
    match exchange {
        Exchange::Okx | Exchange::Bitget => Some(Outgoing::Raw(String::from_str("ping"))),
        Exchange::Gate => {
            let mut m: Vec<(String, Json)> = Vec::new();
            m.push(member("time", Json::unsigned(now)));
            m.push(member("channel", Json::text("spot.ping")));
            let j = Json::object(m);
            assert(json_view(j)->Object_0 =~= seq![("time"@, JsonView::Number(u64_text(now))), ("channel"@, JsonView::Str("spot.ping"@))]);
            Some(Outgoing::Json(j))
        },
        Exchange::Bybit => {
            let mut m: Vec<(String, Json)> = Vec::new();
            m.push(member("req_id", Json::unsigned(now)));
            m.push(member("op", Json::text("ping")));
            let j = Json::object(m);
            assert(json_view(j)->Object_0 =~= seq![("req_id"@, JsonView::Number(u64_text(now))), ("op"@, JsonView::Str("ping"@))]);
            Some(Outgoing::Json(j))
        },
        _ => None,
    }
}

/// The reply to an HTX `ping` carrying `ts`.
pub open spec fn pong_view(ts: u64) -> JsonView {
    JsonView::Object(seq![("pong"@, JsonView::Number(u64_text(ts)))])
}

/// The decode-failure count after a decoded message: a failure is counted
/// unless more than `MAX_DECODE_FAILURES` have already been counted (the
/// connection is then dropped); anything else leaves the count alone.
pub open spec fn failures_after(failures: u32, decoded_ok: bool) -> int {
    if !decoded_ok && failures <= MAX_DECODE_FAILURES {
        failures + 1
    } else {
        failures as int
    }
}

/// What a decoded message leads to, and the failure count after it: a
/// snapshot is published; a ping is answered with `{"pong": ts}` on HTX
/// and ignored elsewhere; a decode failure is counted, and once more than
/// `MAX_DECODE_FAILURES` have been counted the connection is dropped.
pub fn on_decoded(exchange: Exchange, failures: u32, decoded: Result<ActionDecoder, DecodeError>) -> (r: (StreamAction, u32))
    ensures
        r.1 == failures_after(failures, decoded is Ok),
        match decoded {
            Ok(ActionDecoder::Publish(dto)) => r.0 == StreamAction::Publish(dto),
            Ok(ActionDecoder::Skip) => r.0 is Continue,
            Ok(ActionDecoder::Pong(ts)) => if exchange == Exchange::Htx {
                r.0 matches StreamAction::Send(o) && outgoing_view(o) == OutgoingView::Json(pong_view(ts))
            } else {
                r.0 is Continue
            },
            Err(_) => if failures > MAX_DECODE_FAILURES {
                r.0 is Reconnect
            } else {
                r.0 is Continue
            },
        },
{
    match decoded {
        Ok(ActionDecoder::Publish(dto)) => (StreamAction::Publish(dto), failures),
        Ok(ActionDecoder::Skip) => (StreamAction::Continue, failures),
        Ok(ActionDecoder::Pong(ts)) => {
            if exchange == Exchange::Htx {
                let mut m: Vec<(String, Json)> = Vec::new();
                m.push(member("pong", Json::unsigned(ts)));
                let j = Json::object(m);
                assert(json_view(j)->Object_0 =~= pong_view(ts)->Object_0);
                (StreamAction::Send(Outgoing::Json(j)), failures)
            } else {
                (StreamAction::Continue, failures)
            }
        },
        Err(_) => {
            if failures > MAX_DECODE_FAILURES {
                (StreamAction::Reconnect, failures)
            } else {
                (StreamAction::Continue, failures + 1)
            }
        },
    }
}

/// The decode-failure count of a connection after `k` failed decodes,
/// counted from zero as `on_decoded` counts them (successful decodes leave
/// the count alone).
pub open spec fn failure_count(k: nat) -> int
    decreases k,
{
    if k == 0 {
        0
    } else {
        failures_after(failure_count((k - 1) as nat) as u32, false)
    }
}

/// After `k` failed decodes a connection's count is the smaller of `k` and
/// `MAX_DECODE_FAILURES + 1`, so it never exceeds `MAX_DECODE_FAILURES + 1`;
/// a failure drops the connection exactly when more than
/// `MAX_DECODE_FAILURES` failures came before it.
pub proof fn lemma_failure_count(k: nat)
    ensures
        failure_count(k) == (if k <= MAX_DECODE_FAILURES + 1 { k as int } else { MAX_DECODE_FAILURES + 1 }),
        (failure_count(k) > MAX_DECODE_FAILURES) <==> (k > MAX_DECODE_FAILURES),
    decreases k,
{
    if k > 0 {
        lemma_failure_count((k - 1) as nat);
    }
}

/// Whether a connection silent for `elapsed_ms` must be dropped.
pub fn is_silent(elapsed_ms: u64) -> (r: bool)
    ensures
        r == (elapsed_ms > PONG_DURATION_MS),
{
    elapsed_ms > PONG_DURATION_MS
}

} // verus!
