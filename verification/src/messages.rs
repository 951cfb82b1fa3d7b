//! The messages of the benchmark protocol, and what a node computes from each
//! message it receives: the reply to a request, and the report on a reply.

use crate::send_log::{find_spec, set_spec, lemma_find_after_set, SendRecord, SENT_RECORD_CAPACITY};
use vstd::prelude::*;

verus! {

/// A message of the benchmark protocol.
#[derive(Clone, Debug, PartialEq, Eq)]
pub enum BenchmarkMessage {
    DataSend(BenchmarkDataSend),
    DataReply(BenchmarkDataReply),
}

/// A request.
#[derive(Clone, Debug, PartialEq, Eq)]
pub struct BenchmarkDataSend {
    /// A monotonically increasing counter to verify responses.
    pub request_counter: u64,
    /// Microseconds since some epoch, just before the message was sent.
    pub send_micros: i64,
    /// Payload of the request.
    pub data: Vec<u8>,
}

/// A reply to a request.
#[derive(Clone, Copy, Debug, PartialEq, Eq)]
pub struct BenchmarkDataReply {
    /// The counter of the request answered.
    pub request_counter: u64,
    /// Microseconds since some epoch, just before the reply was sent.
    pub send_micros: i64,
    /// The `send_micros` of the request answered.
    pub your_send_micros: i64,
}

/// What to do with a message that came as a direct send.
#[derive(Clone, Copy, Debug, PartialEq, Eq)]
pub enum DirectAction {
    /// Send this reply back to the peer.
    SendReply(BenchmarkDataReply),
    /// Look up the request that this reply answers, and report on it.
    ReportReply(BenchmarkDataReply),
}

/// What a node reports of a reply once it has looked up the request.
#[derive(Clone, Copy, Debug, PartialEq, Eq)]
pub enum ReplyReport {
    /// The request was found: its size, when the reply came, and the round trip.
    Matched { request_counter: u64, bytes_sent: usize, received_micros: i64, latency_micros: i64 },
    /// The request is no longer held: the round trip took at least this long.
    Unmatched { request_counter: u64, at_least_micros: i64 },
}

/// The reply to `send` at the time `now_micros`.
pub open spec fn reply_spec(send: BenchmarkDataSend, now_micros: u128) -> BenchmarkDataReply {
    BenchmarkDataReply {
        request_counter: send.request_counter,
        send_micros: now_micros as i64,
        your_send_micros: send.send_micros,
    }
}

/// What is reported of `reply`, received at `now_micros`, once the lookup of
/// its counter has given `rec`.
pub open spec fn report_spec(rec: SendRecord, reply: BenchmarkDataReply, now_micros: u128) -> ReplyReport {
    let receive_time = now_micros as i64;
    if rec.request_counter == reply.request_counter {
        ReplyReport::Matched {
            request_counter: rec.request_counter,
            bytes_sent: rec.bytes_sent,
            received_micros: receive_time,
            latency_micros: (receive_time - rec.send_micros) as i64,
        }
    } else {
        ReplyReport::Unmatched {
            request_counter: reply.request_counter,
            at_least_micros: (receive_time - rec.send_micros) as i64,
        }
    }
}

/// The reply to a request, stamped with the time now (microseconds as the
/// clock gives them, cut to 64 bits).
pub fn reply_to(send: &BenchmarkDataSend, now_micros: u128) -> (reply: BenchmarkDataReply)
    ensures
        reply == reply_spec(*send, now_micros),
        reply.request_counter == send.request_counter,
        reply.your_send_micros == send.send_micros,
        reply.send_micros as u64 as u128 == now_micros & 0xffff_ffff_ffff_ffff,
        now_micros <= i64::MAX ==> reply.send_micros == now_micros,
{
    proof {
        lemma_clock_cut_to_64_bits(now_micros);
    }
    BenchmarkDataReply {
        request_counter: send.request_counter,
        send_micros: now_micros as i64,
        your_send_micros: send.send_micros,
    }
}

/// A direct send: a request is answered with a reply; a reply is reported on.
pub fn direct_action(msg: &BenchmarkMessage, now_micros: u128) -> (action: DirectAction)
    ensures
        action == (match *msg {
            BenchmarkMessage::DataSend(send) => DirectAction::SendReply(reply_spec(send, now_micros)),
            BenchmarkMessage::DataReply(reply) => DirectAction::ReportReply(reply),
        }),
{
    match msg {
        BenchmarkMessage::DataSend(send) => DirectAction::SendReply(reply_to(send, now_micros)),
        BenchmarkMessage::DataReply(reply) => DirectAction::ReportReply(*reply),
    }
}

/// An RPC request: a request is answered with a reply; a reply, which should
/// have come back as the answer to an RPC call, gets no answer.
pub fn rpc_reply(msg: &BenchmarkMessage, now_micros: u128) -> (reply: Option<BenchmarkDataReply>)
    ensures
        reply == (match *msg {
            BenchmarkMessage::DataSend(send) => Some(reply_spec(send, now_micros)),
            BenchmarkMessage::DataReply(_) => None::<BenchmarkDataReply>,
        }),
{
    match msg {
        BenchmarkMessage::DataSend(send) => Some(reply_to(send, now_micros)),
        BenchmarkMessage::DataReply(_) => None,
    }
}

/// The report on `reply`, received at `now_micros`, given the record `rec`
/// that the lookup of its counter returned.
pub fn report_reply(rec: &SendRecord, reply: &BenchmarkDataReply, now_micros: u128) -> (report: ReplyReport)
    requires
        i64::MIN <= (now_micros as i64) - rec.send_micros <= i64::MAX,
    ensures
        report == report_spec(*rec, *reply, now_micros),
        rec.request_counter == reply.request_counter ==> (report matches ReplyReport::Matched {
            request_counter,
            bytes_sent,
            received_micros,
            latency_micros,
        } && request_counter == rec.request_counter && bytes_sent == rec.bytes_sent
            && received_micros as u64 as u128 == now_micros & 0xffff_ffff_ffff_ffff
            && latency_micros + rec.send_micros == received_micros),
        rec.request_counter != reply.request_counter ==> (report matches ReplyReport::Unmatched {
            request_counter,
            at_least_micros,
        } && request_counter == reply.request_counter
            && (at_least_micros + rec.send_micros) as i64 as u64 as u128 == now_micros
            & 0xffff_ffff_ffff_ffff),
{
    proof {
        lemma_clock_cut_to_64_bits(now_micros);
    }
    let receive_time = now_micros as i64;
    if rec.request_counter == reply.request_counter {
        ReplyReport::Matched {
            request_counter: rec.request_counter,
            bytes_sent: rec.bytes_sent,
            received_micros: receive_time,
            latency_micros: receive_time - rec.send_micros,
        }
    } else {
        ReplyReport::Unmatched {
            request_counter: reply.request_counter,
            at_least_micros: receive_time - rec.send_micros,
        }
    }
}

/// A reply to the request just logged is matched with it: the report gives the
/// request's size and the time since it was sent.
pub proof fn lemma_reply_to_logged_request_matches(
    log: Seq<SendRecord>,
    sent: SendRecord,
    reply: BenchmarkDataReply,
    now_micros: u128,
)
    requires
        log.len() <= SENT_RECORD_CAPACITY,
        reply.request_counter == sent.request_counter,
    ensures
        report_spec(find_spec(set_spec(log, sent), reply.request_counter), reply, now_micros)
            == (ReplyReport::Matched {
            request_counter: sent.request_counter,
            bytes_sent: sent.bytes_sent,
            received_micros: now_micros as i64,
            latency_micros: ((now_micros as i64) - sent.send_micros) as i64,
        }),
{
    lemma_find_after_set(log, sent);
}

/// A clock reading cut to 64 bits keeps its low 64 bits, and a reading that
/// fits in an `i64` is kept whole.
pub proof fn lemma_clock_cut_to_64_bits(now_micros: u128)
    ensures
        (now_micros as i64) as u64 as u128 == now_micros & 0xffff_ffff_ffff_ffff,
        now_micros <= i64::MAX ==> now_micros as i64 == now_micros,
{
    assert((now_micros as i64) as u64 as u128 == now_micros & 0xffff_ffff_ffff_ffff) by (bit_vector);
    assert(now_micros <= 0x7fff_ffff_ffff_ffffu128 ==> (now_micros as i64) as u128 == now_micros)
        by (bit_vector);
}

/// A reply is stamped with the clock: its send time holds the low 64 bits of
/// the reading, and a reading that fits in an `i64` (every Unix time in
/// microseconds for the next 290,000 years) is the send time itself.
pub proof fn lemma_reply_stamped_with_clock(send: BenchmarkDataSend, now_micros: u128)
    ensures
        reply_spec(send, now_micros).send_micros as u64 as u128 == now_micros & 0xffff_ffff_ffff_ffff,
        now_micros <= i64::MAX ==> reply_spec(send, now_micros).send_micros == now_micros,
{
    lemma_clock_cut_to_64_bits(now_micros);
}

/// A reply whose request the lookup did not find is reported as unmatched
/// under the reply's counter, with the time from the looked-up record's send
/// time (the earliest held) to the clock reading as the bound on its round trip.
pub proof fn lemma_report_unmatched(rec: SendRecord, reply: BenchmarkDataReply, now_micros: u128)
    requires
        rec.request_counter != reply.request_counter,
        now_micros <= i64::MAX,
        i64::MIN <= now_micros - rec.send_micros <= i64::MAX,
    ensures
        report_spec(rec, reply, now_micros) == (ReplyReport::Unmatched {
            request_counter: reply.request_counter,
            at_least_micros: (now_micros - rec.send_micros) as i64,
        }),
{
    lemma_clock_cut_to_64_bits(now_micros);
}

/// A reply whose request the lookup found is reported with the request's size,
/// the clock reading as its receive time, and the time from the request's send
/// to that reading as its round trip.
pub proof fn lemma_report_matched(rec: SendRecord, reply: BenchmarkDataReply, now_micros: u128)
    requires
        rec.request_counter == reply.request_counter,
        now_micros <= i64::MAX,
        i64::MIN <= now_micros - rec.send_micros <= i64::MAX,
    ensures
        report_spec(rec, reply, now_micros) == (ReplyReport::Matched {
            request_counter: rec.request_counter,
            bytes_sent: rec.bytes_sent,
            received_micros: now_micros as i64,
            latency_micros: (now_micros - rec.send_micros) as i64,
        }),
        now_micros as i64 == now_micros,
{
    lemma_clock_cut_to_64_bits(now_micros);
}

/// A reply to a request echoes the request's counter and send time.
pub proof fn lemma_reply_echoes_request(send: BenchmarkDataSend, now_micros: u128)
    ensures
        reply_spec(send, now_micros).request_counter == send.request_counter,
        reply_spec(send, now_micros).your_send_micros == send.send_micros,
{
}

} // verus!
