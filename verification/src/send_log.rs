//! The circular log of sent requests that the benchmark keeps, so that a reply
//! can be matched with the request it answers.

use vstd::arithmetic::div_mod::{lemma_mod_sub_multiples_vanish, lemma_small_mod};
use vstd::prelude::*;

verus! {

/// How many records the log holds before each new one overwrites the oldest.
pub const SENT_RECORD_CAPACITY: usize = 10000;

/// What the sender remembers of one request.
#[derive(Clone, Copy, Debug, PartialEq, Eq)]
pub struct SendRecord {
    pub request_counter: u64,
    pub send_micros: i64,
    pub bytes_sent: usize,
}

/// Circular buffer of sent records, shared between the sender and the
/// handlers of replies.
pub struct BenchmarkSharedState {
    // Circular buffer of sent records
    sent: Vec<SendRecord>,
    // sent[sent_pos] is the next index to write
    sent_pos: usize,
}

/// The record that a lookup returns when the log is empty.
pub open spec fn blank_record() -> SendRecord {
    SendRecord { request_counter: 0, send_micros: 0, bytes_sent: 0 }
}

/// A buffer read from position `pos` to its end and then from its start:
/// the records in the order in which they were stored.
pub open spec fn rotate(s: Seq<SendRecord>, pos: int) -> Seq<SendRecord> {
    s.subrange(pos, s.len() as int) + s.subrange(0, pos)
}

/// The log after storing `rec`: appended as the newest, and once the log is
/// full, its oldest record dropped.
pub open spec fn set_spec(log: Seq<SendRecord>, rec: SendRecord) -> Seq<SendRecord> {
    if log.len() < SENT_RECORD_CAPACITY {
        log.push(rec)
    } else {
        log.drop_first().push(rec)
    }
}

/// The log after storing each of `recs` in turn.
pub open spec fn set_all(log: Seq<SendRecord>, recs: Seq<SendRecord>) -> Seq<SendRecord>
    decreases recs.len(),
{
    if recs.len() == 0 {
        log
    } else {
        set_spec(set_all(log, recs.drop_last()), recs.last())
    }
}

/// The last `n` elements of `s` (all of `s` when it is shorter).
pub open spec fn keep_last(s: Seq<SendRecord>, n: nat) -> Seq<SendRecord> {
    if s.len() <= n {
        s
    } else {
        s.subrange(s.len() - n, s.len() as int)
    }
}

/// Some record of `log` carries `request_counter`.
pub open spec fn has_match(log: Seq<SendRecord>, request_counter: u64) -> bool {
    exists|j: int| 0 <= j < log.len() && log[j].request_counter == request_counter
}

/// `log[j]` is the newest record of `log` that carries `request_counter`.
pub open spec fn is_newest_match(log: Seq<SendRecord>, request_counter: u64, j: int) -> bool {
    &&& 0 <= j < log.len()
    &&& log[j].request_counter == request_counter
    &&& forall|k: int| j < k < log.len() ==> log[k].request_counter != request_counter
}

/// `micros` is the earliest send time of the records in `log`.
pub open spec fn is_earliest_send(log: Seq<SendRecord>, micros: i64) -> bool {
    &&& exists|j: int| 0 <= j < log.len() && log[j].send_micros == micros
    &&& forall|j: int| 0 <= j < log.len() ==> micros <= log[j].send_micros
}

/// What a lookup of `request_counter` returns: the newest record with that
/// counter; failing that, counter 0 with the earliest send time held (so that a
/// caller learns how old its reply is at least); on an empty log, all zeros.
pub open spec fn find_spec(log: Seq<SendRecord>, request_counter: u64) -> SendRecord {
    if log.len() == 0 {
        blank_record()
    } else if has_match(log, request_counter) {
        log[choose|j: int| is_newest_match(log, request_counter, j)]
    } else {
        SendRecord {
            request_counter: 0,
            send_micros: choose|m: i64| is_earliest_send(log, m),
            bytes_sent: 0,
        }
    }
}

/// The newest match is the one a lookup returns.
proof fn lemma_find_spec_match(log: Seq<SendRecord>, request_counter: u64, j: int)
    requires
        is_newest_match(log, request_counter, j),
    ensures
        find_spec(log, request_counter) == log[j],
{
    assert(has_match(log, request_counter));
    let jj = choose|j: int| is_newest_match(log, request_counter, j);
    assert(is_newest_match(log, request_counter, jj));
    if jj < j {
        assert(log[j].request_counter != request_counter);
    } else if jj > j {
        assert(log[jj].request_counter != request_counter);
    }
}

/// Without a match, a lookup returns the earliest send time.
proof fn lemma_find_spec_no_match(log: Seq<SendRecord>, request_counter: u64, micros: i64)
    requires
        log.len() > 0,
        !has_match(log, request_counter),
        is_earliest_send(log, micros),
    ensures
        find_spec(log, request_counter) == (SendRecord {
            request_counter: 0,
            send_micros: micros,
            bytes_sent: 0,
        }),
{
    let m = choose|m: i64| is_earliest_send(log, m);
    assert(is_earliest_send(log, m));
    let jm = choose|j: int| 0 <= j < log.len() && log[j].send_micros == m;
    let jx = choose|j: int| 0 <= j < log.len() && log[j].send_micros == micros;
    assert(micros <= log[jm].send_micros);
    assert(m <= log[jx].send_micros);
}

/// A record just stored is what a lookup of its counter returns.
pub proof fn lemma_find_after_set(log: Seq<SendRecord>, rec: SendRecord)
    requires
        log.len() <= SENT_RECORD_CAPACITY,
    ensures
        find_spec(set_spec(log, rec), rec.request_counter) == rec,
{
    let after = set_spec(log, rec);
    lemma_find_spec_match(after, rec.request_counter, after.len() - 1);
}

/// Storing a record under another counter does not change what a lookup
/// returns for a counter that the log still holds.
pub proof fn lemma_set_keeps_other_matches(log: Seq<SendRecord>, rec: SendRecord, request_counter: u64)
    requires
        log.len() <= SENT_RECORD_CAPACITY,
        rec.request_counter != request_counter,
        has_match(set_spec(log, rec), request_counter),
    ensures
        find_spec(set_spec(log, rec), request_counter) == find_spec(log, request_counter),
{
    let after = set_spec(log, rec);
    let shift: int = if log.len() < SENT_RECORD_CAPACITY { 0 } else { 1 };
    let jm = choose|j: int| 0 <= j < after.len() && after[j].request_counter == request_counter;
    assert(after[jm] == log[jm + shift]);
    // the newest match in `log`
    let newest = choose|j: int| is_newest_match(log, request_counter, j);
    assert(is_newest_match(log, request_counter, newest)) by {
        lemma_newest_match_exists(log, request_counter, jm + shift);
    }
    assert(newest >= jm + shift);
    assert(is_newest_match(after, request_counter, newest - shift));
    lemma_find_spec_match(after, request_counter, newest - shift);
    lemma_find_spec_match(log, request_counter, newest);
}

/// Where some record carries the counter, a newest such record exists.
proof fn lemma_newest_match_exists(log: Seq<SendRecord>, request_counter: u64, j: int)
    requires
        0 <= j < log.len(),
        log[j].request_counter == request_counter,
    ensures
        exists|k: int| is_newest_match(log, request_counter, k),
    decreases log.len() - j,
{
    if is_newest_match(log, request_counter, j) {
    } else {
        let k = choose|k: int| j < k < log.len() && log[k].request_counter == request_counter;
        lemma_newest_match_exists(log, request_counter, k);
    }
}

/// A lookup that finds no record reports counter 0, no bytes, and a send time
/// no later than that of any record held: a bound on the age of the reply.
pub proof fn lemma_unmatched_lookup(log: Seq<SendRecord>, request_counter: u64)
    requires
        log.len() > 0,
        !has_match(log, request_counter),
    ensures
        find_spec(log, request_counter).request_counter == 0,
        find_spec(log, request_counter).bytes_sent == 0,
        forall|j: int|
            0 <= j < log.len() ==> find_spec(log, request_counter).send_micros <= log[j].send_micros,
        exists|j: int|
            0 <= j < log.len() && log[j].send_micros == find_spec(log, request_counter).send_micros,
{
    let micros = earliest_send_exists(log);
    lemma_find_spec_no_match(log, request_counter, micros);
}

/// A non-empty log has an earliest send time.
proof fn earliest_send_exists(log: Seq<SendRecord>) -> (micros: i64)
    requires
        log.len() > 0,
    ensures
        is_earliest_send(log, micros),
    decreases log.len(),
{
    if log.len() == 1 {
        log[0].send_micros
    } else {
        let m = earliest_send_exists(log.drop_last());
        assert(forall|j: int| 0 <= j < log.len() - 1 ==> log.drop_last()[j] == log[j]);
        if log.last().send_micros < m {
            log.last().send_micros
        } else {
            let j = choose|j: int| 0 <= j < log.len() - 1 && log.drop_last()[j].send_micros == m;
            assert(log[j].send_micros == m);
            m
        }
    }
}

/// Storing records one after another leaves exactly the most recent
/// `SENT_RECORD_CAPACITY` of all records stored, oldest first.
pub proof fn lemma_set_all_keeps_last(log: Seq<SendRecord>, recs: Seq<SendRecord>)
    requires
        log.len() <= SENT_RECORD_CAPACITY,
    ensures
        set_all(log, recs) == keep_last(log + recs, SENT_RECORD_CAPACITY as nat),
    decreases recs.len(),
{
    if recs.len() == 0 {
        assert(log + recs =~= log);
    } else {
        let prev = set_all(log, recs.drop_last());
        lemma_set_all_keeps_last(log, recs.drop_last());
        let all = log + recs;
        assert(log + recs.drop_last() =~= all.drop_last());
        assert(all.last() == recs.last());
        assert(set_spec(prev, recs.last()) =~= keep_last(all, SENT_RECORD_CAPACITY as nat));
    }
}

/// A stored record is still found for its counter after up to
/// `SENT_RECORD_CAPACITY - 1` further records that carry other counters.
pub proof fn lemma_record_retained(log: Seq<SendRecord>, rec: SendRecord, later: Seq<SendRecord>)
    requires
        log.len() <= SENT_RECORD_CAPACITY,
        later.len() < SENT_RECORD_CAPACITY,
        forall|k: int| 0 <= k < later.len() ==> later[k].request_counter != rec.request_counter,
    ensures
        find_spec(set_all(set_spec(log, rec), later), rec.request_counter) == rec,
{
    let first = set_spec(log, rec);
    lemma_set_all_keeps_last(first, later);
    let all = first + later;
    let kept = set_all(first, later);
    let j = kept.len() - later.len() - 1;
    assert(kept[j] == rec);
    assert(is_newest_match(kept, rec.request_counter, j));
    lemma_find_spec_match(kept, rec.request_counter, j);
}

impl View for BenchmarkSharedState {
    type V = Seq<SendRecord>;

    /// The held records, oldest first.
    closed spec fn view(&self) -> Seq<SendRecord> {
        rotate(self.sent@, self.sent_pos as int)
    }
}

impl BenchmarkSharedState {
    /// The buffer never outgrows its capacity, and until it is full the next
    /// slot to write is the end.
    pub closed spec fn wf(&self) -> bool {
        &&& self.sent@.len() <= SENT_RECORD_CAPACITY
        &&& self.sent_pos < SENT_RECORD_CAPACITY
        &&& self.sent_pos <= self.sent@.len()
        &&& self.sent@.len() < SENT_RECORD_CAPACITY ==> self.sent_pos == self.sent@.len()
    }

    /// A well-formed log holds at most its capacity.
    pub proof fn lemma_wf_bounds(&self)
        requires
            self.wf(),
        ensures
            self@.len() <= SENT_RECORD_CAPACITY,
    {
    }

    /// An empty log.
    pub fn new() -> (state: Self)
        ensures
            state.wf(),
            state@ == Seq::<SendRecord>::empty(),
    {
        let state = BenchmarkSharedState { sent: Vec::with_capacity(SENT_RECORD_CAPACITY), sent_pos: 0 };
        assert(state@ =~= Seq::<SendRecord>::empty());
        state
    }

    /// Stores a record as the newest; once the log is full it takes the place
    /// of the oldest.
    pub fn set(&mut self, sent: SendRecord)
        requires
            old(self).wf(),
        ensures
            final(self).wf(),
            final(self)@ == set_spec(old(self)@, sent),
    {
        let ghost s = self.sent@;
        let ghost pos = self.sent_pos as int;
        if self.sent.len() < SENT_RECORD_CAPACITY {
            self.sent.push(sent);
        } else {
            self.sent.set(self.sent_pos, sent);
        }
        self.sent_pos = (self.sent_pos + 1) % SENT_RECORD_CAPACITY;
        proof {
            let old_view = rotate(s, pos);
            if s.len() < SENT_RECORD_CAPACITY {
                assert(old_view =~= s);
                assert(self@ =~= s.push(sent));
            } else {
                assert(self@ =~= old_view.drop_first().push(sent));
            }
        }
    }

    /// The newest record with `request_counter`; failing that, counter 0 with
    /// the earliest send time held; on an empty log, all zeros.
    pub fn find(&self, request_counter: u64) -> (rec: SendRecord)
        requires
            self.wf(),
        ensures
            rec == find_spec(self@, request_counter),
    {
        if self.sent.len() == 0 {
            assert(self@ =~= Seq::<SendRecord>::empty());
            return SendRecord { request_counter: 0, send_micros: 0, bytes_sent: 0 };
        }
        let mut oldest = self.sent[0].send_micros;
        let capacity = self.sent.len();
        let ghost v = self@;
        let ghost s = self.sent@;
        let ghost p = self.sent_pos as int;
        let ghost w: int = if p == 0 || p == capacity { 0 } else { capacity - p };
        assert(v[w] == s[0]);
        let ghost mut wi: int = w;
        for i in 0..capacity
            invariant
                self.wf(),
                capacity == s.len(),
                s == self.sent@,
                p == self.sent_pos,
                v == self@,
                v == rotate(s, p),
                capacity > 0,
                0 <= w < capacity,
                0 <= wi < capacity,
                v[wi].send_micros == oldest,
                oldest <= v[w].send_micros,
                forall|k: int|
                    capacity - i <= k < capacity ==> v[k].request_counter != request_counter
                        && oldest <= v[k].send_micros,
        {
            let pos = (self.sent_pos + capacity - (1 + i)) % capacity;
            proof {
                let j = capacity - 1 - i;
                let x = p + j;
                if x < capacity {
                    lemma_small_mod(x as nat, capacity as nat);
                    assert(v[j] == s[x]);
                } else {
                    lemma_mod_sub_multiples_vanish(x, capacity as int);
                    lemma_small_mod((x - capacity) as nat, capacity as nat);
                    assert(v[j] == s[x - capacity]);
                }
                assert(s[pos as int] == v[j]);
            }
            let rec = self.sent[pos].clone();
            if rec.request_counter == request_counter {
                proof {
                    lemma_find_spec_match(v, request_counter, capacity - 1 - i);
                }
                return rec;
            }
            if rec.send_micros < oldest {
                oldest = rec.send_micros;
                proof {
                    wi = capacity - 1 - i;
                }
            }
        }
        proof {
            assert(!has_match(v, request_counter));
            assert(is_earliest_send(v, oldest));
            lemma_find_spec_no_match(v, request_counter, oldest);
        }
        SendRecord { request_counter: 0, send_micros: oldest, bytes_sent: 0 }
    }
}

} // verus!
