//! The queue of recent file-system events.

use vstd::prelude::*;
use crate::text::{decimal_chars, decimal_seq, join, join_seq, push_str, string_from_chars, views};

verus! {

/// How many events the queue keeps.
pub const EVENT_QUEUE_CAP: usize = 200;

/// The newest `limit` events, newest first.
pub open spec fn recent_seq(queue: Seq<String>, limit: nat) -> Seq<String> {
    let n = if limit < queue.len() {
        limit
    } else {
        queue.len()
    };
    Seq::new(n, |i: int| queue[queue.len() - 1 - i])
}

/// The newest `limit` events of `queue`, newest first.
pub fn read_recent_events(queue: &std::collections::VecDeque<String>, limit: usize) -> (r: Vec<
    String,
>)
    ensures
        r@ == recent_seq(queue@, limit as nat),
{
    let mut out: Vec<String> = Vec::new();
    let n = queue.len();
    let mut i: usize = 0;
    while i < limit && i < n
        invariant
            n == queue@.len(),
            i <= n,
            i <= limit,
            out@ == recent_seq(queue@, i as nat),
        decreases n - i,
    {
        out.push(queue[n - 1 - i].clone());
        assert(out@ =~= recent_seq(queue@, (i + 1) as nat));
        i += 1;
    }
    assert(recent_seq(queue@, limit as nat) =~= recent_seq(queue@, i as nat));
    out
}

/// The last `cap` elements of `s` (all of it when it is shorter).
pub open spec fn keep_last<T>(s: Seq<T>, cap: nat) -> Seq<T> {
    if s.len() > cap {
        s.skip(s.len() - cap)
    } else {
        s
    }
}

/// Appends `line` and drops the oldest events beyond the queue's capacity.
pub fn push_event(queue: &mut std::collections::VecDeque<String>, line: String)
    ensures
        final(queue)@ == keep_last(old(queue)@.push(line), EVENT_QUEUE_CAP as nat),
{
    let ghost full = old(queue)@.push(line);
    queue.push_back(line);
    while queue.len() > EVENT_QUEUE_CAP
        invariant
            full.len() >= queue@.len(),
            queue@ == full.skip(full.len() - queue@.len()),
            queue@.len() >= if full.len() > EVENT_QUEUE_CAP {
                EVENT_QUEUE_CAP as nat
            } else {
                full.len()
            },
        decreases queue@.len(),
    {
        let _ = queue.pop_front();
        assert(full.skip(full.len() - (queue@.len() + 1)).subrange(1, queue@.len() as int + 1) =~= full.skip(
            full.len() - queue@.len(),
        ));
    }
    assert(keep_last(full, EVENT_QUEUE_CAP as nat) =~= queue@) by {
        if full.len() <= EVENT_QUEUE_CAP {
            assert(full.skip(0) =~= full);
        }
    };
}

/// The text of one file event: the time in milliseconds, the event kind in
/// brackets, and the paths joined by ", ".
pub open spec fn event_line_seq(ts_ms: nat, kind: Seq<char>, paths: Seq<Seq<char>>) -> Seq<char> {
    decimal_seq(ts_ms) + " ["@ + kind + "] "@ + join_seq(paths, ", "@)
}

/// Renders one file event (`"{ts} [{kind}] {paths}"`).
pub fn file_event_line(ts_ms: u128, kind: &str, paths: &Vec<String>) -> (r: String)
    ensures
        r@ == event_line_seq(ts_ms as nat, kind@, views(paths@)),
{
    let mut v = decimal_chars(ts_ms);
    push_str(&mut v, " [");
    push_str(&mut v, kind);
    push_str(&mut v, "] ");
    let joined = join(paths, ", ");
    push_str(&mut v, joined.as_str());
    string_from_chars(&v)
}

/// The file event queue never holds more than `EVENT_QUEUE_CAP` events,
/// and a pushed event is the newest one kept.
pub proof fn event_queue_bounded(q: Seq<String>, line: String)
    ensures
        keep_last(q.push(line), EVENT_QUEUE_CAP as nat).len() <= EVENT_QUEUE_CAP,
        keep_last(q.push(line), EVENT_QUEUE_CAP as nat).last() == line,
{
    let s = q.push(line);
    if s.len() > EVENT_QUEUE_CAP {
        assert(s.skip(s.len() - EVENT_QUEUE_CAP).last() == s.last());
    }
}

} // verus!
