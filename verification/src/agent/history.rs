//! The five-minute history of per-process samples.
//!
//! Every collection cycle observes the running processes; each process
//! (identified by its pid and start time) keeps the samples of the last five
//! minutes. CPU readings are carried as the bit pattern of the `f32` that the
//! system reported; averaging them is left to the caller.

use vstd::prelude::*;
use std::collections::VecDeque;

verus! {

/// How long a sample stays in the history, in milliseconds.
pub const PROCESS_WINDOW_MS: u128 = 300000;

/// One reading of one process.
#[derive(Clone, Copy)]
pub struct ProcessSample {
    pub ts_ms: u128,
    /// `f32::to_bits` of the CPU usage in percent.
    pub cpu_bits: u32,
    pub memory_bytes: u64,
}

/// What identifies a process across readings: its pid and start time.
#[derive(Clone, Copy, Debug, PartialEq, Eq, Structural)]
pub struct ProcessKey {
    pub pid: u32,
    pub start_time: u64,
}

/// The key of a process.
pub fn process_key(pid: u32, start_time: u64) -> (r: ProcessKey)
    ensures
        r == (ProcessKey { pid, start_time }),
{
    ProcessKey { pid, start_time }
}

/// One running process as seen in one collection cycle.
pub struct ProcessObservation {
    pub pid: u32,
    pub start_time: u64,
    pub name: String,
    /// `f32::to_bits` of the CPU usage in percent.
    pub cpu_bits: u32,
    pub memory_bytes: u64,
}

struct ProcessHistoryEntry {
    key: ProcessKey,
    pid: u32,
    name: String,
    samples: VecDeque<ProcessSample>,
}

/// The samples of every process seen in the last five minutes.
pub struct ProcessHistory {
    entries: Vec<ProcessHistoryEntry>,
}

/// The model of one history entry.
pub struct EntryView {
    pub key: ProcessKey,
    pub pid: u32,
    pub name: Seq<char>,
    pub samples: Seq<ProcessSample>,
}

/// The model of one observation.
pub open spec fn observation_view(o: ProcessObservation) -> (ProcessKey, u32, Seq<char>, ProcessSample) {
    (
        ProcessKey { pid: o.pid, start_time: o.start_time },
        o.pid,
        o.name@,
        ProcessSample { ts_ms: 0, cpu_bits: o.cpu_bits, memory_bytes: o.memory_bytes },
    )
}

/// Whether a sample taken at `ts` is older than the window at `now`
/// (`now.saturating_sub(ts) > PROCESS_WINDOW_MS`).
pub open spec fn too_old(ts: u128, now: u128) -> bool {
    now > ts && now - ts > PROCESS_WINDOW_MS
}

/// `samples` without the leading ones that are too old.
pub open spec fn prune_seq(samples: Seq<ProcessSample>, now: u128) -> Seq<ProcessSample>
    decreases samples.len(),
{
    if samples.len() > 0 && too_old(samples[0].ts_ms, now) {
        prune_seq(samples.drop_first(), now)
    } else {
        samples
    }
}

/// The position of `key` among `entries`, if any.
pub open spec fn key_index(entries: Seq<EntryView>, key: ProcessKey) -> Option<int> {
    if exists|i: int| 0 <= i < entries.len() && entries[i].key == key {
        Some(choose|i: int| 0 <= i < entries.len() && entries[i].key == key)
    } else {
        None
    }
}

/// No key occurs twice.
pub open spec fn keys_distinct(entries: Seq<EntryView>) -> bool {
    forall|i: int, j: int| 0 <= i < j < entries.len() ==> entries[i].key != entries[j].key
}

/// The entries after one observation at time `now`: the process's entry
/// takes the observed pid and name and gains the sample, then drops what is
/// too old; an unseen process gets a new entry at the end.
pub open spec fn observe_seq(
    entries: Seq<EntryView>,
    obs: (ProcessKey, u32, Seq<char>, ProcessSample),
    now: u128,
) -> Seq<EntryView> {
    let sample = ProcessSample { ts_ms: now, ..obs.3 };
    match key_index(entries, obs.0) {
        Some(i) => entries.update(
            i,
            EntryView {
                key: obs.0,
                pid: obs.1,
                name: obs.2,
                samples: prune_seq(entries[i].samples.push(sample), now),
            },
        ),
        None => entries.push(
            EntryView { key: obs.0, pid: obs.1, name: obs.2, samples: prune_seq(seq![sample], now) },
        ),
    }
}

/// The entries after all observations, in order.
pub open spec fn observe_all(
    entries: Seq<EntryView>,
    obs: Seq<(ProcessKey, u32, Seq<char>, ProcessSample)>,
    now: u128,
) -> Seq<EntryView>
    decreases obs.len(),
{
    if obs.len() == 0 {
        entries
    } else {
        observe_seq(observe_all(entries, obs.drop_last(), now), obs.last(), now)
    }
}

/// The entries with their old samples dropped, leaving out those with none
/// left.
pub open spec fn retain_seq(entries: Seq<EntryView>, now: u128) -> Seq<EntryView>
    decreases entries.len(),
{
    if entries.len() == 0 {
        Seq::empty()
    } else {
        let rest = retain_seq(entries.drop_last(), now);
        let e = entries.last();
        let kept = prune_seq(e.samples, now);
        if kept.len() > 0 {
            rest.push(EntryView { samples: kept, ..e })
        } else {
            rest
        }
    }
}

/// The history after a collection cycle at time `now`.
pub open spec fn update_seq(
    entries: Seq<EntryView>,
    obs: Seq<(ProcessKey, u32, Seq<char>, ProcessSample)>,
    now: u128,
) -> Seq<EntryView> {
    retain_seq(observe_all(entries, obs, now), now)
}

fn is_too_old(ts: u128, now: u128) -> (r: bool)
    ensures
        r == too_old(ts, now),
{
    now.saturating_sub(ts) > PROCESS_WINDOW_MS
}

/// Drops the leading samples that are older than the window.
pub fn prune_old_samples(samples: &mut VecDeque<ProcessSample>, now_ms: u128)
    ensures
        final(samples)@ == prune_seq(old(samples)@, now_ms),
{
    while samples.len() > 0 && is_too_old(samples[0].ts_ms, now_ms)
        invariant
            prune_seq(samples@, now_ms) == prune_seq(old(samples)@, now_ms),
        decreases samples@.len(),
    {
        let ghost before = samples@;
        let _ = samples.pop_front();
        assert(samples@ =~= before.drop_first());
    }
}

/// Pruning twice prunes no more than pruning once.
pub proof fn lemma_prune_idempotent(samples: Seq<ProcessSample>, now: u128)
    ensures
        prune_seq(prune_seq(samples, now), now) == prune_seq(samples, now),
    decreases samples.len(),
{
    if samples.len() > 0 && too_old(samples[0].ts_ms, now) {
        lemma_prune_idempotent(samples.drop_first(), now);
    }
}

/// What pruning keeps is a suffix of the samples, and none of it is too old
/// at its head.
pub proof fn lemma_prune_suffix(samples: Seq<ProcessSample>, now: u128)
    ensures
        prune_seq(samples, now).len() <= samples.len(),
        prune_seq(samples, now) == samples.skip(samples.len() - prune_seq(samples, now).len()),
        prune_seq(samples, now).len() > 0 ==> !too_old(prune_seq(samples, now)[0].ts_ms, now),
    decreases samples.len(),
{
    if samples.len() > 0 && too_old(samples[0].ts_ms, now) {
        lemma_prune_suffix(samples.drop_first(), now);
        let p = prune_seq(samples, now);
        assert(samples.drop_first().skip(samples.drop_first().len() - p.len()) =~= samples.skip(
            samples.len() - p.len(),
        ));
    } else {
        assert(samples.skip(0) =~= samples);
    }
}

/// After a collection cycle, every process kept has samples, and its
/// oldest sample lies within the window.
pub proof fn retained_entries_are_recent(entries: Seq<EntryView>, now: u128)
    ensures
        forall|i: int|
            0 <= i < retain_seq(entries, now).len() ==> (#[trigger] retain_seq(entries, now)[i]).samples.len()
                > 0 && !too_old(retain_seq(entries, now)[i].samples[0].ts_ms, now),
    decreases entries.len(),
{
    if entries.len() > 0 {
        retained_entries_are_recent(entries.drop_last(), now);
        lemma_prune_suffix(entries.last().samples, now);
        let rest = retain_seq(entries.drop_last(), now);
        let r = retain_seq(entries, now);
        assert forall|i: int| 0 <= i < r.len() implies (#[trigger] r[i]).samples.len() > 0 && !too_old(
            r[i].samples[0].ts_ms,
            now,
        ) by {
            if i < rest.len() {
                assert(r[i] == rest[i]);
            }
        }
    }
}

impl ProcessHistory {
    /// The model: the entries in the order they were first seen.
    pub closed spec fn entries_view(&self) -> Seq<EntryView> {
        self.entries@.map_values(
            |e: ProcessHistoryEntry|
                EntryView { key: e.key, pid: e.pid, name: e.name@, samples: e.samples@ },
        )
    }

    /// No process has two entries.
    pub open spec fn wf(&self) -> bool {
        keys_distinct(self.entries_view())
    }

    /// An empty history.
    pub fn new() -> (r: ProcessHistory)
        ensures
            r.wf(),
            r.entries_view().len() == 0,
    {
        let r = ProcessHistory { entries: Vec::new() };
        assert(r.entries_view() =~= Seq::<EntryView>::empty());
        r
    }

    /// The number of processes in the history.
    pub fn len(&self) -> (r: usize)
        ensures
            r == self.entries_view().len(),
    {
        self.entries.len()
    }

    fn find(&self, key: ProcessKey) -> (r: Option<usize>)
        requires
            self.wf(),
        ensures
            match r {
                Some(i) => key_index(self.entries_view(), key) == Some(i as int),
                None => key_index(self.entries_view(), key) is None,
            },
    {
        let ghost ev = self.entries_view();
        let mut i: usize = 0;
        while i < self.entries.len()
            invariant
                i <= self.entries.len(),
                ev == self.entries_view(),
                ev.len() == self.entries@.len(),
                keys_distinct(ev),
                forall|j: int| 0 <= j < i ==> ev[j].key != key,
            decreases self.entries.len() - i,
        {
            if self.entries[i].key == key {
                assert(ev[i as int].key == key);
                let ghost c = choose|j: int| 0 <= j < ev.len() && ev[j].key == key;
                proof {
                    if c < i {
                        assert(ev[c].key != ev[i as int].key);
                    } else if c > i {
                        assert(ev[i as int].key != ev[c].key);
                    }
                }
                return Some(i);
            }
            i += 1;
        }
        None
    }

    fn observe(&mut self, obs: &ProcessObservation, now: u128)
        requires
            old(self).wf(),
        ensures
            final(self).wf(),
            final(self).entries_view() == observe_seq(
                old(self).entries_view(),
                observation_view(*obs),
                now,
            ),
    {
        let key = process_key(obs.pid, obs.start_time);
        let sample = ProcessSample { ts_ms: now, cpu_bits: obs.cpu_bits, memory_bytes: obs.memory_bytes };
        let ghost ov = observation_view(*obs);
        assert(sample == (ProcessSample { ts_ms: now, ..ov.3 }));
        let ghost before = self.entries_view();
        match self.find(key) {
            Some(i) => {
                let mut samples = VecDeque::new();
                std::mem::swap(&mut samples, &mut self.entries[i].samples);
                samples.push_back(sample);
                prune_old_samples(&mut samples, now);
                let entry = ProcessHistoryEntry { key, pid: obs.pid, name: obs.name.clone(), samples };
                self.entries.set(i, entry);
                assert(self.entries_view() =~= observe_seq(before, ov, now));
            },
            None => {
                let mut samples = VecDeque::new();
                samples.push_back(sample);
                assert(samples@ =~= seq![sample]);
                prune_old_samples(&mut samples, now);
                let entry = ProcessHistoryEntry { key, pid: obs.pid, name: obs.name.clone(), samples };
                self.entries.push(entry);
                assert(self.entries_view() =~= observe_seq(before, ov, now));
            },
        }
    }

    /// One collection cycle at `ts_ms`: records every observation (see
    /// `observe_seq`), then drops old samples everywhere and forgets the
    /// processes left without samples.
    pub fn update(&mut self, observed: &Vec<ProcessObservation>, ts_ms: u128)
        requires
            old(self).wf(),
        ensures
            final(self).wf(),
            final(self).entries_view() == update_seq(
                old(self).entries_view(),
                observed@.map_values(|o: ProcessObservation| observation_view(o)),
                ts_ms,
            ),
    {
        let ghost ovs = observed@.map_values(|o: ProcessObservation| observation_view(o));
        let ghost start = self.entries_view();
        let mut i: usize = 0;
        while i < observed.len()
            invariant
                i <= observed.len(),
                ovs == observed@.map_values(|o: ProcessObservation| observation_view(o)),
                self.wf(),
                self.entries_view() == observe_all(start, ovs.take(i as int), ts_ms),
            decreases observed.len() - i,
        {
            self.observe(&observed[i], ts_ms);
            assert(ovs.take(i + 1).drop_last() =~= ovs.take(i as int));
            i += 1;
        }
        assert(ovs.take(observed.len() as int) =~= ovs);
        self.retain_recent(ts_ms);
    }

    fn retain_recent(&mut self, now: u128)
        requires
            old(self).wf(),
        ensures
            final(self).wf(),
            final(self).entries_view() == retain_seq(old(self).entries_view(), now),
    {
        let ghost before = self.entries_view();
        let mut old_entries: Vec<ProcessHistoryEntry> = Vec::new();
        std::mem::swap(&mut old_entries, &mut self.entries);
        let ghost olds = old_entries@;
        let mut kept: Vec<ProcessHistoryEntry> = Vec::new();
        for e in it: old_entries.into_iter()
            invariant
                olds == it.seq(),
                before == olds.map_values(
                    |e: ProcessHistoryEntry|
                        EntryView { key: e.key, pid: e.pid, name: e.name@, samples: e.samples@ },
                ),
                keys_distinct(before),
                (ProcessHistory { entries: kept }).entries_view() == retain_seq(
                    before.take(it.index() as int),
                    now,
                ),
                forall|a: int|
                    #![trigger kept@[a]]
                    0 <= a < kept@.len() ==> exists|b: int|
                        0 <= b < it.index() && before[b].key == kept@[a].key,
                forall|a: int, c: int|
                    #![trigger kept@[a], kept@[c]]
                    0 <= a < c < kept@.len() ==> kept@[a].key != kept@[c].key,
        {
            let ghost idx = it.index() as int;
            let mut e = e;
            prune_old_samples(&mut e.samples, now);
            assert(before.take(idx + 1).drop_last() =~= before.take(idx));
            assert(before.take(idx + 1).last() == before[idx]);
            if e.samples.len() > 0 {
                let ghost k0 = kept@;
                kept.push(e);
                proof {
                    assert forall|a: int| 0 <= a < kept@.len() - 1 implies #[trigger] kept@[a].key
                        != kept@[kept@.len() - 1].key by {
                        assert(kept@[a] == k0[a]);
                        let b = choose|b: int| 0 <= b < idx && before[b].key == k0[a].key;
                        assert(before[idx].key == kept@[kept@.len() - 1].key);
                    }
                    assert forall|a: int| 0 <= a < kept@.len() implies exists|b: int|
                        0 <= b < idx + 1 && before[b].key == #[trigger] kept@[a].key by {
                        if a < kept@.len() - 1 {
                            assert(kept@[a] == k0[a]);
                            let b = choose|b: int| 0 <= b < idx && before[b].key == k0[a].key;
                            assert(0 <= b < idx + 1 && before[b].key == kept@[a].key);
                        } else {
                            assert(before[idx].key == kept@[a].key);
                        }
                    }
                    assert((ProcessHistory { entries: kept }).entries_view() =~= retain_seq(
                        before.take(idx + 1),
                        now,
                    ));
                }
            } else {
                assert(retain_seq(before.take(idx + 1), now) == retain_seq(before.take(idx), now));
            }
        }
        assert(before.take(olds.len() as int) =~= before);
        self.entries = kept;
    }

    /// The windows of all processes that have samples within five minutes
    /// of `ts_ms`, in history order.
    pub fn windows(&self, ts_ms: u128) -> (r: Vec<ProcessWindow>)
        ensures
            windows_view(r@) == windows_seq(self.entries_view(), ts_ms),
    {
        let ghost ev = self.entries_view();
        let mut out: Vec<ProcessWindow> = Vec::new();
        let mut i: usize = 0;
        while i < self.entries.len()
            invariant
                i <= self.entries.len(),
                ev == self.entries_view(),
                ev.len() == self.entries@.len(),
                windows_view(out@) == windows_seq(ev.take(i as int), ts_ms),
            decreases self.entries.len() - i,
        {
            let e = &self.entries[i];
            assert(ev.take(i + 1).drop_last() =~= ev.take(i as int));
            assert(ev.take(i + 1).last() == ev[i as int]);
            let ghost ei = ev[i as int];
            let (cpu, last, count) = window_samples(&e.samples, ts_ms);
            if count > 0 {
                let w = ProcessWindow {
                    pid: e.pid,
                    name: e.name.clone(),
                    cpu_bits: cpu,
                    current: last,
                    samples_5m: count as u32,
                };
                out.push(w);
                assert(windows_view(out@) =~= windows_seq(ev.take(i as int), ts_ms).push(
                    window_of(ei, ts_ms)->0,
                ));
            }
            i += 1;
        }
        assert(ev.take(self.entries.len() as int) =~= ev);
        out
    }
}

/// The samples within five minutes of `now`, in order.
pub open spec fn in_window(samples: Seq<ProcessSample>, now: u128) -> Seq<ProcessSample>
    decreases samples.len(),
{
    if samples.len() == 0 {
        Seq::empty()
    } else {
        let rest = in_window(samples.drop_last(), now);
        if too_old(samples.last().ts_ms, now) {
            rest
        } else {
            rest.push(samples.last())
        }
    }
}

/// The recent samples of one process, as the dashboard ranks them.
pub struct ProcessWindow {
    pub pid: u32,
    pub name: String,
    /// The CPU readings within the window, oldest first.
    pub cpu_bits: Vec<u32>,
    /// The newest reading within the window.
    pub current: ProcessSample,
    /// How many readings fall within the window (truncated to `u32`).
    pub samples_5m: u32,
}

/// The model of a window: pid, name, CPU readings, newest reading, count.
pub open spec fn window_view(w: ProcessWindow) -> (u32, Seq<char>, Seq<u32>, ProcessSample, u32) {
    (w.pid, w.name@, w.cpu_bits@, w.current, w.samples_5m)
}

/// The models of a list of windows.
pub open spec fn windows_view(ws: Seq<ProcessWindow>) -> Seq<
    (u32, Seq<char>, Seq<u32>, ProcessSample, u32),
> {
    ws.map_values(|w: ProcessWindow| window_view(w))
}

/// The window of one entry, when it has samples within the window.
pub open spec fn window_of(e: EntryView, now: u128) -> Option<
    (u32, Seq<char>, Seq<u32>, ProcessSample, u32),
> {
    let valid = in_window(e.samples, now);
    if valid.len() == 0 {
        None
    } else {
        Some(
            (
                e.pid,
                e.name,
                valid.map_values(|s: ProcessSample| s.cpu_bits),
                valid.last(),
                valid.len() as u32,
            ),
        )
    }
}

/// The windows of all entries that have one, in order.
pub open spec fn windows_seq(entries: Seq<EntryView>, now: u128) -> Seq<
    (u32, Seq<char>, Seq<u32>, ProcessSample, u32),
>
    decreases entries.len(),
{
    if entries.len() == 0 {
        Seq::empty()
    } else {
        let rest = windows_seq(entries.drop_last(), now);
        match window_of(entries.last(), now) {
            Some(w) => rest.push(w),
            None => rest,
        }
    }
}

fn window_samples(samples: &VecDeque<ProcessSample>, now: u128) -> (r: (
    Vec<u32>,
    ProcessSample,
    usize,
))
    ensures
        r.2 == in_window(samples@, now).len(),
        r.0@ == in_window(samples@, now).map_values(|s: ProcessSample| s.cpu_bits),
        r.2 > 0 ==> r.1 == in_window(samples@, now).last(),
{
    let mut cpu: Vec<u32> = Vec::new();
    let mut last = ProcessSample { ts_ms: 0, cpu_bits: 0, memory_bytes: 0 };
    let mut count: usize = 0;
    let mut i: usize = 0;
    while i < samples.len()
        invariant
            i <= samples@.len(),
            count == in_window(samples@.take(i as int), now).len(),
            cpu@ == in_window(samples@.take(i as int), now).map_values(
                |s: ProcessSample| s.cpu_bits,
            ),
            count > 0 ==> last == in_window(samples@.take(i as int), now).last(),
            count <= i,
        decreases samples@.len() - i,
    {
        let s = samples[i];
        assert(samples@.take(i + 1).drop_last() =~= samples@.take(i as int));
        assert(samples@.take(i + 1).last() == samples@[i as int]);
        if !is_too_old(s.ts_ms, now) {
            cpu.push(s.cpu_bits);
            last = s;
            count += 1;
            assert(cpu@ =~= in_window(samples@.take(i + 1), now).map_values(
                |s: ProcessSample| s.cpu_bits,
            ));
        }
        i += 1;
    }
    assert(samples@.take(samples@.len() as int) =~= samples@);
    (cpu, last, count)
}

} // verus!
