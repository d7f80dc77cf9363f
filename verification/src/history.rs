//! The activity log: a bounded record of which window and program were in the
//! foreground, one entry per tracked minute, and the per-program usage summary.
use vstd::prelude::*;
use vstd::string::*;
use std::collections::VecDeque;
use crate::clock::{is_date_text, local_date, local_timestamp};
use crate::text::{has_prefix, starts_with, to_owned_string};

verus! {

/// The log keeps at most this many entries; the oldest go first.
pub const MAX_ENTRIES: usize = 500;

/// One observation of the foreground window.
#[derive(Debug, Clone)]
pub struct HistoryEntry {
    pub time: String,
    pub window: String,
    pub process: String,
    pub event: String,
}

/// What an entry holds, as text.
pub struct EntryView {
    pub time: Seq<char>,
    pub window: Seq<char>,
    pub process: Seq<char>,
    pub event: Seq<char>,
}

impl View for HistoryEntry {
    type V = EntryView;

    open spec fn view(&self) -> EntryView {
        EntryView {
            time: self.time@,
            window: self.window@,
            process: self.process@,
            event: self.event@,
        }
    }
}

/// The event name that tracking records.
pub open spec fn active_event() -> Seq<char> {
    seq!['a', 'c', 't', 'i', 'v', 'e']
}

/// The views of a sequence of entries.
pub open spec fn entry_views(s: Seq<HistoryEntry>) -> Seq<EntryView> {
    s.map_values(|e: HistoryEntry| e@)
}

/// The views of a sequence of entry references.
pub open spec fn ref_views(s: Seq<&HistoryEntry>) -> Seq<EntryView> {
    s.map_values(|e: &HistoryEntry| e@)
}

/// The entries whose timestamp begins with `date`.
pub open spec fn entries_on(s: Seq<EntryView>, date: Seq<char>) -> Seq<EntryView>
    decreases s.len(),
{
    if s.len() == 0 {
        Seq::empty()
    } else if has_prefix(s.last().time, date) {
        entries_on(s.drop_last(), date).push(s.last())
    } else {
        entries_on(s.drop_last(), date)
    }
}

/// How many entries name `app` as their process.
pub open spec fn count_process(s: Seq<EntryView>, app: Seq<char>) -> nat
    decreases s.len(),
{
    if s.len() == 0 {
        0
    } else {
        count_process(s.drop_last(), app) + if s.last().process == app {
            1nat
        } else {
            0nat
        }
    }
}

/// The log after recording `e`: the oldest entry leaves when the log is full.
pub open spec fn after_record(log: Seq<EntryView>, e: EntryView) -> Seq<EntryView> {
    if log.len() >= MAX_ENTRIES {
        log.drop_first().push(e)
    } else {
        log.push(e)
    }
}

/// The bounded activity log.
pub struct ActivityHistory {
    log: VecDeque<HistoryEntry>,
}

impl View for ActivityHistory {
    type V = Seq<EntryView>;

    closed spec fn view(&self) -> Seq<EntryView> {
        entry_views(self.log@)
    }
}

impl ActivityHistory {
    #[verifier::type_invariant]
    spec fn bounded(self) -> bool {
        self.log@.len() <= MAX_ENTRIES
    }

    /// A log holding the first `MAX_ENTRIES` of the entries read back from disk.
    pub fn new(loaded: Vec<HistoryEntry>) -> (h: Self)
        ensures
            h@ == entry_views(loaded@).take(
                if loaded@.len() < MAX_ENTRIES {
                    loaded@.len() as int
                } else {
                    MAX_ENTRIES as int
                },
            ),
    {
        let mut log: VecDeque<HistoryEntry> = VecDeque::with_capacity(MAX_ENTRIES);
        let mut loaded = loaded;
        let ghost all = loaded@;
        loaded.truncate(MAX_ENTRIES);
        let ghost kept = loaded@;
        assert(kept =~= all.take(kept.len() as int));
        let mut rest: Vec<HistoryEntry> = Vec::new();
        // move the kept entries into the deque, in order
        let k = loaded.len();
        // reverse, so that popping yields the entries in their loaded order
        while loaded.len() > 0
            invariant
                rest@.len() + loaded@.len() == k,
                forall|j: int| 0 <= j < loaded@.len() ==> loaded@[j] == kept[j],
                forall|j: int| 0 <= j < rest@.len() ==> rest@[j] == kept[k - 1 - j],
                k == kept.len(),
            decreases loaded@.len(),
        {
            let e = loaded.pop().unwrap();
            rest.push(e);
        }
        while rest.len() > 0
            invariant
                log@.len() + rest@.len() == k,
                forall|j: int| 0 <= j < log@.len() ==> log@[j] == kept[j],
                forall|j: int| 0 <= j < rest@.len() ==> rest@[j] == kept[k - 1 - j],
                k == kept.len(),
                k <= MAX_ENTRIES,
            decreases rest@.len(),
        {
            let e = rest.pop().unwrap();
            log.push_back(e);
        }
        proof {
            assert(log@ =~= kept);
            assert(entry_views(log@) =~= entry_views(all).take(k as int));
        }
        ActivityHistory { log }
    }

    /// All entries, oldest first.
    pub fn entries(&self) -> (r: Vec<&HistoryEntry>)
        ensures
            ref_views(r@) == self@,
    {
        let n = self.log.len();
        let mut r: Vec<&HistoryEntry> = Vec::new();
        let mut i: usize = 0;
        while i < n
            invariant
                i <= n,
                n == self.log@.len(),
                r@.len() == i,
                forall|j: int| 0 <= j < i ==> #[trigger] r@[j] == self.log@[j],
            decreases n - i,
        {
            r.push(&self.log[i]);
            i += 1;
        }
        assert(ref_views(r@) =~= entry_views(self.log@));
        r
    }

    /// Number of entries.
    pub fn len(&self) -> (n: usize)
        ensures
            n == self@.len(),
            n <= MAX_ENTRIES,
    {
        proof {
            use_type_invariant(self);
        }
        self.log.len()
    }

    /// Records an observation stamped `time`.
    pub fn record_at(&mut self, time: String, window: &str, process: &str)
        ensures
            final(self)@ == after_record(
                old(self)@,
                EntryView { time: time@, window: window@, process: process@, event: active_event() },
            ),
            final(self)@.len() <= MAX_ENTRIES,
    {
        proof {
            use_type_invariant(&*self);
        }
        let mut event = String::new();
        crate::text::push_str(&mut event, "active");
        proof {
            reveal_strlit("active");
            assert(event@ =~= active_event());
        }
        let entry = HistoryEntry {
            time,
            window: to_owned_string(window),
            process: to_owned_string(process),
            event,
        };
        let ghost before = self.log@;
        let ghost e = entry@;
        let mut log: VecDeque<HistoryEntry> = VecDeque::new();
        std::mem::swap(&mut log, &mut self.log);
        if log.len() >= MAX_ENTRIES {
            log.pop_front();
        }
        log.push_back(entry);
        proof {
            if before.len() >= MAX_ENTRIES {
                assert(entry_views(log@) =~= entry_views(before).drop_first().push(e));
            } else {
                assert(entry_views(log@) =~= entry_views(before).push(e));
            }
        }
        std::mem::swap(&mut log, &mut self.log);
    }

    /// Records an observation stamped with the current local time.
    pub fn record(&mut self, window: &str, process: &str)
        ensures
            exists|time: Seq<char>|
                final(self)@ == after_record(
                    old(self)@,
                    EntryView { time, window: window@, process: process@, event: active_event() },
                ),
    {
        let time = local_timestamp();
        self.record_at(time, window, process);
    }

    /// The entries whose timestamp begins with `date`, oldest first.
    pub fn entries_on(&self, date: &str) -> (r: Vec<&HistoryEntry>)
        ensures
            ref_views(r@) == entries_on(self@, date@),
            r@.len() <= MAX_ENTRIES,
    {
        proof {
            use_type_invariant(self);
        }
        let n = self.log.len();
        let mut r: Vec<&HistoryEntry> = Vec::new();
        let mut i: usize = 0;
        while i < n
            invariant
                i <= n,
                n == self.log@.len(),
                n <= MAX_ENTRIES,
                r@.len() <= i,
                ref_views(r@) == entries_on(entry_views(self.log@.take(i as int)), date@),
            decreases n - i,
        {
            let e = &self.log[i];
            proof {
                let t = entry_views(self.log@.take(i + 1));
                assert(t.drop_last() =~= entry_views(self.log@.take(i as int)));
                assert(t.last() == e@);
            }
            if starts_with(e.time.as_str(), date) {
                r.push(e);
                assert(ref_views(r@) =~= entries_on(entry_views(self.log@.take(i as int)), date@).push(e@));
            }
            i += 1;
        }
        assert(self.log@.take(n as int) =~= self.log@);
        r
    }

    /// Today's entries, oldest first.
    pub fn get_today(&self) -> (r: Vec<&HistoryEntry>)
        ensures
            exists|date: Seq<char>|
                is_date_text(date) && ref_views(r@) == entries_on(self@, date),
            r@.len() <= MAX_ENTRIES,
    {
        let today = local_date();
        self.entries_on(&today)
    }
}


/// Minutes of use of one program.
#[derive(Debug, Clone)]
pub struct AppSummary {
    pub app: String,
    pub minutes: u32,
}

/// Some line of the summary `r` is about `p`.
pub open spec fn lists_app(r: Seq<AppSummary>, p: Seq<char>) -> bool {
    exists|j: int| 0 <= j < r.len() && #[trigger] r[j].app@ == p
}

/// `r` is a usage summary of the entries `s`: each program that occurs in `s`
/// once, with the number of entries that name it, most used first.
pub open spec fn summarizes(r: Seq<AppSummary>, s: Seq<EntryView>) -> bool {
    &&& forall|j: int|
        0 <= j < r.len() ==> r[j].minutes == count_process(s, #[trigger] r[j].app@) && r[j].minutes
            > 0
    &&& forall|i: int| 0 <= i < s.len() ==> lists_app(r, #[trigger] s[i].process)
    &&& forall|j1: int, j2: int|
        0 <= j1 < j2 < r.len() ==> #[trigger] r[j1].app@ != #[trigger] r[j2].app@
    &&& forall|j1: int, j2: int|
        0 <= j1 <= j2 < r.len() ==> #[trigger] r[j1].minutes >= #[trigger] r[j2].minutes
}

proof fn lemma_count_push(s: Seq<EntryView>, e: EntryView, app: Seq<char>)
    ensures
        count_process(s.push(e), app) == count_process(s, app) + if e.process == app {
            1nat
        } else {
            0nat
        },
{
    assert(s.push(e).drop_last() =~= s);
}

proof fn lemma_count_absent(s: Seq<EntryView>, app: Seq<char>)
    requires
        forall|t: int| 0 <= t < s.len() ==> #[trigger] s[t].process != app,
    ensures
        count_process(s, app) == 0,
    decreases s.len(),
{
    if s.len() > 0 {
        lemma_count_absent(s.drop_last(), app);
    }
}

/// Some element of `apps` reads `p`.
pub open spec fn names_app(apps: Seq<String>, p: Seq<char>) -> bool {
    exists|k: int| 0 <= k < apps.len() && #[trigger] apps[k]@ == p
}

/// Counts the entries per program, in order of first appearance.
fn tally(entries: &Vec<&HistoryEntry>) -> (res: (Vec<String>, Vec<u32>))
    requires
        entries@.len() <= u32::MAX,
    ensures
        res.0@.len() == res.1@.len(),
        forall|k: int|
            0 <= k < res.0@.len() ==> res.1@[k] == count_process(ref_views(entries@), #[trigger] res.0@[k]@)
                && res.1@[k] > 0,
        forall|k: int| 0 <= k < res.1@.len() ==> #[trigger] res.1@[k] > 0,
        forall|i: int| 0 <= i < entries@.len() ==> names_app(res.0@, #[trigger] entries@[i].process@),
        forall|k1: int, k2: int|
            0 <= k1 < k2 < res.0@.len() ==> #[trigger] res.0@[k1]@ != #[trigger] res.0@[k2]@,
{
    let n = entries.len();
    let mut apps: Vec<String> = Vec::new();
    let mut counts: Vec<u32> = Vec::new();
    let mut i: usize = 0;
    while i < n
        invariant
            i <= n,
            n == entries@.len(),
            n <= u32::MAX,
            apps@.len() == counts@.len(),
            forall|k: int|
                0 <= k < apps@.len() ==> counts@[k] == count_process(
                    ref_views(entries@.take(i as int)),
                    #[trigger] apps@[k]@,
                ) && counts@[k] > 0 && counts@[k] <= i,
            forall|t: int| 0 <= t < i ==> names_app(apps@, #[trigger] entries@[t].process@),
            forall|k1: int, k2: int|
                0 <= k1 < k2 < apps@.len() ==> #[trigger] apps@[k1]@ != #[trigger] apps@[k2]@,
        decreases n - i,
    {
        let e = entries[i];
        let ghost pre = ref_views(entries@.take(i as int));
        proof {
            assert(ref_views(entries@.take(i + 1)) =~= pre.push(e@));
        }
        let m = apps.len();
        let ghost old_apps = apps@;
        let ghost old_counts = counts@;
        let mut k: usize = 0;
        let mut found = false;
        while k < m && !found
            invariant
                k <= m,
                m == apps@.len(),
                found ==> k < m && apps@[k as int]@ == e.process@,
                forall|t: int| 0 <= t < k ==> #[trigger] apps@[t]@ != e.process@,
            decreases m - k + if found {
                0int
            } else {
                1int
            },
        {
            if apps[k] == e.process {
                found = true;
            } else {
                k += 1;
            }
        }
        if found {
            let c = counts[k];
            counts.set(k, c + 1);
        } else {
            apps.push(e.process.clone());
            counts.push(1);
        }
        proof {
            assert forall|a: Seq<char>|
                count_process(ref_views(entries@.take(i + 1)), a) == count_process(pre, a) + if e.process@
                    == a {
                    1nat
                } else {
                    0nat
                } by {
                lemma_count_push(pre, e@, a);
            }
            assert forall|j: int| 0 <= j < apps@.len() implies counts@[j] == count_process(
                ref_views(entries@.take(i + 1)),
                #[trigger] apps@[j]@,
            ) && counts@[j] > 0 && counts@[j] <= i + 1 by {
                if found {
                    assert(old_apps[j] == apps@[j]);
                    assert(old_counts[j] == count_process(pre, old_apps[j]@));
                    if j != k {
                        assert(apps@[j]@ != apps@[k as int]@);
                        assert(counts@[j] == old_counts[j]);
                    }
                } else if j < m {
                    assert(old_apps[j] == apps@[j]);
                    assert(old_counts[j] == count_process(pre, old_apps[j]@));
                    assert(apps@[j]@ != e.process@);
                    assert(counts@[j] == old_counts[j]);
                } else {
                    assert(apps@[j]@ == e.process@);
                    assert forall|t: int| 0 <= t < pre.len() implies #[trigger] pre[t].process
                        != e.process@ by {
                        assert(pre[t].process == entries@[t].process@);
                        assert(names_app(old_apps, entries@[t].process@));
                        let k3 = choose|k3: int| 0 <= k3 < m && #[trigger] old_apps[k3]@ == entries@[t].process@;
                        assert(old_apps[k3]@ != e.process@);
                    }
                    lemma_count_absent(pre, e.process@);
                }
            }
            assert forall|t: int| 0 <= t < i + 1 implies names_app(
                apps@,
                #[trigger] entries@[t].process@,
            ) by {
                if t == i {
                    if found {
                        assert(apps@[k as int]@ == entries@[t].process@);
                    } else {
                        assert(apps@[m as int]@ == entries@[t].process@);
                    }
                } else {
                    assert(names_app(old_apps, entries@[t].process@));
                    let k2 = choose|k2: int| 0 <= k2 < m && #[trigger] old_apps[k2]@ == entries@[t].process@;
                    assert(apps@[k2]@ == entries@[t].process@);
                }
            }
        }
        i += 1;
    }
    proof {
        assert(entries@.take(n as int) =~= entries@);
        assert forall|k: int| 0 <= k < counts@.len() implies #[trigger] counts@[k] > 0 by {
            assert(apps@[k]@ == apps@[k]@);
        }
    }
    (apps, counts)
}

/// `a` is the line for some program of `apps`, with its count.
pub open spec fn tallied(apps: Seq<String>, counts: Seq<u32>, a: AppSummary) -> bool {
    exists|k: int| 0 <= k < apps.len() && #[trigger] apps[k]@ == a.app@ && counts[k] == a.minutes
}

/// Position `t` occurs in `idx`.
pub open spec fn has_index(idx: Seq<int>, t: int) -> bool {
    exists|j: int| 0 <= j < idx.len() && #[trigger] idx[j] == t
}

/// The per-program counts as summary lines, most used first; programs with
/// equal counts keep their order.
fn order_by_use(apps: &Vec<String>, counts: &Vec<u32>) -> (r: Vec<AppSummary>)
    requires
        apps@.len() == counts@.len(),
        forall|k: int| 0 <= k < counts@.len() ==> #[trigger] counts@[k] > 0,
        forall|k1: int, k2: int|
            0 <= k1 < k2 < apps@.len() ==> #[trigger] apps@[k1]@ != #[trigger] apps@[k2]@,
    ensures
        forall|j: int| 0 <= j < r@.len() ==> tallied(apps@, counts@, #[trigger] r@[j]),
        forall|k: int| 0 <= k < apps@.len() ==> lists_app(r@, #[trigger] apps@[k]@),
        forall|j1: int, j2: int|
            0 <= j1 < j2 < r@.len() ==> #[trigger] r@[j1].app@ != #[trigger] r@[j2].app@,
        forall|j1: int, j2: int|
            0 <= j1 <= j2 < r@.len() ==> #[trigger] r@[j1].minutes >= #[trigger] r@[j2].minutes,
{
    let m = apps.len();
    let mut top: u32 = 0;
    let mut k: usize = 0;
    while k < m
        invariant
            k <= m,
            m == counts@.len(),
            forall|t: int| 0 <= t < k ==> #[trigger] counts@[t] <= top,
        decreases m - k,
    {
        if counts[k] > top {
            top = counts[k];
        }
        k += 1;
    }
    let mut r: Vec<AppSummary> = Vec::new();
    let ghost mut idx: Seq<int> = Seq::empty();
    let mut level: u32 = top;
    while level > 0
        invariant
            m == apps@.len(),
            m == counts@.len(),
            forall|t: int| 0 <= t < m ==> #[trigger] counts@[t] <= top,
            forall|t: int| 0 <= t < m ==> #[trigger] counts@[t] > 0,
            forall|k1: int, k2: int|
                0 <= k1 < k2 < m ==> #[trigger] apps@[k1]@ != #[trigger] apps@[k2]@,
            level <= top,
            idx.len() == r@.len(),
            forall|j: int|
                0 <= j < r@.len() ==> 0 <= #[trigger] idx[j] < m && r@[j].app@ == apps@[idx[j]]@
                    && r@[j].minutes == counts@[idx[j]],
            forall|j1: int, j2: int| 0 <= j1 < j2 < r@.len() ==> #[trigger] idx[j1] != #[trigger] idx[j2],
            forall|j1: int, j2: int|
                0 <= j1 <= j2 < r@.len() ==> #[trigger] r@[j1].minutes >= #[trigger] r@[j2].minutes,
            forall|j: int| 0 <= j < r@.len() ==> #[trigger] r@[j].minutes > level,
            forall|t: int| 0 <= t < m && #[trigger] counts@[t] > level ==> has_index(idx, t),
        decreases level,
    {
        let mut k: usize = 0;
        while k < m
            invariant
                k <= m,
                m == apps@.len(),
                m == counts@.len(),
                forall|k1: int, k2: int|
                    0 <= k1 < k2 < m ==> #[trigger] apps@[k1]@ != #[trigger] apps@[k2]@,
                idx.len() == r@.len(),
                forall|j: int|
                    0 <= j < r@.len() ==> 0 <= #[trigger] idx[j] < m && r@[j].app@ == apps@[idx[j]]@
                        && r@[j].minutes == counts@[idx[j]],
                forall|j1: int, j2: int|
                    0 <= j1 < j2 < r@.len() ==> #[trigger] idx[j1] != #[trigger] idx[j2],
                forall|j1: int, j2: int|
                    0 <= j1 <= j2 < r@.len() ==> #[trigger] r@[j1].minutes >= #[trigger] r@[j2].minutes,
                level > 0,
                forall|j: int| 0 <= j < r@.len() ==> #[trigger] r@[j].minutes >= level,
                forall|j: int|
                    0 <= j < r@.len() && #[trigger] r@[j].minutes == level ==> idx[j] < k,
                forall|t: int|
                    0 <= t < m && (#[trigger] counts@[t] > level || (counts@[t] == level && t < k))
                        ==> has_index(idx, t),
            decreases m - k,
        {
            if counts[k] == level {
                let item = AppSummary { app: apps[k].clone(), minutes: level };
                proof {
                    assert forall|j: int| 0 <= j < r@.len() implies idx[j] != k by {
                        if idx[j] == k {
                            assert(r@[j].minutes == level);
                        }
                    }
                }
                r.push(item);
                proof {
                    let old_idx = idx;
                    idx = idx.push(k as int);
                    assert forall|t: int|
                        0 <= t < m && (#[trigger] counts@[t] > level || (counts@[t] == level && t
                            < k + 1)) implies has_index(idx, t) by {
                        if t == k {
                            assert(idx[idx.len() - 1] == t);
                        } else {
                            assert(has_index(old_idx, t));
                            let j = choose|j: int| 0 <= j < old_idx.len() && #[trigger] old_idx[j] == t;
                            assert(idx[j] == t);
                        }
                    }
                }
            }
            k += 1;
        }
        level -= 1;
    }
    proof {
        assert forall|t: int| 0 <= t < m implies lists_app(r@, #[trigger] apps@[t]@) by {
            assert(counts@[t] > 0);
            assert(has_index(idx, t));
            let j = choose|j: int| 0 <= j < idx.len() && #[trigger] idx[j] == t;
            assert(r@[j].app@ == apps@[t]@);
        }
        assert forall|j1: int, j2: int|
            0 <= j1 < j2 < r@.len() implies #[trigger] r@[j1].app@ != #[trigger] r@[j2].app@ by {
            assert(idx[j1] != idx[j2]);
        }
        assert forall|j: int| 0 <= j < r@.len() implies tallied(apps@, counts@, #[trigger] r@[j]) by {
            let k = idx[j];
            assert(apps@[k]@ == r@[j].app@);
        }
    }
    r
}

/// The usage summary of `entries`: each program once, with the number of
/// entries that name it, most used first.
pub fn summarize(entries: &Vec<&HistoryEntry>) -> (r: Vec<AppSummary>)
    requires
        entries@.len() <= u32::MAX,
    ensures
        summarizes(r@, ref_views(entries@)),
{
    let (apps, counts) = tally(entries);
    let r = order_by_use(&apps, &counts);
    proof {
        let s = ref_views(entries@);
        assert forall|j: int| 0 <= j < r@.len() implies r@[j].minutes == count_process(
            s,
            #[trigger] r@[j].app@,
        ) && r@[j].minutes > 0 by {
            assert(tallied(apps@, counts@, r@[j]));
            let k = choose|k: int|
                0 <= k < apps@.len() && #[trigger] apps@[k]@ == r@[j].app@ && counts@[k] == r@[j].minutes;
            assert(counts@[k] == count_process(s, apps@[k]@));
        }
        assert forall|i: int| 0 <= i < s.len() implies lists_app(r@, #[trigger] s[i].process) by {
            assert(s[i].process == entries@[i].process@);
            assert(names_app(apps@, entries@[i].process@));
            let k = choose|k: int| 0 <= k < apps@.len() && #[trigger] apps@[k]@ == entries@[i].process@;
            assert(lists_app(r@, apps@[k]@));
        }
    }
    r
}

impl ActivityHistory {
    /// Today's usage per program, most used first.
    pub fn get_app_summary_today(&self) -> (r: Vec<AppSummary>)
        ensures
            exists|date: Seq<char>| is_date_text(date) && summarizes(r@, entries_on(self@, date)),
    {
        let today = self.get_today();
        summarize(&today)
    }
}

// ---------------------------------------------------------------------------
// Laws
// ---------------------------------------------------------------------------

/// Recording keeps the newest entries: the new entry comes last, the log
/// grows by one until it holds `MAX_ENTRIES`, and then the oldest entry leaves.
pub proof fn law_record_keeps_newest(log: Seq<EntryView>, e: EntryView)
    requires
        log.len() <= MAX_ENTRIES,
    ensures
        after_record(log, e).len() == if log.len() < MAX_ENTRIES {
            log.len() + 1
        } else {
            MAX_ENTRIES as nat
        },
        after_record(log, e).last() == e,
        after_record(log, e).drop_last() == log.skip(log.len() + 1 - after_record(log, e).len()),
{
    assert(after_record(log, e).drop_last() =~= log.skip(log.len() + 1 - after_record(log, e).len()));
}

/// The minutes of all the lines of a summary.
pub open spec fn total_minutes(r: Seq<AppSummary>) -> nat
    decreases r.len(),
{
    if r.len() == 0 {
        0
    } else {
        total_minutes(r.drop_last()) + r.last().minutes as nat
    }
}

/// The entries of `s` counted for each program of `r`, added up.
pub open spec fn sum_counts(s: Seq<EntryView>, r: Seq<AppSummary>) -> nat
    decreases r.len(),
{
    if r.len() == 0 {
        0
    } else {
        sum_counts(s, r.drop_last()) + count_process(s, r.last().app@)
    }
}

/// How many lines of `r` are about `p`.
pub open spec fn hits(r: Seq<AppSummary>, p: Seq<char>) -> nat
    decreases r.len(),
{
    if r.len() == 0 {
        0
    } else {
        hits(r.drop_last(), p) + if r.last().app@ == p {
            1nat
        } else {
            0nat
        }
    }
}

proof fn lemma_sum_counts_push(s: Seq<EntryView>, e: EntryView, r: Seq<AppSummary>)
    ensures
        sum_counts(s.push(e), r) == sum_counts(s, r) + hits(r, e.process),
    decreases r.len(),
{
    if r.len() > 0 {
        lemma_sum_counts_push(s, e, r.drop_last());
        lemma_count_push(s, e, r.last().app@);
    }
}

proof fn lemma_hits_one(r: Seq<AppSummary>, p: Seq<char>)
    requires
        forall|j1: int, j2: int|
            0 <= j1 < j2 < r.len() ==> #[trigger] r[j1].app@ != #[trigger] r[j2].app@,
    ensures
        lists_app(r, p) ==> hits(r, p) == 1,
        !lists_app(r, p) ==> hits(r, p) == 0,
    decreases r.len(),
{
    if r.len() > 0 {
        let d = r.drop_last();
        assert forall|j1: int, j2: int| 0 <= j1 < j2 < d.len() implies #[trigger] d[j1].app@
            != #[trigger] d[j2].app@ by {
            assert(d[j1] == r[j1] && d[j2] == r[j2]);
        }
        lemma_hits_one(d, p);
        if lists_app(d, p) {
            let j = choose|j: int| 0 <= j < d.len() && #[trigger] d[j].app@ == p;
            assert(r[j] == d[j]);
            assert(r[j].app@ != r[r.len() - 1].app@);
            assert(lists_app(r, p));
        } else if r.last().app@ == p {
            assert(lists_app(r, p));
        } else {
            assert forall|j: int| 0 <= j < r.len() implies #[trigger] r[j].app@ != p by {
                if j < d.len() {
                    assert(d[j] == r[j]);
                }
            }
        }
    }
}

proof fn lemma_sum_counts_covers(s: Seq<EntryView>, r: Seq<AppSummary>)
    requires
        forall|j1: int, j2: int|
            0 <= j1 < j2 < r.len() ==> #[trigger] r[j1].app@ != #[trigger] r[j2].app@,
        forall|i: int| 0 <= i < s.len() ==> lists_app(r, #[trigger] s[i].process),
    ensures
        sum_counts(s, r) == s.len(),
    decreases s.len(),
{
    if s.len() == 0 {
        lemma_sum_counts_empty(r);
        assert(s =~= Seq::<EntryView>::empty());
    } else {
        let d = s.drop_last();
        assert forall|i: int| 0 <= i < d.len() implies lists_app(r, #[trigger] d[i].process) by {
            assert(d[i] == s[i]);
        }
        lemma_sum_counts_covers(d, r);
        assert(d.push(s.last()) =~= s);
        lemma_sum_counts_push(d, s.last(), r);
        assert(lists_app(r, s[s.len() - 1].process));
        lemma_hits_one(r, s.last().process);
        assert(sum_counts(s, r) == sum_counts(d.push(s.last()), r));
    }
}

proof fn lemma_sum_counts_empty(r: Seq<AppSummary>)
    ensures
        sum_counts(Seq::empty(), r) == 0,
    decreases r.len(),
{
    if r.len() > 0 {
        lemma_sum_counts_empty(r.drop_last());
    }
}

proof fn lemma_total_is_sum(s: Seq<EntryView>, r: Seq<AppSummary>)
    requires
        forall|j: int| 0 <= j < r.len() ==> r[j].minutes == count_process(s, #[trigger] r[j].app@),
    ensures
        total_minutes(r) == sum_counts(s, r),
    decreases r.len(),
{
    if r.len() > 0 {
        let d = r.drop_last();
        assert forall|j: int| 0 <= j < d.len() implies d[j].minutes == count_process(
            s,
            #[trigger] d[j].app@,
        ) by {
            assert(d[j] == r[j]);
        }
        lemma_total_is_sum(s, d);
        assert(r[r.len() - 1].minutes == count_process(s, r[r.len() - 1].app@));
    }
}

/// A usage summary accounts for every entry once: its minutes add up to the
/// number of entries summarized.
pub proof fn law_summary_total(r: Seq<AppSummary>, s: Seq<EntryView>)
    requires
        summarizes(r, s),
    ensures
        total_minutes(r) == s.len(),
{
    lemma_total_is_sum(s, r);
    lemma_sum_counts_covers(s, r);
}

} // verus!
