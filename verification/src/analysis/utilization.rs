//! How the executions of callbacks are spread over the threads of the traced hosts.
use vstd::prelude::*;

use crate::model::{CallbackRef, ObjectStore, ObjectStoreView};

use super::callback_duration::{CallbackDuration, ExecutionData};
use super::dependency_graph::fits_i64;
use super::text_order::same_text;

verus! {

broadcast use crate::model::store::lemma_view_fits;

/// The position of the thread `tid` among per-thread statistics.
pub open spec fn thread_position(stats: Seq<(u32, usize, i64)>, tid: u32) -> Option<int> {
    if exists|j: int| 0 <= j < stats.len() && stats[j].0 == tid {
        Some(choose|j: int| 0 <= j < stats.len() && stats[j].0 == tid)
    } else {
        None
    }
}

/// For each thread that ran an execution, in order of its first execution: the
/// number of executions on it and their total duration.
pub open spec fn thread_stats(data: Seq<ExecutionData>) -> Seq<(u32, usize, i64)>
    decreases data.len(),
{
    if data.len() == 0 {
        Seq::empty()
    } else {
        let prev = thread_stats(data.drop_last());
        let d = data.last();
        match thread_position(prev, d.tid) {
            Some(j) => prev.update(j, (d.tid, (prev[j].1 + 1) as usize, (prev[j].2 + d.duration) as i64)),
            None => prev.push((d.tid, 1usize, d.duration)),
        }
    }
}

/// Whether every running total of [`thread_stats`] fits an `i64`.
pub open spec fn thread_stats_fit(data: Seq<ExecutionData>) -> bool
    decreases data.len(),
{
    if data.len() == 0 {
        true
    } else {
        let prev = thread_stats(data.drop_last());
        &&& thread_stats_fit(data.drop_last())
        &&& (thread_position(prev, data.last().tid) matches Some(j) ==> fits_i64(prev[j].2 + data.last().duration))
    }
}

/// No thread occurs twice among per-thread statistics, and no count exceeds `n`.
pub open spec fn stats_ok(stats: Seq<(u32, usize, i64)>, n: int) -> bool {
    &&& forall|a: int, b: int| 0 <= a < stats.len() && 0 <= b < stats.len() && a != b ==> stats[a].0 != stats[b].0
    &&& forall|a: int| 0 <= a < stats.len() ==> #[trigger] stats[a].1 <= n
}

/// Per-thread statistics keep their threads distinct and their counts within the
/// number of executions.
proof fn lemma_thread_stats_ok(data: Seq<ExecutionData>)
    ensures
        stats_ok(thread_stats(data), data.len() as int),
    decreases data.len(),
{
    if data.len() > 0 {
        lemma_thread_stats_ok(data.drop_last());
        let prev = thread_stats(data.drop_last());
        let d = data.last();
        let cur = thread_stats(data);
        match thread_position(prev, d.tid) {
            Some(j) => {
                assert(0 <= j < prev.len() && prev[j].0 == d.tid);
                assert forall|a: int, b: int| 0 <= a < cur.len() && 0 <= b < cur.len() && a != b implies cur[a].0 != cur[b].0 by {
                    assert(cur[a].0 == prev[a].0 && cur[b].0 == prev[b].0);
                }
            },
            None => {
                assert forall|a: int, b: int| 0 <= a < cur.len() && 0 <= b < cur.len() && a != b implies cur[a].0 != cur[b].0 by {
                    if a == prev.len() {
                        assert(prev[b].0 != d.tid);
                    }
                    if b == prev.len() {
                        assert(prev[a].0 != d.tid);
                    }
                }
            },
        }
    }
}

/// The number of executions and the total execution time on each thread, in order
/// of the thread's first execution (see [`thread_stats`]).
pub fn execution_stats_per_thread(data: &[ExecutionData]) -> (r: Vec<(u32, usize, i64)>)
    requires
        thread_stats_fit(data@),
    ensures
        r@ == thread_stats(data@),
{
    let mut stats: Vec<(u32, usize, i64)> = Vec::new();
    let mut i: usize = 0;
    proof {
        assert(data@.subrange(0, 0) =~= Seq::<ExecutionData>::empty());
    }
    while i < data.len()
        invariant
            i <= data@.len(),
            thread_stats_fit(data@),
            stats@ == thread_stats(data@.subrange(0, i as int)),
        decreases data@.len() - i,
    {
        let d = data[i];
        let ghost prefix = data@.subrange(0, i as int + 1);
        proof {
            assert(prefix.drop_last() =~= data@.subrange(0, i as int));
            assert(prefix.last() == d);
            lemma_thread_stats_ok(data@.subrange(0, i as int));
            lemma_fit_prefix(data@, i as int + 1);
        }
        let mut j: usize = 0;
        while j < stats.len() && stats[j].0 != d.tid
            invariant
                j <= stats@.len(),
                forall|k: int| 0 <= k < j ==> stats@[k].0 != d.tid,
            decreases stats@.len() - j,
        {
            j += 1;
        }
        if j < stats.len() {
            proof {
                let prev = stats@;
                assert(prev[j as int].0 == d.tid);
                let w = choose|w: int| 0 <= w < prev.len() && prev[w].0 == d.tid;
                assert(w == j);
            }
            let (tid, count, time) = stats[j];
            stats.set(j, (tid, count + 1, time + d.duration));
        } else {
            stats.push((d.tid, 1, d.duration));
        }
        i += 1;
    }
    proof {
        assert(data@.subrange(0, i as int) =~= data@);
    }
    stats
}

/// The running totals of a prefix fit when those of the whole series do.
proof fn lemma_fit_prefix(data: Seq<ExecutionData>, n: int)
    requires
        0 <= n <= data.len(),
        thread_stats_fit(data),
    ensures
        thread_stats_fit(data.subrange(0, n)),
    decreases data.len() - n,
{
    if n < data.len() {
        assert(data.drop_last() =~= data.subrange(0, data.len() - 1));
        lemma_fit_prefix(data.drop_last(), n);
        assert(data.drop_last().subrange(0, n) =~= data.subrange(0, n));
    } else {
        assert(data.subrange(0, n) =~= data);
    }
}


/// The callback (by key) and thread of each ended execution: callback by callback,
/// and each callback's executions in order.
pub open spec fn execution_threads(callbacks: Seq<u128>, executions: Seq<Seq<ExecutionData>>) -> Seq<(u128, u32)>
    decreases callbacks.len(),
{
    if callbacks.len() == 0 {
        Seq::empty()
    } else {
        execution_threads(callbacks.drop_last(), executions.drop_last())
            + executions.last().map_values(|d: ExecutionData| (callbacks.last(), d.tid))
    }
}

/// The position of the thread `key` in a thread map.
pub open spec fn key_position(m: Seq<((Seq<char>, u32), Seq<u128>)>, key: (Seq<char>, u32)) -> Option<int> {
    if exists|j: int| 0 <= j < m.len() && m[j].0 == key {
        Some(choose|j: int| 0 <= j < m.len() && m[j].0 == key)
    } else {
        None
    }
}

/// For each thread (host name and thread id) that ran an execution, in order of its
/// first execution: the callbacks that ran on it, each once, in order of first run.
pub open spec fn thread_callbacks(pairs: Seq<(u128, u32)>, store: ObjectStoreView) -> Seq<((Seq<char>, u32), Seq<u128>)>
    decreases pairs.len(),
{
    if pairs.len() == 0 {
        Seq::empty()
    } else {
        let prev = thread_callbacks(pairs.drop_last(), store);
        let (c, tid) = pairs.last();
        let key = (store.callbacks[c as int].hostname, tid);
        match key_position(prev, key) {
            Some(j) => prev.update(j, (key, if prev[j].1.contains(c) { prev[j].1 } else { prev[j].1.push(c) })),
            None => prev.push((key, seq![c])),
        }
    }
}

/// Whether the thread map lists `x` for the thread `key`.
pub open spec fn listed(m: Seq<((Seq<char>, u32), Seq<u128>)>, key: (Seq<char>, u32), x: u128) -> bool {
    exists|j: int| 0 <= j < m.len() && m[j].0 == key && #[trigger] m[j].1.contains(x)
}

/// Whether the callback `x` ran on the thread `key`, by the (callback, thread) pairs.
pub open spec fn ran_on(pairs: Seq<(u128, u32)>, store: ObjectStoreView, x: u128, key: (Seq<char>, u32)) -> bool {
    exists|i: int| 0 <= i < pairs.len() && #[trigger] pairs[i] == (x, key.1) && key.0 == store.callbacks[x as int].hostname
}

/// The thread `key` of a (callback, thread) pair.
pub open spec fn thread_of_pair(store: ObjectStoreView, p: (u128, u32)) -> (Seq<char>, u32) {
    (store.callbacks[p.0 as int].hostname, p.1)
}

/// One more pair keeps every listing and lists its own callback for its thread.
proof fn lemma_step_lists(pairs: Seq<(u128, u32)>, store: ObjectStoreView)
    requires
        pairs.len() > 0,
    ensures
        ({
            let prev = thread_callbacks(pairs.drop_last(), store);
            let m = thread_callbacks(pairs, store);
            &&& forall|key: (Seq<char>, u32), x: u128| listed(prev, key, x) ==> #[trigger] listed(m, key, x)
            &&& listed(m, thread_of_pair(store, pairs.last()), pairs.last().0)
            &&& forall|j: int, x: u128| 0 <= j < m.len() && #[trigger] m[j].1.contains(x) ==> (x == pairs.last().0 && m[j].0
                == thread_of_pair(store, pairs.last())) || listed(prev, m[j].0, x)
        }),
{
    let prev = thread_callbacks(pairs.drop_last(), store);
    let m = thread_callbacks(pairs, store);
    let (c, tid) = pairs.last();
    let key = (store.callbacks[c as int].hostname, tid);
    match key_position(prev, key) {
        Some(j0) => {
            assert(0 <= j0 < prev.len() && prev[j0].0 == key);
            let old_list = prev[j0].1;
            let new_list = if old_list.contains(c) { old_list } else { old_list.push(c) };
            assert(m == prev.update(j0, (key, new_list)));
            assert(new_list.contains(c)) by {
                if !old_list.contains(c) {
                    assert(new_list[old_list.len() as int] == c);
                }
            }
            assert forall|kk: (Seq<char>, u32), x: u128| listed(prev, kk, x) implies #[trigger] listed(m, kk, x) by {
                let j = choose|j: int| 0 <= j < prev.len() && prev[j].0 == kk && #[trigger] prev[j].1.contains(x);
                if j == j0 {
                    if !old_list.contains(c) {
                        let k = choose|k: int| 0 <= k < old_list.len() && old_list[k] == x;
                        assert(new_list[k] == x);
                    }
                    assert(m[j].1.contains(x));
                } else {
                    assert(m[j] == prev[j]);
                }
            }
            assert(m[j0].1.contains(c));
            assert forall|j: int, x: u128| 0 <= j < m.len() && #[trigger] m[j].1.contains(x) implies (x == c && m[j].0 == key)
                || listed(prev, m[j].0, x) by {
                if j != j0 {
                    assert(m[j] == prev[j]);
                } else if !old_list.contains(x) {
                    let k = choose|k: int| 0 <= k < new_list.len() && new_list[k] == x;
                    if k < old_list.len() {
                        assert(old_list[k] == x);
                    }
                } else {
                    assert(prev[j0].1.contains(x));
                }
            }
        },
        None => {
            assert(m == prev.push((key, seq![c])));
            assert forall|kk: (Seq<char>, u32), x: u128| listed(prev, kk, x) implies #[trigger] listed(m, kk, x) by {
                let j = choose|j: int| 0 <= j < prev.len() && prev[j].0 == kk && #[trigger] prev[j].1.contains(x);
                assert(m[j] == prev[j]);
            }
            assert(m[prev.len() as int].1[0] == c);
            assert(m[prev.len() as int].1.contains(c));
            assert forall|j: int, x: u128| 0 <= j < m.len() && #[trigger] m[j].1.contains(x) implies (x == c && m[j].0 == key)
                || listed(prev, m[j].0, x) by {
                if j < prev.len() {
                    assert(m[j] == prev[j]);
                } else {
                    let k = choose|k: int| 0 <= k < m[j].1.len() && m[j].1[k] == x;
                }
            }
        },
    }
}

/// A callback that ran on a thread (host name and thread id) is in the list of that
/// thread, and a thread's list holds only callbacks that ran on that thread.
pub proof fn law_thread_lists_hold_their_callbacks(pairs: Seq<(u128, u32)>, store: ObjectStoreView)
    ensures
        forall|i: int| 0 <= i < pairs.len() ==> #[trigger] listed(thread_callbacks(pairs, store), thread_of_pair(store, pairs[i]), pairs[i].0),
        forall|j: int, x: u128| 0 <= j < thread_callbacks(pairs, store).len() && #[trigger] thread_callbacks(pairs, store)[j].1.contains(x)
            ==> ran_on(pairs, store, x, thread_callbacks(pairs, store)[j].0),
    decreases pairs.len(),
{
    if pairs.len() > 0 {
        let pp = pairs.drop_last();
        law_thread_lists_hold_their_callbacks(pp, store);
        lemma_step_lists(pairs, store);
        let prev = thread_callbacks(pp, store);
        let m = thread_callbacks(pairs, store);
        assert forall|i: int| 0 <= i < pairs.len() implies #[trigger] listed(m, thread_of_pair(store, pairs[i]), pairs[i].0) by {
            if i < pp.len() {
                assert(pairs[i] == pp[i]);
                assert(listed(prev, thread_of_pair(store, pp[i]), pp[i].0));
            }
        }
        assert forall|j: int, x: u128| 0 <= j < m.len() && #[trigger] m[j].1.contains(x) implies ran_on(pairs, store, x, m[j].0) by {
            if x == pairs.last().0 && m[j].0 == thread_of_pair(store, pairs.last()) {
                assert(pairs[pairs.len() - 1] == (x, m[j].0.1));
            } else {
                assert(listed(prev, m[j].0, x));
                let jj = choose|jj: int| 0 <= jj < prev.len() && prev[jj].0 == m[j].0 && #[trigger] prev[jj].1.contains(x);
                assert(ran_on(pp, store, x, prev[jj].0));
                let i = choose|i: int| 0 <= i < pp.len() && #[trigger] pp[i] == (x, m[j].0.1) && m[j].0.0 == store.callbacks[x as int].hostname;
                assert(pairs[i] == pp[i]);
            }
        }
    }
}

/// Each execution of each callback gives a (callback, thread) pair.
proof fn lemma_execution_pairs(callbacks: Seq<u128>, executions: Seq<Seq<ExecutionData>>)
    requires
        callbacks.len() == executions.len(),
    ensures
        forall|i: int, k: int| 0 <= i < callbacks.len() && 0 <= k < executions[i].len() ==> #[trigger] execution_threads(
            callbacks,
            executions,
        ).contains((callbacks[i], executions[i][k].tid)),
    decreases callbacks.len(),
{
    if callbacks.len() > 0 {
        let cs = callbacks.drop_last();
        let es = executions.drop_last();
        lemma_execution_pairs(cs, es);
        let prev = execution_threads(cs, es);
        let tail = executions.last().map_values(|d: ExecutionData| (callbacks.last(), d.tid));
        let all = execution_threads(callbacks, executions);
        assert(all == prev + tail);
        assert forall|i: int, k: int| 0 <= i < callbacks.len() && 0 <= k < executions[i].len() implies #[trigger] all.contains(
            (callbacks[i], executions[i][k].tid),
        ) by {
            if i < cs.len() {
                assert(cs[i] == callbacks[i] && es[i] == executions[i]);
                assert(execution_threads(cs, es).contains((cs[i], es[i][k].tid)));
                let p = choose|p: int| 0 <= p < prev.len() && prev[p] == (cs[i], es[i][k].tid);
                assert(all[p] == prev[p]);
            } else {
                assert(all[prev.len() + k] == tail[k]);
            }
        }
    }
}

/// Every callback that ran on a thread, by the executions collected, is in the list of
/// that thread.
pub proof fn law_every_execution_listed(callbacks: Seq<u128>, executions: Seq<Seq<ExecutionData>>, store: ObjectStoreView)
    requires
        callbacks.len() == executions.len(),
    ensures
        forall|i: int, k: int| 0 <= i < callbacks.len() && 0 <= k < executions[i].len() ==> #[trigger] listed(
            thread_callbacks(execution_threads(callbacks, executions), store),
            (store.callbacks[callbacks[i] as int].hostname, executions[i][k].tid),
            callbacks[i],
        ),
{
    let pairs = execution_threads(callbacks, executions);
    lemma_execution_pairs(callbacks, executions);
    law_thread_lists_hold_their_callbacks(pairs, store);
    assert forall|i: int, k: int| 0 <= i < callbacks.len() && 0 <= k < executions[i].len() implies #[trigger] listed(
        thread_callbacks(pairs, store),
        (store.callbacks[callbacks[i] as int].hostname, executions[i][k].tid),
        callbacks[i],
    ) by {
        assert(pairs.contains((callbacks[i], executions[i][k].tid)));
        let p = choose|p: int| 0 <= p < pairs.len() && pairs[p] == (callbacks[i], executions[i][k].tid);
        assert(listed(thread_callbacks(pairs, store), thread_of_pair(store, pairs[p]), pairs[p].0));
    }
}

/// No thread occurs twice in a thread map.
pub open spec fn keys_distinct(m: Seq<((Seq<char>, u32), Seq<u128>)>) -> bool {
    forall|a: int, b: int| 0 <= a < m.len() && 0 <= b < m.len() && a != b ==> m[a].0 != m[b].0
}

/// A thread map keeps its threads distinct.
proof fn lemma_thread_callbacks_distinct(pairs: Seq<(u128, u32)>, store: ObjectStoreView)
    ensures
        keys_distinct(thread_callbacks(pairs, store)),
    decreases pairs.len(),
{
    if pairs.len() > 0 {
        lemma_thread_callbacks_distinct(pairs.drop_last(), store);
        let prev = thread_callbacks(pairs.drop_last(), store);
        let (c, tid) = pairs.last();
        let key = (store.callbacks[c as int].hostname, tid);
        let cur = thread_callbacks(pairs, store);
        match key_position(prev, key) {
            Some(j) => {
                assert(0 <= j < prev.len() && prev[j].0 == key);
                assert forall|a: int, b: int| 0 <= a < cur.len() && 0 <= b < cur.len() && a != b implies cur[a].0 != cur[b].0 by {
                    assert(cur[a].0 == prev[a].0 && cur[b].0 == prev[b].0);
                }
            },
            None => {
                assert forall|a: int, b: int| 0 <= a < cur.len() && 0 <= b < cur.len() && a != b implies cur[a].0 != cur[b].0 by {
                    if a == prev.len() {
                        assert(prev[b].0 != key);
                    }
                    if b == prev.len() {
                        assert(prev[a].0 != key);
                    }
                }
            },
        }
    }
}

/// The abstract value of a computed thread map.
pub open spec fn thread_map_view(m: Seq<(String, u32, Vec<CallbackRef>)>) -> Seq<((Seq<char>, u32), Seq<u128>)> {
    m.map_values(|e: (String, u32, Vec<CallbackRef>)| ((e.0@, e.1), e.2@.map_values(|c: CallbackRef| c.0 as u128)))
}

/// Utilization statistics over the executions that a callback analysis collected.
pub struct Utilization<'a> {
    callback_analysis: &'a CallbackDuration,
}

impl<'a> Utilization<'a> {
    pub fn new(callback_analysis: &'a CallbackDuration) -> (r: Self)
        ensures
            r.analysis() == callback_analysis,
    {
        Utilization { callback_analysis }
    }

    pub closed spec fn analysis(&self) -> &'a CallbackDuration {
        self.callback_analysis
    }

    /// Which callbacks ran on which thread (see [`thread_callbacks`]).
    pub fn get_thread_callback_map(&self, objects: &ObjectStore) -> (r: Vec<(String, u32, Vec<CallbackRef>)>)
        requires
            self.analysis().wf(),
            forall|i: int| 0 <= i < self.analysis()@.callbacks.len() ==> #[trigger] self.analysis()@.callbacks[i] < objects@.callbacks.len(),
        ensures
            thread_map_view(r@) == thread_callbacks(
                execution_threads(self.analysis()@.callbacks, self.analysis()@.executions),
                objects@,
            ),
    {
        let analysis = self.callback_analysis;
        let ghost keys = analysis@.callbacks;
        let ghost execs = analysis@.executions;
        let mut map: Vec<(String, u32, Vec<CallbackRef>)> = Vec::new();
        let n = analysis.len();
        let mut i: usize = 0;
        proof {
            assert(keys.subrange(0, 0) =~= Seq::<u128>::empty());
            assert(thread_map_view(map@) =~= Seq::<((Seq<char>, u32), Seq<u128>)>::empty());
        }
        while i < n
            invariant
                n == keys.len(),
                analysis.wf(),
                keys == analysis@.callbacks,
                execs == analysis@.executions,
                keys.len() == execs.len(),
                forall|k: int| 0 <= k < keys.len() ==> #[trigger] keys[k] < objects@.callbacks.len(),
                i <= keys.len(),
                thread_map_view(map@) == thread_callbacks(execution_threads(keys.subrange(0, i as int), execs.subrange(0, i as int)), objects@),
            decreases keys.len() - i,
        {
            let (key, data) = analysis.entry(i);
            let callback = CallbackRef(key as usize);
            let hostname = objects.callback(callback).get_hostname();
            let ghost before = execution_threads(keys.subrange(0, i as int), execs.subrange(0, i as int));
            let mut j: usize = 0;
            proof {
                assert(data@.subrange(0, 0).map_values(|d: ExecutionData| (key, d.tid)) =~= Seq::<(u128, u32)>::empty());
                assert(before + Seq::<(u128, u32)>::empty() =~= before);
            }
            while j < data.len()
                invariant
                    key < objects@.callbacks.len(),
                    callback == CallbackRef(key as usize),
                    hostname@ == objects@.callbacks[key as int].hostname,
                    j <= data@.len(),
                    thread_map_view(map@) == thread_callbacks(before + data@.subrange(0, j as int).map_values(|d: ExecutionData| (key, d.tid)), objects@),
                decreases data@.len() - j,
            {
                let tid = data[j].tid;
                let ghost pairs = before + data@.subrange(0, j as int).map_values(|d: ExecutionData| (key, d.tid));
                let ghost next = before + data@.subrange(0, j as int + 1).map_values(|d: ExecutionData| (key, d.tid));
                proof {
                    assert(next =~= pairs.push((key, tid)));
                    assert(next.drop_last() =~= pairs);
                    lemma_thread_callbacks_distinct(pairs, objects@);
                }
                let ghost prev = thread_map_view(map@);
                let ghost tkey = (hostname@, tid);
                let mut k: usize = 0;
                while k < map.len() && !(map[k].1 == tid && same_text(map[k].0.as_str(), hostname))
                    invariant
                        k <= map@.len(),
                        prev == thread_map_view(map@),
                        tkey == (hostname@, tid),
                        forall|x: int| 0 <= x < k ==> prev[x].0 != tkey,
                    decreases map@.len() - k,
                {
                    k += 1;
                }
                if k < map.len() {
                    proof {
                        assert(prev[k as int].0 == tkey);
                        let w = choose|w: int| 0 <= w < prev.len() && prev[w].0 == tkey;
                        assert(w == k);
                    }
                    let mut found = false;
                    let mut x: usize = 0;
                    while x < map[k].2.len()
                        invariant
                            k < map@.len(),
                            x <= map@[k as int].2@.len(),
                            found <==> exists|y: int| 0 <= y < x && map@[k as int].2@[y] == callback,
                        decreases map@[k as int].2@.len() - x,
                    {
                        if map[k].2[x].0 == callback.0 {
                            found = true;
                        }
                        x += 1;
                    }
                    let ghost old_list = map@[k as int].2@;
                    proof {
                        let ol = prev[k as int].1;
                        assert(ol == old_list.map_values(|c: CallbackRef| c.0 as u128));
                        if ol.contains(key) {
                            let y = choose|y: int| 0 <= y < ol.len() && ol[y] == key;
                            assert(old_list[y].0 as u128 == key);
                            assert(old_list[y] == callback);
                        }
                        if found {
                            let y = choose|y: int| 0 <= y < x && old_list[y] == callback;
                            assert(ol[y] == key);
                        }
                    }
                    if !found {
                        let (h, t, mut list) = map.remove(k);
                        list.push(callback);
                        map.insert(k, (h, t, list));
                        proof {
                            let nl = map@[k as int].2@;
                            assert(nl =~= old_list.push(callback));
                            assert(nl.map_values(|c: CallbackRef| c.0 as u128) =~= prev[k as int].1.push(key));
                        }
                    }
                    proof {
                        assert(thread_map_view(map@) =~= prev.update(k as int, (tkey, if prev[k as int].1.contains(key) { prev[k as int].1 } else { prev[k as int].1.push(key) })));
                    }
                } else {
                    proof {
                        assert(!(exists|w: int| 0 <= w < prev.len() && prev[w].0 == tkey));
                    }
                    let mut list: Vec<CallbackRef> = Vec::new();
                    list.push(callback);
                    let host = hostname.to_string();
                    proof {
                        assert(host@ == hostname@);
                        assert(callback.0 as u128 == key);
                        assert(list@.map_values(|c: CallbackRef| c.0 as u128) =~= seq![key]);
                    }
                    map.push((host, tid, list));
                    proof {
                        assert(thread_map_view(map@) =~= prev.push((tkey, seq![key])));
                    }
                }
                j += 1;
            }
            proof {
                assert(data@.subrange(0, j as int) =~= data@);
                let ks = keys.subrange(0, i as int + 1);
                let es = execs.subrange(0, i as int + 1);
                assert(ks.drop_last() =~= keys.subrange(0, i as int));
                assert(es.drop_last() =~= execs.subrange(0, i as int));
                assert(ks.last() == key);
                assert(es.last() == data@);
            }
            i += 1;
        }
        proof {
            assert(keys.subrange(0, i as int) =~= keys);
            assert(execs.subrange(0, i as int) =~= execs);
        }
        map
    }
}

} // verus!
