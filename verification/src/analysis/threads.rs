//! The callback executions running on each thread of the traced hosts.
use vstd::prelude::*;

use crate::events_common::{Context, ContextView};
use crate::model::CallbackInstanceRef;

use super::text_order::same_text;

verus! {

/// A thread of a traced host: its virtual thread id and the host's name.
pub open spec fn thread_of(context: ContextView) -> (u32, Seq<char>) {
    (context.vtid, context.hostname)
}

/// The callback execution running on each thread, at most one per thread.
#[derive(Debug)]
pub struct RunningCallbacks {
    vtids: Vec<u32>,
    hostnames: Vec<String>,
    instances: Vec<CallbackInstanceRef>,
}

impl RunningCallbacks {
    /// The threads with a running execution, in order of start.
    pub closed spec fn threads(&self) -> Seq<(u32, Seq<char>)> {
        Seq::new(self.vtids@.len(), |i: int| (self.vtids@[i], self.hostnames@[i]@))
    }

    /// The columns are aligned and no thread occurs twice.
    pub closed spec fn wf(&self) -> bool {
        &&& self.vtids@.len() == self.hostnames@.len()
        &&& self.vtids@.len() == self.instances@.len()
        &&& self.threads().no_duplicates()
    }

    /// The running execution of a thread.
    pub closed spec fn running_on(&self, t: (u32, Seq<char>)) -> CallbackInstanceRef {
        self.instances@[self.threads().index_of(t)]
    }
}

impl View for RunningCallbacks {
    type V = Map<(u32, Seq<char>), CallbackInstanceRef>;

    closed spec fn view(&self) -> Map<(u32, Seq<char>), CallbackInstanceRef> {
        Map::new(|t: (u32, Seq<char>)| self.threads().contains(t), |t: (u32, Seq<char>)| self.running_on(t))
    }
}

impl RunningCallbacks {
    pub fn new() -> (r: Self)
        ensures
            r.wf(),
            r@ == Map::<(u32, Seq<char>), CallbackInstanceRef>::empty(),
    {
        let r = RunningCallbacks { vtids: Vec::new(), hostnames: Vec::new(), instances: Vec::new() };
        assert(r@ =~= Map::<(u32, Seq<char>), CallbackInstanceRef>::empty());
        r
    }

    /// Forgets every running execution.
    pub fn clear(&mut self)
        ensures
            final(self).wf(),
            final(self)@ == Map::<(u32, Seq<char>), CallbackInstanceRef>::empty(),
    {
        self.vtids.clear();
        self.hostnames.clear();
        self.instances.clear();
        assert(self@ =~= Map::<(u32, Seq<char>), CallbackInstanceRef>::empty());
    }

    /// The position of the thread of `context`, if an execution runs on it.
    fn find(&self, context: &Context) -> (r: Option<usize>)
        requires
            self.wf(),
        ensures
            r is None <==> !self.threads().contains(thread_of(context@)),
            r matches Some(i) ==> i < self.threads().len() && self.threads()[i as int] == thread_of(context@)
                && self.threads().index_of(thread_of(context@)) == i,
    {
        let mut i: usize = 0;
        while i < self.vtids.len()
            invariant
                self.wf(),
                i <= self.vtids@.len(),
                forall|j: int| 0 <= j < i ==> self.threads()[j] != thread_of(context@),
            decreases self.vtids@.len() - i,
        {
            if self.vtids[i] == context.vtid() && same_text(self.hostnames[i].as_str(), context.hostname()) {
                proof {
                    let ts = self.threads();
                    assert(ts[i as int] == thread_of(context@));
                    let k = ts.index_of(thread_of(context@));
                    assert(ts.contains(thread_of(context@)));
                    assert(0 <= k < ts.len() && ts[k] == thread_of(context@));
                    assert(ts.no_duplicates());
                }
                return Some(i);
            }
            proof {
                assert(self.threads()[i as int] != thread_of(context@));
            }
            i += 1;
        }
        proof {
            if self.threads().contains(thread_of(context@)) {
                let k = choose|k: int| 0 <= k < self.threads().len() && self.threads()[k] == thread_of(context@);
                assert(self.threads()[k] != thread_of(context@));
            }
        }
        None
    }

    /// The execution running on the thread of `context`.
    pub fn get(&self, context: &Context) -> (r: Option<CallbackInstanceRef>)
        requires
            self.wf(),
        ensures
            r == (if self@.dom().contains(thread_of(context@)) { Some(self@[thread_of(context@)]) } else { None }),
    {
        match self.find(context) {
            Some(i) => Some(self.instances[i]),
            None => None,
        }
    }

    /// Records an execution on a thread that runs none.
    pub fn insert(&mut self, context: &Context, instance: CallbackInstanceRef)
        requires
            old(self).wf(),
            !old(self)@.dom().contains(thread_of(context@)),
        ensures
            final(self).wf(),
            final(self)@ == old(self)@.insert(thread_of(context@), instance),
    {
        let ghost t = thread_of(context@);
        let ghost old_threads = self.threads();
        self.vtids.push(context.vtid());
        self.hostnames.push(context.hostname().to_string());
        self.instances.push(instance);
        proof {
            let ts = self.threads();
            assert(ts =~= old_threads.push(t));
            assert(!old_threads.contains(t));
            assert forall|a: int, b: int| 0 <= a < ts.len() && 0 <= b < ts.len() && a != b implies ts[a] != ts[b] by {
                if a == ts.len() - 1 {
                    assert(ts[b] == old_threads[b]);
                } else if b == ts.len() - 1 {
                    assert(ts[a] == old_threads[a]);
                } else {
                    assert(ts[a] == old_threads[a] && ts[b] == old_threads[b]);
                }
            }
            assert forall|u: (u32, Seq<char>)| #[trigger] self@.dom().contains(u) implies self@[u] == old(self)@.insert(t, instance)[u] by {
                let k = ts.index_of(u);
                assert(0 <= k < ts.len() && ts[k] == u);
                if u == t {
                    assert(k == ts.len() - 1);
                } else {
                    let ko = old_threads.index_of(u);
                    assert(old_threads.contains(u));
                    assert(0 <= ko < old_threads.len() && old_threads[ko] == u);
                    assert(ts[ko] == u);
                    assert(ko == k);
                }
            }
            assert forall|u: (u32, Seq<char>)| #[trigger] self@.dom().contains(u) <==> old(self)@.insert(t, instance).dom().contains(u) by {
                if u != t && ts.contains(u) {
                    let k = choose|k: int| 0 <= k < ts.len() && ts[k] == u;
                    assert(old_threads[k] == u);
                }
                if old_threads.contains(u) {
                    let k = choose|k: int| 0 <= k < old_threads.len() && old_threads[k] == u;
                    assert(ts[k] == u);
                }
                if u == t {
                    assert(ts[ts.len() - 1] == t);
                }
            }
            assert(self@ =~= old(self)@.insert(t, instance));
        }
    }

    /// Forgets the execution on the thread of `context`, returning it.
    pub fn remove(&mut self, context: &Context) -> (r: Option<CallbackInstanceRef>)
        requires
            old(self).wf(),
        ensures
            final(self).wf(),
            final(self)@ == old(self)@.remove(thread_of(context@)),
            r == (if old(self)@.dom().contains(thread_of(context@)) { Some(old(self)@[thread_of(context@)]) } else { None }),
    {
        let ghost t = thread_of(context@);
        let ghost old_threads = self.threads();
        match self.find(context) {
            None => {
                assert(self@ =~= old(self)@.remove(t));
                None
            },
            Some(i) => {
                self.vtids.remove(i);
                self.hostnames.remove(i);
                let r = self.instances.remove(i);
                proof {
                    let ts = self.threads();
                    assert(ts =~= old_threads.remove(i as int));
                    assert forall|a: int, b: int| 0 <= a < ts.len() && 0 <= b < ts.len() && a != b implies ts[a] != ts[b] by {
                        let oa = if a < i { a } else { a + 1 };
                        let ob = if b < i { b } else { b + 1 };
                        assert(ts[a] == old_threads[oa] && ts[b] == old_threads[ob]);
                    }
                    assert forall|u: (u32, Seq<char>)| #[trigger] self@.dom().contains(u) <==> old(self)@.remove(t).dom().contains(u) by {
                        if ts.contains(u) {
                            let k = choose|k: int| 0 <= k < ts.len() && ts[k] == u;
                            let ok = if k < i { k } else { k + 1 };
                            assert(old_threads[ok] == u);
                            assert(ok != i);
                        }
                        if u != t && old_threads.contains(u) {
                            let k = choose|k: int| 0 <= k < old_threads.len() && old_threads[k] == u;
                            assert(k != i);
                            let nk = if k < i { k } else { k - 1 };
                            assert(ts[nk] == u);
                        }
                    }
                    assert forall|u: (u32, Seq<char>)| #[trigger] self@.dom().contains(u) implies self@[u] == old(self)@[u] by {
                        let k = ts.index_of(u);
                        assert(0 <= k < ts.len() && ts[k] == u);
                        let ok = if k < i { k } else { k + 1 };
                        assert(old_threads[ok] == u);
                        let ko = old_threads.index_of(u);
                        assert(old_threads.contains(u));
                        assert(0 <= ko < old_threads.len() && old_threads[ko] == u);
                        assert(ko == ok);
                    }
                    assert(self@ =~= old(self)@.remove(t));
                }
                Some(r)
            },
        }
    }
}

} // verus!
