use crate::build_executor::BuildExecutor;
use vstd::prelude::*;

verus! {

/// Slots are individually well formed and no two run the same build.
pub open spec fn slots_wf(s: Seq<BuildExecutor>) -> bool {
    &&& forall|i: int| 0 <= i < s.len() ==> (#[trigger] s[i]).wf()
    &&& forall|i: int, j: int, id: Seq<char>|
        0 <= i < j < s.len() && (#[trigger] s[i].runs(id)) && (#[trigger] s[j].runs(id)) ==> false
}

/// Whether some slot is running the identified build.
pub open spec fn slot_running(s: Seq<BuildExecutor>, id: Seq<char>) -> bool {
    exists|i: int| 0 <= i < s.len() && (#[trigger] s[i]).runs(id)
}

/// The position of the slot running the identified build.
pub open spec fn running_slot(s: Seq<BuildExecutor>, id: Seq<char>) -> int {
    choose|i: int| 0 <= i < s.len() && (#[trigger] s[i]).runs(id)
}

/// A slot with its cancellation flag raised.
pub open spec fn cancelled_slot(e: BuildExecutor) -> BuildExecutor {
    BuildExecutor { cancel_requested: true, ..e }
}

/// What routing a cancellation does to the slots: raises the flag of the
/// slot running the build, and changes nothing when no slot runs it.
pub open spec fn cancel_transition(s: Seq<BuildExecutor>, id: Seq<char>) -> Seq<BuildExecutor> {
    if slot_running(s, id) {
        s.update(running_slot(s, id), cancelled_slot(s[running_slot(s, id)]))
    } else {
        s
    }
}

/// How many slots are busy.
pub open spec fn num_busy(s: Seq<BuildExecutor>) -> int
    decreases s.len(),
{
    if s.len() == 0 {
        0
    } else {
        num_busy(s.drop_last()) + if s.last().available {
            0int
        } else {
            1int
        }
    }
}

/// A fixed-size pool of executor slots. It bounds how many pipelines run
/// concurrently and tracks which build each slot runs, so cancellations
/// can be routed and admission can report "no capacity" instead of
/// spinning.
pub struct ExecutorPool {
    pub executors: Vec<BuildExecutor>,
}

impl ExecutorPool {
    pub open spec fn wf(self) -> bool {
        slots_wf(self.executors@)
    }

    /// In a well-formed pool, a slot seen to run a build determines
    /// `running_slot`.
    pub proof fn lemma_running_unique(s: Seq<BuildExecutor>, id: Seq<char>, i: int)
        requires
            slots_wf(s),
            0 <= i < s.len(),
            s[i].runs(id),
        ensures
            slot_running(s, id),
            running_slot(s, id) == i,
    {
        assert(slot_running(s, id));
        let j = running_slot(s, id);
        assert(0 <= j < s.len() && s[j].runs(id));
        if i < j {
            assert(s[i].runs(id) && s[j].runs(id));
        } else if j < i {
            assert(s[j].runs(id) && s[i].runs(id));
        }
    }

    pub fn new(size: usize) -> (pool: Self)
        ensures
            pool.executors@.len() == size,
            forall|k: int|
                0 <= k < size ==> (#[trigger] pool.executors@[k]).available
                    && pool.executors@[k].current_build_id is None
                    && !pool.executors@[k].cancel_requested,
            pool.wf(),
    {
        let mut executors: Vec<BuildExecutor> = Vec::new();
        let mut k: usize = 0;
        while k < size
            invariant
                k <= size,
                executors@.len() == k,
                forall|m: int|
                    0 <= m < k ==> (#[trigger] executors@[m]).available
                        && executors@[m].current_build_id is None
                        && !executors@[m].cancel_requested,
            decreases size - k,
        {
            executors.push(BuildExecutor::new());
            k += 1;
        }
        let pool = ExecutorPool { executors };
        proof {
            assert forall|i: int|
                0 <= i < pool.executors@.len() implies (#[trigger] pool.executors@[i]).wf() by {}
        }
        pool
    }

    pub fn size(&self) -> (n: usize)
        ensures
            n == self.executors@.len(),
    {
        self.executors.len()
    }

    /// The first free slot, if any.
    pub fn find_available(&self) -> (found: Option<usize>)
        ensures
            found matches Some(i) ==> i < self.executors@.len() && self.executors@[i as int].available
                && forall|k: int| 0 <= k < i ==> !(#[trigger] self.executors@[k]).available,
            found is None ==> forall|k: int|
                0 <= k < self.executors@.len() ==> !(#[trigger] self.executors@[k]).available,
    {
        let n = self.executors.len();
        let mut i: usize = 0;
        while i < n
            invariant
                i <= n,
                n == self.executors@.len(),
                forall|k: int| 0 <= k < i ==> !(#[trigger] self.executors@[k]).available,
            decreases n - i,
        {
            if self.executors[i].is_available() {
                return Some(i);
            }
            i += 1;
        }
        None
    }

    /// Admits a build to the first free slot, if any, binding the build to
    /// it with a fresh cancellation flag. Returns the slot, or `None`,
    /// changing nothing, when every slot is busy. The build must not
    /// already be running: identifiers are never reused.
    pub fn try_admit(&mut self, build_id: &str) -> (admitted: Option<usize>)
        requires
            old(self).wf(),
            !slot_running(old(self).executors@, build_id@),
        ensures
            final(self).wf(),
            admitted is None ==> *final(self) == *old(self) && forall|k: int|
                0 <= k < old(self).executors@.len()
                    ==> !(#[trigger] old(self).executors@[k]).available,
            admitted matches Some(i) ==> {
                &&& i < old(self).executors@.len()
                &&& old(self).executors@[i as int].available
                &&& forall|k: int| 0 <= k < i ==> !(#[trigger] old(self).executors@[k]).available
                &&& final(self).executors@.len() == old(self).executors@.len()
                &&& forall|k: int|
                    0 <= k < old(self).executors@.len() && k != i ==> final(self).executors@[k]
                        == old(self).executors@[k]
                &&& final(self).executors@[i as int].runs(build_id@)
                &&& !final(self).executors@[i as int].available
                &&& !final(self).executors@[i as int].cancel_requested
                &&& slot_running(final(self).executors@, build_id@)
                &&& running_slot(final(self).executors@, build_id@) == i
            },
    {
        match self.find_available() {
            None => None,
            Some(i) => {
                let ghost olds = self.executors@;
                self.executors[i].bind(build_id);
                proof {
                    let news = self.executors@;
                    assert(forall|k: int| 0 <= k < news.len() && k != i ==> news[k] == olds[k]);
                    assert forall|p: int, q: int, id: Seq<char>|
                        0 <= p < q < news.len() && (#[trigger] news[p].runs(id)) && (
                        #[trigger] news[q].runs(id)) implies false by {
                        if p != i && q != i {
                            assert(olds[p].runs(id) && olds[q].runs(id));
                        } else {
                            let other = if p == i {
                                q
                            } else {
                                p
                            };
                            assert(news[i as int].runs(id) ==> id == build_id@);
                            assert(olds[other].runs(id));
                            assert(slot_running(olds, id));
                        }
                    }
                    assert forall|k: int| 0 <= k < news.len() implies (#[trigger] news[k]).wf() by {
                        if k != i {
                            assert(olds[k].wf());
                        }
                    }
                    Self::lemma_running_unique(news, build_id@, i as int);
                }
                Some(i)
            },
        }
    }

    /// Routes a cancellation: raises the cancellation flag of the slot
    /// running the identified build. A no-op, not an error, when no slot
    /// runs it: the build may simply have finished already.
    pub fn cancel(&mut self, build_id: &str) -> (found: bool)
        requires
            old(self).wf(),
        ensures
            final(self).wf(),
            found == slot_running(old(self).executors@, build_id@),
            final(self).executors@ == cancel_transition(old(self).executors@, build_id@),
    {
        let n = self.executors.len();
        let mut i: usize = 0;
        while i < n
            invariant
                i <= n,
                n == self.executors@.len(),
                *self == *old(self),
                old(self).wf(),
                forall|k: int| 0 <= k < i ==> !(#[trigger] self.executors@[k]).runs(build_id@),
            decreases n - i,
        {
            if self.executors[i].is_building(build_id) {
                let ghost olds = self.executors@;
                self.executors[i].cancel();
                proof {
                    let news = self.executors@;
                    Self::lemma_running_unique(olds, build_id@, i as int);
                    assert(news[i as int] == cancelled_slot(olds[i as int]));
                    assert(news =~= cancel_transition(olds, build_id@));
                    assert(forall|k: int|
                        0 <= k < news.len() ==> (#[trigger] news[k]).current_build_id
                            == olds[k].current_build_id && news[k].available == olds[k].available);
                    assert forall|p: int, q: int, id: Seq<char>|
                        0 <= p < q < news.len() && (#[trigger] news[p].runs(id)) && (
                        #[trigger] news[q].runs(id)) implies false by {
                        assert(olds[p].runs(id) && olds[q].runs(id));
                    }
                    assert forall|k: int| 0 <= k < news.len() implies (#[trigger] news[k]).wf() by {
                        assert(olds[k].wf());
                    }
                }
                return true;
            }
            i += 1;
        }
        proof {
            assert(!slot_running(self.executors@, build_id@));
        }
        false
    }

    /// Returns a slot to the pool after its build has flushed its logs.
    pub fn release(&mut self, slot: usize)
        requires
            old(self).wf(),
            slot < old(self).executors@.len(),
        ensures
            final(self).wf(),
            final(self).executors@.len() == old(self).executors@.len(),
            forall|k: int|
                0 <= k < old(self).executors@.len() && k != slot ==> final(self).executors@[k]
                    == old(self).executors@[k],
            final(self).executors@[slot as int].available,
            final(self).executors@[slot as int].current_build_id is None,
            !final(self).executors@[slot as int].cancel_requested,
    {
        let ghost olds = self.executors@;
        self.executors[slot].reset();
        proof {
            let news = self.executors@;
            assert forall|p: int, q: int, id: Seq<char>|
                0 <= p < q < news.len() && (#[trigger] news[p].runs(id)) && (#[trigger] news[q].runs(
                id,
            )) implies false by {
                assert(p != slot && q != slot);
                assert(olds[p].runs(id) && olds[q].runs(id));
            }
            assert forall|k: int| 0 <= k < news.len() implies (#[trigger] news[k]).wf() by {
                if k != slot {
                    assert(olds[k].wf());
                }
            }
        }
    }

    /// Whether cancellation has been requested for the build bound to this
    /// slot; the driver of that build's run polls this at job boundaries.
    pub fn is_cancel_requested(&self, slot: usize) -> (b: bool)
        requires
            slot < self.executors@.len(),
        ensures
            b == self.executors@[slot as int].cancel_requested,
    {
        self.executors[slot].is_cancel_requested()
    }
}

/// Law: routing the same cancellation twice leaves the pool exactly as
/// routing it once does; cancellation takes effect at most once.
pub proof fn lemma_cancel_idempotent(s: Seq<BuildExecutor>, id: Seq<char>)
    requires
        slots_wf(s),
    ensures
        cancel_transition(cancel_transition(s, id), id) == cancel_transition(s, id),
{
    if slot_running(s, id) {
        let i = running_slot(s, id);
        assert(0 <= i < s.len() && s[i].runs(id));
        let s1 = cancel_transition(s, id);
        assert(s1 == s.update(i, cancelled_slot(s[i])));
        assert(s1[i].runs(id));
        assert forall|p: int, q: int, x: Seq<char>|
            0 <= p < q < s1.len() && (#[trigger] s1[p].runs(x)) && (#[trigger] s1[q].runs(
            x,
        )) implies false by {
            assert(s[p].runs(x) && s[q].runs(x));
        }
        assert(slots_wf(s1)) by {
            assert forall|k: int| 0 <= k < s1.len() implies (#[trigger] s1[k]).wf() by {
                assert(s[k].wf());
            }
        }
        ExecutorPool::lemma_running_unique(s1, id, i);
        assert(cancelled_slot(s1[i]) == cancelled_slot(s[i]));
        assert(cancel_transition(s1, id) =~= s1);
    }
}

/// Law: routing a cancellation for a build that no slot is running — it
/// already finished, or was cancelled before — changes nothing.
pub proof fn lemma_cancel_after_finish(s: Seq<BuildExecutor>, id: Seq<char>)
    requires
        !slot_running(s, id),
    ensures
        cancel_transition(s, id) == s,
{
}

/// Law: admission is bounded by capacity alone. While fewer builds are
/// running than there are slots, some slot is free, so the next build is
/// admitted; once every slot is busy, none is free, and nothing is
/// admitted until a slot is released.
pub proof fn lemma_admission_capacity(s: Seq<BuildExecutor>)
    ensures
        0 <= num_busy(s) <= s.len(),
        (num_busy(s) < s.len()) <==> (exists|i: int|
            0 <= i < s.len() && (#[trigger] s[i]).available),
    decreases s.len(),
{
    if s.len() == 0 {
    } else {
        let prefix = s.drop_last();
        lemma_admission_capacity(prefix);
        assert(forall|i: int| 0 <= i < prefix.len() ==> prefix[i] == s[i]);
        if s.last().available {
            assert(s[s.len() - 1].available);
        } else {
            if num_busy(s) < s.len() {
                let w = choose|i: int| 0 <= i < prefix.len() && (#[trigger] prefix[i]).available;
                assert(s[w].available);
            }
            if exists|i: int| 0 <= i < s.len() && (#[trigger] s[i]).available {
                let w = choose|i: int| 0 <= i < s.len() && (#[trigger] s[i]).available;
                assert(w != s.len() - 1);
                assert(prefix[w].available);
            }
        }
    }
}

} // verus!
