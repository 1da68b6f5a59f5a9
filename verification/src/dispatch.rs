use crate::build_message::{BuildMessage, NewBuildMessage};
use crate::executor_pool::{cancel_transition, slot_running, ExecutorPool};
use crate::log_hub::LogHub;
use crate::runner::{spec_start, PipelineRun};
use crate::running_build::RunningBuild;
use crate::workspace_context::WorkspaceContext;
use vstd::prelude::*;

verus! {

/// What handling one message decided.
pub enum DispatchOutcome {
    /// The build was admitted: its slot is bound, its log entry exists.
    /// The caller drives `run` as an independent unit of work, then calls
    /// `finish` on the slot.
    Started { slot: usize, context: WorkspaceContext, run: PipelineRun },
    /// Every slot is busy; the message is handed back to be retried once a
    /// slot has been released.
    Deferred { message: NewBuildMessage },
    /// A live build already carries this identifier — a duplicate
    /// dispatch; nothing was started and nothing changed.
    Rejected { message: NewBuildMessage },
    /// A cancellation was routed; `found` says whether any slot was still
    /// running the build.
    CancelRouted { found: bool },
}

/// The sequential control plane: turns the inbound message stream into
/// pool and log-hub operations, one message at a time.
pub struct Dispatcher {
    pub pool: ExecutorPool,
    pub hub: LogHub,
}

impl Dispatcher {
    /// Pool and hub are each well formed, and every build bound to a slot
    /// is live in the hub. With the hub's uniqueness of identifiers this
    /// gives at most one slot and one log entry per build.
    pub open spec fn wf(self) -> bool {
        &&& self.pool.wf()
        &&& self.hub.wf()
        &&& forall|id: Seq<char>|
            #[trigger] slot_running(self.pool.executors@, id) ==> self.hub.contains_build(id)
    }

    pub fn new(pool_size: usize) -> (dispatcher: Self)
        ensures
            dispatcher.wf(),
            dispatcher.pool.executors@.len() == pool_size,
            dispatcher.hub.builds@.len() == 0,
    {
        let pool = ExecutorPool::new(pool_size);
        let hub = LogHub::new();
        let dispatcher = Dispatcher { pool, hub };
        proof {
            assert forall|id: Seq<char>| #[trigger]
                slot_running(dispatcher.pool.executors@, id) implies dispatcher.hub.contains_build(
                id,
            ) by {
                let w = choose|i: int|
                    0 <= i < dispatcher.pool.executors@.len()
                        && (#[trigger] dispatcher.pool.executors@[i]).runs(id);
                assert(dispatcher.pool.executors@[w].current_build_id is None);
            }
        }
        dispatcher
    }

    /// Handles one message of the inbound stream: admits a new build to
    /// the first free slot, hands it back when there is none or when its
    /// identifier is already live, and routes a cancellation to the slot
    /// running the named build.
    pub fn handle(&mut self, message: BuildMessage) -> (outcome: DispatchOutcome)
        requires
            old(self).wf(),
        ensures
            final(self).wf(),
            message matches BuildMessage::CancelBuild(cancel) ==> {
                &&& final(self).hub == old(self).hub
                &&& final(self).pool.executors@ == cancel_transition(
                    old(self).pool.executors@,
                    cancel.0@,
                )
                &&& outcome matches DispatchOutcome::CancelRouted { found } && found
                    == slot_running(old(self).pool.executors@, cancel.0@)
            },
            message matches BuildMessage::NewBuild(m) ==> {
                &&& old(self).hub.contains_build(m.context.id@) ==> {
                    &&& *final(self) == *old(self)
                    &&& outcome matches DispatchOutcome::Rejected { message: back } && back == m
                }
                &&& !old(self).hub.contains_build(m.context.id@) && !(exists|k: int|
                    0 <= k < old(self).pool.executors@.len()
                        && (#[trigger] old(self).pool.executors@[k]).available) ==> {
                    &&& *final(self) == *old(self)
                    &&& outcome matches DispatchOutcome::Deferred { message: back } && back == m
                }
                &&& !old(self).hub.contains_build(m.context.id@) && (exists|k: int|
                    0 <= k < old(self).pool.executors@.len()
                        && (#[trigger] old(self).pool.executors@[k]).available) ==> {
                    &&& outcome matches DispatchOutcome::Started { slot, context, run } && {
                        &&& context == m.context
                        &&& run == spec_start(m.pipeline)
                        &&& slot < old(self).pool.executors@.len()
                        &&& old(self).pool.executors@[slot as int].available
                        &&& final(self).pool.executors@.len() == old(self).pool.executors@.len()
                        &&& forall|k: int|
                            0 <= k < old(self).pool.executors@.len() && k != slot
                                ==> final(self).pool.executors@[k] == old(self).pool.executors@[k]
                        &&& final(self).pool.executors@[slot as int].runs(m.context.id@)
                        &&& !final(self).pool.executors@[slot as int].available
                        &&& !final(self).pool.executors@[slot as int].cancel_requested
                        &&& final(self).hub.contains_build(m.context.id@)
                        &&& final(self).hub.logs_of(m.context.id@) == Seq::<Seq<char>>::empty()
                        &&& forall|x: Seq<char>|
                            x != m.context.id@ ==> #[trigger] final(self).hub.contains_build(x)
                                == old(self).hub.contains_build(x)
                        &&& forall|x: Seq<char>|
                            x != m.context.id@ && old(self).hub.contains_build(x)
                                ==> #[trigger] final(self).hub.logs_of(x) == old(self).hub.logs_of(
                                x)
                    }
                }
            },
    {
        match message {
            BuildMessage::CancelBuild(cancel) => {
                let ghost olds = self.pool.executors@;
                let found = self.pool.cancel(cancel.0.as_str());
                proof {
                    let news = self.pool.executors@;
                    assert forall|id: Seq<char>| #[trigger]
                        slot_running(news, id) implies self.hub.contains_build(id) by {
                        let w = choose|i: int|
                            0 <= i < news.len() && (#[trigger] news[i]).runs(id);
                        assert(olds[w].runs(id));
                        assert(slot_running(olds, id));
                    }
                }
                DispatchOutcome::CancelRouted { found }
            },
            BuildMessage::NewBuild(m) => {
                if self.hub.contains(m.context.id.as_str()) {
                    DispatchOutcome::Rejected { message: m }
                } else {
                    proof {
                        if slot_running(self.pool.executors@, m.context.id@) {
                            assert(self.hub.contains_build(m.context.id@));
                        }
                    }
                    match self.pool.try_admit(m.context.id.as_str()) {
                        None => DispatchOutcome::Deferred { message: m },
                        Some(slot) => {
                            let ghost mid = m.context.id@;
                            let created = self.hub.create_build(m.context.id.as_str());
                            proof {
                                assert(created);
                            }
                            let run = PipelineRun::new(m.pipeline);
                            proof {
                                assert forall|id: Seq<char>| #[trigger]
                                    slot_running(
                                        self.pool.executors@,
                                        id,
                                    ) implies self.hub.contains_build(id) by {
                                    let news = self.pool.executors@;
                                    let w = choose|i: int|
                                        0 <= i < news.len() && (#[trigger] news[i]).runs(id);
                                    if w == slot {
                                        assert(id == mid);
                                    } else {
                                        assert(old(self).pool.executors@[w].runs(id));
                                        assert(slot_running(old(self).pool.executors@, id));
                                        assert(old(self).hub.contains_build(id));
                                        assert(id != mid);
                                    }
                                }
                            }
                            DispatchOutcome::Started { slot, context: m.context, run }
                        },
                    }
                }
            },
        }
    }

    /// The completion path for one build, run by the unit of work that
    /// drove it: removes the build's log entry — handing it back for the
    /// one-time flush to disk — and releases the slot, whatever happened
    /// to the run. Capacity is never lost.
    pub fn finish(&mut self, slot: usize) -> (popped: Option<RunningBuild>)
        requires
            old(self).wf(),
            slot < old(self).pool.executors@.len(),
        ensures
            final(self).wf(),
            final(self).pool.executors@.len() == old(self).pool.executors@.len(),
            forall|k: int|
                0 <= k < old(self).pool.executors@.len() && k != slot
                    ==> final(self).pool.executors@[k] == old(self).pool.executors@[k],
            final(self).pool.executors@[slot as int].available,
            final(self).pool.executors@[slot as int].current_build_id is None,
            !final(self).pool.executors@[slot as int].cancel_requested,
            old(self).pool.executors@[slot as int].current_build_id is None ==> popped is None
                && final(self).hub == old(self).hub,
            old(self).pool.executors@[slot as int].current_build_id matches Some(cur) ==> {
                &&& (popped is Some <==> old(self).hub.contains_build(cur@))
                &&& popped is None ==> final(self).hub == old(self).hub
                &&& popped matches Some(build) ==> {
                    &&& build.id@ == cur@
                    &&& build.logs.deep_view() == old(self).hub.logs_of(cur@)
                    &&& !final(self).hub.contains_build(cur@)
                    &&& forall|x: Seq<char>|
                        x != cur@ ==> #[trigger] final(self).hub.contains_build(x)
                            == old(self).hub.contains_build(x)
                    &&& forall|x: Seq<char>|
                        x != cur@ && old(self).hub.contains_build(x)
                            ==> #[trigger] final(self).hub.logs_of(x) == old(self).hub.logs_of(x)
                }
            },
    {
        let popped = match &self.pool.executors[slot].current_build_id {
            None => None,
            Some(id) => {
                let id = id.clone();
                self.hub.pop_build(&id)
            },
        };
        self.pool.release(slot);
        proof {
            let news = self.pool.executors@;
            assert forall|id: Seq<char>| #[trigger]
                slot_running(news, id) implies self.hub.contains_build(id) by {
                let w = choose|i: int| 0 <= i < news.len() && (#[trigger] news[i]).runs(id);
                assert(w != slot);
                assert(old(self).pool.executors@[w].runs(id));
                assert(slot_running(old(self).pool.executors@, id));
                assert(old(self).hub.contains_build(id));
                match old(self).pool.executors@[slot as int].current_build_id {
                    None => {},
                    Some(cur) => {
                        if id == cur@ {
                            ExecutorPool::lemma_running_unique(
                                old(self).pool.executors@,
                                id,
                                w,
                            );
                            ExecutorPool::lemma_running_unique(
                                old(self).pool.executors@,
                                id,
                                slot as int,
                            );
                        }
                    },
                }
            }
        }
        popped
    }
}

} // verus!
