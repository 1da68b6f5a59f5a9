use vstd::prelude::*;

verus! {

/// One unit of execution concurrency: a slot that runs at most one build at
/// a time, remembers which build it is running, and carries that build's
/// cooperative cancellation flag.
#[derive(Debug)]
pub struct BuildExecutor {
    pub current_build_id: Option<String>,
    pub available: bool,
    pub cancel_requested: bool,
}

impl BuildExecutor {
    /// A slot is free exactly when no build is bound to it.
    pub open spec fn wf(self) -> bool {
        self.available <==> self.current_build_id is None
    }

    /// Whether this slot is running the identified build.
    pub open spec fn runs(self, id: Seq<char>) -> bool {
        match self.current_build_id {
            Some(cur) => cur@ == id,
            None => false,
        }
    }

    pub fn new() -> (executor: Self)
        ensures
            executor.available,
            executor.current_build_id is None,
            !executor.cancel_requested,
            executor.wf(),
    {
        BuildExecutor { current_build_id: None, available: true, cancel_requested: false }
    }

    pub fn is_available(&self) -> (b: bool)
        ensures
            b == self.available,
    {
        self.available
    }

    pub fn is_building(&self, build_id: &str) -> (b: bool)
        ensures
            b == self.runs(build_id@),
    {
        match &self.current_build_id {
            None => false,
            Some(cur) => {
                let wanted: String = build_id.to_owned();
                *cur == wanted
            },
        }
    }

    /// Binds a build to this free slot, with a fresh cancellation flag.
    pub fn bind(&mut self, build_id: &str)
        requires
            old(self).available,
        ensures
            !final(self).available,
            !final(self).cancel_requested,
            final(self).runs(build_id@),
            final(self).current_build_id matches Some(cur) && cur@ == build_id@,
            final(self).wf(),
    {
        self.current_build_id = Some(build_id.to_owned());
        self.available = false;
        self.cancel_requested = false;
    }

    /// Requests cooperative cancellation of whatever build is bound here;
    /// the running pipeline observes the flag at its next job boundary.
    pub fn cancel(&mut self)
        ensures
            *final(self) == (BuildExecutor { cancel_requested: true, ..*old(self) }),
    {
        self.cancel_requested = true;
    }

    /// Returns the slot to the pool: free, with no bound build and no
    /// pending cancellation. Runs on every exit path of a build.
    pub fn reset(&mut self)
        ensures
            final(self).available,
            final(self).current_build_id is None,
            !final(self).cancel_requested,
            final(self).wf(),
    {
        self.cancel_requested = false;
        self.available = true;
        self.current_build_id = None;
    }

    pub fn is_cancel_requested(&self) -> (b: bool)
        ensures
            b == self.cancel_requested,
    {
        self.cancel_requested
    }
}

} // verus!
