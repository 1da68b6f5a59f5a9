use crate::running_build::RunningBuild;
use vstd::prelude::*;

verus! {

/// What a subscriber is sent before any live line, and whether a live
/// stream follows: the snapshot of a live build replays first; with no
/// live entry the persisted log is replayed instead; with neither, one
/// sentinel line says that no events were found. Only a live entry has a
/// stream to follow.
pub fn subscription_backlog(live: Option<Vec<String>>, persisted: Option<String>) -> (r: (
    Vec<String>,
    bool,
))
    ensures
        r.1 == (live is Some),
        live matches Some(lines) ==> r.0 == lines,
        persisted matches Some(text) ==> (live is None ==> r.0.deep_view() == seq![text@]),
        live is None && persisted is None ==> r.0.deep_view() == seq![
            "No events found for this repository"@,
        ],
{
    match live {
        Some(lines) => (lines, true),
        None => {
            let mut backlog: Vec<String> = Vec::new();
            match persisted {
                Some(text) => {
                    backlog.push(text);
                    proof {
                        assert(backlog.deep_view() =~= seq![persisted->0@]);
                    }
                },
                None => {
                    backlog.push("No events found for this repository".to_owned());
                    proof {
                        assert(backlog.deep_view() =~= seq![
                            "No events found for this repository"@,
                        ]);
                    }
                },
            }
            (backlog, false)
        },
    }
}

/// The registry of live builds: one append-only log buffer per build
/// identifier. At most one live entry per identifier, ever.
pub struct LogHub {
    pub builds: Vec<RunningBuild>,
}

impl LogHub {
    /// Identifiers of live builds are pairwise distinct.
    pub open spec fn wf(self) -> bool {
        forall|i: int, j: int|
            #![trigger self.builds@[i].id@, self.builds@[j].id@]
            0 <= i < j < self.builds@.len() ==> self.builds@[i].id@ != self.builds@[j].id@
    }

    /// Whether a build with this identifier is live.
    pub open spec fn contains_build(self, id: Seq<char>) -> bool {
        exists|i: int| 0 <= i < self.builds@.len() && (#[trigger] self.builds@[i].id@) == id
    }

    /// The position of the live build with this identifier.
    pub open spec fn build_index(self, id: Seq<char>) -> int {
        choose|i: int| 0 <= i < self.builds@.len() && (#[trigger] self.builds@[i].id@) == id
    }

    /// The log lines appended so far for this identifier.
    pub open spec fn logs_of(self, id: Seq<char>) -> Seq<Seq<char>> {
        self.builds@[self.build_index(id)].logs.deep_view()
    }

    /// In a well-formed hub, an entry's position determines `build_index`.
    proof fn lemma_index_unique(self, id: Seq<char>, i: int)
        requires
            self.wf(),
            0 <= i < self.builds@.len(),
            self.builds@[i].id@ == id,
        ensures
            self.contains_build(id),
            self.build_index(id) == i,
    {
        assert(self.contains_build(id));
        let j = self.build_index(id);
        assert(0 <= j < self.builds@.len() && self.builds@[j].id@ == id);
        if i < j {
            assert(self.builds@[i].id@ != self.builds@[j].id@);
        } else if j < i {
            assert(self.builds@[j].id@ != self.builds@[i].id@);
        }
    }

    pub fn new() -> (hub: Self)
        ensures
            hub.wf(),
            hub.builds@.len() == 0,
            forall|id: Seq<char>| !(#[trigger] hub.contains_build(id)),
    {
        LogHub { builds: Vec::new() }
    }

    /// The position of the live entry for `id`, if there is one.
    fn find_index(&self, id: &String) -> (r: Option<usize>)
        ensures
            r matches Some(i) ==> i < self.builds@.len() && self.builds@[i as int].id@ == id@,
            r is None ==> !self.contains_build(id@),
    {
        let n = self.builds.len();
        let mut i: usize = 0;
        while i < n
            invariant
                i <= n,
                n == self.builds@.len(),
                forall|k: int| 0 <= k < i ==> (#[trigger] self.builds@[k].id@) != id@,
            decreases n - i,
        {
            if self.builds[i].id == *id {
                return Some(i);
            }
            i += 1;
        }
        None
    }

    /// Whether a build with this identifier is live.
    pub fn contains(&self, id: &str) -> (b: bool)
        ensures
            b == self.contains_build(id@),
    {
        let id_string: String = id.to_owned();
        match self.find_index(&id_string) {
            Some(i) => {
                proof {
                    assert(self.contains_build(id@));
                }
                true
            },
            None => false,
        }
    }

    /// Registers a new live entry with an empty buffer. Fails (returning
    /// false and changing nothing) exactly when the identifier is already
    /// live: that would mean a duplicate dispatch.
    pub fn create_build(&mut self, id: &str) -> (created: bool)
        requires
            old(self).wf(),
        ensures
            final(self).wf(),
            created == !old(self).contains_build(id@),
            !created ==> *final(self) == *old(self),
            created ==> {
                &&& final(self).builds@.len() == old(self).builds@.len() + 1
                &&& forall|k: int|
                    0 <= k < old(self).builds@.len() ==> final(self).builds@[k] == old(
                        self,
                    ).builds@[k]
                &&& final(self).contains_build(id@)
                &&& final(self).logs_of(id@) == Seq::<Seq<char>>::empty()
                &&& forall|x: Seq<char>|
                    x != id@ ==> #[trigger] final(self).contains_build(x) == old(
                        self,
                    ).contains_build(x)
                &&& forall|x: Seq<char>|
                    x != id@ && old(self).contains_build(x) ==> #[trigger] final(self).logs_of(x)
                        == old(self).logs_of(x)
            },
    {
        let id_string: String = id.to_owned();
        match self.find_index(&id_string) {
            Some(_) => false,
            None => {
                let ghost oldself = *self;
                let n = self.builds.len();
                self.builds.push(RunningBuild::new(id));
                proof {
                    let newb = self.builds@;
                    let oldb = oldself.builds@;
                    assert(newb[n as int].id@ == id@);
                    assert(forall|k: int| 0 <= k < n ==> newb[k] == oldb[k]);
                    assert forall|i: int, j: int| 0 <= i < j < newb.len() implies newb[i].id@
                        != newb[j].id@ by {
                        if j < n {
                            assert(oldb[i].id@ != oldb[j].id@);
                        } else {
                            assert(newb[j].id@ == id@);
                            if oldb[i].id@ == id@ {
                                assert(oldself.contains_build(id@));
                            }
                        }
                    }
                    self.lemma_index_unique(id@, n as int);
                    assert(self.logs_of(id@) =~= Seq::<Seq<char>>::empty());
                    assert forall|x: Seq<char>| x != id@ implies #[trigger] self.contains_build(x)
                        == oldself.contains_build(x) by {
                        if oldself.contains_build(x) {
                            let w = choose|k: int|
                                0 <= k < oldb.len() && (#[trigger] oldb[k].id@) == x;
                            assert(newb[w].id@ == x);
                        }
                        if self.contains_build(x) {
                            let w = choose|k: int|
                                0 <= k < newb.len() && (#[trigger] newb[k].id@) == x;
                            assert(w != n);
                            assert(oldb[w].id@ == x);
                        }
                    }
                    assert forall|x: Seq<char>|
                        x != id@ && oldself.contains_build(x) implies #[trigger] self.logs_of(x)
                        == oldself.logs_of(x) by {
                        let w = oldself.build_index(x);
                        oldself.lemma_index_unique(x, w);
                        assert(newb[w].id@ == x);
                        self.lemma_index_unique(x, w);
                    }
                }
                true
            },
        }
    }

    /// Appends a line to the identified build's buffer. A no-op, not an
    /// error, when the identifier is not live: logging can race benignly
    /// with the flush that removes an entry.
    pub fn send_log(&mut self, id: &String, line: &String)
        requires
            old(self).wf(),
        ensures
            final(self).wf(),
            !old(self).contains_build(id@) ==> *final(self) == *old(self),
            forall|x: Seq<char>|
                #[trigger] final(self).contains_build(x) == old(self).contains_build(x),
            old(self).contains_build(id@) ==> final(self).logs_of(id@) == old(self).logs_of(
                id@,
            ).push(line@),
            forall|x: Seq<char>|
                x != id@ && old(self).contains_build(x) ==> #[trigger] final(self).logs_of(x)
                    == old(self).logs_of(x),
    {
        match self.find_index(id) {
            None => {},
            Some(i) => {
                let ghost oldself = *self;
                self.builds[i].logs.push(line.clone());
                proof {
                    let newb = self.builds@;
                    let oldb = oldself.builds@;
                    assert(newb.len() == oldb.len());
                    assert(forall|k: int|
                        0 <= k < newb.len() && k != i ==> newb[k] == oldb[k]);
                    assert(newb[i as int].id@ == oldb[i as int].id@);
                    assert(forall|k: int|
                        0 <= k < newb.len() ==> (#[trigger] newb[k].id@) == oldb[k].id@);
                    assert(self.wf());
                    oldself.lemma_index_unique(id@, i as int);
                    self.lemma_index_unique(id@, i as int);
                    assert(newb[i as int].logs.deep_view() =~= oldb[i as int].logs.deep_view().push(
                        line@,
                    ));
                    assert forall|x: Seq<char>| #[trigger] self.contains_build(x) == oldself.contains_build(
                        x,
                    ) by {
                        if oldself.contains_build(x) {
                            let w = choose|k: int|
                                0 <= k < oldb.len() && (#[trigger] oldb[k].id@) == x;
                            assert(newb[w].id@ == x);
                        }
                        if self.contains_build(x) {
                            let w = choose|k: int|
                                0 <= k < newb.len() && (#[trigger] newb[k].id@) == x;
                            assert(oldb[w].id@ == x);
                        }
                    }
                    assert forall|x: Seq<char>|
                        x != id@ && oldself.contains_build(x) implies #[trigger] self.logs_of(x)
                        == oldself.logs_of(x) by {
                        let w = oldself.build_index(x);
                        oldself.lemma_index_unique(x, w);
                        assert(w != i);
                        assert(newb[w].id@ == x);
                        self.lemma_index_unique(x, w);
                    }
                }
            },
        }
    }

    /// A late subscriber's snapshot: a copy of every line appended so far
    /// for this identifier, in append order, or nothing if the identifier
    /// is not live.
    pub fn subscribe(&self, id: &String) -> (snapshot: Option<Vec<String>>)
        requires
            self.wf(),
        ensures
            snapshot is Some <==> self.contains_build(id@),
            snapshot matches Some(lines) ==> lines.deep_view() == self.logs_of(id@),
    {
        match self.find_index(id) {
            None => None,
            Some(i) => {
                proof {
                    self.lemma_index_unique(id@, i as int);
                }
                let src = &self.builds[i].logs;
                let m = src.len();
                let mut lines: Vec<String> = Vec::new();
                proof {
                    assert(lines.deep_view() =~= src.deep_view().subrange(0, 0));
                }
                let mut j: usize = 0;
                while j < m
                    invariant
                        j <= m,
                        m == src@.len(),
                        lines@.len() == j,
                        lines.deep_view() == src.deep_view().subrange(0, j as int),
                    decreases m - j,
                {
                    let ghost lold = lines.deep_view();
                    let item = src[j].clone();
                    proof {
                        assert(item == src@[j as int]);
                    }
                    lines.push(item);
                    proof {
                        assert(lines@[j as int]@ == src.deep_view()[j as int]);
                        assert forall|k: int| 0 <= k < j implies lines.deep_view()[k]
                            == src.deep_view()[k] by {
                            assert(lines.deep_view()[k] == lold[k]);
                            assert(lold[k] == src.deep_view().subrange(0, j as int)[k]);
                        }
                        assert(lines.deep_view() =~= src.deep_view().subrange(0, j + 1));
                    }
                    j += 1;
                }
                proof {
                    assert(src.deep_view().subrange(0, m as int) =~= src.deep_view());
                }
                Some(lines)
            },
        }
    }

    /// Removes and returns the identified build's entry, for the one-time
    /// flush to persistent storage. `None`, changing nothing, when the
    /// identifier is not live.
    pub fn pop_build(&mut self, id: &String) -> (popped: Option<RunningBuild>)
        requires
            old(self).wf(),
        ensures
            final(self).wf(),
            popped is Some <==> old(self).contains_build(id@),
            popped is None ==> *final(self) == *old(self),
            popped matches Some(build) ==> {
                &&& build.id@ == id@
                &&& build.logs.deep_view() == old(self).logs_of(id@)
                &&& !final(self).contains_build(id@)
                &&& forall|x: Seq<char>|
                    x != id@ ==> #[trigger] final(self).contains_build(x) == old(
                        self,
                    ).contains_build(x)
                &&& forall|x: Seq<char>|
                    x != id@ && old(self).contains_build(x) ==> #[trigger] final(self).logs_of(x)
                        == old(self).logs_of(x)
            },
    {
        match self.find_index(id) {
            None => None,
            Some(i) => {
                let ghost oldself = *self;
                let build = self.builds.remove(i);
                proof {
                    let newb = self.builds@;
                    let oldb = oldself.builds@;
                    oldself.lemma_index_unique(id@, i as int);
                    assert(forall|k: int| 0 <= k < i ==> newb[k] == oldb[k]);
                    assert(forall|k: int|
                        i <= k < newb.len() ==> newb[k] == oldb[k + 1]);
                    assert forall|p: int, q: int| 0 <= p < q < newb.len() implies newb[p].id@
                        != newb[q].id@ by {
                        let p0 = if p < i { p } else { p + 1 };
                        let q0 = if q < i { q } else { q + 1 };
                        assert(newb[p] == oldb[p0]);
                        assert(newb[q] == oldb[q0]);
                        assert(oldb[p0].id@ != oldb[q0].id@);
                    }
                    assert(build.logs.deep_view() == oldself.logs_of(id@));
                    if self.contains_build(id@) {
                        let w = choose|k: int|
                            0 <= k < newb.len() && (#[trigger] newb[k].id@) == id@;
                        let w0 = if w < i { w } else { w + 1 };
                        assert(oldb[w0].id@ == id@);
                        oldself.lemma_index_unique(id@, w0);
                    }
                    assert forall|x: Seq<char>| x != id@ implies #[trigger] self.contains_build(x)
                        == oldself.contains_build(x) by {
                        if oldself.contains_build(x) {
                            let w = oldself.build_index(x);
                            oldself.lemma_index_unique(x, w);
                            assert(w != i);
                            let w1 = if w < i { w } else { w - 1 };
                            assert(newb[w1].id@ == x);
                        }
                        if self.contains_build(x) {
                            let w = choose|k: int|
                                0 <= k < newb.len() && (#[trigger] newb[k].id@) == x;
                            let w0 = if w < i { w } else { w + 1 };
                            assert(oldb[w0].id@ == x);
                        }
                    }
                    assert forall|x: Seq<char>|
                        x != id@ && oldself.contains_build(x) implies #[trigger] self.logs_of(x)
                        == oldself.logs_of(x) by {
                        let w = oldself.build_index(x);
                        oldself.lemma_index_unique(x, w);
                        assert(w != i);
                        let w1 = if w < i { w } else { w - 1 };
                        assert(newb[w1].id@ == x);
                        assert(newb[w1] == oldb[w]);
                        self.lemma_index_unique(x, w1);
                    }
                }
                Some(build)
            },
        }
    }
}

} // verus!
