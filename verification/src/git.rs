use vstd::prelude::*;

verus! {

/// A source repository, as the intake path sees it.
#[derive(Debug, Clone)]
pub struct Repository {
    pub name: String,
    pub clone_url: String,
}

/// One commit a build checks out.
#[derive(Debug, Clone)]
pub struct Commit {
    pub id: String,
    pub url: String,
}

} // verus!
