use crate::git::Commit;
use vstd::prelude::*;

verus! {

/// A user as it appears in a push webhook payload.
#[derive(Debug, Clone)]
pub struct GithubUser {
    pub date: String,
    pub email: Option<String>,
    pub name: String,
    pub username: String,
}

/// A commit as it appears in a push webhook payload.
#[derive(Debug, Clone)]
pub struct GithubCommit {
    pub added: Vec<String>,
    pub author: GithubUser,
    pub committer: GithubUser,
    pub distinct: bool,
    pub id: String,
    pub message: String,
    pub modified: Vec<String>,
    pub removed: Vec<String>,
    pub timestamp: String,
    pub tree_id: String,
    pub url: String,
}

/// The repository a push webhook payload speaks of.
#[derive(Debug, Clone)]
pub struct GithubRepository {
    pub name: String,
    pub url: String,
}

/// The push notification that starts the intake path.
#[derive(Debug, Clone)]
pub struct GithubPushWebhookPayload {
    pub after: String,
    pub before: String,
    pub base_ref: Option<String>,
    pub commits: Vec<GithubCommit>,
    pub compare: String,
    pub created: bool,
    pub deleted: bool,
    pub forced: bool,
    pub head_commit: Option<GithubCommit>,
    pub pusher: GithubUser,
    /// The git ref that was pushed, e.g. `refs/heads/main`.
    pub reference: String,
    pub repository: GithubRepository,
    pub sender: GithubUser,
}

impl From<GithubCommit> for Commit {
    /// Keeps of a webhook commit exactly what a build needs: its identifier
    /// and its URL.
    fn from(val: GithubCommit) -> (commit: Commit) {
        Commit { id: val.id, url: val.url }
    }
}

impl vstd::std_specs::convert::FromSpecImpl<GithubCommit> for Commit {
    open spec fn obeys_from_spec() -> bool {
        true
    }

    open spec fn from_spec(val: GithubCommit) -> Commit {
        Commit { id: val.id, url: val.url }
    }
}

} // verus!
