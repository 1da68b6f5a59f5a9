use merel::error::MerelError;
use merel::git::Commit;
use merel::github::{GithubCommit, GithubUser};
use merel::pipeline::{ContainerMethod, Pipeline};

fn pipeline_with_triggers(branches: &[&str]) -> Pipeline {
    Pipeline {
        trigger_branches: branches.iter().map(|b| b.to_string()).collect(),
        container_method: ContainerMethod::Docker,
        jobs: vec![],
    }
}

#[test]
fn should_trigger_on_listed_branch() {
    let pipeline = pipeline_with_triggers(&["main", "dev"]);
    assert!(pipeline.should_trigger("main"));
    assert!(pipeline.should_trigger("dev"));
}

#[test]
fn should_not_trigger_on_unlisted_branch() {
    let pipeline = pipeline_with_triggers(&["main"]);
    assert!(!pipeline.should_trigger("master"));
    assert!(!pipeline.should_trigger(""));
}

#[test]
fn should_trigger_is_case_sensitive() {
    let pipeline = pipeline_with_triggers(&["main"]);
    assert!(!pipeline.should_trigger("Main"));
    assert!(!pipeline.should_trigger("MAIN"));
}

#[test]
fn should_trigger_with_no_branches_is_false() {
    let pipeline = pipeline_with_triggers(&[]);
    assert!(!pipeline.should_trigger("main"));
}

#[test]
fn should_trigger_on_listed_empty_branch() {
    let pipeline = pipeline_with_triggers(&[""]);
    assert!(pipeline.should_trigger(""));
    assert!(!pipeline.should_trigger("main"));
}

#[test]
fn command_failed_message_is_formatted() {
    let err = MerelError::CommandFailed("false".to_string(), "exit status: 1".to_string());
    assert_eq!(
        err.message(),
        "Could not execute command false, got exit status: 1"
    );
}

#[test]
fn pipeline_retrieve_message_names_the_directory() {
    let err = MerelError::PipelineRetrieveError("/tmp/repos/demo".to_string());
    assert_eq!(
        err.message(),
        "Could not retrieve a pipeline from /tmp/repos/demo"
    );
}

fn sample_user() -> GithubUser {
    GithubUser {
        date: "2024-01-01T00:00:00Z".to_string(),
        email: None,
        name: "sample".to_string(),
        username: "sample".to_string(),
    }
}

#[test]
fn commit_from_github_commit_keeps_id_and_url() {
    let github_commit = GithubCommit {
        added: vec![],
        author: sample_user(),
        committer: sample_user(),
        distinct: true,
        id: "abc123".to_string(),
        message: "first".to_string(),
        modified: vec![],
        removed: vec![],
        timestamp: "2024-01-01T00:00:00Z".to_string(),
        tree_id: "def456".to_string(),
        url: "https://example.invalid/abc123".to_string(),
    };
    let commit: Commit = github_commit.into();
    assert_eq!(commit.id, "abc123");
    assert_eq!(commit.url, "https://example.invalid/abc123");
}
