use git_mate::data::CommandResult;
use git_mate::effects::{Action, Event, ReportKind};
use git_mate::sync::{next_sync_action, sync_start, sync_step, SyncStep};

fn ran(exit_success: bool, stdout: &str, stderr: &str) -> Event {
    Event::GitRan(Ok(CommandResult {
        exit_success,
        stdout: stdout.as_bytes().to_vec(),
        stderr: stderr.as_bytes().to_vec(),
    }))
}

#[test]
fn clean_tree_only_pushes_the_current_branch() {
    let mut s = sync_start(Some(String::from("msg")));
    s = sync_step(s, Event::RepoChecked(true));
    assert_eq!(s.step, SyncStep::Status);
    match next_sync_action(&s) {
        Some(Action::RunGit(args)) => assert_eq!(
            args,
            vec![String::from("status"), String::from("--porcelain")]
        ),
        other => panic!("unexpected action {:?}", other),
    }
    s = sync_step(s, ran(true, " \n", ""));
    assert_eq!(s.step, SyncStep::CleanReadBranch);
    assert_eq!(s.reports.last().unwrap().kind, ReportKind::NoChanges);
    s = sync_step(s, ran(true, "feature\n", ""));
    assert_eq!(s.step, SyncStep::CleanPush);
    match next_sync_action(&s) {
        Some(Action::RunGit(args)) => assert_eq!(
            args,
            vec![String::from("push"), String::from("origin"), String::from("feature")]
        ),
        other => panic!("unexpected action {:?}", other),
    }
    s = sync_step(s, ran(true, "", ""));
    assert_eq!(s.step, SyncStep::Done);
    assert_eq!(s.reports.last().unwrap().kind, ReportKind::PushedExisting);
}

#[test]
fn dirty_tree_stages_commits_and_pushes() {
    let mut s = sync_start(Some(String::from("fix the bug")));
    s = sync_step(s, Event::RepoChecked(true));
    s = sync_step(s, ran(true, " M src/main.rs\n", ""));
    assert_eq!(s.step, SyncStep::StageAll);
    s = sync_step(s, ran(true, "", ""));
    assert_eq!(s.step, SyncStep::Commit);
    match next_sync_action(&s) {
        Some(Action::RunGit(args)) => assert_eq!(
            args,
            vec![String::from("commit"), String::from("-m"), String::from("fix the bug")]
        ),
        other => panic!("unexpected action {:?}", other),
    }
    s = sync_step(s, ran(true, "", ""));
    assert_eq!(s.step, SyncStep::ReadBranch);
    s = sync_step(s, ran(true, "main\n", ""));
    assert_eq!(s.step, SyncStep::Push);
    s = sync_step(s, ran(true, "", ""));
    assert_eq!(s.step, SyncStep::Done);
    assert_eq!(s.reports.last().unwrap().kind, ReportKind::Pushed);
}

#[test]
fn outside_a_repository_the_run_aborts() {
    let mut s = sync_start(None);
    s = sync_step(s, Event::RepoChecked(false));
    assert_eq!(s.step, SyncStep::Aborted);
    assert_eq!(s.reports.last().unwrap().kind, ReportKind::NotARepository);
    assert!(next_sync_action(&s).is_none());
}

#[test]
fn missing_message_is_prompted_with_a_default() {
    let mut s = sync_start(None);
    s = sync_step(s, Event::RepoChecked(true));
    assert_eq!(s.step, SyncStep::PromptMessage);
    match next_sync_action(&s) {
        Some(Action::Prompt { label, default }) => {
            assert_eq!(label, "Commit message");
            assert_eq!(default.as_deref(), Some("Update"));
        },
        other => panic!("unexpected action {:?}", other),
    }
    s = sync_step(s, Event::PromptReply(None));
    assert_eq!(s.step, SyncStep::Status);
    assert_eq!(s.message.as_deref(), Some("Update"));
    assert_eq!(s.reports.last().unwrap().kind, ReportKind::DefaultMessageUsed);
}

#[test]
fn failed_staging_aborts_the_run() {
    let mut s = sync_start(Some(String::from("m")));
    s = sync_step(s, Event::RepoChecked(true));
    s = sync_step(s, ran(true, "?? new.txt\n", ""));
    s = sync_step(s, ran(false, "", "fatal: pathspec\n"));
    assert_eq!(s.step, SyncStep::Aborted);
    let last = s.reports.last().unwrap();
    assert_eq!(last.kind, ReportKind::StageFailed);
    assert_eq!(last.detail.as_deref(), Some("fatal: pathspec"));
}

#[test]
fn failed_status_check_is_reported_and_staging_proceeds() {
    let mut s = sync_start(Some(String::from("m")));
    s = sync_step(s, Event::RepoChecked(true));
    s = sync_step(s, ran(false, "", "boom\n"));
    assert_eq!(s.step, SyncStep::StageAll);
    assert_eq!(s.reports.last().unwrap().kind, ReportKind::StatusCheckFailed);
}
