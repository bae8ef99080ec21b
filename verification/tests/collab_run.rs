use git_mate::branch::{branch_start, branch_step, next_branch_action, BranchCommand, BranchStep};
use git_mate::data::{CommandResult, Credentials, HttpResponse};
use git_mate::effects::{Action, Event, ReportKind};
use git_mate::gitignore::{gitignore_start, gitignore_step, next_gitignore_action, GitignoreStep};
use git_mate::issue::{issue_start, issue_step, next_issue_action, IssueStep};
use git_mate::pr::{next_pr_action, pr_start, pr_step, PrStep};

fn ran(exit_success: bool, stdout: &str, stderr: &str) -> Event {
    Event::GitRan(Ok(CommandResult {
        exit_success,
        stdout: stdout.as_bytes().to_vec(),
        stderr: stderr.as_bytes().to_vec(),
    }))
}

fn http(ok: bool, status: u16, body: &str) -> Event {
    Event::HttpDone(Ok(HttpResponse { ok, status, body: String::from(body) }))
}

fn creds() -> Credentials {
    Credentials {
        token: String::from("tok"),
        username: String::from("alice"),
        default_branch: Some(String::from("main")),
        default_license: None,
    }
}

#[test]
fn branch_create_with_checkout_switches() {
    let mut s = branch_start(BranchCommand::Create {
        name: String::from("feature"),
        checkout: true,
    });
    s = branch_step(s, Event::RepoChecked(true));
    assert_eq!(s.step, BranchStep::Run);
    match next_branch_action(&s) {
        Some(Action::RunGit(args)) => assert_eq!(
            args,
            vec![String::from("branch"), String::from("feature")]
        ),
        other => panic!("unexpected action {:?}", other),
    }
    s = branch_step(s, ran(true, "", ""));
    assert_eq!(s.step, BranchStep::Checkout);
    s = branch_step(s, ran(true, "", ""));
    assert_eq!(s.step, BranchStep::Done);
    let kinds: Vec<ReportKind> = s.reports.iter().map(|r| r.kind).collect();
    assert_eq!(kinds, vec![ReportKind::BranchCreated, ReportKind::SwitchedBranch]);
}

#[test]
fn branch_create_without_checkout_stops() {
    let mut s = branch_start(BranchCommand::Create {
        name: String::from("feature"),
        checkout: false,
    });
    s = branch_step(s, Event::RepoChecked(true));
    s = branch_step(s, ran(true, "", ""));
    assert_eq!(s.step, BranchStep::Done);
}

#[test]
fn branch_list_reports_the_listing() {
    let mut s = branch_start(BranchCommand::List);
    s = branch_step(s, Event::RepoChecked(true));
    s = branch_step(s, ran(true, "* main\n  feature\n", ""));
    assert_eq!(s.step, BranchStep::Done);
    let last = s.reports.last().unwrap();
    assert_eq!(last.kind, ReportKind::BranchList);
    assert_eq!(last.detail.as_deref(), Some("* main\n  feature"));
}

#[test]
fn branch_switch_reports_failures() {
    let mut s = branch_start(BranchCommand::Switch { name: String::from("nope") });
    s = branch_step(s, Event::RepoChecked(true));
    s = branch_step(s, ran(false, "", "error: pathspec 'nope'\n"));
    assert_eq!(s.step, BranchStep::Done);
    let last = s.reports.last().unwrap();
    assert_eq!(last.kind, ReportKind::SwitchFailed);
    assert_eq!(last.detail.as_deref(), Some("error: pathspec 'nope'"));
}

#[test]
fn issue_run_submits_to_the_parsed_repository() {
    let mut s = issue_start(
        Some(String::from("A bug")),
        Some(String::from("It breaks")),
        vec![String::from("bug")],
    );
    s = issue_step(s, Event::RepoChecked(true));
    s = issue_step(s, Event::CredentialsLoaded(Some(creds())));
    assert_eq!(s.step, IssueStep::GetRemote);
    s = issue_step(s, ran(true, "git@github.com:alice/proj.git\n", ""));
    assert_eq!(s.step, IssueStep::Submit);
    match next_issue_action(&s) {
        Some(Action::Http(req)) => {
            assert_eq!(req.url, "https://api.github.com/repos/alice/proj/issues");
            assert_eq!(
                req.body.unwrap(),
                "{\"title\":\"A bug\",\"body\":\"It breaks\",\"labels\":[\"bug\"]}"
            );
        },
        other => panic!("unexpected action {:?}", other),
    }
    s = issue_step(s, http(true, 201, "{\"html_url\":\"https://github.com/alice/proj/issues/1\"}"));
    assert_eq!(s.step, IssueStep::Done);
    let last = s.reports.last().unwrap();
    assert_eq!(last.kind, ReportKind::IssueCreated);
    assert_eq!(last.detail.as_deref(), Some("https://github.com/alice/proj/issues/1"));
}

#[test]
fn issue_prompts_fill_missing_fields() {
    let mut s = issue_start(None, None, Vec::new());
    s = issue_step(s, Event::RepoChecked(true));
    s = issue_step(s, Event::CredentialsLoaded(Some(creds())));
    s = issue_step(s, ran(true, "https://github.com/alice/proj.git\n", ""));
    assert_eq!(s.step, IssueStep::PromptTitle);
    s = issue_step(s, Event::PromptReply(None));
    assert_eq!(s.title.as_deref(), Some("New Issue"));
    assert_eq!(s.step, IssueStep::PromptBody);
    s = issue_step(s, Event::PromptReply(Some(String::from("details"))));
    assert_eq!(s.step, IssueStep::Submit);
}

#[test]
fn issue_aborts_on_unparsable_remote() {
    let mut s = issue_start(Some(String::from("t")), Some(String::from("b")), Vec::new());
    s = issue_step(s, Event::RepoChecked(true));
    s = issue_step(s, Event::CredentialsLoaded(Some(creds())));
    s = issue_step(s, ran(true, "https://example.com/alice/proj.git\n", ""));
    assert_eq!(s.step, IssueStep::Aborted);
    assert_eq!(s.reports.last().unwrap().kind, ReportKind::IdentityUnparsed);
}

#[test]
fn issue_reports_api_failure() {
    let mut s = issue_start(Some(String::from("t")), Some(String::from("b")), Vec::new());
    s = issue_step(s, Event::RepoChecked(true));
    s = issue_step(s, Event::CredentialsLoaded(Some(creds())));
    s = issue_step(s, ran(true, "git@github.com:alice/proj.git\n", ""));
    s = issue_step(s, http(false, 401, "{\"message\":\"Bad credentials\"}"));
    assert_eq!(s.step, IssueStep::Done);
    let last = s.reports.last().unwrap();
    assert_eq!(last.kind, ReportKind::IssueCreateFailed);
    assert_eq!(last.status, Some(401));
}

#[test]
fn pr_run_pushes_head_then_submits() {
    let mut s = pr_start(None, None, None, None);
    s = pr_step(s, Event::RepoChecked(true));
    s = pr_step(s, Event::CredentialsLoaded(Some(creds())));
    s = pr_step(s, ran(true, "git@github.com:alice/proj.git\n", ""));
    assert_eq!(s.step, PrStep::ReadBranch);
    s = pr_step(s, ran(true, "feature\n", ""));
    assert_eq!(s.step, PrStep::PromptTitle);
    match next_pr_action(&s) {
        Some(Action::Prompt { label, default }) => {
            assert_eq!(label, "Pull request title");
            assert_eq!(default.as_deref(), Some("Merge feature into main"));
        },
        other => panic!("unexpected action {:?}", other),
    }
    s = pr_step(s, Event::PromptReply(None));
    assert_eq!(s.title.as_deref(), Some("Merge feature into main"));
    assert_eq!(s.step, PrStep::PromptBody);
    s = pr_step(s, Event::PromptReply(None));
    assert_eq!(s.step, PrStep::PromptBase);
    s = pr_step(s, Event::PromptReply(None));
    assert_eq!(s.base.as_deref(), Some("main"));
    assert_eq!(s.step, PrStep::PromptHead);
    s = pr_step(s, Event::PromptReply(None));
    assert_eq!(s.head.as_deref(), Some("feature"));
    assert_eq!(s.step, PrStep::PushHead);
    match next_pr_action(&s) {
        Some(Action::RunGit(args)) => assert_eq!(
            args,
            vec![
                String::from("push"),
                String::from("--set-upstream"),
                String::from("origin"),
                String::from("feature"),
            ]
        ),
        other => panic!("unexpected action {:?}", other),
    }
    s = pr_step(s, ran(false, "", "denied\n"));
    assert_eq!(s.step, PrStep::Submit);
    assert_eq!(s.reports.last().unwrap().kind, ReportKind::HeadPushFailed);
    match next_pr_action(&s) {
        Some(Action::Http(req)) => {
            assert_eq!(req.url, "https://api.github.com/repos/alice/proj/pulls");
            assert_eq!(
                req.body.unwrap(),
                "{\"title\":\"Merge feature into main\",\"body\":\"\",\"head\":\"feature\",\"base\":\"main\"}"
            );
        },
        other => panic!("unexpected action {:?}", other),
    }
    s = pr_step(s, http(true, 201, "{\"html_url\":\"https://github.com/alice/proj/pull/2\"}"));
    assert_eq!(s.step, PrStep::Done);
    assert_eq!(s.reports.last().unwrap().kind, ReportKind::PrCreated);
}

#[test]
fn pr_aborts_when_branch_cannot_be_read() {
    let mut s = pr_start(None, None, None, None);
    s = pr_step(s, Event::RepoChecked(true));
    s = pr_step(s, Event::CredentialsLoaded(Some(creds())));
    s = pr_step(s, ran(true, "git@github.com:alice/proj.git\n", ""));
    s = pr_step(s, ran(false, "", "fatal: HEAD\n"));
    assert_eq!(s.step, PrStep::Aborted);
    assert_eq!(s.reports.last().unwrap().kind, ReportKind::CurrentBranchFailed);
}

#[test]
fn gitignore_flag_path_fetches_and_writes() {
    let mut s = gitignore_start(Some(String::from("Rust")));
    s = gitignore_step(s, Event::CredentialsLoaded(Some(creds())));
    assert_eq!(s.step, GitignoreStep::FetchTemplate);
    match next_gitignore_action(&s) {
        Some(Action::Http(req)) => {
            assert_eq!(req.url, "https://api.github.com/gitignore/templates/Rust");
        },
        other => panic!("unexpected action {:?}", other),
    }
    s = gitignore_step(s, http(true, 200, "{\"source\":\"target/\\n\"}"));
    assert_eq!(s.step, GitignoreStep::ReadExisting);
    s = gitignore_step(s, Event::FileContent(None));
    assert_eq!(s.step, GitignoreStep::Write);
    match next_gitignore_action(&s) {
        Some(Action::WriteFile(path, content)) => {
            assert_eq!(path, ".gitignore");
            assert_eq!(content, "# Created by Git-Mate using Rust template\ntarget/\n");
        },
        other => panic!("unexpected action {:?}", other),
    }
    s = gitignore_step(s, Event::Written(Ok(())));
    assert_eq!(s.step, GitignoreStep::Done);
    assert_eq!(s.reports.last().unwrap().kind, ReportKind::GitignoreCreated);
}

#[test]
fn gitignore_selection_path_uses_the_listed_templates() {
    let mut s = gitignore_start(None);
    s = gitignore_step(s, Event::CredentialsLoaded(Some(creds())));
    assert_eq!(s.step, GitignoreStep::FetchList);
    s = gitignore_step(s, http(true, 200, "[\"Node\",\"Rust\"]"));
    assert_eq!(s.step, GitignoreStep::ChooseTemplate);
    match next_gitignore_action(&s) {
        Some(Action::Choose { label, options }) => {
            assert_eq!(label, "Select a .gitignore template");
            assert_eq!(options, vec![String::from("Node"), String::from("Rust")]);
        },
        other => panic!("unexpected action {:?}", other),
    }
    s = gitignore_step(s, Event::Chosen(Some(1)));
    assert_eq!(s.template.as_deref(), Some("Rust"));
    assert_eq!(s.step, GitignoreStep::FetchTemplate);
}

#[test]
fn gitignore_cancelled_selection_aborts() {
    let mut s = gitignore_start(None);
    s = gitignore_step(s, Event::CredentialsLoaded(Some(creds())));
    s = gitignore_step(s, http(true, 200, "[\"Node\"]"));
    s = gitignore_step(s, Event::Chosen(None));
    assert_eq!(s.step, GitignoreStep::Aborted);
    assert_eq!(s.reports.last().unwrap().kind, ReportKind::SelectionCancelled);
}
