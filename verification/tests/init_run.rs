use git_mate::data::{CommandResult, Credentials, HttpResponse, RepositoryDescriptor, Visibility};
use git_mate::effects::{Action, Event, ReportKind};
use git_mate::init::{init_start, init_step, next_init_action, InitState, InitStep};

fn demo_descriptor() -> RepositoryDescriptor {
    RepositoryDescriptor {
        name: String::from("demo"),
        description: String::from("Created with git_mate"),
        visibility: Visibility::Public,
        license: None,
    }
}

fn creds() -> Credentials {
    Credentials {
        token: String::from("tok"),
        username: String::from("alice"),
        default_branch: Some(String::from("main")),
        default_license: None,
    }
}

fn git_ok() -> Event {
    Event::GitRan(Ok(CommandResult {
        exit_success: true,
        stdout: Vec::new(),
        stderr: Vec::new(),
    }))
}

fn git_out(stdout: &str) -> Event {
    Event::GitRan(Ok(CommandResult {
        exit_success: true,
        stdout: stdout.as_bytes().to_vec(),
        stderr: Vec::new(),
    }))
}

fn git_fail(stderr: &str) -> Event {
    Event::GitRan(Ok(CommandResult {
        exit_success: false,
        stdout: Vec::new(),
        stderr: stderr.as_bytes().to_vec(),
    }))
}

fn http_ok(body: &str) -> Event {
    Event::HttpDone(Ok(HttpResponse { ok: true, status: 201, body: String::from(body) }))
}

fn http_status(status: u16, body: &str) -> Event {
    Event::HttpDone(Ok(HttpResponse { ok: false, status, body: String::from(body) }))
}

fn kinds(s: &InitState) -> Vec<ReportKind> {
    s.reports.iter().map(|r| r.kind).collect()
}

#[test]
fn full_run_on_an_empty_directory() {
    let mut s = init_start(demo_descriptor(), None, None, None);
    assert!(matches!(next_init_action(&s), Some(Action::CheckRepo)));
    s = init_step(s, Event::RepoChecked(false));
    assert_eq!(s.step, InitStep::GitInit);
    match next_init_action(&s) {
        Some(Action::RunGit(args)) => assert_eq!(args, vec![String::from("init")]),
        other => panic!("unexpected action {:?}", other),
    }
    s = init_step(s, git_ok());
    assert_eq!(s.step, InitStep::LoadCredentials);
    s = init_step(s, Event::CredentialsLoaded(Some(creds())));
    assert_eq!(s.step, InitStep::CreateRemote);
    match next_init_action(&s) {
        Some(Action::Http(req)) => {
            assert!(req.post);
            assert_eq!(req.url, "https://api.github.com/user/repos");
            assert!(req.body.unwrap().contains("\"auto_init\":false"));
        },
        other => panic!("unexpected action {:?}", other),
    }
    s = init_step(s, http_ok("{\"ssh_url\":\"git@github.com:alice/demo.git\"}"));
    assert_eq!(s.step, InitStep::AddRemote);
    match next_init_action(&s) {
        Some(Action::RunGit(args)) => assert_eq!(
            args,
            vec![
                String::from("remote"),
                String::from("add"),
                String::from("origin"),
                String::from("git@github.com:alice/demo.git"),
            ]
        ),
        other => panic!("unexpected action {:?}", other),
    }
    s = init_step(s, git_ok());
    assert_eq!(s.step, InitStep::CheckReadme);
    s = init_step(s, Event::Exists(false));
    assert_eq!(s.step, InitStep::WriteReadme);
    match next_init_action(&s) {
        Some(Action::WriteFile(path, content)) => {
            assert_eq!(path, "README.md");
            assert_eq!(content, "# demo\n\nCreated with git_mate");
        },
        other => panic!("unexpected action {:?}", other),
    }
    s = init_step(s, Event::Written(Ok(())));
    assert_eq!(s.step, InitStep::StageAll);
    s = init_step(s, git_ok());
    assert_eq!(s.step, InitStep::Commit);
    match next_init_action(&s) {
        Some(Action::RunGit(args)) => assert_eq!(
            args,
            vec![String::from("commit"), String::from("-m"), String::from("Initial commit")]
        ),
        other => panic!("unexpected action {:?}", other),
    }
    s = init_step(s, git_ok());
    assert_eq!(s.step, InitStep::ReadBranch);
    s = init_step(s, git_out("master\n"));
    assert_eq!(s.step, InitStep::RenameBranch);
    match next_init_action(&s) {
        Some(Action::RunGit(args)) => assert_eq!(
            args,
            vec![String::from("branch"), String::from("-M"), String::from("main")]
        ),
        other => panic!("unexpected action {:?}", other),
    }
    s = init_step(s, git_ok());
    assert_eq!(s.step, InitStep::Push);
    match next_init_action(&s) {
        Some(Action::RunGit(args)) => assert_eq!(
            args,
            vec![
                String::from("push"),
                String::from("-u"),
                String::from("origin"),
                String::from("main"),
            ]
        ),
        other => panic!("unexpected action {:?}", other),
    }
    s = init_step(s, git_ok());
    assert_eq!(s.step, InitStep::Done);
    assert!(next_init_action(&s).is_none());
    assert_eq!(
        kinds(&s),
        vec![
            ReportKind::GitInitialized,
            ReportKind::RepoCreated,
            ReportKind::RemoteAdded,
            ReportKind::ReadmeCreated,
            ReportKind::FilesStaged,
            ReportKind::InitialCommitCreated,
            ReportKind::BranchRenamed,
            ReportKind::Pushed,
        ]
    );
}

#[test]
fn already_a_repository_skips_initialization() {
    let mut s = init_start(demo_descriptor(), None, None, None);
    s = init_step(s, Event::RepoChecked(true));
    assert_eq!(s.step, InitStep::LoadCredentials);
    assert_eq!(kinds(&s), vec![ReportKind::AlreadyRepository]);
}

#[test]
fn failed_remote_creation_aborts_the_run() {
    let mut s = init_start(demo_descriptor(), None, None, None);
    s = init_step(s, Event::RepoChecked(true));
    s = init_step(s, Event::CredentialsLoaded(Some(creds())));
    assert_eq!(s.step, InitStep::CreateRemote);
    s = init_step(s, http_status(422, "{\"message\":\"name already exists\"}"));
    assert_eq!(s.step, InitStep::Aborted);
    assert!(next_init_action(&s).is_none());
    let last = s.reports.last().unwrap();
    assert_eq!(last.kind, ReportKind::RepoCreateFailed);
    assert_eq!(last.status, Some(422));
}

#[test]
fn creation_without_usable_url_aborts_the_run() {
    let mut s = init_start(demo_descriptor(), None, None, None);
    s = init_step(s, Event::RepoChecked(true));
    s = init_step(s, Event::CredentialsLoaded(Some(creds())));
    s = init_step(s, http_ok("{\"id\":7}"));
    assert_eq!(s.step, InitStep::Aborted);
    assert_eq!(s.reports.last().unwrap().kind, ReportKind::CloneUrlMissing);
}

#[test]
fn missing_credentials_abort_the_run() {
    let mut s = init_start(demo_descriptor(), None, None, None);
    s = init_step(s, Event::RepoChecked(true));
    s = init_step(s, Event::CredentialsLoaded(None));
    assert_eq!(s.step, InitStep::Aborted);
    assert_eq!(s.reports.last().unwrap().kind, ReportKind::NoConfiguration);
}

#[test]
fn incomplete_credentials_abort_the_run() {
    let mut s = init_start(demo_descriptor(), None, None, None);
    s = init_step(s, Event::RepoChecked(true));
    let empty = Credentials {
        token: String::new(),
        username: String::from("alice"),
        default_branch: None,
        default_license: None,
    };
    s = init_step(s, Event::CredentialsLoaded(Some(empty)));
    assert_eq!(s.step, InitStep::Aborted);
}

#[test]
fn failed_git_init_aborts_the_run() {
    let mut s = init_start(demo_descriptor(), None, None, None);
    s = init_step(s, Event::RepoChecked(false));
    s = init_step(s, git_fail("fatal: cannot init\n"));
    assert_eq!(s.step, InitStep::Aborted);
    let last = s.reports.last().unwrap();
    assert_eq!(last.kind, ReportKind::GitInitFailed);
    assert_eq!(last.detail.as_deref(), Some("fatal: cannot init"));
}

#[test]
fn soft_failures_do_not_stop_the_run() {
    let mut s = init_start(demo_descriptor(), None, None, None);
    s = init_step(s, Event::RepoChecked(true));
    s = init_step(s, Event::CredentialsLoaded(Some(creds())));
    s = init_step(s, http_ok("{\"ssh_url\":\"git@github.com:alice/demo.git\"}"));
    s = init_step(s, git_fail("remote origin already exists\n"));
    assert_eq!(s.step, InitStep::CheckReadme);
    s = init_step(s, Event::Exists(true));
    assert_eq!(s.step, InitStep::StageAll);
    s = init_step(s, git_ok());
    s = init_step(s, git_fail("nothing to commit\n"));
    assert_eq!(s.step, InitStep::ReadBranch);
    s = init_step(s, git_out("main\n"));
    assert_eq!(s.step, InitStep::Push);
    s = init_step(s, git_fail("no upstream\n"));
    assert_eq!(s.step, InitStep::Done);
    assert_eq!(
        kinds(&s),
        vec![
            ReportKind::AlreadyRepository,
            ReportKind::RepoCreated,
            ReportKind::RemoteAddFailed,
            ReportKind::FilesStaged,
            ReportKind::CommitFailed,
            ReportKind::PushFailed,
        ]
    );
}

#[test]
fn gitignore_and_license_phases_run_when_requested() {
    let mut s = init_start(
        demo_descriptor(),
        Some(String::from("Rust")),
        Some(String::from("mit")),
        None,
    );
    s = init_step(s, Event::RepoChecked(true));
    s = init_step(s, Event::CredentialsLoaded(Some(creds())));
    assert_eq!(s.step, InitStep::FetchGitignore);
    match next_init_action(&s) {
        Some(Action::Http(req)) => {
            assert_eq!(req.url, "https://api.github.com/gitignore/templates/Rust");
        },
        other => panic!("unexpected action {:?}", other),
    }
    s = init_step(s, http_ok("{\"source\":\"target/\\n\"}"));
    assert_eq!(s.step, InitStep::ReadGitignore);
    s = init_step(s, Event::FileContent(Some(String::from("old\n"))));
    assert_eq!(s.step, InitStep::WriteGitignore);
    match next_init_action(&s) {
        Some(Action::WriteFile(path, content)) => {
            assert_eq!(path, ".gitignore");
            assert_eq!(content, "old\n\n\n# Added by Git-Mate\ntarget/\n");
        },
        other => panic!("unexpected action {:?}", other),
    }
    s = init_step(s, Event::Written(Ok(())));
    assert_eq!(s.step, InitStep::FetchLicense);
    s = init_step(s, http_ok("{\"body\":\"MIT License\"}"));
    assert_eq!(s.step, InitStep::WriteLicense);
    match next_init_action(&s) {
        Some(Action::WriteFile(path, content)) => {
            assert_eq!(path, "LICENSE");
            assert_eq!(content, "MIT License");
        },
        other => panic!("unexpected action {:?}", other),
    }
    s = init_step(s, Event::Written(Ok(())));
    assert_eq!(s.step, InitStep::CreateRemote);
}

#[test]
fn failed_gitignore_fetch_is_soft() {
    let mut s = init_start(demo_descriptor(), Some(String::from("Rust")), None, None);
    s = init_step(s, Event::RepoChecked(true));
    s = init_step(s, Event::CredentialsLoaded(Some(creds())));
    assert_eq!(s.step, InitStep::FetchGitignore);
    s = init_step(s, http_status(404, "missing"));
    assert_eq!(s.step, InitStep::CreateRemote);
    assert_eq!(s.reports.last().unwrap().kind, ReportKind::GitignoreFetchFailed);
}

#[test]
fn license_only_run_skips_the_gitignore_phase() {
    let mut s = init_start(demo_descriptor(), None, Some(String::from("mit")), None);
    s = init_step(s, Event::RepoChecked(true));
    s = init_step(s, Event::CredentialsLoaded(Some(creds())));
    assert_eq!(s.step, InitStep::FetchLicense);
    match next_init_action(&s) {
        Some(Action::Http(req)) => {
            assert_eq!(req.url, "https://api.github.com/licenses/mit");
            assert!(!req.post);
        },
        other => panic!("unexpected action {:?}", other),
    }
    s = init_step(s, http_ok("{\"body\":\"MIT License\"}"));
    assert_eq!(s.step, InitStep::WriteLicense);
    s = init_step(s, Event::Written(Err(String::from("permission denied"))));
    assert_eq!(s.step, InitStep::CreateRemote);
    let last = s.reports.last().unwrap();
    assert_eq!(last.kind, ReportKind::LicenseWriteFailed);
    assert_eq!(last.detail.as_deref(), Some("permission denied"));
}

#[test]
fn workflow_scaffold_runs_before_staging() {
    let mut s = init_start(demo_descriptor(), None, None, Some(String::from("ci")));
    s = init_step(s, Event::RepoChecked(true));
    s = init_step(s, Event::CredentialsLoaded(Some(creds())));
    s = init_step(s, http_ok("{\"ssh_url\":\"git@github.com:alice/demo.git\"}"));
    s = init_step(s, git_ok());
    s = init_step(s, Event::Exists(true));
    assert_eq!(s.step, InitStep::WriteWorkflow);
    match next_init_action(&s) {
        Some(Action::WriteFile(path, content)) => {
            assert_eq!(path, ".github/workflows/ci.yml");
            assert!(content.starts_with("name: CI\n"));
        },
        other => panic!("unexpected action {:?}", other),
    }
    s = init_step(s, Event::Written(Ok(())));
    assert_eq!(s.step, InitStep::StageAll);
}

#[test]
fn branch_matching_the_target_is_not_renamed() {
    let mut s = init_start(demo_descriptor(), None, None, None);
    s = init_step(s, Event::RepoChecked(true));
    s = init_step(s, Event::CredentialsLoaded(Some(creds())));
    s = init_step(s, http_ok("{\"ssh_url\":\"u\"}"));
    s = init_step(s, git_ok());
    s = init_step(s, Event::Exists(true));
    s = init_step(s, git_ok());
    s = init_step(s, git_ok());
    assert_eq!(s.step, InitStep::ReadBranch);
    s = init_step(s, git_out("main\n"));
    assert_eq!(s.step, InitStep::Push);
}
