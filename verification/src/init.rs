//! The initialization orchestrator: from an empty or existing local
//! directory to a pushed, remote-tracked repository.
//!
//! The run is a state machine. Early stations gate all later value and their
//! failure aborts the run: a working tree must exist, credentials must be
//! loadable, and the remote repository must be created with a usable clone
//! URL. Every later station is an independently useful artifact whose
//! failure is reported and stepped over: scaffold files, the remote
//! attachment, staging, the commit, the branch rename and the push.

use vstd::prelude::*;
use crate::api::{create_repo_request, extract_clone_url, license_request, spec_create_repo_request,
    spec_extract_clone_url, spec_license_request, spec_template_request, template_request};
use crate::command::{command_error_text, spec_command_ok, spec_git_failure_text, stdout_text,
    spec_stdout_text, args1, args2, args3, args4};
use crate::data::{Credentials, CredentialsView, RepositoryDescriptor, RepositoryDescriptorView};
use crate::effects::{bare_report, detail_report, fetch_failure_report, Action, ActionView, Event,
    EventView, Report, ReportKind, ReportView};
use crate::json::{json_string_field, spec_json_string_field};
use crate::scaffold::{merged_gitignore, readme_content, spec_merged_gitignore,
    spec_readme_content, spec_workflow_file, workflow_file};
use crate::text::{opt_or_empty, opt_str, str_eq};
use crate::trace::{lemma_absorbing_excludes, lemma_monotone_excludes, lemma_pass_through, reaches};
use vstd::string::StringExecFns;

verus! {

/// The stations of an initialization run, in the order they are attempted.
#[derive(Clone, Copy, Debug, PartialEq, Eq, Structural)]
pub enum InitStep {
    /// Determine whether the directory is already under version control.
    CheckRepo,
    /// Initialize version control (only when it was not).
    GitInit,
    /// Load the persisted credentials; absent credentials abort the run.
    LoadCredentials,
    /// Fetch the requested gitignore template.
    FetchGitignore,
    /// Read any existing gitignore file, to merge under a marker.
    ReadGitignore,
    /// Write the merged gitignore file.
    WriteGitignore,
    /// Fetch the requested license text.
    FetchLicense,
    /// Write the license file verbatim.
    WriteLicense,
    /// Create the remote repository; failure or an unusable answer aborts.
    CreateRemote,
    /// Attach the created clone URL as the origin remote.
    AddRemote,
    /// Determine whether a README already exists.
    CheckReadme,
    /// Write the README (only when none existed).
    WriteReadme,
    /// Scaffold the requested workflow file.
    WriteWorkflow,
    /// Stage all files.
    StageAll,
    /// Create the initial commit.
    Commit,
    /// Read the current branch name.
    ReadBranch,
    /// Rename the current branch to the configured default.
    RenameBranch,
    /// Push the default branch upstream.
    Push,
    /// The run finished.
    Done,
    /// The run was aborted by a fatal failure.
    Aborted,
}

/// Where a station stands in the run's fixed order.
pub open spec fn init_rank(step: InitStep) -> int {
    match step {
        InitStep::CheckRepo => 0,
        InitStep::GitInit => 1,
        InitStep::LoadCredentials => 2,
        InitStep::FetchGitignore => 3,
        InitStep::ReadGitignore => 4,
        InitStep::WriteGitignore => 5,
        InitStep::FetchLicense => 6,
        InitStep::WriteLicense => 7,
        InitStep::CreateRemote => 8,
        InitStep::AddRemote => 9,
        InitStep::CheckReadme => 10,
        InitStep::WriteReadme => 11,
        InitStep::WriteWorkflow => 12,
        InitStep::StageAll => 13,
        InitStep::Commit => 14,
        InitStep::ReadBranch => 15,
        InitStep::RenameBranch => 16,
        InitStep::Push => 17,
        InitStep::Done => 18,
        InitStep::Aborted => 19,
    }
}

/// The state of one initialization run.
#[derive(Debug)]
pub struct InitState {
    pub step: InitStep,
    pub descriptor: RepositoryDescriptor,
    pub gitignore_template: Option<String>,
    pub license_id: Option<String>,
    pub workflow_kind: Option<String>,
    pub credentials: Option<Credentials>,
    pub pending_gitignore: Option<String>,
    pub pending_license: Option<String>,
    pub remote_url: Option<String>,
    pub reports: Vec<Report>,
}

#[verifier::ext_equal]
pub struct InitStateView {
    pub step: InitStep,
    pub descriptor: RepositoryDescriptorView,
    pub gitignore_template: Option<Seq<char>>,
    pub license_id: Option<Seq<char>>,
    pub workflow_kind: Option<Seq<char>>,
    pub credentials: Option<CredentialsView>,
    pub pending_gitignore: Option<Seq<char>>,
    pub pending_license: Option<Seq<char>>,
    pub remote_url: Option<Seq<char>>,
    pub reports: Seq<ReportView>,
}

impl View for InitState {
    type V = InitStateView;

    open spec fn view(&self) -> InitStateView {
        InitStateView {
            step: self.step,
            descriptor: self.descriptor@,
            gitignore_template: self.gitignore_template.deep_view(),
            license_id: self.license_id.deep_view(),
            workflow_kind: self.workflow_kind.deep_view(),
            credentials: match &self.credentials {
                Some(c) => Some(c@),
                None => None,
            },
            pending_gitignore: self.pending_gitignore.deep_view(),
            pending_license: self.pending_license.deep_view(),
            remote_url: self.remote_url.deep_view(),
            reports: self.reports.deep_view(),
        }
    }
}

/// The loaded token, or nothing when no credentials were loaded.
pub open spec fn token_of(s: InitStateView) -> Seq<char> {
    match s.credentials {
        Some(c) => c.token,
        None => Seq::empty(),
    }
}

/// The branch the run targets: the configured default, else "main".
pub open spec fn target_of(s: InitStateView) -> Seq<char> {
    match s.credentials {
        Some(c) => c.branch_target(),
        None => "main"@,
    }
}

/// The station after the gitignore phase: the license fetch when a license
/// was requested, else remote creation.
pub open spec fn after_gitignore_phase(s: InitStateView) -> InitStep {
    if s.license_id is Some {
        InitStep::FetchLicense
    } else {
        InitStep::CreateRemote
    }
}

/// The station after credentials are loaded: the gitignore fetch when a
/// template was requested, else onward.
pub open spec fn after_credentials(s: InitStateView) -> InitStep {
    if s.gitignore_template is Some {
        InitStep::FetchGitignore
    } else {
        after_gitignore_phase(s)
    }
}

/// The station after the README phase: the workflow scaffold when one was
/// requested, else staging.
pub open spec fn after_readme(s: InitStateView) -> InitStep {
    if s.workflow_kind is Some {
        InitStep::WriteWorkflow
    } else {
        InitStep::StageAll
    }
}

/// The starting state of an initialization run.
pub open spec fn spec_init_start(
    descriptor: RepositoryDescriptorView,
    gitignore_template: Option<Seq<char>>,
    license_id: Option<Seq<char>>,
    workflow_kind: Option<Seq<char>>,
) -> InitStateView {
    InitStateView {
        step: InitStep::CheckRepo,
        descriptor,
        gitignore_template,
        license_id,
        workflow_kind,
        credentials: None,
        pending_gitignore: None,
        pending_license: None,
        remote_url: None,
        reports: Seq::empty(),
    }
}

/// The action performed at each station. Terminal states ask nothing.
pub open spec fn init_action_of(s: InitStateView) -> Option<ActionView> {
    match s.step {
        InitStep::CheckRepo => Some(ActionView::CheckRepo),
        InitStep::GitInit => Some(ActionView::RunGit(seq!["init"@])),
        InitStep::LoadCredentials => Some(ActionView::LoadCredentials),
        InitStep::FetchGitignore => Some(
            ActionView::Http(
                spec_template_request(token_of(s), opt_or_empty(s.gitignore_template)),
            ),
        ),
        InitStep::ReadGitignore => Some(ActionView::ReadFile(".gitignore"@)),
        InitStep::WriteGitignore => Some(
            ActionView::WriteFile(".gitignore"@, opt_or_empty(s.pending_gitignore)),
        ),
        InitStep::FetchLicense => Some(
            ActionView::Http(spec_license_request(token_of(s), opt_or_empty(s.license_id))),
        ),
        InitStep::WriteLicense => Some(
            ActionView::WriteFile("LICENSE"@, opt_or_empty(s.pending_license)),
        ),
        InitStep::CreateRemote => Some(
            ActionView::Http(spec_create_repo_request(token_of(s), s.descriptor)),
        ),
        InitStep::AddRemote => Some(
            ActionView::RunGit(seq!["remote"@, "add"@, "origin"@, opt_or_empty(s.remote_url)]),
        ),
        InitStep::CheckReadme => Some(ActionView::FileExists("README.md"@)),
        InitStep::WriteReadme => Some(
            ActionView::WriteFile(
                "README.md"@,
                spec_readme_content(s.descriptor.name, s.descriptor.description),
            ),
        ),
        InitStep::WriteWorkflow => Some(
            ActionView::WriteFile(
                ".github/workflows/"@ + spec_workflow_file(opt_or_empty(s.workflow_kind)).0,
                spec_workflow_file(opt_or_empty(s.workflow_kind)).1,
            ),
        ),
        InitStep::StageAll => Some(ActionView::RunGit(seq!["add"@, "."@])),
        InitStep::Commit => Some(ActionView::RunGit(seq!["commit"@, "-m"@, "Initial commit"@])),
        InitStep::ReadBranch => Some(
            ActionView::RunGit(seq!["rev-parse"@, "--abbrev-ref"@, "HEAD"@]),
        ),
        InitStep::RenameBranch => Some(ActionView::RunGit(seq!["branch"@, "-M"@, target_of(s)])),
        InitStep::Push => Some(ActionView::RunGit(seq!["push"@, "-u"@, "origin"@, target_of(s)])),
        InitStep::Done => None,
        InitStep::Aborted => None,
    }
}

/// One transition of an initialization run: the state after the current
/// station's action has been answered by `e`. An event that does not answer
/// the current station changes nothing.
pub open spec fn init_next(s: InitStateView, e: EventView) -> InitStateView {
    match s.step {
        InitStep::CheckRepo => match e {
            EventView::RepoChecked(true) => InitStateView {
                step: InitStep::LoadCredentials,
                reports: s.reports.push(bare_report(ReportKind::AlreadyRepository)),
                ..s
            },
            EventView::RepoChecked(false) => InitStateView { step: InitStep::GitInit, ..s },
            _ => s,
        },
        InitStep::GitInit => match e {
            EventView::GitRan(r) => {
                if spec_command_ok(r) {
                    InitStateView {
                        step: InitStep::LoadCredentials,
                        reports: s.reports.push(bare_report(ReportKind::GitInitialized)),
                        ..s
                    }
                } else {
                    InitStateView {
                        step: InitStep::Aborted,
                        reports: s.reports.push(
                            detail_report(ReportKind::GitInitFailed, spec_git_failure_text(r)),
                        ),
                        ..s
                    }
                }
            },
            _ => s,
        },
        InitStep::LoadCredentials => match e {
            EventView::CredentialsLoaded(c) => match c {
                Some(c) => {
                    if c.wf() {
                        let s2 = InitStateView { credentials: Some(c), ..s };
                        InitStateView { step: after_credentials(s2), ..s2 }
                    } else {
                        InitStateView {
                            step: InitStep::Aborted,
                            reports: s.reports.push(bare_report(ReportKind::NoConfiguration)),
                            ..s
                        }
                    }
                },
                None => InitStateView {
                    step: InitStep::Aborted,
                    reports: s.reports.push(bare_report(ReportKind::NoConfiguration)),
                    ..s
                },
            },
            _ => s,
        },
        InitStep::FetchGitignore => match e {
            EventView::HttpDone(r) => {
                if r matches Ok(resp) && resp.ok {
                    let resp = r->Ok_0;
                    match spec_json_string_field(resp.body, "source"@) {
                        Some(source) => InitStateView {
                            step: InitStep::ReadGitignore,
                            pending_gitignore: Some(source),
                            ..s
                        },
                        None => InitStateView {
                            step: after_gitignore_phase(s),
                            reports: s.reports.push(
                                bare_report(ReportKind::GitignoreInvalidResponse),
                            ),
                            ..s
                        },
                    }
                } else {
                    InitStateView {
                        step: after_gitignore_phase(s),
                        reports: s.reports.push(
                            fetch_failure_report(
                                ReportKind::GitignoreConnectFailed,
                                ReportKind::GitignoreFetchFailed,
                                r,
                            ),
                        ),
                        ..s
                    }
                }
            },
            _ => s,
        },
        InitStep::ReadGitignore => match e {
            EventView::FileContent(old) => InitStateView {
                step: InitStep::WriteGitignore,
                pending_gitignore: Some(
                    spec_merged_gitignore(
                        old,
                        opt_or_empty(s.gitignore_template),
                        opt_or_empty(s.pending_gitignore),
                    ),
                ),
                ..s
            },
            _ => s,
        },
        InitStep::WriteGitignore => match e {
            EventView::Written(r) => InitStateView {
                step: after_gitignore_phase(s),
                reports: s.reports.push(
                    match r {
                        Ok(_) => bare_report(ReportKind::GitignoreCreated),
                        Err(m) => detail_report(ReportKind::GitignoreWriteFailed, m),
                    },
                ),
                ..s
            },
            _ => s,
        },
        InitStep::FetchLicense => match e {
            EventView::HttpDone(r) => {
                if r matches Ok(resp) && resp.ok {
                    let resp = r->Ok_0;
                    match spec_json_string_field(resp.body, "body"@) {
                        Some(text) => InitStateView {
                            step: InitStep::WriteLicense,
                            pending_license: Some(text),
                            ..s
                        },
                        None => InitStateView {
                            step: InitStep::CreateRemote,
                            reports: s.reports.push(
                                bare_report(ReportKind::LicenseInvalidResponse),
                            ),
                            ..s
                        },
                    }
                } else {
                    InitStateView {
                        step: InitStep::CreateRemote,
                        reports: s.reports.push(
                            fetch_failure_report(
                                ReportKind::LicenseConnectFailed,
                                ReportKind::LicenseFetchFailed,
                                r,
                            ),
                        ),
                        ..s
                    }
                }
            },
            _ => s,
        },
        InitStep::WriteLicense => match e {
            EventView::Written(r) => InitStateView {
                step: InitStep::CreateRemote,
                reports: s.reports.push(
                    match r {
                        Ok(_) => bare_report(ReportKind::LicenseCreated),
                        Err(m) => detail_report(ReportKind::LicenseWriteFailed, m),
                    },
                ),
                ..s
            },
            _ => s,
        },
        InitStep::CreateRemote => match e {
            EventView::HttpDone(r) => {
                if r matches Ok(resp) && resp.ok {
                    let resp = r->Ok_0;
                    match spec_extract_clone_url(resp.body) {
                        Some(url) => InitStateView {
                            step: InitStep::AddRemote,
                            remote_url: Some(url),
                            reports: s.reports.push(detail_report(ReportKind::RepoCreated, url)),
                            ..s
                        },
                        None => InitStateView {
                            step: InitStep::Aborted,
                            reports: s.reports.push(bare_report(ReportKind::CloneUrlMissing)),
                            ..s
                        },
                    }
                } else {
                    InitStateView {
                        step: InitStep::Aborted,
                        reports: s.reports.push(
                            fetch_failure_report(
                                ReportKind::RepoCreateFailed,
                                ReportKind::RepoCreateFailed,
                                r,
                            ),
                        ),
                        ..s
                    }
                }
            },
            _ => s,
        },
        InitStep::AddRemote => match e {
            EventView::GitRan(r) => InitStateView {
                step: InitStep::CheckReadme,
                reports: s.reports.push(
                    if spec_command_ok(r) {
                        bare_report(ReportKind::RemoteAdded)
                    } else {
                        detail_report(ReportKind::RemoteAddFailed, spec_git_failure_text(r))
                    },
                ),
                ..s
            },
            _ => s,
        },
        InitStep::CheckReadme => match e {
            EventView::Exists(true) => InitStateView { step: after_readme(s), ..s },
            EventView::Exists(false) => InitStateView { step: InitStep::WriteReadme, ..s },
            _ => s,
        },
        InitStep::WriteReadme => match e {
            EventView::Written(r) => InitStateView {
                step: after_readme(s),
                reports: s.reports.push(
                    match r {
                        Ok(_) => bare_report(ReportKind::ReadmeCreated),
                        Err(m) => detail_report(ReportKind::ReadmeWriteFailed, m),
                    },
                ),
                ..s
            },
            _ => s,
        },
        InitStep::WriteWorkflow => match e {
            EventView::Written(r) => InitStateView {
                step: InitStep::StageAll,
                reports: s.reports.push(
                    match r {
                        Ok(_) => detail_report(
                            ReportKind::WorkflowCreated,
                            ".github/workflows/"@ + spec_workflow_file(
                                opt_or_empty(s.workflow_kind),
                            ).0,
                        ),
                        Err(m) => detail_report(ReportKind::WorkflowWriteFailed, m),
                    },
                ),
                ..s
            },
            _ => s,
        },
        InitStep::StageAll => match e {
            EventView::GitRan(r) => InitStateView {
                step: InitStep::Commit,
                reports: s.reports.push(
                    if spec_command_ok(r) {
                        bare_report(ReportKind::FilesStaged)
                    } else {
                        detail_report(ReportKind::StageFailed, spec_git_failure_text(r))
                    },
                ),
                ..s
            },
            _ => s,
        },
        InitStep::Commit => match e {
            EventView::GitRan(r) => InitStateView {
                step: InitStep::ReadBranch,
                reports: s.reports.push(
                    if spec_command_ok(r) {
                        bare_report(ReportKind::InitialCommitCreated)
                    } else {
                        detail_report(ReportKind::CommitFailed, spec_git_failure_text(r))
                    },
                ),
                ..s
            },
            _ => s,
        },
        InitStep::ReadBranch => match e {
            EventView::GitRan(r) => {
                if r matches Ok(c) && c.exit_success && spec_stdout_text(c) is Some {
                    let branch = spec_stdout_text(r->Ok_0)->Some_0;
                    if branch == target_of(s) {
                        InitStateView { step: InitStep::Push, ..s }
                    } else {
                        InitStateView { step: InitStep::RenameBranch, ..s }
                    }
                } else {
                    InitStateView {
                        step: InitStep::Push,
                        reports: s.reports.push(bare_report(ReportKind::BranchUndetermined)),
                        ..s
                    }
                }
            },
            _ => s,
        },
        InitStep::RenameBranch => match e {
            EventView::GitRan(r) => InitStateView {
                step: InitStep::Push,
                reports: s.reports.push(
                    if spec_command_ok(r) {
                        detail_report(ReportKind::BranchRenamed, target_of(s))
                    } else {
                        detail_report(ReportKind::BranchRenameFailed, spec_git_failure_text(r))
                    },
                ),
                ..s
            },
            _ => s,
        },
        InitStep::Push => match e {
            EventView::GitRan(r) => InitStateView {
                step: InitStep::Done,
                reports: s.reports.push(
                    if spec_command_ok(r) {
                        bare_report(ReportKind::Pushed)
                    } else {
                        detail_report(ReportKind::PushFailed, spec_git_failure_text(r))
                    },
                ),
                ..s
            },
            _ => s,
        },
        InitStep::Done => s,
        InitStep::Aborted => s,
    }
}

/// Borrow the loaded token, empty when no credentials were loaded.
fn cred_token(c: &Option<Credentials>) -> (t: &str)
    ensures
        t@ == (match c {
            Some(cr) => cr@.token,
            None => Seq::<char>::empty(),
        }),
{
    match c {
        Some(cr) => cr.token.as_str(),
        None => {
            proof {
                reveal_strlit("");
                assert(""@ =~= Seq::<char>::empty());
            }
            ""
        },
    }
}

/// The branch the run targets: the configured default, else "main".
fn target_branch(c: &Option<Credentials>) -> (b: String)
    ensures
        b@ == (match c {
            Some(cr) => cr@.branch_target(),
            None => "main"@,
        }),
{
    match c {
        Some(cr) => match &cr.default_branch {
            Some(b) => b.clone(),
            None => String::from_str("main"),
        },
        None => String::from_str("main"),
    }
}

/// Start an initialization run for the given descriptor and requested
/// scaffolds.
pub fn init_start(
    descriptor: RepositoryDescriptor,
    gitignore_template: Option<String>,
    license_id: Option<String>,
    workflow_kind: Option<String>,
) -> (s: InitState)
    ensures
        s@ == spec_init_start(
            descriptor@,
            gitignore_template.deep_view(),
            license_id.deep_view(),
            workflow_kind.deep_view(),
        ),
{
    let s = InitState {
        step: InitStep::CheckRepo,
        descriptor,
        gitignore_template,
        license_id,
        workflow_kind,
        credentials: None,
        pending_gitignore: None,
        pending_license: None,
        remote_url: None,
        reports: Vec::new(),
    };
    proof {
        assert(s@ =~~= spec_init_start(
            s.descriptor@,
            s.gitignore_template.deep_view(),
            s.license_id.deep_view(),
            s.workflow_kind.deep_view(),
        ));
    }
    s
}

/// The action to perform next, or nothing when the run is over.
pub fn next_init_action(s: &InitState) -> (a: Option<Action>)
    ensures
        match a {
            Some(a) => init_action_of(s@) == Some(a@),
            None => init_action_of(s@) is None,
        },
{
    match s.step {
        InitStep::CheckRepo => Some(Action::CheckRepo),
        InitStep::GitInit => Some(Action::RunGit(args1("init"))),
        InitStep::LoadCredentials => Some(Action::LoadCredentials),
        InitStep::FetchGitignore => {
            let req = template_request(cred_token(&s.credentials), opt_str(&s.gitignore_template));
            proof {
                assert(req@ =~~= spec_template_request(
                    token_of(s@),
                    opt_or_empty(s@.gitignore_template),
                ));
            }
            Some(Action::Http(req))
        },
        InitStep::ReadGitignore => Some(Action::ReadFile(String::from_str(".gitignore"))),
        InitStep::WriteGitignore => Some(
            Action::WriteFile(
                String::from_str(".gitignore"),
                opt_str(&s.pending_gitignore).to_owned(),
            ),
        ),
        InitStep::FetchLicense => {
            let req = license_request(cred_token(&s.credentials), opt_str(&s.license_id));
            proof {
                assert(req@ =~~= spec_license_request(token_of(s@), opt_or_empty(s@.license_id)));
            }
            Some(Action::Http(req))
        },
        InitStep::WriteLicense => Some(
            Action::WriteFile(String::from_str("LICENSE"), opt_str(&s.pending_license).to_owned()),
        ),
        InitStep::CreateRemote => {
            let req = create_repo_request(cred_token(&s.credentials), &s.descriptor);
            proof {
                assert(req@ =~~= spec_create_repo_request(token_of(s@), s@.descriptor));
            }
            Some(Action::Http(req))
        },
        InitStep::AddRemote => {
            let a = args4("remote", "add", "origin", opt_str(&s.remote_url));
            proof {
                assert(a.deep_view() =~~= seq![
                    "remote"@,
                    "add"@,
                    "origin"@,
                    opt_or_empty(s@.remote_url),
                ]);
            }
            Some(Action::RunGit(a))
        },
        InitStep::CheckReadme => Some(Action::FileExists(String::from_str("README.md"))),
        InitStep::WriteReadme => Some(
            Action::WriteFile(
                String::from_str("README.md"),
                readme_content(s.descriptor.name.as_str(), s.descriptor.description.as_str()),
            ),
        ),
        InitStep::WriteWorkflow => {
            let (fname, content) = workflow_file(opt_str(&s.workflow_kind));
            let mut path = String::from_str(".github/workflows/");
            path.append(fname.as_str());
            proof {
                assert(path@ =~= ".github/workflows/"@ + spec_workflow_file(
                    opt_or_empty(s@.workflow_kind),
                ).0);
            }
            Some(Action::WriteFile(path, content))
        },
        InitStep::StageAll => Some(Action::RunGit(args2("add", "."))),
        InitStep::Commit => Some(Action::RunGit(args3("commit", "-m", "Initial commit"))),
        InitStep::ReadBranch => Some(Action::RunGit(args3("rev-parse", "--abbrev-ref", "HEAD"))),
        InitStep::RenameBranch => {
            let target = target_branch(&s.credentials);
            let a = args3("branch", "-M", target.as_str());
            proof {
                assert(a.deep_view() =~~= seq!["branch"@, "-M"@, target_of(s@)]);
            }
            Some(Action::RunGit(a))
        },
        InitStep::Push => {
            let target = target_branch(&s.credentials);
            let a = args4("push", "-u", "origin", target.as_str());
            proof {
                assert(a.deep_view() =~~= seq!["push"@, "-u"@, "origin"@, target_of(s@)]);
            }
            Some(Action::RunGit(a))
        },
        InitStep::Done => None,
        InitStep::Aborted => None,
    }
}

/// Advance an initialization run by one answered action.
pub fn init_step(s: InitState, e: Event) -> (s2: InitState)
    ensures
        s2@ == init_next(s@, e@),
{
    let ghost s0 = s@;
    let ghost e0 = e@;
    let mut s = s;
    match (s.step, e) {
        (InitStep::CheckRepo, Event::RepoChecked(true)) => {
            s.reports.push(Report::bare(ReportKind::AlreadyRepository));
            s.step = InitStep::LoadCredentials;
            proof {
                assert(s@ =~~= init_next(s0, e0));
            }
        },
        (InitStep::CheckRepo, Event::RepoChecked(false)) => {
            s.step = InitStep::GitInit;
            proof {
                assert(s@ =~~= init_next(s0, e0));
            }
        },
        (InitStep::GitInit, Event::GitRan(r)) => {
            match r {
                Ok(c) if c.exit_success => {
                    s.reports.push(Report::bare(ReportKind::GitInitialized));
                    s.step = InitStep::LoadCredentials;
                },
                Ok(c) => {
                    s.reports.push(
                        Report::with_detail(ReportKind::GitInitFailed, command_error_text(&c)),
                    );
                    s.step = InitStep::Aborted;
                },
                Err(m) => {
                    s.reports.push(Report::with_detail(ReportKind::GitInitFailed, m));
                    s.step = InitStep::Aborted;
                },
            }
            proof {
                assert(s@ =~~= init_next(s0, e0));
            }
        },
        (InitStep::LoadCredentials, Event::CredentialsLoaded(c)) => {
            match c {
                Some(c) => {
                    if c.is_complete() {
                        s.credentials = Some(c);
                        s.step = if s.gitignore_template.is_some() {
                            InitStep::FetchGitignore
                        } else if s.license_id.is_some() {
                            InitStep::FetchLicense
                        } else {
                            InitStep::CreateRemote
                        };
                    } else {
                        s.reports.push(Report::bare(ReportKind::NoConfiguration));
                        s.step = InitStep::Aborted;
                    }
                },
                None => {
                    s.reports.push(Report::bare(ReportKind::NoConfiguration));
                    s.step = InitStep::Aborted;
                },
            }
            proof {
                assert(s@ =~~= init_next(s0, e0));
            }
        },
        (InitStep::FetchGitignore, Event::HttpDone(r)) => {
            match r {
                Ok(resp) if resp.ok => {
                    match json_string_field(resp.body.as_str(), "source") {
                        Some(source) => {
                            s.pending_gitignore = Some(source);
                            s.step = InitStep::ReadGitignore;
                        },
                        None => {
                            s.reports.push(Report::bare(ReportKind::GitignoreInvalidResponse));
                            s.step = if s.license_id.is_some() {
                                InitStep::FetchLicense
                            } else {
                                InitStep::CreateRemote
                            };
                        },
                    }
                },
                Ok(resp) => {
                    s.reports.push(
                        Report::with_status(
                            ReportKind::GitignoreFetchFailed,
                            resp.status,
                            resp.body,
                        ),
                    );
                    s.step = if s.license_id.is_some() {
                        InitStep::FetchLicense
                    } else {
                        InitStep::CreateRemote
                    };
                },
                Err(m) => {
                    s.reports.push(Report::with_detail(ReportKind::GitignoreConnectFailed, m));
                    s.step = if s.license_id.is_some() {
                        InitStep::FetchLicense
                    } else {
                        InitStep::CreateRemote
                    };
                },
            }
            proof {
                assert(s@ =~~= init_next(s0, e0));
            }
        },
        (InitStep::ReadGitignore, Event::FileContent(old_content)) => {
            let merged = merged_gitignore(
                &old_content,
                opt_str(&s.gitignore_template),
                opt_str(&s.pending_gitignore),
            );
            s.pending_gitignore = Some(merged);
            s.step = InitStep::WriteGitignore;
            proof {
                assert(s@ =~~= init_next(s0, e0));
            }
        },
        (InitStep::WriteGitignore, Event::Written(r)) => {
            match r {
                Ok(_) => s.reports.push(Report::bare(ReportKind::GitignoreCreated)),
                Err(m) => s.reports.push(
                    Report::with_detail(ReportKind::GitignoreWriteFailed, m),
                ),
            }
            s.step = if s.license_id.is_some() {
                InitStep::FetchLicense
            } else {
                InitStep::CreateRemote
            };
            proof {
                assert(s@ =~~= init_next(s0, e0));
            }
        },
        (InitStep::FetchLicense, Event::HttpDone(r)) => {
            match r {
                Ok(resp) if resp.ok => {
                    match json_string_field(resp.body.as_str(), "body") {
                        Some(text) => {
                            s.pending_license = Some(text);
                            s.step = InitStep::WriteLicense;
                        },
                        None => {
                            s.reports.push(Report::bare(ReportKind::LicenseInvalidResponse));
                            s.step = InitStep::CreateRemote;
                        },
                    }
                },
                Ok(resp) => {
                    s.reports.push(
                        Report::with_status(ReportKind::LicenseFetchFailed, resp.status, resp.body),
                    );
                    s.step = InitStep::CreateRemote;
                },
                Err(m) => {
                    s.reports.push(Report::with_detail(ReportKind::LicenseConnectFailed, m));
                    s.step = InitStep::CreateRemote;
                },
            }
            proof {
                assert(s@ =~~= init_next(s0, e0));
            }
        },
        (InitStep::WriteLicense, Event::Written(r)) => {
            match r {
                Ok(_) => s.reports.push(Report::bare(ReportKind::LicenseCreated)),
                Err(m) => s.reports.push(Report::with_detail(ReportKind::LicenseWriteFailed, m)),
            }
            s.step = InitStep::CreateRemote;
            proof {
                assert(s@ =~~= init_next(s0, e0));
            }
        },
        (InitStep::CreateRemote, Event::HttpDone(r)) => {
            match r {
                Ok(resp) if resp.ok => {
                    match extract_clone_url(resp.body.as_str()) {
                        Some(url) => {
                            s.reports.push(
                                Report::with_detail(ReportKind::RepoCreated, url.clone()),
                            );
                            s.remote_url = Some(url);
                            s.step = InitStep::AddRemote;
                        },
                        None => {
                            s.reports.push(Report::bare(ReportKind::CloneUrlMissing));
                            s.step = InitStep::Aborted;
                        },
                    }
                },
                Ok(resp) => {
                    s.reports.push(
                        Report::with_status(ReportKind::RepoCreateFailed, resp.status, resp.body),
                    );
                    s.step = InitStep::Aborted;
                },
                Err(m) => {
                    s.reports.push(Report::with_detail(ReportKind::RepoCreateFailed, m));
                    s.step = InitStep::Aborted;
                },
            }
            proof {
                assert(s@ =~~= init_next(s0, e0));
            }
        },
        (InitStep::AddRemote, Event::GitRan(r)) => {
            match r {
                Ok(c) if c.exit_success => s.reports.push(Report::bare(ReportKind::RemoteAdded)),
                Ok(c) => s.reports.push(
                    Report::with_detail(ReportKind::RemoteAddFailed, command_error_text(&c)),
                ),
                Err(m) => s.reports.push(Report::with_detail(ReportKind::RemoteAddFailed, m)),
            }
            s.step = InitStep::CheckReadme;
            proof {
                assert(s@ =~~= init_next(s0, e0));
            }
        },
        (InitStep::CheckReadme, Event::Exists(exists)) => {
            s.step = if exists {
                if s.workflow_kind.is_some() {
                    InitStep::WriteWorkflow
                } else {
                    InitStep::StageAll
                }
            } else {
                InitStep::WriteReadme
            };
            proof {
                assert(s@ =~~= init_next(s0, e0));
            }
        },
        (InitStep::WriteReadme, Event::Written(r)) => {
            match r {
                Ok(_) => s.reports.push(Report::bare(ReportKind::ReadmeCreated)),
                Err(m) => s.reports.push(Report::with_detail(ReportKind::ReadmeWriteFailed, m)),
            }
            s.step = if s.workflow_kind.is_some() {
                InitStep::WriteWorkflow
            } else {
                InitStep::StageAll
            };
            proof {
                assert(s@ =~~= init_next(s0, e0));
            }
        },
        (InitStep::WriteWorkflow, Event::Written(r)) => {
            match r {
                Ok(_) => {
                    let (fname, _) = workflow_file(opt_str(&s.workflow_kind));
                    let mut path = String::from_str(".github/workflows/");
                    path.append(fname.as_str());
                    proof {
                        assert(path@ =~= ".github/workflows/"@ + spec_workflow_file(
                            opt_or_empty(s0.workflow_kind),
                        ).0);
                    }
                    s.reports.push(Report::with_detail(ReportKind::WorkflowCreated, path));
                },
                Err(m) => s.reports.push(Report::with_detail(ReportKind::WorkflowWriteFailed, m)),
            }
            s.step = InitStep::StageAll;
            proof {
                assert(s@ =~~= init_next(s0, e0));
            }
        },
        (InitStep::StageAll, Event::GitRan(r)) => {
            match r {
                Ok(c) if c.exit_success => s.reports.push(Report::bare(ReportKind::FilesStaged)),
                Ok(c) => s.reports.push(
                    Report::with_detail(ReportKind::StageFailed, command_error_text(&c)),
                ),
                Err(m) => s.reports.push(Report::with_detail(ReportKind::StageFailed, m)),
            }
            s.step = InitStep::Commit;
            proof {
                assert(s@ =~~= init_next(s0, e0));
            }
        },
        (InitStep::Commit, Event::GitRan(r)) => {
            match r {
                Ok(c) if c.exit_success => s.reports.push(
                    Report::bare(ReportKind::InitialCommitCreated),
                ),
                Ok(c) => s.reports.push(
                    Report::with_detail(ReportKind::CommitFailed, command_error_text(&c)),
                ),
                Err(m) => s.reports.push(Report::with_detail(ReportKind::CommitFailed, m)),
            }
            s.step = InitStep::ReadBranch;
            proof {
                assert(s@ =~~= init_next(s0, e0));
            }
        },
        (InitStep::ReadBranch, Event::GitRan(r)) => {
            match r {
                Ok(c) if c.exit_success => {
                    match stdout_text(&c) {
                        Some(branch) => {
                            let target = target_branch(&s.credentials);
                            if str_eq(branch.as_str(), target.as_str()) {
                                s.step = InitStep::Push;
                            } else {
                                s.step = InitStep::RenameBranch;
                            }
                        },
                        None => {
                            s.reports.push(Report::bare(ReportKind::BranchUndetermined));
                            s.step = InitStep::Push;
                        },
                    }
                },
                _ => {
                    s.reports.push(Report::bare(ReportKind::BranchUndetermined));
                    s.step = InitStep::Push;
                },
            }
            proof {
                assert(s@ =~~= init_next(s0, e0));
            }
        },
        (InitStep::RenameBranch, Event::GitRan(r)) => {
            match r {
                Ok(c) if c.exit_success => {
                    let target = target_branch(&s.credentials);
                    s.reports.push(Report::with_detail(ReportKind::BranchRenamed, target));
                },
                Ok(c) => s.reports.push(
                    Report::with_detail(ReportKind::BranchRenameFailed, command_error_text(&c)),
                ),
                Err(m) => s.reports.push(Report::with_detail(ReportKind::BranchRenameFailed, m)),
            }
            s.step = InitStep::Push;
            proof {
                assert(s@ =~~= init_next(s0, e0));
            }
        },
        (InitStep::Push, Event::GitRan(r)) => {
            match r {
                Ok(c) if c.exit_success => s.reports.push(Report::bare(ReportKind::Pushed)),
                Ok(c) => s.reports.push(
                    Report::with_detail(ReportKind::PushFailed, command_error_text(&c)),
                ),
                Err(m) => s.reports.push(Report::with_detail(ReportKind::PushFailed, m)),
            }
            s.step = InitStep::Done;
            proof {
                assert(s@ =~~= init_next(s0, e0));
            }
        },
        (_, _) => {
            proof {
                assert(s@ =~~= init_next(s0, e0));
            }
        },
    }
    s
}

/// Which stations a run is owed before the commit, given its requested
/// scaffolds: the conditional fetch and workflow stations only when the
/// matching scaffold was requested.
pub open spec fn init_enabled(s: InitStateView, station: InitStep) -> bool {
    match station {
        InitStep::CheckRepo => true,
        InitStep::LoadCredentials => true,
        InitStep::FetchGitignore => s.gitignore_template is Some,
        InitStep::FetchLicense => s.license_id is Some,
        InitStep::CreateRemote => true,
        InitStep::AddRemote => true,
        InitStep::CheckReadme => true,
        InitStep::WriteWorkflow => s.workflow_kind is Some,
        InitStep::StageAll => true,
        _ => false,
    }
}

/// Ranks never fall along a transition, the requested scaffolds never
/// change, and the aborted state is absorbing.
proof fn lemma_init_next_basics(t: InitStateView, e: EventView)
    ensures
        init_rank(init_next(t, e).step) >= init_rank(t.step),
        init_next(t, e).gitignore_template == t.gitignore_template,
        init_next(t, e).license_id == t.license_id,
        init_next(t, e).workflow_kind == t.workflow_kind,
        t.step == InitStep::Aborted ==> init_next(t, e).step == InitStep::Aborted,
{
}

/// A transition from below an owed station never jumps past it, except by
/// aborting the run.
proof fn lemma_init_no_jump(t: InitStateView, e: EventView, s: InitStateView, station: InitStep)
    requires
        init_enabled(s, station),
        t.gitignore_template == s.gitignore_template,
        t.license_id == s.license_id,
        t.workflow_kind == s.workflow_kind,
        init_rank(t.step) < init_rank(station),
    ensures
        init_rank(init_next(t, e).step) <= init_rank(station) || init_next(t, e).step
            == InitStep::Aborted,
{
}

/// Law: the initial commit is attempted only after the whole earlier
/// sequence has run. A run from the start state that reaches the commit
/// station passed through every station owed before it — the repository
/// check, the credentials load, each requested scaffold fetch, remote
/// creation, remote attachment, the README check and staging — whatever
/// the soft outcomes of the steps between were.
pub proof fn lemma_commit_only_after(s: InitStateView, events: Seq<EventView>, station: InitStep)
    requires
        s.step == InitStep::CheckRepo,
        init_enabled(s, station),
        reaches(
            |t: InitStateView, e: EventView| init_next(t, e),
            s,
            events,
            |t: InitStateView| t.step == InitStep::Commit,
        ),
    ensures
        reaches(
            |t: InitStateView, e: EventView| init_next(t, e),
            s,
            events,
            |t: InitStateView| t.step == station,
        ),
{
    let step_fn = |t: InitStateView, e: EventView| init_next(t, e);
    let rank = |t: InitStateView| init_rank(t.step);
    let inv = |t: InitStateView|
        t.gitignore_template == s.gitignore_template && t.license_id == s.license_id
            && t.workflow_kind == s.workflow_kind;
    let sink = |t: InitStateView| t.step == InitStep::Aborted;
    let target = |t: InitStateView| t.step == station;
    let goal = |t: InitStateView| t.step == InitStep::Commit;
    let m = init_rank(station);
    assert forall|t: InitStateView, e: EventView| inv(t) implies inv(#[trigger] step_fn(t, e)) by {
        lemma_init_next_basics(t, e);
    }
    assert forall|t: InitStateView, e: EventView| inv(t) && rank(t) < m implies rank(
        #[trigger] step_fn(t, e),
    ) <= m || sink(step_fn(t, e)) by {
        lemma_init_no_jump(t, e, s, station);
    }
    assert forall|t: InitStateView, e: EventView| sink(t) implies sink(#[trigger] step_fn(t, e)) by {
        lemma_init_next_basics(t, e);
    }
    lemma_pass_through(step_fn, rank, inv, sink, s, events, target, goal, m);
}

/// Law: an already version-controlled directory skips initialization and
/// raises no error. The check's only effect is the notice report, and no
/// later state of the run stands at the initialization station.
pub proof fn lemma_already_repo_skips_init(s: InitStateView, e: EventView, events: Seq<EventView>)
    requires
        s.step == InitStep::CheckRepo,
        e == EventView::RepoChecked(true),
    ensures
        init_next(s, e).step == InitStep::LoadCredentials,
        init_next(s, e).reports == s.reports.push(bare_report(ReportKind::AlreadyRepository)),
        init_next(s, e) == (InitStateView {
            step: InitStep::LoadCredentials,
            reports: s.reports.push(bare_report(ReportKind::AlreadyRepository)),
            ..s
        }),
        !reaches(
            |t: InitStateView, ev: EventView| init_next(t, ev),
            init_next(s, e),
            events,
            |t: InitStateView| t.step == InitStep::GitInit,
        ),
{
    let step_fn = |t: InitStateView, ev: EventView| init_next(t, ev);
    let rank = |t: InitStateView| init_rank(t.step);
    let inv = |t: InitStateView| true;
    let s2 = init_next(s, e);
    assert forall|t: InitStateView, ev: EventView| inv(t) implies rank(#[trigger] step_fn(t, ev))
        >= rank(t) by {
        lemma_init_next_basics(t, ev);
    }
    lemma_monotone_excludes(
        step_fn,
        rank,
        inv,
        s2,
        events,
        |t: InitStateView| t.step == InitStep::GitInit,
    );
}

/// The per-station failure policy: the stations whose failure voids all
/// later value and aborts the run. Everything else is soft — reported,
/// stepped over.
pub open spec fn init_fatal_station(step: InitStep) -> bool {
    step == InitStep::GitInit || step == InitStep::LoadCredentials || step
        == InitStep::CreateRemote
}

/// Law: the policy table is exhaustive. A transition aborts the run only
/// from a fatal station; no answer at a soft station ever aborts.
pub proof fn lemma_abort_only_at_fatal_stations(s: InitStateView, e: EventView)
    requires
        s.step != InitStep::Aborted,
        init_next(s, e).step == InitStep::Aborted,
    ensures
        init_fatal_station(s.step),
{
}

/// The creation answers that are fatal: a transport failure, a failure
/// status, or a success whose body yields no usable clone URL.
pub open spec fn remote_creation_failed(e: EventView) -> bool {
    e matches EventView::HttpDone(r) && !(r matches Ok(resp) && resp.ok && spec_extract_clone_url(
        resp.body,
    ) is Some)
}

/// Law: a failed remote creation short-circuits the run. The failing
/// answer moves the run straight to the aborted state, and from there no
/// later state stands at any further station: no remote attach, no README,
/// no workflow scaffold, no staging, no commit, no push.
pub proof fn lemma_remote_failure_short_circuits(
    s: InitStateView,
    e: EventView,
    events: Seq<EventView>,
    station: InitStep,
)
    requires
        s.step == InitStep::CreateRemote,
        remote_creation_failed(e),
        station != InitStep::Aborted,
    ensures
        init_next(s, e).step == InitStep::Aborted,
        !reaches(
            |t: InitStateView, ev: EventView| init_next(t, ev),
            init_next(s, e),
            events,
            |t: InitStateView| t.step == station,
        ),
{
    let step_fn = |t: InitStateView, ev: EventView| init_next(t, ev);
    let sink = |t: InitStateView| t.step == InitStep::Aborted;
    let s2 = init_next(s, e);
    assert forall|t: InitStateView, ev: EventView| sink(t) implies sink(
        #[trigger] step_fn(t, ev),
    ) by {
        lemma_init_next_basics(t, ev);
    }
    lemma_absorbing_excludes(step_fn, sink, s2, events, |t: InitStateView| t.step == station);
}

} // verus!
