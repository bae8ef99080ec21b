//! The pull-request orchestrator: resolve the repository identity from the
//! configured remote, resolve title, body, base and head from flags or
//! prompts (the head defaults to the current branch), push the head branch
//! upstream first — continuing even if that fails, since the branch may
//! already be pushed — then submit the pull request and report its web URL.

use vstd::prelude::*;
use crate::api::{extract_html_url, pull_request_request, spec_extract_html_url,
    spec_pull_request_request};
use crate::command::{args3, args4, command_error_text, spec_command_ok, spec_git_failure_text,
    spec_stdout_text, stdout_text};
use crate::data::{Credentials, CredentialsView, PullRequestDescriptor, PullRequestDescriptorView,
    RepoIdentity, RepoIdentityView};
use crate::effects::{bare_report, detail_report, Action, ActionView, Event, EventView, Report,
    ReportKind, ReportView};
use crate::identity::{parse_identity_spec, parse_repo_identity};
use crate::issue::remote_lookup_report;
use crate::sync::branch_failure_report;
use crate::text::{opt_or_empty, opt_str};
use vstd::string::StringExecFns;

verus! {

/// The stations of a pull-request run, in the order they are attempted.
#[derive(Clone, Copy, Debug, PartialEq, Eq, Structural)]
pub enum PrStep {
    /// The directory must be under version control.
    CheckRepo,
    /// Load the persisted credentials; absent credentials abort the run.
    LoadCredentials,
    /// Read the configured remote URL and parse the repository identity.
    GetRemote,
    /// Read the current branch name; the head and title defaults need it.
    ReadBranch,
    /// Ask for a title (only when none was supplied).
    PromptTitle,
    /// Ask for a body (only when none was supplied).
    PromptBody,
    /// Ask for the base branch (only when none was supplied).
    PromptBase,
    /// Ask for the head branch (only when none was supplied).
    PromptHead,
    /// Push the head branch upstream; a failure is reported, not fatal.
    PushHead,
    /// Submit the pull request.
    Submit,
    /// The run finished.
    Done,
    /// The run was aborted by a fatal failure.
    Aborted,
}

/// The state of one pull-request run.
#[derive(Debug)]
pub struct PrState {
    pub step: PrStep,
    pub title: Option<String>,
    pub body: Option<String>,
    pub base: Option<String>,
    pub head: Option<String>,
    pub credentials: Option<Credentials>,
    pub identity: Option<RepoIdentity>,
    pub current_branch: Option<String>,
    pub reports: Vec<Report>,
}

#[verifier::ext_equal]
pub struct PrStateView {
    pub step: PrStep,
    pub title: Option<Seq<char>>,
    pub body: Option<Seq<char>>,
    pub base: Option<Seq<char>>,
    pub head: Option<Seq<char>>,
    pub credentials: Option<CredentialsView>,
    pub identity: Option<RepoIdentityView>,
    pub current_branch: Option<Seq<char>>,
    pub reports: Seq<ReportView>,
}

impl View for PrState {
    type V = PrStateView;

    open spec fn view(&self) -> PrStateView {
        PrStateView {
            step: self.step,
            title: self.title.deep_view(),
            body: self.body.deep_view(),
            base: self.base.deep_view(),
            head: self.head.deep_view(),
            credentials: match &self.credentials {
                Some(c) => Some(c@),
                None => None,
            },
            identity: match &self.identity {
                Some(id) => Some(id@),
                None => None,
            },
            current_branch: self.current_branch.deep_view(),
            reports: self.reports.deep_view(),
        }
    }
}

/// The starting state of a pull-request run: title, body, base and head as
/// supplied by flags, if they were.
pub open spec fn spec_pr_start(
    title: Option<Seq<char>>,
    body: Option<Seq<char>>,
    base: Option<Seq<char>>,
    head: Option<Seq<char>>,
) -> PrStateView {
    PrStateView {
        step: PrStep::CheckRepo,
        title,
        body,
        base,
        head,
        credentials: None,
        identity: None,
        current_branch: None,
        reports: Seq::empty(),
    }
}

/// The token loaded for the run, or nothing before credentials are loaded.
pub open spec fn pr_token(s: PrStateView) -> Seq<char> {
    match s.credentials {
        Some(c) => c.token,
        None => Seq::empty(),
    }
}

/// The identity the run resolved, or an empty one before it did.
pub open spec fn pr_identity(s: PrStateView) -> RepoIdentityView {
    match s.identity {
        Some(id) => id,
        None => RepoIdentityView { owner: Seq::empty(), name: Seq::empty() },
    }
}

/// The default pull-request title: merging the current branch into main.
pub open spec fn pr_title_default(s: PrStateView) -> Seq<char> {
    "Merge "@ + opt_or_empty(s.current_branch) + " into main"@
}

/// The first prompt still owed, else the upstream push of the head.
pub open spec fn next_pr_prompt(s: PrStateView) -> PrStep {
    if s.title is None {
        PrStep::PromptTitle
    } else if s.body is None {
        PrStep::PromptBody
    } else if s.base is None {
        PrStep::PromptBase
    } else if s.head is None {
        PrStep::PromptHead
    } else {
        PrStep::PushHead
    }
}

/// The pull request the run submits, from the resolved fields.
pub open spec fn pr_of(s: PrStateView) -> PullRequestDescriptorView {
    PullRequestDescriptorView {
        title: opt_or_empty(s.title),
        body: opt_or_empty(s.body),
        base_branch: opt_or_empty(s.base),
        head_branch: opt_or_empty(s.head),
    }
}

/// The action performed at each station. Terminal states ask nothing.
pub open spec fn pr_action_of(s: PrStateView) -> Option<ActionView> {
    match s.step {
        PrStep::CheckRepo => Some(ActionView::CheckRepo),
        PrStep::LoadCredentials => Some(ActionView::LoadCredentials),
        PrStep::GetRemote => Some(ActionView::RunGit(seq!["remote"@, "get-url"@, "origin"@])),
        PrStep::ReadBranch => Some(
            ActionView::RunGit(seq!["rev-parse"@, "--abbrev-ref"@, "HEAD"@]),
        ),
        PrStep::PromptTitle => Some(
            ActionView::Prompt {
                label: "Pull request title"@,
                default: Some(pr_title_default(s)),
            },
        ),
        PrStep::PromptBody => Some(
            ActionView::Prompt { label: "Pull request description"@, default: None },
        ),
        PrStep::PromptBase => Some(
            ActionView::Prompt { label: "Base branch (target)"@, default: Some("main"@) },
        ),
        PrStep::PromptHead => Some(
            ActionView::Prompt {
                label: "Head branch (source)"@,
                default: Some(opt_or_empty(s.current_branch)),
            },
        ),
        PrStep::PushHead => Some(
            ActionView::RunGit(
                seq!["push"@, "--set-upstream"@, "origin"@, opt_or_empty(s.head)],
            ),
        ),
        PrStep::Submit => Some(
            ActionView::Http(
                spec_pull_request_request(
                    pr_token(s),
                    pr_identity(s).owner,
                    pr_identity(s).name,
                    pr_of(s),
                ),
            ),
        ),
        PrStep::Done => None,
        PrStep::Aborted => None,
    }
}

/// One transition of a pull-request run. An event that does not answer the
/// current station changes nothing.
pub open spec fn pr_next(s: PrStateView, e: EventView) -> PrStateView {
    match s.step {
        PrStep::CheckRepo => match e {
            EventView::RepoChecked(true) => PrStateView { step: PrStep::LoadCredentials, ..s },
            EventView::RepoChecked(false) => PrStateView {
                step: PrStep::Aborted,
                reports: s.reports.push(bare_report(ReportKind::NotARepository)),
                ..s
            },
            _ => s,
        },
        PrStep::LoadCredentials => match e {
            EventView::CredentialsLoaded(c) => match c {
                Some(c) => {
                    if c.wf() {
                        PrStateView { step: PrStep::GetRemote, credentials: Some(c), ..s }
                    } else {
                        PrStateView {
                            step: PrStep::Aborted,
                            reports: s.reports.push(bare_report(ReportKind::NoConfiguration)),
                            ..s
                        }
                    }
                },
                None => PrStateView {
                    step: PrStep::Aborted,
                    reports: s.reports.push(bare_report(ReportKind::NoConfiguration)),
                    ..s
                },
            },
            _ => s,
        },
        PrStep::GetRemote => match e {
            EventView::GitRan(r) => {
                if spec_command_ok(r) && spec_stdout_text(r->Ok_0) is Some {
                    match parse_identity_spec(spec_stdout_text(r->Ok_0)->Some_0) {
                        Some((owner, name)) => PrStateView {
                            step: PrStep::ReadBranch,
                            identity: Some(RepoIdentityView { owner, name }),
                            ..s
                        },
                        None => PrStateView {
                            step: PrStep::Aborted,
                            reports: s.reports.push(bare_report(ReportKind::IdentityUnparsed)),
                            ..s
                        },
                    }
                } else {
                    PrStateView {
                        step: PrStep::Aborted,
                        reports: s.reports.push(remote_lookup_report(r)),
                        ..s
                    }
                }
            },
            _ => s,
        },
        PrStep::ReadBranch => match e {
            EventView::GitRan(r) => {
                if spec_command_ok(r) && spec_stdout_text(r->Ok_0) is Some {
                    let s2 = PrStateView {
                        current_branch: Some(spec_stdout_text(r->Ok_0)->Some_0),
                        ..s
                    };
                    PrStateView { step: next_pr_prompt(s2), ..s2 }
                } else {
                    PrStateView {
                        step: PrStep::Aborted,
                        reports: s.reports.push(branch_failure_report(r)),
                        ..s
                    }
                }
            },
            _ => s,
        },
        PrStep::PromptTitle => match e {
            EventView::PromptReply(r) => {
                let s2 = PrStateView {
                    title: Some(
                        match r {
                            Some(t) => t,
                            None => pr_title_default(s),
                        },
                    ),
                    ..s
                };
                PrStateView { step: next_pr_prompt(s2), ..s2 }
            },
            _ => s,
        },
        PrStep::PromptBody => match e {
            EventView::PromptReply(r) => {
                let s2 = PrStateView {
                    body: Some(
                        match r {
                            Some(t) => t,
                            None => Seq::empty(),
                        },
                    ),
                    ..s
                };
                PrStateView { step: next_pr_prompt(s2), ..s2 }
            },
            _ => s,
        },
        PrStep::PromptBase => match e {
            EventView::PromptReply(r) => {
                let s2 = PrStateView {
                    base: Some(
                        match r {
                            Some(t) => t,
                            None => "main"@,
                        },
                    ),
                    ..s
                };
                PrStateView { step: next_pr_prompt(s2), ..s2 }
            },
            _ => s,
        },
        PrStep::PromptHead => match e {
            EventView::PromptReply(r) => {
                let s2 = PrStateView {
                    head: Some(
                        match r {
                            Some(t) => t,
                            None => opt_or_empty(s.current_branch),
                        },
                    ),
                    ..s
                };
                PrStateView { step: next_pr_prompt(s2), ..s2 }
            },
            _ => s,
        },
        PrStep::PushHead => match e {
            EventView::GitRan(r) => PrStateView {
                step: PrStep::Submit,
                reports: s.reports.push(
                    if spec_command_ok(r) {
                        detail_report(ReportKind::HeadPushed, opt_or_empty(s.head))
                    } else {
                        detail_report(ReportKind::HeadPushFailed, spec_git_failure_text(r))
                    },
                ),
                ..s
            },
            _ => s,
        },
        PrStep::Submit => match e {
            EventView::HttpDone(r) => {
                if r matches Ok(resp) && resp.ok {
                    match spec_extract_html_url(r->Ok_0.body) {
                        Some(url) => PrStateView {
                            step: PrStep::Done,
                            reports: s.reports.push(detail_report(ReportKind::PrCreated, url)),
                            ..s
                        },
                        None => PrStateView {
                            step: PrStep::Done,
                            reports: s.reports.push(bare_report(ReportKind::PrUrlMissing)),
                            ..s
                        },
                    }
                } else {
                    PrStateView {
                        step: PrStep::Done,
                        reports: s.reports.push(
                            match r {
                                Err(m) => detail_report(ReportKind::PrCreateFailed, m),
                                Ok(resp) => crate::effects::status_report(
                                    ReportKind::PrCreateFailed,
                                    resp.status,
                                    resp.body,
                                ),
                            },
                        ),
                        ..s
                    }
                }
            },
            _ => s,
        },
        PrStep::Done => s,
        PrStep::Aborted => s,
    }
}

/// Start a pull-request run with the flag-supplied fields.
pub fn pr_start(
    title: Option<String>,
    body: Option<String>,
    base: Option<String>,
    head: Option<String>,
) -> (s: PrState)
    ensures
        s@ == spec_pr_start(title.deep_view(), body.deep_view(), base.deep_view(), head.deep_view()),
{
    let s = PrState {
        step: PrStep::CheckRepo,
        title,
        body,
        base,
        head,
        credentials: None,
        identity: None,
        current_branch: None,
        reports: Vec::new(),
    };
    proof {
        assert(s@ =~~= spec_pr_start(
            s.title.deep_view(),
            s.body.deep_view(),
            s.base.deep_view(),
            s.head.deep_view(),
        ));
    }
    s
}

/// Build the default pull-request title for the current branch.
fn pr_title_default_exec(current_branch: &Option<String>) -> (t: String)
    ensures
        t@ == "Merge "@ + opt_or_empty(current_branch.deep_view()) + " into main"@,
{
    let mut t = String::from_str("Merge ");
    t.append(opt_str(current_branch));
    t.append(" into main");
    proof {
        assert(t@ =~= "Merge "@ + opt_or_empty(current_branch.deep_view()) + " into main"@);
    }
    t
}

/// The action to perform next, or nothing when the run is over.
pub fn next_pr_action(s: &PrState) -> (a: Option<Action>)
    ensures
        match a {
            Some(a) => pr_action_of(s@) == Some(a@),
            None => pr_action_of(s@) is None,
        },
{
    match s.step {
        PrStep::CheckRepo => Some(Action::CheckRepo),
        PrStep::LoadCredentials => Some(Action::LoadCredentials),
        PrStep::GetRemote => Some(Action::RunGit(args3("remote", "get-url", "origin"))),
        PrStep::ReadBranch => Some(Action::RunGit(args3("rev-parse", "--abbrev-ref", "HEAD"))),
        PrStep::PromptTitle => Some(
            Action::Prompt {
                label: String::from_str("Pull request title"),
                default: Some(pr_title_default_exec(&s.current_branch)),
            },
        ),
        PrStep::PromptBody => Some(
            Action::Prompt { label: String::from_str("Pull request description"), default: None },
        ),
        PrStep::PromptBase => Some(
            Action::Prompt {
                label: String::from_str("Base branch (target)"),
                default: Some(String::from_str("main")),
            },
        ),
        PrStep::PromptHead => Some(
            Action::Prompt {
                label: String::from_str("Head branch (source)"),
                default: Some(opt_str(&s.current_branch).to_owned()),
            },
        ),
        PrStep::PushHead => {
            let a = args4("push", "--set-upstream", "origin", opt_str(&s.head));
            proof {
                assert(a.deep_view() =~~= seq![
                    "push"@,
                    "--set-upstream"@,
                    "origin"@,
                    opt_or_empty(s@.head),
                ]);
            }
            Some(Action::RunGit(a))
        },
        PrStep::Submit => {
            let token: &str = match &s.credentials {
                Some(c) => c.token.as_str(),
                None => {
                    proof {
                        reveal_strlit("");
                        assert(""@ =~= Seq::<char>::empty());
                    }
                    ""
                },
            };
            let id = match &s.identity {
                Some(id) => RepoIdentity {
                    owner: id.owner.as_str().to_owned(),
                    name: id.name.as_str().to_owned(),
                },
                None => {
                    proof {
                        reveal_strlit("");
                        assert(""@ =~= Seq::<char>::empty());
                    }
                    RepoIdentity { owner: String::new(), name: String::new() }
                },
            };
            let pr = PullRequestDescriptor {
                title: opt_str(&s.title).to_owned(),
                body: opt_str(&s.body).to_owned(),
                base_branch: opt_str(&s.base).to_owned(),
                head_branch: opt_str(&s.head).to_owned(),
            };
            let req = pull_request_request(token, &id, &pr);
            proof {
                assert(pr@ =~~= pr_of(s@));
                assert(req@ =~~= spec_pull_request_request(
                    pr_token(s@),
                    pr_identity(s@).owner,
                    pr_identity(s@).name,
                    pr_of(s@),
                ));
            }
            Some(Action::Http(req))
        },
        PrStep::Done => None,
        PrStep::Aborted => None,
    }
}

/// Advance a pull-request run by one answered action.
pub fn pr_step(s: PrState, e: Event) -> (s2: PrState)
    ensures
        s2@ == pr_next(s@, e@),
{
    let ghost s0 = s@;
    let ghost e0 = e@;
    let mut s = s;
    match (s.step, e) {
        (PrStep::CheckRepo, Event::RepoChecked(true)) => {
            s.step = PrStep::LoadCredentials;
            proof {
                assert(s@ =~~= pr_next(s0, e0));
            }
        },
        (PrStep::CheckRepo, Event::RepoChecked(false)) => {
            s.reports.push(Report::bare(ReportKind::NotARepository));
            s.step = PrStep::Aborted;
            proof {
                assert(s@ =~~= pr_next(s0, e0));
            }
        },
        (PrStep::LoadCredentials, Event::CredentialsLoaded(c)) => {
            match c {
                Some(c) => {
                    if c.is_complete() {
                        s.credentials = Some(c);
                        s.step = PrStep::GetRemote;
                    } else {
                        s.reports.push(Report::bare(ReportKind::NoConfiguration));
                        s.step = PrStep::Aborted;
                    }
                },
                None => {
                    s.reports.push(Report::bare(ReportKind::NoConfiguration));
                    s.step = PrStep::Aborted;
                },
            }
            proof {
                assert(s@ =~~= pr_next(s0, e0));
            }
        },
        (PrStep::GetRemote, Event::GitRan(r)) => {
            match r {
                Ok(c) if c.exit_success => {
                    match stdout_text(&c) {
                        Some(url) => {
                            match parse_repo_identity(url.as_str()) {
                                Some(id) => {
                                    s.identity = Some(id);
                                    s.step = PrStep::ReadBranch;
                                },
                                None => {
                                    s.reports.push(Report::bare(ReportKind::IdentityUnparsed));
                                    s.step = PrStep::Aborted;
                                },
                            }
                        },
                        None => {
                            s.reports.push(Report::bare(ReportKind::RemoteLookupFailed));
                            s.step = PrStep::Aborted;
                        },
                    }
                },
                Ok(c) => {
                    s.reports.push(
                        Report::with_detail(ReportKind::RemoteLookupFailed, command_error_text(&c)),
                    );
                    s.step = PrStep::Aborted;
                },
                Err(m) => {
                    s.reports.push(Report::with_detail(ReportKind::RemoteLookupFailed, m));
                    s.step = PrStep::Aborted;
                },
            }
            proof {
                assert(s@ =~~= pr_next(s0, e0));
            }
        },
        (PrStep::ReadBranch, Event::GitRan(r)) => {
            match r {
                Ok(c) if c.exit_success => {
                    match stdout_text(&c) {
                        Some(branch) => {
                            s.current_branch = Some(branch);
                            s.step = next_prompt_exec(&s);
                        },
                        None => {
                            s.reports.push(Report::bare(ReportKind::CurrentBranchFailed));
                            s.step = PrStep::Aborted;
                        },
                    }
                },
                Ok(c) => {
                    s.reports.push(
                        Report::with_detail(
                            ReportKind::CurrentBranchFailed,
                            command_error_text(&c),
                        ),
                    );
                    s.step = PrStep::Aborted;
                },
                Err(m) => {
                    s.reports.push(Report::with_detail(ReportKind::CurrentBranchFailed, m));
                    s.step = PrStep::Aborted;
                },
            }
            proof {
                assert(s@ =~~= pr_next(s0, e0));
            }
        },
        (PrStep::PromptTitle, Event::PromptReply(r)) => {
            let resolved = match r {
                Some(t) => t,
                None => pr_title_default_exec(&s.current_branch),
            };
            proof {
                assert(resolved@ == (match e0->PromptReply_0 {
                    Some(t) => t,
                    None => pr_title_default(s0),
                }));
            }
            s.title = Some(resolved);
            s.step = next_prompt_exec(&s);
            proof {
                assert(s@ =~~= pr_next(s0, e0));
            }
        },
        (PrStep::PromptBody, Event::PromptReply(r)) => {
            s.body = Some(
                match r {
                    Some(t) => t,
                    None => String::new(),
                },
            );
            s.step = next_prompt_exec(&s);
            proof {
                assert(s@ =~~= pr_next(s0, e0));
            }
        },
        (PrStep::PromptBase, Event::PromptReply(r)) => {
            s.base = Some(
                match r {
                    Some(t) => t,
                    None => String::from_str("main"),
                },
            );
            s.step = next_prompt_exec(&s);
            proof {
                assert(s@ =~~= pr_next(s0, e0));
            }
        },
        (PrStep::PromptHead, Event::PromptReply(r)) => {
            s.head = Some(
                match r {
                    Some(t) => t,
                    None => opt_str(&s.current_branch).to_owned(),
                },
            );
            s.step = next_prompt_exec(&s);
            proof {
                assert(s@ =~~= pr_next(s0, e0));
            }
        },
        (PrStep::PushHead, Event::GitRan(r)) => {
            match r {
                Ok(c) if c.exit_success => {
                    let head = opt_str(&s.head).to_owned();
                    s.reports.push(Report::with_detail(ReportKind::HeadPushed, head));
                },
                Ok(c) => {
                    s.reports.push(
                        Report::with_detail(ReportKind::HeadPushFailed, command_error_text(&c)),
                    );
                },
                Err(m) => {
                    s.reports.push(Report::with_detail(ReportKind::HeadPushFailed, m));
                },
            }
            s.step = PrStep::Submit;
            proof {
                assert(s@ =~~= pr_next(s0, e0));
            }
        },
        (PrStep::Submit, Event::HttpDone(r)) => {
            match r {
                Ok(resp) if resp.ok => {
                    match extract_html_url(resp.body.as_str()) {
                        Some(url) => {
                            s.reports.push(Report::with_detail(ReportKind::PrCreated, url));
                        },
                        None => {
                            s.reports.push(Report::bare(ReportKind::PrUrlMissing));
                        },
                    }
                },
                Ok(resp) => {
                    s.reports.push(
                        Report::with_status(ReportKind::PrCreateFailed, resp.status, resp.body),
                    );
                },
                Err(m) => {
                    s.reports.push(Report::with_detail(ReportKind::PrCreateFailed, m));
                },
            }
            s.step = PrStep::Done;
            proof {
                assert(s@ =~~= pr_next(s0, e0));
            }
        },
        (_, _) => {
            proof {
                assert(s@ =~~= pr_next(s0, e0));
            }
        },
    }
    s
}

/// The first prompt still owed, else the upstream push of the head.
fn next_prompt_exec(s: &PrState) -> (step: PrStep)
    ensures
        step == next_pr_prompt(s@),
{
    if s.title.is_none() {
        PrStep::PromptTitle
    } else if s.body.is_none() {
        PrStep::PromptBody
    } else if s.base.is_none() {
        PrStep::PromptBase
    } else if s.head.is_none() {
        PrStep::PromptHead
    } else {
        PrStep::PushHead
    }
}

} // verus!
