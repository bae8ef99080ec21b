//! The issue orchestrator: resolve the repository identity from the
//! configured remote, resolve title and body from flags or prompts, submit
//! the issue, and report the resulting web URL.

use vstd::prelude::*;
use crate::api::{extract_html_url, issue_request, spec_extract_html_url, spec_issue_request};
use crate::command::{args3, command_error_text, spec_command_ok, spec_git_failure_text,
    spec_stdout_text, stdout_text};
use crate::data::{Credentials, CredentialsView, IssueDescriptor, IssueDescriptorView,
    RepoIdentity, RepoIdentityView};
use crate::effects::{bare_report, detail_report, fetch_failure_report, Action, ActionView, Event,
    EventView, Report, ReportKind, ReportView};
use crate::identity::{parse_identity_spec, parse_repo_identity};
use crate::text::{opt_or_empty, opt_str};
use vstd::string::StringExecFns;

verus! {

/// The stations of an issue run, in the order they are attempted.
#[derive(Clone, Copy, Debug, PartialEq, Eq, Structural)]
pub enum IssueStep {
    /// The directory must be under version control.
    CheckRepo,
    /// Load the persisted credentials; absent credentials abort the run.
    LoadCredentials,
    /// Read the configured remote URL and parse the repository identity.
    GetRemote,
    /// Ask for a title (only when none was supplied).
    PromptTitle,
    /// Ask for a body (only when none was supplied).
    PromptBody,
    /// Submit the issue.
    Submit,
    /// The run finished.
    Done,
    /// The run was aborted by a fatal failure.
    Aborted,
}

/// The state of one issue run.
#[derive(Debug)]
pub struct IssueState {
    pub step: IssueStep,
    pub title: Option<String>,
    pub body: Option<String>,
    pub labels: Vec<String>,
    pub credentials: Option<Credentials>,
    pub identity: Option<RepoIdentity>,
    pub reports: Vec<Report>,
}

#[verifier::ext_equal]
pub struct IssueStateView {
    pub step: IssueStep,
    pub title: Option<Seq<char>>,
    pub body: Option<Seq<char>>,
    pub labels: Seq<Seq<char>>,
    pub credentials: Option<CredentialsView>,
    pub identity: Option<RepoIdentityView>,
    pub reports: Seq<ReportView>,
}

impl View for IssueState {
    type V = IssueStateView;

    open spec fn view(&self) -> IssueStateView {
        IssueStateView {
            step: self.step,
            title: self.title.deep_view(),
            body: self.body.deep_view(),
            labels: self.labels.deep_view(),
            credentials: match &self.credentials {
                Some(c) => Some(c@),
                None => None,
            },
            identity: match &self.identity {
                Some(id) => Some(id@),
                None => None,
            },
            reports: self.reports.deep_view(),
        }
    }
}

/// The starting state of an issue run: title and body as supplied by
/// flags, if they were, and the labels.
pub open spec fn spec_issue_start(
    title: Option<Seq<char>>,
    body: Option<Seq<char>>,
    labels: Seq<Seq<char>>,
) -> IssueStateView {
    IssueStateView {
        step: IssueStep::CheckRepo,
        title,
        body,
        labels,
        credentials: None,
        identity: None,
        reports: Seq::empty(),
    }
}

/// The token loaded for the run, or nothing before credentials are loaded.
pub open spec fn issue_token(s: IssueStateView) -> Seq<char> {
    match s.credentials {
        Some(c) => c.token,
        None => Seq::empty(),
    }
}

/// The first prompt still owed, else the submission.
pub open spec fn next_issue_prompt(s: IssueStateView) -> IssueStep {
    if s.title is None {
        IssueStep::PromptTitle
    } else if s.body is None {
        IssueStep::PromptBody
    } else {
        IssueStep::Submit
    }
}

/// The issue the run submits, from the resolved title, body and labels.
pub open spec fn issue_of(s: IssueStateView) -> IssueDescriptorView {
    IssueDescriptorView {
        title: opt_or_empty(s.title),
        body: opt_or_empty(s.body),
        labels: s.labels,
    }
}

/// The identity the run resolved, or an empty one before it did.
pub open spec fn issue_identity(s: IssueStateView) -> RepoIdentityView {
    match s.identity {
        Some(id) => id,
        None => RepoIdentityView { owner: Seq::empty(), name: Seq::empty() },
    }
}

/// The action performed at each station. Terminal states ask nothing.
pub open spec fn issue_action_of(s: IssueStateView) -> Option<ActionView> {
    match s.step {
        IssueStep::CheckRepo => Some(ActionView::CheckRepo),
        IssueStep::LoadCredentials => Some(ActionView::LoadCredentials),
        IssueStep::GetRemote => Some(
            ActionView::RunGit(seq!["remote"@, "get-url"@, "origin"@]),
        ),
        IssueStep::PromptTitle => Some(
            ActionView::Prompt { label: "Issue title"@, default: None },
        ),
        IssueStep::PromptBody => Some(
            ActionView::Prompt { label: "Issue description"@, default: None },
        ),
        IssueStep::Submit => Some(
            ActionView::Http(
                spec_issue_request(
                    issue_token(s),
                    issue_identity(s).owner,
                    issue_identity(s).name,
                    issue_of(s),
                ),
            ),
        ),
        IssueStep::Done => None,
        IssueStep::Aborted => None,
    }
}

/// One transition of an issue run. An event that does not answer the
/// current station changes nothing.
pub open spec fn issue_next(s: IssueStateView, e: EventView) -> IssueStateView {
    match s.step {
        IssueStep::CheckRepo => match e {
            EventView::RepoChecked(true) => IssueStateView {
                step: IssueStep::LoadCredentials,
                ..s
            },
            EventView::RepoChecked(false) => IssueStateView {
                step: IssueStep::Aborted,
                reports: s.reports.push(bare_report(ReportKind::NotARepository)),
                ..s
            },
            _ => s,
        },
        IssueStep::LoadCredentials => match e {
            EventView::CredentialsLoaded(c) => match c {
                Some(c) => {
                    if c.wf() {
                        IssueStateView {
                            step: IssueStep::GetRemote,
                            credentials: Some(c),
                            ..s
                        }
                    } else {
                        IssueStateView {
                            step: IssueStep::Aborted,
                            reports: s.reports.push(bare_report(ReportKind::NoConfiguration)),
                            ..s
                        }
                    }
                },
                None => IssueStateView {
                    step: IssueStep::Aborted,
                    reports: s.reports.push(bare_report(ReportKind::NoConfiguration)),
                    ..s
                },
            },
            _ => s,
        },
        IssueStep::GetRemote => match e {
            EventView::GitRan(r) => {
                if spec_command_ok(r) && spec_stdout_text(r->Ok_0) is Some {
                    match parse_identity_spec(spec_stdout_text(r->Ok_0)->Some_0) {
                        Some((owner, name)) => {
                            let s2 = IssueStateView {
                                identity: Some(RepoIdentityView { owner, name }),
                                ..s
                            };
                            IssueStateView { step: next_issue_prompt(s2), ..s2 }
                        },
                        None => IssueStateView {
                            step: IssueStep::Aborted,
                            reports: s.reports.push(bare_report(ReportKind::IdentityUnparsed)),
                            ..s
                        },
                    }
                } else {
                    IssueStateView {
                        step: IssueStep::Aborted,
                        reports: s.reports.push(remote_lookup_report(r)),
                        ..s
                    }
                }
            },
            _ => s,
        },
        IssueStep::PromptTitle => match e {
            EventView::PromptReply(r) => {
                let s2 = IssueStateView {
                    title: Some(
                        match r {
                            Some(t) => t,
                            None => "New Issue"@,
                        },
                    ),
                    ..s
                };
                IssueStateView { step: next_issue_prompt(s2), ..s2 }
            },
            _ => s,
        },
        IssueStep::PromptBody => match e {
            EventView::PromptReply(r) => IssueStateView {
                step: IssueStep::Submit,
                body: Some(
                    match r {
                        Some(t) => t,
                        None => Seq::empty(),
                    },
                ),
                ..s
            },
            _ => s,
        },
        IssueStep::Submit => match e {
            EventView::HttpDone(r) => {
                if r matches Ok(resp) && resp.ok {
                    match spec_extract_html_url(r->Ok_0.body) {
                        Some(url) => IssueStateView {
                            step: IssueStep::Done,
                            reports: s.reports.push(detail_report(ReportKind::IssueCreated, url)),
                            ..s
                        },
                        None => IssueStateView {
                            step: IssueStep::Done,
                            reports: s.reports.push(bare_report(ReportKind::IssueUrlMissing)),
                            ..s
                        },
                    }
                } else {
                    IssueStateView {
                        step: IssueStep::Done,
                        reports: s.reports.push(
                            fetch_failure_report(
                                ReportKind::IssueCreateFailed,
                                ReportKind::IssueCreateFailed,
                                r,
                            ),
                        ),
                        ..s
                    }
                }
            },
            _ => s,
        },
        IssueStep::Done => s,
        IssueStep::Aborted => s,
    }
}

/// The report of a failed remote-URL lookup: the command's failure text, or
/// nothing more when its output was not text.
pub open spec fn remote_lookup_report(r: Result<crate::data::CommandResultView, Seq<char>>)
    -> ReportView {
    if spec_command_ok(r) {
        bare_report(ReportKind::RemoteLookupFailed)
    } else {
        detail_report(ReportKind::RemoteLookupFailed, spec_git_failure_text(r))
    }
}

/// Start an issue run with the flag-supplied title, body and labels.
pub fn issue_start(title: Option<String>, body: Option<String>, labels: Vec<String>) -> (s:
    IssueState)
    ensures
        s@ == spec_issue_start(title.deep_view(), body.deep_view(), labels.deep_view()),
{
    let s = IssueState {
        step: IssueStep::CheckRepo,
        title,
        body,
        labels,
        credentials: None,
        identity: None,
        reports: Vec::new(),
    };
    proof {
        assert(s@ =~~= spec_issue_start(
            s.title.deep_view(),
            s.body.deep_view(),
            s.labels.deep_view(),
        ));
    }
    s
}

/// The action to perform next, or nothing when the run is over.
pub fn next_issue_action(s: &IssueState) -> (a: Option<Action>)
    ensures
        match a {
            Some(a) => issue_action_of(s@) == Some(a@),
            None => issue_action_of(s@) is None,
        },
{
    match s.step {
        IssueStep::CheckRepo => Some(Action::CheckRepo),
        IssueStep::LoadCredentials => Some(Action::LoadCredentials),
        IssueStep::GetRemote => Some(Action::RunGit(args3("remote", "get-url", "origin"))),
        IssueStep::PromptTitle => Some(
            Action::Prompt { label: String::from_str("Issue title"), default: None },
        ),
        IssueStep::PromptBody => Some(
            Action::Prompt { label: String::from_str("Issue description"), default: None },
        ),
        IssueStep::Submit => {
            let token: &str = match &s.credentials {
                Some(c) => c.token.as_str(),
                None => {
                    proof {
                        reveal_strlit("");
                        assert(""@ =~= Seq::<char>::empty());
                    }
                    ""
                },
            };
            let id = match &s.identity {
                Some(id) => RepoIdentity { owner: id.owner.clone(), name: id.name.clone() },
                None => {
                    proof {
                        reveal_strlit("");
                        assert(""@ =~= Seq::<char>::empty());
                    }
                    RepoIdentity { owner: String::new(), name: String::new() }
                },
            };
            let issue = IssueDescriptor {
                title: opt_str(&s.title).to_owned(),
                body: opt_str(&s.body).to_owned(),
                labels: clone_labels(&s.labels),
            };
            let req = issue_request(token, &id, &issue);
            proof {
                assert(issue@ =~~= issue_of(s@));
                assert(req@ =~~= spec_issue_request(
                    issue_token(s@),
                    issue_identity(s@).owner,
                    issue_identity(s@).name,
                    issue_of(s@),
                ));
            }
            Some(Action::Http(req))
        },
        IssueStep::Done => None,
        IssueStep::Aborted => None,
    }
}

/// Copy a label list.
pub fn clone_labels(labels: &Vec<String>) -> (r: Vec<String>)
    ensures
        r.deep_view() == labels.deep_view(),
{
    let mut r: Vec<String> = Vec::new();
    let mut i: usize = 0;
    while i < labels.len()
        invariant
            0 <= i <= labels@.len(),
            r@.len() == i,
            forall|j: int| 0 <= j < i ==> r@[j]@ == labels@[j]@,
        decreases labels@.len() - i,
    {
        r.push(labels[i].as_str().to_owned());
        i = i + 1;
    }
    proof {
        assert forall|j: int| 0 <= j < labels@.len() implies r.deep_view()[j]
            == labels.deep_view()[j] by {
            assert(r@[j]@ == labels@[j]@);
        }
        assert(r.deep_view() =~~= labels.deep_view());
    }
    r
}

/// Advance an issue run by one answered action.
pub fn issue_step(s: IssueState, e: Event) -> (s2: IssueState)
    ensures
        s2@ == issue_next(s@, e@),
{
    let ghost s0 = s@;
    let ghost e0 = e@;
    let mut s = s;
    match (s.step, e) {
        (IssueStep::CheckRepo, Event::RepoChecked(true)) => {
            s.step = IssueStep::LoadCredentials;
            proof {
                assert(s@ =~~= issue_next(s0, e0));
            }
        },
        (IssueStep::CheckRepo, Event::RepoChecked(false)) => {
            s.reports.push(Report::bare(ReportKind::NotARepository));
            s.step = IssueStep::Aborted;
            proof {
                assert(s@ =~~= issue_next(s0, e0));
            }
        },
        (IssueStep::LoadCredentials, Event::CredentialsLoaded(c)) => {
            match c {
                Some(c) => {
                    if c.is_complete() {
                        s.credentials = Some(c);
                        s.step = IssueStep::GetRemote;
                    } else {
                        s.reports.push(Report::bare(ReportKind::NoConfiguration));
                        s.step = IssueStep::Aborted;
                    }
                },
                None => {
                    s.reports.push(Report::bare(ReportKind::NoConfiguration));
                    s.step = IssueStep::Aborted;
                },
            }
            proof {
                assert(s@ =~~= issue_next(s0, e0));
            }
        },
        (IssueStep::GetRemote, Event::GitRan(r)) => {
            match r {
                Ok(c) if c.exit_success => {
                    match stdout_text(&c) {
                        Some(url) => {
                            match parse_repo_identity(url.as_str()) {
                                Some(id) => {
                                    s.identity = Some(id);
                                    s.step = if s.title.is_none() {
                                        IssueStep::PromptTitle
                                    } else if s.body.is_none() {
                                        IssueStep::PromptBody
                                    } else {
                                        IssueStep::Submit
                                    };
                                },
                                None => {
                                    s.reports.push(Report::bare(ReportKind::IdentityUnparsed));
                                    s.step = IssueStep::Aborted;
                                },
                            }
                        },
                        None => {
                            s.reports.push(Report::bare(ReportKind::RemoteLookupFailed));
                            s.step = IssueStep::Aborted;
                        },
                    }
                },
                Ok(c) => {
                    s.reports.push(
                        Report::with_detail(ReportKind::RemoteLookupFailed, command_error_text(&c)),
                    );
                    s.step = IssueStep::Aborted;
                },
                Err(m) => {
                    s.reports.push(Report::with_detail(ReportKind::RemoteLookupFailed, m));
                    s.step = IssueStep::Aborted;
                },
            }
            proof {
                assert(s@ =~~= issue_next(s0, e0));
            }
        },
        (IssueStep::PromptTitle, Event::PromptReply(r)) => {
            s.title = Some(
                match r {
                    Some(t) => t,
                    None => String::from_str("New Issue"),
                },
            );
            s.step = if s.body.is_none() {
                IssueStep::PromptBody
            } else {
                IssueStep::Submit
            };
            proof {
                assert(s@ =~~= issue_next(s0, e0));
            }
        },
        (IssueStep::PromptBody, Event::PromptReply(r)) => {
            s.body = Some(
                match r {
                    Some(t) => t,
                    None => String::new(),
                },
            );
            s.step = IssueStep::Submit;
            proof {
                assert(s@ =~~= issue_next(s0, e0));
            }
        },
        (IssueStep::Submit, Event::HttpDone(r)) => {
            match r {
                Ok(resp) if resp.ok => {
                    match extract_html_url(resp.body.as_str()) {
                        Some(url) => {
                            s.reports.push(Report::with_detail(ReportKind::IssueCreated, url));
                        },
                        None => {
                            s.reports.push(Report::bare(ReportKind::IssueUrlMissing));
                        },
                    }
                },
                Ok(resp) => {
                    s.reports.push(
                        Report::with_status(ReportKind::IssueCreateFailed, resp.status, resp.body),
                    );
                },
                Err(m) => {
                    s.reports.push(Report::with_detail(ReportKind::IssueCreateFailed, m));
                },
            }
            s.step = IssueStep::Done;
            proof {
                assert(s@ =~~= issue_next(s0, e0));
            }
        },
        (_, _) => {
            proof {
                assert(s@ =~~= issue_next(s0, e0));
            }
        },
    }
    s
}

} // verus!
