//! What the orchestrators exchange with the unverified shell: the actions a
//! run asks it to perform, the events that answer them, and the reports a
//! run accumulates for the operator.

use vstd::prelude::*;
use crate::data::{CommandResult, CommandResultView, Credentials, CredentialsView, HttpRequest,
    HttpRequestView, HttpResponse, HttpResponseView};

verus! {

/// What a finished step is reported as. A report is data, not text: the
/// shell turns the kind and its payload into the operator-facing message.
#[derive(Clone, Copy, Debug, PartialEq, Eq, Structural)]
pub enum ReportKind {
    AlreadyRepository,
    GitInitialized,
    GitInitFailed,
    NoConfiguration,
    GitignoreCreated,
    GitignoreConnectFailed,
    GitignoreFetchFailed,
    GitignoreInvalidResponse,
    GitignoreWriteFailed,
    LicenseCreated,
    LicenseConnectFailed,
    LicenseFetchFailed,
    LicenseInvalidResponse,
    LicenseWriteFailed,
    RepoCreated,
    RepoCreateFailed,
    CloneUrlMissing,
    RemoteAdded,
    RemoteAddFailed,
    ReadmeCreated,
    ReadmeWriteFailed,
    WorkflowCreated,
    WorkflowWriteFailed,
    FilesStaged,
    StageFailed,
    InitialCommitCreated,
    CommitFailed,
    BranchRenamed,
    BranchRenameFailed,
    BranchUndetermined,
    Pushed,
    PushFailed,
    NotARepository,
    DefaultMessageUsed,
    NoChanges,
    StatusCheckFailed,
    ChangesCommitted,
    CurrentBranchFailed,
    PushedExisting,
    BranchCreated,
    BranchCreateFailed,
    SwitchedBranch,
    SwitchFailed,
    BranchList,
    BranchListFailed,
    TemplatesConnectFailed,
    TemplatesFetchFailed,
    TemplatesInvalidResponse,
    SelectionCancelled,
    RemoteLookupFailed,
    IdentityUnparsed,
    IssueCreated,
    IssueCreateFailed,
    IssueUrlMissing,
    HeadPushed,
    HeadPushFailed,
    PrCreated,
    PrCreateFailed,
    PrUrlMissing,
}

/// One line of the run's report: what happened, an optional text payload
/// (an error message, a created URL, a branch name), and the HTTP status
/// when a remote call answered with a failure status.
#[derive(Clone, Debug)]
pub struct Report {
    pub kind: ReportKind,
    pub detail: Option<String>,
    pub status: Option<u16>,
}

#[verifier::ext_equal]
pub struct ReportView {
    pub kind: ReportKind,
    pub detail: Option<Seq<char>>,
    pub status: Option<u16>,
}

impl View for Report {
    type V = ReportView;

    open spec fn view(&self) -> ReportView {
        ReportView { kind: self.kind, detail: self.detail.deep_view(), status: self.status }
    }
}

impl DeepView for Report {
    type V = ReportView;

    open spec fn deep_view(&self) -> ReportView {
        self@
    }
}

impl Report {
    /// A report with no payload.
    pub fn bare(kind: ReportKind) -> (r: Report)
        ensures
            r@ == (ReportView { kind, detail: None, status: None }),
    {
        Report { kind, detail: None, status: None }
    }

    /// A report carrying a text payload.
    pub fn with_detail(kind: ReportKind, detail: String) -> (r: Report)
        ensures
            r@ == (ReportView { kind, detail: Some(detail@), status: None }),
    {
        Report { kind, detail: Some(detail), status: None }
    }

    /// A report of a remote call answered with a failure status.
    pub fn with_status(kind: ReportKind, status: u16, body: String) -> (r: Report)
        ensures
            r@ == (ReportView { kind, detail: Some(body@), status: Some(status) }),
    {
        Report { kind, detail: Some(body), status: Some(status) }
    }
}


pub open spec fn bare_report(kind: ReportKind) -> ReportView {
    ReportView { kind, detail: None, status: None }
}

pub open spec fn detail_report(kind: ReportKind, detail: Seq<char>) -> ReportView {
    ReportView { kind, detail: Some(detail), status: None }
}

pub open spec fn status_report(kind: ReportKind, status: u16, body: Seq<char>) -> ReportView {
    ReportView { kind, detail: Some(body), status: Some(status) }
}

/// The report of an HTTP exchange that did not yield a usable document:
/// the transport failure text, or the failure status with the body.
pub open spec fn fetch_failure_report(
    connect_kind: ReportKind,
    status_kind: ReportKind,
    r: Result<HttpResponseView, Seq<char>>,
) -> ReportView {
    match r {
        Err(m) => detail_report(connect_kind, m),
        Ok(resp) => status_report(status_kind, resp.status, resp.body),
    }
}

/// One step a state machine asks the shell to perform.
#[derive(Clone, Debug)]
pub enum Action {
    /// Test whether the working directory is under version control.
    CheckRepo,
    /// Run the version-control binary with the given arguments.
    RunGit(Vec<String>),
    /// Load the persisted credentials record.
    LoadCredentials,
    /// Send the HTTP request.
    Http(HttpRequest),
    /// Read a file wholly into text, if it exists and is readable.
    ReadFile(String),
    /// Test whether a file exists.
    FileExists(String),
    /// Write a file, creating its directories as needed.
    WriteFile(String, String),
    /// Ask the operator for a line of text, with an optional default.
    Prompt { label: String, default: Option<String> },
    /// Ask the operator to pick one of the options.
    Choose { label: String, options: Vec<String> },
}

#[verifier::ext_equal]
pub enum ActionView {
    CheckRepo,
    RunGit(Seq<Seq<char>>),
    LoadCredentials,
    Http(HttpRequestView),
    ReadFile(Seq<char>),
    FileExists(Seq<char>),
    WriteFile(Seq<char>, Seq<char>),
    Prompt { label: Seq<char>, default: Option<Seq<char>> },
    Choose { label: Seq<char>, options: Seq<Seq<char>> },
}

impl View for Action {
    type V = ActionView;

    open spec fn view(&self) -> ActionView {
        match self {
            Action::CheckRepo => ActionView::CheckRepo,
            Action::RunGit(args) => ActionView::RunGit(args.deep_view()),
            Action::LoadCredentials => ActionView::LoadCredentials,
            Action::Http(req) => ActionView::Http(req@),
            Action::ReadFile(path) => ActionView::ReadFile(path@),
            Action::FileExists(path) => ActionView::FileExists(path@),
            Action::WriteFile(path, content) => ActionView::WriteFile(path@, content@),
            Action::Prompt { label, default } => ActionView::Prompt {
                label: label@,
                default: default.deep_view(),
            },
            Action::Choose { label, options } => ActionView::Choose {
                label: label@,
                options: options.deep_view(),
            },
        }
    }
}

/// What came back from performing an action.
#[derive(Debug)]
pub enum Event {
    /// Whether the working directory is under version control.
    RepoChecked(bool),
    /// The command ran to completion, or could not be launched (the error
    /// text of the launch failure).
    GitRan(Result<CommandResult, String>),
    /// The persisted credentials, when a record could be loaded.
    CredentialsLoaded(Option<Credentials>),
    /// The HTTP exchange completed, or failed in transport (the error text).
    HttpDone(Result<HttpResponse, String>),
    /// The file's content, when it exists and is readable text.
    FileContent(Option<String>),
    /// Whether the file exists.
    Exists(bool),
    /// The file was written, or the write failed (the error text).
    Written(Result<(), String>),
    /// The operator's reply, when one could be read.
    PromptReply(Option<String>),
    /// The operator's pick, when one was made.
    Chosen(Option<usize>),
}

#[verifier::ext_equal]
pub enum EventView {
    RepoChecked(bool),
    GitRan(Result<CommandResultView, Seq<char>>),
    CredentialsLoaded(Option<CredentialsView>),
    HttpDone(Result<HttpResponseView, Seq<char>>),
    FileContent(Option<Seq<char>>),
    Exists(bool),
    Written(Result<(), Seq<char>>),
    PromptReply(Option<Seq<char>>),
    Chosen(Option<usize>),
}

impl View for Event {
    type V = EventView;

    open spec fn view(&self) -> EventView {
        match self {
            Event::RepoChecked(b) => EventView::RepoChecked(*b),
            Event::GitRan(r) => EventView::GitRan(
                match r {
                    Ok(c) => Ok(c@),
                    Err(e) => Err(e@),
                },
            ),
            Event::CredentialsLoaded(c) => EventView::CredentialsLoaded(
                match c {
                    Some(c) => Some(c@),
                    None => None,
                },
            ),
            Event::HttpDone(r) => EventView::HttpDone(
                match r {
                    Ok(resp) => Ok(resp@),
                    Err(e) => Err(e@),
                },
            ),
            Event::FileContent(c) => EventView::FileContent(c.deep_view()),
            Event::Exists(b) => EventView::Exists(*b),
            Event::Written(r) => EventView::Written(
                match r {
                    Ok(u) => Ok(*u),
                    Err(e) => Err(e@),
                },
            ),
            Event::PromptReply(r) => EventView::PromptReply(r.deep_view()),
            Event::Chosen(i) => EventView::Chosen(*i),
        }
    }
}

} // verus!
