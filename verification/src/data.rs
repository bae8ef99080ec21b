//! The value objects the orchestrators work over: credentials, the
//! descriptors naming what is to be created remotely, and the shapes of a
//! finished command or HTTP exchange.

use vstd::prelude::*;

verus! {

/// The persisted GitHub credentials record.
#[derive(Clone, Debug)]
pub struct Credentials {
    pub token: String,
    pub username: String,
    pub default_branch: Option<String>,
    pub default_license: Option<String>,
}

#[verifier::ext_equal]
pub struct CredentialsView {
    pub token: Seq<char>,
    pub username: Seq<char>,
    pub default_branch: Option<Seq<char>>,
    pub default_license: Option<Seq<char>>,
}

impl View for Credentials {
    type V = CredentialsView;

    open spec fn view(&self) -> CredentialsView {
        CredentialsView {
            token: self.token@,
            username: self.username@,
            default_branch: self.default_branch.deep_view(),
            default_license: self.default_license.deep_view(),
        }
    }
}

impl CredentialsView {
    /// Token and username must both be non-empty before any remote call.
    pub open spec fn wf(self) -> bool {
        self.token.len() > 0 && self.username.len() > 0
    }

    /// The branch every run targets: the configured default, else "main".
    pub open spec fn branch_target(self) -> Seq<char> {
        match self.default_branch {
            Some(b) => b,
            None => "main"@,
        }
    }
}

impl Credentials {
    /// Whether the record is usable for remote calls.
    pub fn is_complete(&self) -> (r: bool)
        ensures
            r == self@.wf(),
    {
        !self.token.as_str().is_empty() && !self.username.as_str().is_empty()
    }
}

/// Repository visibility on the remote host.
#[derive(Clone, Copy, Debug, PartialEq, Eq, Structural)]
pub enum Visibility {
    Public,
    Private,
}

/// Everything one remote repository-creation call needs.
#[derive(Clone, Debug)]
pub struct RepositoryDescriptor {
    pub name: String,
    pub description: String,
    pub visibility: Visibility,
    pub license: Option<String>,
}

#[verifier::ext_equal]
pub struct RepositoryDescriptorView {
    pub name: Seq<char>,
    pub description: Seq<char>,
    pub visibility: Visibility,
    pub license: Option<Seq<char>>,
}

impl View for RepositoryDescriptor {
    type V = RepositoryDescriptorView;

    open spec fn view(&self) -> RepositoryDescriptorView {
        RepositoryDescriptorView {
            name: self.name@,
            description: self.description@,
            visibility: self.visibility,
            license: self.license.deep_view(),
        }
    }
}

/// Everything one remote issue-creation call needs.
#[derive(Clone, Debug)]
pub struct IssueDescriptor {
    pub title: String,
    pub body: String,
    pub labels: Vec<String>,
}

#[verifier::ext_equal]
pub struct IssueDescriptorView {
    pub title: Seq<char>,
    pub body: Seq<char>,
    pub labels: Seq<Seq<char>>,
}

impl View for IssueDescriptor {
    type V = IssueDescriptorView;

    open spec fn view(&self) -> IssueDescriptorView {
        IssueDescriptorView {
            title: self.title@,
            body: self.body@,
            labels: self.labels.deep_view(),
        }
    }
}

/// Everything one remote pull-request-creation call needs.
#[derive(Clone, Debug)]
pub struct PullRequestDescriptor {
    pub title: String,
    pub body: String,
    pub base_branch: String,
    pub head_branch: String,
}

#[verifier::ext_equal]
pub struct PullRequestDescriptorView {
    pub title: Seq<char>,
    pub body: Seq<char>,
    pub base_branch: Seq<char>,
    pub head_branch: Seq<char>,
}

impl View for PullRequestDescriptor {
    type V = PullRequestDescriptorView;

    open spec fn view(&self) -> PullRequestDescriptorView {
        PullRequestDescriptorView {
            title: self.title@,
            body: self.body@,
            base_branch: self.base_branch@,
            head_branch: self.head_branch@,
        }
    }
}

/// A repository named by owner and name, as parsed from a remote URL.
#[derive(Clone, Debug)]
pub struct RepoIdentity {
    pub owner: String,
    pub name: String,
}

#[verifier::ext_equal]
pub struct RepoIdentityView {
    pub owner: Seq<char>,
    pub name: Seq<char>,
}

impl View for RepoIdentity {
    type V = RepoIdentityView;

    open spec fn view(&self) -> RepoIdentityView {
        RepoIdentityView { owner: self.owner@, name: self.name@ }
    }
}

/// What running an external command produced.
#[derive(Clone, Debug)]
pub struct CommandResult {
    pub exit_success: bool,
    pub stdout: Vec<u8>,
    pub stderr: Vec<u8>,
}

#[verifier::ext_equal]
pub struct CommandResultView {
    pub exit_success: bool,
    pub stdout: Seq<u8>,
    pub stderr: Seq<u8>,
}

impl View for CommandResult {
    type V = CommandResultView;

    open spec fn view(&self) -> CommandResultView {
        CommandResultView {
            exit_success: self.exit_success,
            stdout: self.stdout@,
            stderr: self.stderr@,
        }
    }
}

/// What one HTTP exchange with the remote host produced: `ok` is whether the
/// status was a success status, `body` the response text.
#[derive(Clone, Debug)]
pub struct HttpResponse {
    pub ok: bool,
    pub status: u16,
    pub body: String,
}

#[verifier::ext_equal]
pub struct HttpResponseView {
    pub ok: bool,
    pub status: u16,
    pub body: Seq<char>,
}

impl View for HttpResponse {
    type V = HttpResponseView;

    open spec fn view(&self) -> HttpResponseView {
        HttpResponseView { ok: self.ok, status: self.status, body: self.body@ }
    }
}

/// A fully assembled HTTP request: the orchestrators build these, the shell
/// only sends them.
#[derive(Clone, Debug)]
pub struct HttpRequest {
    pub post: bool,
    pub url: String,
    pub headers: Vec<(String, String)>,
    pub body: Option<String>,
}

#[verifier::ext_equal]
pub struct HttpRequestView {
    pub post: bool,
    pub url: Seq<char>,
    pub headers: Seq<(Seq<char>, Seq<char>)>,
    pub body: Option<Seq<char>>,
}

impl View for HttpRequest {
    type V = HttpRequestView;

    open spec fn view(&self) -> HttpRequestView {
        HttpRequestView {
            post: self.post,
            url: self.url@,
            headers: self.headers.deep_view(),
            body: self.body.deep_view(),
        }
    }
}

} // verus!
