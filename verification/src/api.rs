//! The remote API surface: every URL, header list and JSON request body the
//! orchestrators send, and the fields they read back out of responses.

use vstd::prelude::*;
use crate::data::{HttpRequest, HttpRequestView, IssueDescriptor, IssueDescriptorView,
    PullRequestDescriptor, PullRequestDescriptorView, RepoIdentity, RepositoryDescriptor,
    RepositoryDescriptorView, Visibility};
use crate::json::{json_quote, json_string_array, json_string_field, spec_json_quote,
    spec_json_string_array, spec_json_string_field};
use vstd::string::StringExecFns;

verus! {

/// The headers on every remote call: the versioned media type, the product
/// identifier, and the token authorization.
pub open spec fn spec_api_headers(token: Seq<char>) -> Seq<(Seq<char>, Seq<char>)> {
    seq![
        ("Accept"@, "application/vnd.github.v3+json"@),
        ("User-Agent"@, "Git-Mate-CLI"@),
        ("Authorization"@, "token "@ + token),
    ]
}

/// Build the header list for a remote call authorized by `token`.
pub fn api_headers(token: &str) -> (h: Vec<(String, String)>)
    ensures
        h.deep_view() == spec_api_headers(token@),
{
    let mut auth = String::from_str("token ");
    auth.append(token);
    let mut v: Vec<(String, String)> = Vec::new();
    v.push((String::from_str("Accept"), String::from_str("application/vnd.github.v3+json")));
    v.push((String::from_str("User-Agent"), String::from_str("Git-Mate-CLI")));
    v.push((String::from_str("Authorization"), auth));
    proof {
        assert(v.deep_view() =~~= spec_api_headers(token@));
    }
    v
}

pub open spec fn spec_templates_url() -> Seq<char> {
    "https://api.github.com/gitignore/templates"@
}

pub open spec fn spec_template_url(template: Seq<char>) -> Seq<char> {
    spec_templates_url() + "/"@ + template
}

pub open spec fn spec_license_url(license: Seq<char>) -> Seq<char> {
    "https://api.github.com/licenses/"@ + license
}

pub open spec fn spec_create_repo_url() -> Seq<char> {
    "https://api.github.com/user/repos"@
}

pub open spec fn spec_issues_url(owner: Seq<char>, name: Seq<char>) -> Seq<char> {
    "https://api.github.com/repos/"@ + owner + "/"@ + name + "/issues"@
}

pub open spec fn spec_pulls_url(owner: Seq<char>, name: Seq<char>) -> Seq<char> {
    "https://api.github.com/repos/"@ + owner + "/"@ + name + "/pulls"@
}

pub open spec fn spec_bool_text(b: bool) -> Seq<char> {
    if b {
        "true"@
    } else {
        "false"@
    }
}

/// The repository-creation payload. Auto-initialization is always requested
/// off: the local tree is authoritative.
pub open spec fn spec_repo_create_body(d: RepositoryDescriptorView) -> Seq<char> {
    "{\"name\":"@ + spec_json_quote(d.name) + ",\"description\":"@ + spec_json_quote(d.description)
        + ",\"private\":"@ + spec_bool_text(d.visibility == Visibility::Private)
        + ",\"auto_init\":false,\"license_template\":"@ + (match d.license {
        Some(l) => spec_json_quote(l),
        None => "null"@,
    }) + "}"@
}

/// The issue-creation payload.
pub open spec fn spec_issue_body(i: IssueDescriptorView) -> Seq<char> {
    "{\"title\":"@ + spec_json_quote(i.title) + ",\"body\":"@ + spec_json_quote(i.body)
        + ",\"labels\":"@ + spec_json_string_array(i.labels) + "}"@
}

/// The pull-request-creation payload.
pub open spec fn spec_pull_request_body(p: PullRequestDescriptorView) -> Seq<char> {
    "{\"title\":"@ + spec_json_quote(p.title) + ",\"body\":"@ + spec_json_quote(p.body)
        + ",\"head\":"@ + spec_json_quote(p.head_branch) + ",\"base\":"@ + spec_json_quote(
        p.base_branch,
    ) + "}"@
}

/// Build the repository-creation payload.
pub fn repo_create_body(d: &RepositoryDescriptor) -> (r: String)
    ensures
        r@ == spec_repo_create_body(d@),
{
    let mut s = String::from_str("{\"name\":");
    let q_name = json_quote(d.name.as_str());
    s.append(q_name.as_str());
    s.append(",\"description\":");
    let q_desc = json_quote(d.description.as_str());
    s.append(q_desc.as_str());
    s.append(",\"private\":");
    match d.visibility {
        Visibility::Private => s.append("true"),
        Visibility::Public => s.append("false"),
    }
    s.append(",\"auto_init\":false,\"license_template\":");
    match &d.license {
        Some(l) => {
            let q_l = json_quote(l.as_str());
            s.append(q_l.as_str());
        },
        None => s.append("null"),
    }
    s.append("}");
    proof {
        assert(s@ =~= spec_repo_create_body(d@));
    }
    s
}

/// Build the issue-creation payload.
pub fn issue_body(i: &IssueDescriptor) -> (r: String)
    ensures
        r@ == spec_issue_body(i@),
{
    let mut s = String::from_str("{\"title\":");
    let q_title = json_quote(i.title.as_str());
    s.append(q_title.as_str());
    s.append(",\"body\":");
    let q_body = json_quote(i.body.as_str());
    s.append(q_body.as_str());
    s.append(",\"labels\":");
    let labels = json_string_array(&i.labels);
    s.append(labels.as_str());
    s.append("}");
    proof {
        assert(s@ =~= spec_issue_body(i@));
    }
    s
}

/// Build the pull-request-creation payload.
pub fn pull_request_body(p: &PullRequestDescriptor) -> (r: String)
    ensures
        r@ == spec_pull_request_body(p@),
{
    let mut s = String::from_str("{\"title\":");
    let q_title = json_quote(p.title.as_str());
    s.append(q_title.as_str());
    s.append(",\"body\":");
    let q_body = json_quote(p.body.as_str());
    s.append(q_body.as_str());
    s.append(",\"head\":");
    let q_head = json_quote(p.head_branch.as_str());
    s.append(q_head.as_str());
    s.append(",\"base\":");
    let q_base = json_quote(p.base_branch.as_str());
    s.append(q_base.as_str());
    s.append("}");
    proof {
        assert(s@ =~= spec_pull_request_body(p@));
    }
    s
}

/// The repository-creation request.
pub open spec fn spec_create_repo_request(
    token: Seq<char>,
    d: RepositoryDescriptorView,
) -> HttpRequestView {
    HttpRequestView {
        post: true,
        url: spec_create_repo_url(),
        headers: spec_api_headers(token),
        body: Some(spec_repo_create_body(d)),
    }
}

/// Build the repository-creation request.
pub fn create_repo_request(token: &str, d: &RepositoryDescriptor) -> (r: HttpRequest)
    ensures
        r@ == spec_create_repo_request(token@, d@),
{
    HttpRequest {
        post: true,
        url: String::from_str("https://api.github.com/user/repos"),
        headers: api_headers(token),
        body: Some(repo_create_body(d)),
    }
}

/// The request fetching one gitignore template.
pub open spec fn spec_template_request(token: Seq<char>, template: Seq<char>) -> HttpRequestView {
    HttpRequestView {
        post: false,
        url: spec_template_url(template),
        headers: spec_api_headers(token),
        body: None,
    }
}

/// Build the request fetching one gitignore template.
pub fn template_request(token: &str, template: &str) -> (r: HttpRequest)
    ensures
        r@ == spec_template_request(token@, template@),
{
    let mut url = String::from_str("https://api.github.com/gitignore/templates");
    url.append("/");
    url.append(template);
    proof {
        assert(url@ =~= spec_template_url(template@));
    }
    HttpRequest { post: false, url, headers: api_headers(token), body: None }
}

/// The request listing the available gitignore templates.
pub open spec fn spec_templates_request(token: Seq<char>) -> HttpRequestView {
    HttpRequestView {
        post: false,
        url: spec_templates_url(),
        headers: spec_api_headers(token),
        body: None,
    }
}

/// Build the request listing the available gitignore templates.
pub fn templates_request(token: &str) -> (r: HttpRequest)
    ensures
        r@ == spec_templates_request(token@),
{
    HttpRequest {
        post: false,
        url: String::from_str("https://api.github.com/gitignore/templates"),
        headers: api_headers(token),
        body: None,
    }
}

/// The request fetching one license's full text.
pub open spec fn spec_license_request(token: Seq<char>, license: Seq<char>) -> HttpRequestView {
    HttpRequestView {
        post: false,
        url: spec_license_url(license),
        headers: spec_api_headers(token),
        body: None,
    }
}

/// Build the request fetching one license's full text.
pub fn license_request(token: &str, license: &str) -> (r: HttpRequest)
    ensures
        r@ == spec_license_request(token@, license@),
{
    let mut url = String::from_str("https://api.github.com/licenses/");
    url.append(license);
    HttpRequest { post: false, url, headers: api_headers(token), body: None }
}

/// The issue-creation request.
pub open spec fn spec_issue_request(
    token: Seq<char>,
    owner: Seq<char>,
    name: Seq<char>,
    i: IssueDescriptorView,
) -> HttpRequestView {
    HttpRequestView {
        post: true,
        url: spec_issues_url(owner, name),
        headers: spec_api_headers(token),
        body: Some(spec_issue_body(i)),
    }
}

/// Build the issue-creation request.
pub fn issue_request(token: &str, id: &RepoIdentity, i: &IssueDescriptor) -> (r: HttpRequest)
    ensures
        r@ == spec_issue_request(token@, id@.owner, id@.name, i@),
{
    let mut url = String::from_str("https://api.github.com/repos/");
    url.append(id.owner.as_str());
    url.append("/");
    url.append(id.name.as_str());
    url.append("/issues");
    proof {
        assert(url@ =~= spec_issues_url(id@.owner, id@.name));
    }
    HttpRequest {
        post: true,
        url,
        headers: api_headers(token),
        body: Some(issue_body(i)),
    }
}

/// The pull-request-creation request.
pub open spec fn spec_pull_request_request(
    token: Seq<char>,
    owner: Seq<char>,
    name: Seq<char>,
    p: PullRequestDescriptorView,
) -> HttpRequestView {
    HttpRequestView {
        post: true,
        url: spec_pulls_url(owner, name),
        headers: spec_api_headers(token),
        body: Some(spec_pull_request_body(p)),
    }
}

/// Build the pull-request-creation request.
pub fn pull_request_request(token: &str, id: &RepoIdentity, p: &PullRequestDescriptor) -> (r:
    HttpRequest)
    ensures
        r@ == spec_pull_request_request(token@, id@.owner, id@.name, p@),
{
    let mut url = String::from_str("https://api.github.com/repos/");
    url.append(id.owner.as_str());
    url.append("/");
    url.append(id.name.as_str());
    url.append("/pulls");
    proof {
        assert(url@ =~= spec_pulls_url(id@.owner, id@.name));
    }
    HttpRequest {
        post: true,
        url,
        headers: api_headers(token),
        body: Some(pull_request_body(p)),
    }
}

/// The clone URL preferred out of a creation response: the SSH-style URL
/// whenever one is present, else the HTTPS-style URL.
pub open spec fn spec_choose_clone_url(
    ssh: Option<Seq<char>>,
    https: Option<Seq<char>>,
) -> Option<Seq<char>> {
    match ssh {
        Some(u) => Some(u),
        None => https,
    }
}

/// Choose between the SSH-style and HTTPS-style clone URLs: the SSH-style
/// one is always taken when present.
pub fn choose_clone_url(ssh: Option<String>, https: Option<String>) -> (r: Option<String>)
    ensures
        r.deep_view() == spec_choose_clone_url(ssh.deep_view(), https.deep_view()),
{
    match ssh {
        Some(u) => Some(u),
        None => https,
    }
}

/// The clone URL a repository-creation response yields: the `ssh_url` field
/// when present, else the `clone_url` field.
pub open spec fn spec_extract_clone_url(body: Seq<char>) -> Option<Seq<char>> {
    spec_choose_clone_url(
        spec_json_string_field(body, "ssh_url"@),
        spec_json_string_field(body, "clone_url"@),
    )
}

/// Extract the clone URL from a repository-creation response body.
pub fn extract_clone_url(body: &str) -> (r: Option<String>)
    ensures
        r.deep_view() == spec_extract_clone_url(body@),
{
    let ssh = json_string_field(body, "ssh_url");
    let https = json_string_field(body, "clone_url");
    choose_clone_url(ssh, https)
}

/// The web URL a creation response reports back.
pub open spec fn spec_extract_html_url(body: Seq<char>) -> Option<Seq<char>> {
    spec_json_string_field(body, "html_url"@)
}

/// Extract the reported web URL from a creation response body.
pub fn extract_html_url(body: &str) -> (r: Option<String>)
    ensures
        r.deep_view() == spec_extract_html_url(body@),
{
    json_string_field(body, "html_url")
}

} // verus!
