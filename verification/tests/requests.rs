use git_mate::api::{api_headers, choose_clone_url, create_repo_request, extract_clone_url,
    extract_html_url, issue_request, license_request, pull_request_request, template_request,
    templates_request};
use git_mate::data::{IssueDescriptor, PullRequestDescriptor, RepoIdentity, RepositoryDescriptor,
    Visibility};
use git_mate::json::{json_quote, json_string_array, json_string_field, json_string_list};

#[test]
fn headers_carry_media_type_agent_and_token() {
    let h = api_headers("sekrit");
    assert_eq!(h.len(), 3);
    assert_eq!(h[0].0, "Accept");
    assert_eq!(h[0].1, "application/vnd.github.v3+json");
    assert_eq!(h[1].0, "User-Agent");
    assert_eq!(h[1].1, "Git-Mate-CLI");
    assert_eq!(h[2].0, "Authorization");
    assert_eq!(h[2].1, "token sekrit");
}

#[test]
fn repo_creation_request_disables_auto_init() {
    let d = RepositoryDescriptor {
        name: String::from("demo"),
        description: String::from("a demo"),
        visibility: Visibility::Public,
        license: None,
    };
    let req = create_repo_request("tok", &d);
    assert!(req.post);
    assert_eq!(req.url, "https://api.github.com/user/repos");
    assert_eq!(
        req.body.unwrap(),
        "{\"name\":\"demo\",\"description\":\"a demo\",\"private\":false,\"auto_init\":false,\"license_template\":null}"
    );
}

#[test]
fn repo_creation_body_quotes_and_carries_license() {
    let d = RepositoryDescriptor {
        name: String::from("de\"mo"),
        description: String::from("x"),
        visibility: Visibility::Private,
        license: Some(String::from("mit")),
    };
    let req = create_repo_request("tok", &d);
    assert_eq!(
        req.body.unwrap(),
        "{\"name\":\"de\\\"mo\",\"description\":\"x\",\"private\":true,\"auto_init\":false,\"license_template\":\"mit\"}"
    );
}

#[test]
fn issue_request_posts_to_the_repository() {
    let id = RepoIdentity { owner: String::from("alice"), name: String::from("proj") };
    let i = IssueDescriptor {
        title: String::from("A bug"),
        body: String::from("It breaks"),
        labels: vec![String::from("bug"), String::from("urgent")],
    };
    let req = issue_request("tok", &id, &i);
    assert_eq!(req.url, "https://api.github.com/repos/alice/proj/issues");
    assert_eq!(
        req.body.unwrap(),
        "{\"title\":\"A bug\",\"body\":\"It breaks\",\"labels\":[\"bug\",\"urgent\"]}"
    );
}

#[test]
fn pull_request_request_posts_to_the_repository() {
    let id = RepoIdentity { owner: String::from("alice"), name: String::from("proj") };
    let p = PullRequestDescriptor {
        title: String::from("Merge feature into main"),
        body: String::from(""),
        base_branch: String::from("main"),
        head_branch: String::from("feature"),
    };
    let req = pull_request_request("tok", &id, &p);
    assert_eq!(req.url, "https://api.github.com/repos/alice/proj/pulls");
    assert_eq!(
        req.body.unwrap(),
        "{\"title\":\"Merge feature into main\",\"body\":\"\",\"head\":\"feature\",\"base\":\"main\"}"
    );
}

#[test]
fn scaffold_requests_hit_their_resources() {
    let t = template_request("tok", "Rust");
    assert!(!t.post);
    assert_eq!(t.url, "https://api.github.com/gitignore/templates/Rust");
    assert!(t.body.is_none());
    let l = license_request("tok", "mit");
    assert_eq!(l.url, "https://api.github.com/licenses/mit");
    let all = templates_request("tok");
    assert_eq!(all.url, "https://api.github.com/gitignore/templates");
}

#[test]
fn ssh_url_is_preferred_over_https() {
    let body = "{\"ssh_url\":\"git@github.com:a/b.git\",\"clone_url\":\"https://github.com/a/b.git\"}";
    assert_eq!(extract_clone_url(body).unwrap(), "git@github.com:a/b.git");
    let r = choose_clone_url(
        Some(String::from("ssh")),
        Some(String::from("https")),
    );
    assert_eq!(r.unwrap(), "ssh");
}

#[test]
fn https_url_is_the_fallback() {
    let body = "{\"clone_url\":\"https://github.com/a/b.git\"}";
    assert_eq!(extract_clone_url(body).unwrap(), "https://github.com/a/b.git");
    assert!(extract_clone_url("{\"name\":\"b\"}").is_none());
    assert!(extract_clone_url("not json").is_none());
}

#[test]
fn html_url_is_read_from_responses() {
    assert_eq!(
        extract_html_url("{\"html_url\":\"https://github.com/a/b/issues/1\"}").unwrap(),
        "https://github.com/a/b/issues/1"
    );
    assert!(extract_html_url("{}").is_none());
}

#[test]
fn json_quoting_escapes() {
    assert_eq!(json_quote("plain"), "\"plain\"");
    assert_eq!(json_quote("a\"b\\c"), "\"a\\\"b\\\\c\"");
    assert_eq!(json_quote(""), "\"\"");
}

#[test]
fn json_string_arrays_are_built_and_read() {
    assert_eq!(json_string_array(&Vec::new()), "[]");
    assert_eq!(json_string_array(&vec![String::from("a")]), "[\"a\"]");
    assert_eq!(
        json_string_array(&vec![String::from("a"), String::from("b")]),
        "[\"a\",\"b\"]"
    );
    let parsed = json_string_list("[\"Rust\",\"Python\"]").unwrap();
    assert_eq!(parsed, vec![String::from("Rust"), String::from("Python")]);
    assert!(json_string_list("{\"a\":1}").is_none());
}

#[test]
fn json_fields_are_read_from_documents() {
    assert_eq!(
        json_string_field("{\"source\":\"target/\\n\"}", "source").unwrap(),
        "target/\n"
    );
    assert!(json_string_field("{\"source\":7}", "source").is_none());
    assert!(json_string_field("nonsense", "source").is_none());
}
