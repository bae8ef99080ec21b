use git_mate::identity::parse_repo_identity;

#[test]
fn parses_ssh_style_url() {
    let id = parse_repo_identity("git@github.com:alice/proj.git").unwrap();
    assert_eq!(id.owner, "alice");
    assert_eq!(id.name, "proj");
}

#[test]
fn parses_https_style_url() {
    let id = parse_repo_identity("https://github.com/alice/proj.git").unwrap();
    assert_eq!(id.owner, "alice");
    assert_eq!(id.name, "proj");
}

#[test]
fn parses_url_without_git_suffix() {
    let id = parse_repo_identity("https://github.com/alice/proj").unwrap();
    assert_eq!(id.owner, "alice");
    assert_eq!(id.name, "proj");
}

#[test]
fn rejects_url_without_github() {
    assert!(parse_repo_identity("https://example.com/alice/proj.git").is_none());
}

#[test]
fn rejects_ssh_url_without_colon() {
    assert!(parse_repo_identity("git@github.com").is_none());
}

#[test]
fn rejects_url_without_path() {
    assert!(parse_repo_identity("github.com").is_none());
}

#[test]
fn rejects_empty_segments() {
    assert!(parse_repo_identity("git@github.com:alice/.git").is_none());
}

#[test]
fn keeps_inner_git_in_name() {
    let id = parse_repo_identity("git@github.com:alice/my.gitrepo").unwrap();
    assert_eq!(id.owner, "alice");
    assert_eq!(id.name, "my.gitrepo");
}
