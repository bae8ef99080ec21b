use git_mate::data::{Credentials, Visibility};
use git_mate::resolve::{apply_config_flags, apply_config_prompts, config_needs_prompt,
    resolve_descriptor, resolve_value, resolve_visibility};

#[test]
fn explicit_value_wins_over_reply_and_default() {
    let v = resolve_value(
        Some(String::from("flag")),
        Some(String::from("reply")),
        String::from("default"),
    );
    assert_eq!(v, "flag");
}

#[test]
fn reply_wins_over_default() {
    let v = resolve_value(None, Some(String::from("reply")), String::from("default"));
    assert_eq!(v, "reply");
}

#[test]
fn default_is_the_last_resort() {
    let v = resolve_value(None, None, String::from("default"));
    assert_eq!(v, "default");
}

#[test]
fn visibility_flag_wins_over_pick() {
    assert_eq!(resolve_visibility(true, Some(0)), Visibility::Private);
    assert_eq!(resolve_visibility(false, Some(1)), Visibility::Private);
    assert_eq!(resolve_visibility(false, Some(0)), Visibility::Public);
    assert_eq!(resolve_visibility(false, None), Visibility::Public);
}

#[test]
fn descriptor_falls_back_to_directory_name() {
    let d = resolve_descriptor(
        None,
        None,
        String::from("my_dir"),
        None,
        None,
        false,
        None,
        None,
    );
    assert_eq!(d.name, "my_dir");
    assert_eq!(d.description, "Created with git_mate");
    assert_eq!(d.visibility, Visibility::Public);
    assert!(d.license.is_none());
}

#[test]
fn descriptor_takes_flags_first() {
    let d = resolve_descriptor(
        Some(String::from("demo")),
        Some(String::from("ignored")),
        String::from("my_dir"),
        Some(String::from("a demo")),
        None,
        true,
        None,
        Some(String::from("mit")),
    );
    assert_eq!(d.name, "demo");
    assert_eq!(d.description, "a demo");
    assert_eq!(d.visibility, Visibility::Private);
    assert_eq!(d.license.as_deref(), Some("mit"));
}

#[test]
fn config_prompts_only_without_flags() {
    assert!(config_needs_prompt(&None, &None, &None));
    assert!(!config_needs_prompt(&Some(String::from("t")), &None, &None));
    assert!(!config_needs_prompt(&None, &Some(String::from("u")), &None));
    assert!(!config_needs_prompt(&None, &None, &Some(String::from("b"))));
}

#[test]
fn config_flags_overlay_the_loaded_record() {
    let existing = Credentials {
        token: String::from("old-token"),
        username: String::from("alice"),
        default_branch: Some(String::from("trunk")),
        default_license: Some(String::from("mit")),
    };
    let c = apply_config_flags(
        Some(existing),
        Some(String::from("new-token")),
        None,
        Some(String::from("main")),
    );
    assert_eq!(c.token, "new-token");
    assert_eq!(c.username, "alice");
    assert_eq!(c.default_branch.as_deref(), Some("main"));
    assert_eq!(c.default_license.as_deref(), Some("mit"));
    assert!(c.is_complete());
}

#[test]
fn config_without_a_record_starts_blank() {
    let c = apply_config_flags(None, None, Some(String::from("alice")), None);
    assert_eq!(c.token, "");
    assert_eq!(c.username, "alice");
    assert_eq!(c.default_branch.as_deref(), Some("main"));
    assert!(!c.is_complete());
}

#[test]
fn config_prompt_replies_fill_the_record() {
    let base = Credentials {
        token: String::new(),
        username: String::new(),
        default_branch: Some(String::from("main")),
        default_license: None,
    };
    let c = apply_config_prompts(
        base,
        Some(String::from("alice")),
        Some(String::from("tok")),
        None,
    );
    assert_eq!(c.username, "alice");
    assert_eq!(c.token, "tok");
    assert_eq!(c.default_branch.as_deref(), Some("main"));
    assert!(c.is_complete());
}

#[test]
fn unanswered_prompts_keep_the_record() {
    let base = Credentials {
        token: String::from("tok"),
        username: String::from("alice"),
        default_branch: Some(String::from("trunk")),
        default_license: None,
    };
    let c = apply_config_prompts(base, None, None, Some(String::from("dev")));
    assert_eq!(c.token, "tok");
    assert_eq!(c.username, "alice");
    assert_eq!(c.default_branch.as_deref(), Some("dev"));
}
