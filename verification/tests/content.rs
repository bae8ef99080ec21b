use git_mate::command::{command_error_text, stdout_is_clean, stdout_text};
use git_mate::data::CommandResult;
use git_mate::scaffold::{merged_gitignore, readme_content, workflow_file, workflow_kind_of_pick};
use git_mate::text::trim_ascii;

#[test]
fn readme_holds_name_and_description() {
    let r = readme_content("demo", "Created with git_mate");
    assert_eq!(r, "# demo\n\nCreated with git_mate");
}

#[test]
fn gitignore_merge_keeps_existing_content_as_prefix() {
    let existing = Some(String::from("target/\n*.log"));
    let merged = merged_gitignore(&existing, "Rust", "debug/\n");
    assert!(merged.starts_with("target/\n*.log"));
    assert_eq!(merged, "target/\n*.log\n\n# Added by Git-Mate\ndebug/\n");
}

#[test]
fn gitignore_without_existing_file_names_the_template() {
    let merged = merged_gitignore(&None, "Rust", "debug/\n");
    assert_eq!(merged, "# Created by Git-Mate using Rust template\ndebug/\n");
}

#[test]
fn workflow_files_have_fixed_names() {
    let (ci_name, ci_text) = workflow_file("ci");
    assert_eq!(ci_name, "ci.yml");
    assert!(ci_text.starts_with("name: CI\n"));
    let (deploy_name, deploy_text) = workflow_file("deploy");
    assert_eq!(deploy_name, "deploy.yml");
    assert!(deploy_text.starts_with("name: Deploy\n"));
    let (other_name, other_text) = workflow_file("something-else");
    assert_eq!(other_name, "custom.yml");
    assert!(other_text.starts_with("name: Custom Workflow\n"));
}

#[test]
fn workflow_pick_maps_to_kinds() {
    assert_eq!(workflow_kind_of_pick(Some(0)), "ci");
    assert_eq!(workflow_kind_of_pick(Some(1)), "deploy");
    assert_eq!(workflow_kind_of_pick(Some(2)), "custom");
    assert_eq!(workflow_kind_of_pick(None), "ci");
}

#[test]
fn trim_removes_surrounding_whitespace() {
    let v: Vec<u8> = b"  \t\r\nmain\n ".to_vec();
    assert_eq!(trim_ascii(&v), b"main".to_vec());
    let all_ws: Vec<u8> = b" \n\t".to_vec();
    assert_eq!(trim_ascii(&all_ws), Vec::<u8>::new());
}

#[test]
fn command_error_text_trims_stderr() {
    let r = CommandResult {
        exit_success: false,
        stdout: Vec::new(),
        stderr: b"fatal: not a git repository\n".to_vec(),
    };
    assert_eq!(command_error_text(&r), "fatal: not a git repository");
}

#[test]
fn command_error_text_falls_back_on_invalid_bytes() {
    let r = CommandResult {
        exit_success: false,
        stdout: Vec::new(),
        stderr: vec![0xff, 0xfe],
    };
    assert_eq!(command_error_text(&r), "Unknown error");
}

#[test]
fn stdout_text_decodes_and_trims() {
    let r = CommandResult {
        exit_success: true,
        stdout: b"main\n".to_vec(),
        stderr: Vec::new(),
    };
    assert_eq!(stdout_text(&r).unwrap(), "main");
    let bad = CommandResult {
        exit_success: true,
        stdout: vec![0xff],
        stderr: Vec::new(),
    };
    assert!(stdout_text(&bad).is_none());
}

#[test]
fn clean_stdout_is_whitespace_only() {
    let clean = CommandResult {
        exit_success: true,
        stdout: b"  \n".to_vec(),
        stderr: Vec::new(),
    };
    assert!(stdout_is_clean(&clean));
    let dirty = CommandResult {
        exit_success: true,
        stdout: b" M src/main.rs\n".to_vec(),
        stderr: Vec::new(),
    };
    assert!(!stdout_is_clean(&dirty));
}
