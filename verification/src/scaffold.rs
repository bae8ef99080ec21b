//! The local files the initialization workflow scaffolds: README, merged
//! `.gitignore`, and the fixed automation workflow files.

use vstd::prelude::*;
use crate::text::str_eq;
use vstd::string::StringExecFns;

verus! {

/// The README text: a heading with the repository name, then the description.
pub open spec fn spec_readme_content(name: Seq<char>, description: Seq<char>) -> Seq<char> {
    "# "@ + name + "\n\n"@ + description
}

/// Build the README text for a repository.
pub fn readme_content(name: &str, description: &str) -> (r: String)
    ensures
        r@ == spec_readme_content(name@, description@),
{
    let mut s = String::new();
    s.append("# ");
    s.append(name);
    s.append("\n\n");
    s.append(description);
    proof {
        assert(s@ =~= spec_readme_content(name@, description@));
    }
    s
}

/// The `.gitignore` content to write: fetched template text appended to any
/// existing content under a marker comment, or on its own under a heading
/// naming the template.
pub open spec fn spec_merged_gitignore(
    existing: Option<Seq<char>>,
    template: Seq<char>,
    fetched: Seq<char>,
) -> Seq<char> {
    match existing {
        Some(old) => old + "\n\n# Added by Git-Mate\n"@ + fetched,
        None => "# Created by Git-Mate using "@ + template + " template\n"@ + fetched,
    }
}

/// Merge a fetched `.gitignore` template into the existing file content, if
/// any. Existing content is kept byte-for-byte as a prefix of the result.
pub fn merged_gitignore(existing: &Option<String>, template: &str, fetched: &str) -> (r: String)
    ensures
        r@ == spec_merged_gitignore(existing.deep_view(), template@, fetched@),
        existing matches Some(old) ==> r@.subrange(0, old@.len() as int) == old@,
{
    let mut s = String::new();
    match existing {
        Some(old) => {
            s.append(old.as_str());
            s.append("\n\n# Added by Git-Mate\n");
            s.append(fetched);
            proof {
                assert(s@ =~= spec_merged_gitignore(existing.deep_view(), template@, fetched@));
                assert(s@.subrange(0, old@.len() as int) =~= old@);
            }
        },
        None => {
            s.append("# Created by Git-Mate using ");
            s.append(template);
            s.append(" template\n");
            s.append(fetched);
            proof {
                assert(s@ =~= spec_merged_gitignore(existing.deep_view(), template@, fetched@));
            }
        },
    }
    s
}

/// The fixed continuous-integration workflow text.
pub open spec fn ci_workflow_text() -> Seq<char> {
    "name: CI\n\non:\n  push:\n    branches: [ main, master ]\n  pull_request:\n    branches: [ main, master ]\n\njobs:\n  build:\n    runs-on: ubuntu-latest\n    steps:\n      - uses: actions/checkout@v3\n\n      - name: Set up environment\n        run: echo \"Setting up environment\"\n\n      - name: Build\n        run: echo \"Building project\"\n\n      - name: Run tests\n        run: echo \"Running tests\"\n"@
}

/// The fixed deployment workflow text.
pub open spec fn deploy_workflow_text() -> Seq<char> {
    "name: Deploy\n\non:\n  push:\n    branches: [ main, master ]\n\njobs:\n  deploy:\n    runs-on: ubuntu-latest\n    steps:\n      - uses: actions/checkout@v3\n\n      - name: Set up environment\n        run: echo \"Setting up environment\"\n\n      - name: Build\n        run: echo \"Building project\"\n\n      - name: Deploy to production\n        run: echo \"Deploying to production\"\n"@
}

/// The fixed starting point for a custom workflow.
pub open spec fn custom_workflow_text() -> Seq<char> {
    "name: Custom Workflow\n\non:\n  push:\n    branches: [ main, master ]\n  pull_request:\n    branches: [ main, master ]\n\njobs:\n  custom:\n    runs-on: ubuntu-latest\n    steps:\n      - uses: actions/checkout@v3\n\n      - name: Custom step 1\n        run: echo \"Running custom step 1\"\n\n      - name: Custom step 2\n        run: echo \"Running custom step 2\"\n"@
}

/// The workflow kind the operator's pick names: the first option is
/// continuous integration, the second deployment, any later one custom.
/// An absent pick falls back to the first option.
pub open spec fn spec_workflow_kind_of_pick(pick: Option<usize>) -> Seq<char> {
    match pick {
        Some(1usize) => "deploy"@,
        Some(0usize) => "ci"@,
        None => "ci"@,
        _ => "custom"@,
    }
}

/// Turn the operator's pick into a workflow kind.
pub fn workflow_kind_of_pick(pick: Option<usize>) -> (r: String)
    ensures
        r@ == spec_workflow_kind_of_pick(pick),
{
    match pick {
        Some(i) => {
            if i == 0 {
                String::from_str("ci")
            } else if i == 1 {
                String::from_str("deploy")
            } else {
                String::from_str("custom")
            }
        },
        None => String::from_str("ci"),
    }
}

/// The file name and content scaffolded for a workflow kind: `ci` and
/// `deploy` have their own files, anything else gets the custom skeleton.
pub open spec fn spec_workflow_file(kind: Seq<char>) -> (Seq<char>, Seq<char>) {
    if kind == "ci"@ {
        ("ci.yml"@, ci_workflow_text())
    } else if kind == "deploy"@ {
        ("deploy.yml"@, deploy_workflow_text())
    } else {
        ("custom.yml"@, custom_workflow_text())
    }
}

/// The workflow file to scaffold for a requested kind.
pub fn workflow_file(kind: &str) -> (r: (String, String))
    ensures
        (r.0@, r.1@) == spec_workflow_file(kind@),
{
    if str_eq(kind, "ci") {
        (
            String::from_str("ci.yml"),
            String::from_str(
                "name: CI\n\non:\n  push:\n    branches: [ main, master ]\n  pull_request:\n    branches: [ main, master ]\n\njobs:\n  build:\n    runs-on: ubuntu-latest\n    steps:\n      - uses: actions/checkout@v3\n\n      - name: Set up environment\n        run: echo \"Setting up environment\"\n\n      - name: Build\n        run: echo \"Building project\"\n\n      - name: Run tests\n        run: echo \"Running tests\"\n",
            ),
        )
    } else if str_eq(kind, "deploy") {
        (
            String::from_str("deploy.yml"),
            String::from_str(
                "name: Deploy\n\non:\n  push:\n    branches: [ main, master ]\n\njobs:\n  deploy:\n    runs-on: ubuntu-latest\n    steps:\n      - uses: actions/checkout@v3\n\n      - name: Set up environment\n        run: echo \"Setting up environment\"\n\n      - name: Build\n        run: echo \"Building project\"\n\n      - name: Deploy to production\n        run: echo \"Deploying to production\"\n",
            ),
        )
    } else {
        (
            String::from_str("custom.yml"),
            String::from_str(
                "name: Custom Workflow\n\non:\n  push:\n    branches: [ main, master ]\n  pull_request:\n    branches: [ main, master ]\n\njobs:\n  custom:\n    runs-on: ubuntu-latest\n    steps:\n      - uses: actions/checkout@v3\n\n      - name: Custom step 1\n        run: echo \"Running custom step 1\"\n\n      - name: Custom step 2\n        run: echo \"Running custom step 2\"\n",
            ),
        )
    }
}

} // verus!
