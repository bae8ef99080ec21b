//! The gitignore orchestrator: pick a template — from the flag, or by
//! fetching the template list and asking the operator — fetch its content,
//! and write it into `.gitignore`, merged under a marker comment when the
//! file already exists.

use vstd::prelude::*;
use crate::api::{spec_template_request, spec_templates_request, template_request,
    templates_request};
use crate::data::{Credentials, CredentialsView};
use crate::effects::{bare_report, detail_report, fetch_failure_report, Action, ActionView, Event,
    EventView, Report, ReportKind, ReportView};
use crate::json::{json_string_field, json_string_list, spec_json_string_field,
    spec_json_string_list};
use crate::scaffold::{merged_gitignore, spec_merged_gitignore};
use crate::text::{opt_or_empty, opt_str};
use vstd::string::StringExecFns;

verus! {

/// The stations of a gitignore run, in the order they are attempted.
#[derive(Clone, Copy, Debug, PartialEq, Eq, Structural)]
pub enum GitignoreStep {
    /// Load the persisted credentials; absent credentials abort the run.
    LoadCredentials,
    /// Fetch the list of available templates (only when none was named).
    FetchList,
    /// Ask the operator to pick a template from the list.
    ChooseTemplate,
    /// Fetch the chosen template's content.
    FetchTemplate,
    /// Read any existing gitignore file, to merge under a marker.
    ReadExisting,
    /// Write the merged gitignore file.
    Write,
    /// The run finished.
    Done,
    /// The run was aborted by a fatal failure.
    Aborted,
}

/// The state of one gitignore run.
#[derive(Debug)]
pub struct GitignoreState {
    pub step: GitignoreStep,
    pub template: Option<String>,
    pub options: Vec<String>,
    pub credentials: Option<Credentials>,
    pub pending: Option<String>,
    pub reports: Vec<Report>,
}

#[verifier::ext_equal]
pub struct GitignoreStateView {
    pub step: GitignoreStep,
    pub template: Option<Seq<char>>,
    pub options: Seq<Seq<char>>,
    pub credentials: Option<CredentialsView>,
    pub pending: Option<Seq<char>>,
    pub reports: Seq<ReportView>,
}

impl View for GitignoreState {
    type V = GitignoreStateView;

    open spec fn view(&self) -> GitignoreStateView {
        GitignoreStateView {
            step: self.step,
            template: self.template.deep_view(),
            options: self.options.deep_view(),
            credentials: match &self.credentials {
                Some(c) => Some(c@),
                None => None,
            },
            pending: self.pending.deep_view(),
            reports: self.reports.deep_view(),
        }
    }
}

/// The starting state of a gitignore run: the template named by the flag,
/// if one was.
pub open spec fn spec_gitignore_start(template: Option<Seq<char>>) -> GitignoreStateView {
    GitignoreStateView {
        step: GitignoreStep::LoadCredentials,
        template,
        options: Seq::empty(),
        credentials: None,
        pending: None,
        reports: Seq::empty(),
    }
}

/// The token loaded for the run, or nothing before credentials are loaded.
pub open spec fn gitignore_token(s: GitignoreStateView) -> Seq<char> {
    match s.credentials {
        Some(c) => c.token,
        None => Seq::empty(),
    }
}

/// The action performed at each station. Terminal states ask nothing.
pub open spec fn gitignore_action_of(s: GitignoreStateView) -> Option<ActionView> {
    match s.step {
        GitignoreStep::LoadCredentials => Some(ActionView::LoadCredentials),
        GitignoreStep::FetchList => Some(
            ActionView::Http(spec_templates_request(gitignore_token(s))),
        ),
        GitignoreStep::ChooseTemplate => Some(
            ActionView::Choose { label: "Select a .gitignore template"@, options: s.options },
        ),
        GitignoreStep::FetchTemplate => Some(
            ActionView::Http(spec_template_request(gitignore_token(s), opt_or_empty(s.template))),
        ),
        GitignoreStep::ReadExisting => Some(ActionView::ReadFile(".gitignore"@)),
        GitignoreStep::Write => Some(
            ActionView::WriteFile(".gitignore"@, opt_or_empty(s.pending)),
        ),
        GitignoreStep::Done => None,
        GitignoreStep::Aborted => None,
    }
}

/// One transition of a gitignore run. An event that does not answer the
/// current station changes nothing.
pub open spec fn gitignore_next(s: GitignoreStateView, e: EventView) -> GitignoreStateView {
    match s.step {
        GitignoreStep::LoadCredentials => match e {
            EventView::CredentialsLoaded(c) => match c {
                Some(c) => {
                    if c.wf() {
                        let s2 = GitignoreStateView { credentials: Some(c), ..s };
                        GitignoreStateView {
                            step: if s.template is Some {
                                GitignoreStep::FetchTemplate
                            } else {
                                GitignoreStep::FetchList
                            },
                            ..s2
                        }
                    } else {
                        GitignoreStateView {
                            step: GitignoreStep::Aborted,
                            reports: s.reports.push(bare_report(ReportKind::NoConfiguration)),
                            ..s
                        }
                    }
                },
                None => GitignoreStateView {
                    step: GitignoreStep::Aborted,
                    reports: s.reports.push(bare_report(ReportKind::NoConfiguration)),
                    ..s
                },
            },
            _ => s,
        },
        GitignoreStep::FetchList => match e {
            EventView::HttpDone(r) => {
                if r matches Ok(resp) && resp.ok {
                    match spec_json_string_list(r->Ok_0.body) {
                        Some(list) => GitignoreStateView {
                            step: GitignoreStep::ChooseTemplate,
                            options: list,
                            ..s
                        },
                        None => GitignoreStateView {
                            step: GitignoreStep::Aborted,
                            reports: s.reports.push(
                                bare_report(ReportKind::TemplatesInvalidResponse),
                            ),
                            ..s
                        },
                    }
                } else {
                    GitignoreStateView {
                        step: GitignoreStep::Aborted,
                        reports: s.reports.push(
                            fetch_failure_report(
                                ReportKind::TemplatesConnectFailed,
                                ReportKind::TemplatesFetchFailed,
                                r,
                            ),
                        ),
                        ..s
                    }
                }
            },
            _ => s,
        },
        GitignoreStep::ChooseTemplate => match e {
            EventView::Chosen(pick) => match pick {
                Some(i) => {
                    if i < s.options.len() {
                        GitignoreStateView {
                            step: GitignoreStep::FetchTemplate,
                            template: Some(s.options[i as int]),
                            ..s
                        }
                    } else {
                        GitignoreStateView {
                            step: GitignoreStep::Aborted,
                            reports: s.reports.push(bare_report(ReportKind::SelectionCancelled)),
                            ..s
                        }
                    }
                },
                None => GitignoreStateView {
                    step: GitignoreStep::Aborted,
                    reports: s.reports.push(bare_report(ReportKind::SelectionCancelled)),
                    ..s
                },
            },
            _ => s,
        },
        GitignoreStep::FetchTemplate => match e {
            EventView::HttpDone(r) => {
                if r matches Ok(resp) && resp.ok {
                    match spec_json_string_field(r->Ok_0.body, "source"@) {
                        Some(source) => GitignoreStateView {
                            step: GitignoreStep::ReadExisting,
                            pending: Some(source),
                            ..s
                        },
                        None => GitignoreStateView {
                            step: GitignoreStep::Aborted,
                            reports: s.reports.push(
                                bare_report(ReportKind::GitignoreInvalidResponse),
                            ),
                            ..s
                        },
                    }
                } else {
                    GitignoreStateView {
                        step: GitignoreStep::Aborted,
                        reports: s.reports.push(
                            fetch_failure_report(
                                ReportKind::GitignoreConnectFailed,
                                ReportKind::GitignoreFetchFailed,
                                r,
                            ),
                        ),
                        ..s
                    }
                }
            },
            _ => s,
        },
        GitignoreStep::ReadExisting => match e {
            EventView::FileContent(old) => GitignoreStateView {
                step: GitignoreStep::Write,
                pending: Some(
                    spec_merged_gitignore(old, opt_or_empty(s.template), opt_or_empty(s.pending)),
                ),
                ..s
            },
            _ => s,
        },
        GitignoreStep::Write => match e {
            EventView::Written(r) => match r {
                Ok(_) => GitignoreStateView {
                    step: GitignoreStep::Done,
                    reports: s.reports.push(bare_report(ReportKind::GitignoreCreated)),
                    ..s
                },
                Err(m) => GitignoreStateView {
                    step: GitignoreStep::Aborted,
                    reports: s.reports.push(detail_report(ReportKind::GitignoreWriteFailed, m)),
                    ..s
                },
            },
            _ => s,
        },
        GitignoreStep::Done => s,
        GitignoreStep::Aborted => s,
    }
}

/// Start a gitignore run with the flag-named template, if one was given.
pub fn gitignore_start(template: Option<String>) -> (s: GitignoreState)
    ensures
        s@ == spec_gitignore_start(template.deep_view()),
{
    let s = GitignoreState {
        step: GitignoreStep::LoadCredentials,
        template,
        options: Vec::new(),
        credentials: None,
        pending: None,
        reports: Vec::new(),
    };
    proof {
        assert(s@ =~~= spec_gitignore_start(s.template.deep_view()));
    }
    s
}

/// The action to perform next, or nothing when the run is over.
pub fn next_gitignore_action(s: &GitignoreState) -> (a: Option<Action>)
    ensures
        match a {
            Some(a) => gitignore_action_of(s@) == Some(a@),
            None => gitignore_action_of(s@) is None,
        },
{
    match s.step {
        GitignoreStep::LoadCredentials => Some(Action::LoadCredentials),
        GitignoreStep::FetchList => {
            let req = templates_request(token_str(&s.credentials));
            proof {
                assert(req@ =~~= spec_templates_request(gitignore_token(s@)));
            }
            Some(Action::Http(req))
        },
        GitignoreStep::ChooseTemplate => {
            let opts = crate::issue::clone_labels(&s.options);
            Some(
                Action::Choose {
                    label: String::from_str("Select a .gitignore template"),
                    options: opts,
                },
            )
        },
        GitignoreStep::FetchTemplate => {
            let req = template_request(token_str(&s.credentials), opt_str(&s.template));
            proof {
                assert(req@ =~~= spec_template_request(
                    gitignore_token(s@),
                    opt_or_empty(s@.template),
                ));
            }
            Some(Action::Http(req))
        },
        GitignoreStep::ReadExisting => Some(Action::ReadFile(String::from_str(".gitignore"))),
        GitignoreStep::Write => Some(
            Action::WriteFile(String::from_str(".gitignore"), opt_str(&s.pending).to_owned()),
        ),
        GitignoreStep::Done => None,
        GitignoreStep::Aborted => None,
    }
}

/// Borrow the loaded token, empty when no credentials were loaded.
fn token_str(c: &Option<Credentials>) -> (t: &str)
    ensures
        t@ == (match c {
            Some(cr) => cr@.token,
            None => Seq::<char>::empty(),
        }),
{
    match c {
        Some(cr) => cr.token.as_str(),
        None => {
            proof {
                reveal_strlit("");
                assert(""@ =~= Seq::<char>::empty());
            }
            ""
        },
    }
}

/// Advance a gitignore run by one answered action.
pub fn gitignore_step(s: GitignoreState, e: Event) -> (s2: GitignoreState)
    ensures
        s2@ == gitignore_next(s@, e@),
{
    let ghost s0 = s@;
    let ghost e0 = e@;
    let mut s = s;
    match (s.step, e) {
        (GitignoreStep::LoadCredentials, Event::CredentialsLoaded(c)) => {
            match c {
                Some(c) => {
                    if c.is_complete() {
                        s.credentials = Some(c);
                        s.step = if s.template.is_some() {
                            GitignoreStep::FetchTemplate
                        } else {
                            GitignoreStep::FetchList
                        };
                    } else {
                        s.reports.push(Report::bare(ReportKind::NoConfiguration));
                        s.step = GitignoreStep::Aborted;
                    }
                },
                None => {
                    s.reports.push(Report::bare(ReportKind::NoConfiguration));
                    s.step = GitignoreStep::Aborted;
                },
            }
            proof {
                assert(s@ =~~= gitignore_next(s0, e0));
            }
        },
        (GitignoreStep::FetchList, Event::HttpDone(r)) => {
            match r {
                Ok(resp) if resp.ok => {
                    match json_string_list(resp.body.as_str()) {
                        Some(list) => {
                            s.options = list;
                            s.step = GitignoreStep::ChooseTemplate;
                        },
                        None => {
                            s.reports.push(Report::bare(ReportKind::TemplatesInvalidResponse));
                            s.step = GitignoreStep::Aborted;
                        },
                    }
                },
                Ok(resp) => {
                    s.reports.push(
                        Report::with_status(
                            ReportKind::TemplatesFetchFailed,
                            resp.status,
                            resp.body,
                        ),
                    );
                    s.step = GitignoreStep::Aborted;
                },
                Err(m) => {
                    s.reports.push(Report::with_detail(ReportKind::TemplatesConnectFailed, m));
                    s.step = GitignoreStep::Aborted;
                },
            }
            proof {
                assert(s@ =~~= gitignore_next(s0, e0));
            }
        },
        (GitignoreStep::ChooseTemplate, Event::Chosen(pick)) => {
            match pick {
                Some(i) if i < s.options.len() => {
                    s.template = Some(s.options[i].as_str().to_owned());
                    s.step = GitignoreStep::FetchTemplate;
                },
                _ => {
                    s.reports.push(Report::bare(ReportKind::SelectionCancelled));
                    s.step = GitignoreStep::Aborted;
                },
            }
            proof {
                assert(s@ =~~= gitignore_next(s0, e0));
            }
        },
        (GitignoreStep::FetchTemplate, Event::HttpDone(r)) => {
            match r {
                Ok(resp) if resp.ok => {
                    match json_string_field(resp.body.as_str(), "source") {
                        Some(source) => {
                            s.pending = Some(source);
                            s.step = GitignoreStep::ReadExisting;
                        },
                        None => {
                            s.reports.push(Report::bare(ReportKind::GitignoreInvalidResponse));
                            s.step = GitignoreStep::Aborted;
                        },
                    }
                },
                Ok(resp) => {
                    s.reports.push(
                        Report::with_status(
                            ReportKind::GitignoreFetchFailed,
                            resp.status,
                            resp.body,
                        ),
                    );
                    s.step = GitignoreStep::Aborted;
                },
                Err(m) => {
                    s.reports.push(Report::with_detail(ReportKind::GitignoreConnectFailed, m));
                    s.step = GitignoreStep::Aborted;
                },
            }
            proof {
                assert(s@ =~~= gitignore_next(s0, e0));
            }
        },
        (GitignoreStep::ReadExisting, Event::FileContent(old_content)) => {
            let merged = merged_gitignore(
                &old_content,
                opt_str(&s.template),
                opt_str(&s.pending),
            );
            s.pending = Some(merged);
            s.step = GitignoreStep::Write;
            proof {
                assert(s@ =~~= gitignore_next(s0, e0));
            }
        },
        (GitignoreStep::Write, Event::Written(r)) => {
            match r {
                Ok(_) => {
                    s.reports.push(Report::bare(ReportKind::GitignoreCreated));
                    s.step = GitignoreStep::Done;
                },
                Err(m) => {
                    s.reports.push(Report::with_detail(ReportKind::GitignoreWriteFailed, m));
                    s.step = GitignoreStep::Aborted;
                },
            }
            proof {
                assert(s@ =~~= gitignore_next(s0, e0));
            }
        },
        (_, _) => {
            proof {
                assert(s@ =~~= gitignore_next(s0, e0));
            }
        },
    }
    s
}

} // verus!
