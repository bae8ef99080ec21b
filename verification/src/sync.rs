//! The synchronization orchestrator: commit the working tree's pending
//! changes and push them to the tracking branch.
//!
//! A directory that is not under version control aborts at once. A clean
//! working tree takes a distinct terminal path: nothing is staged and
//! nothing is committed, only the current branch is pushed, to cover
//! commits made earlier but never pushed. Otherwise everything is staged
//! and committed, and the current branch is pushed; failures before the
//! push abort the run, a failed push is merely reported since the commit
//! already holds the work safely.

use vstd::prelude::*;
use crate::command::{args2, args3, command_error_text, spec_command_ok, spec_git_failure_text,
    spec_stdout_clean, spec_stdout_text, stdout_is_clean, stdout_text};
use crate::effects::{bare_report, detail_report, Action, ActionView, Event, EventView, Report,
    ReportKind, ReportView};
use crate::text::{opt_or_empty, opt_str};
use crate::trace::{lemma_absorbing_excludes, reaches};
use vstd::string::StringExecFns;

verus! {

/// The stations of a synchronization run, in the order they are attempted.
#[derive(Clone, Copy, Debug, PartialEq, Eq, Structural)]
pub enum SyncStep {
    /// The directory must be under version control.
    CheckRepo,
    /// Ask for a commit message (only when none was supplied).
    PromptMessage,
    /// Inspect the working-tree status.
    Status,
    /// Clean tree: read the current branch name.
    CleanReadBranch,
    /// Clean tree: push any unpushed commits of the current branch.
    CleanPush,
    /// Stage all changes.
    StageAll,
    /// Commit the staged changes.
    Commit,
    /// Read the current branch name.
    ReadBranch,
    /// Push the current branch.
    Push,
    /// The run finished.
    Done,
    /// The run was aborted by a fatal failure.
    Aborted,
}

/// Where a station stands in the run's fixed order.
pub open spec fn sync_rank(step: SyncStep) -> int {
    match step {
        SyncStep::CheckRepo => 0,
        SyncStep::PromptMessage => 1,
        SyncStep::Status => 2,
        SyncStep::CleanReadBranch => 3,
        SyncStep::CleanPush => 4,
        SyncStep::StageAll => 5,
        SyncStep::Commit => 6,
        SyncStep::ReadBranch => 7,
        SyncStep::Push => 8,
        SyncStep::Done => 9,
        SyncStep::Aborted => 10,
    }
}

/// The state of one synchronization run.
#[derive(Debug)]
pub struct SyncState {
    pub step: SyncStep,
    pub message: Option<String>,
    pub branch: Option<String>,
    pub reports: Vec<Report>,
}

#[verifier::ext_equal]
pub struct SyncStateView {
    pub step: SyncStep,
    pub message: Option<Seq<char>>,
    pub branch: Option<Seq<char>>,
    pub reports: Seq<ReportView>,
}

impl View for SyncState {
    type V = SyncStateView;

    open spec fn view(&self) -> SyncStateView {
        SyncStateView {
            step: self.step,
            message: self.message.deep_view(),
            branch: self.branch.deep_view(),
            reports: self.reports.deep_view(),
        }
    }
}

/// The station after the repository check: straight to the status when a
/// message was supplied, else the prompt.
pub open spec fn after_sync_check(s: SyncStateView) -> SyncStep {
    if s.message is Some {
        SyncStep::Status
    } else {
        SyncStep::PromptMessage
    }
}

/// The starting state of a synchronization run: `message` is the
/// caller-supplied commit message, if any.
pub open spec fn spec_sync_start(message: Option<Seq<char>>) -> SyncStateView {
    SyncStateView {
        step: SyncStep::CheckRepo,
        message,
        branch: None,
        reports: Seq::empty(),
    }
}

/// The action performed at each station. Terminal states ask nothing.
pub open spec fn sync_action_of(s: SyncStateView) -> Option<ActionView> {
    match s.step {
        SyncStep::CheckRepo => Some(ActionView::CheckRepo),
        SyncStep::PromptMessage => Some(
            ActionView::Prompt { label: "Commit message"@, default: Some("Update"@) },
        ),
        SyncStep::Status => Some(ActionView::RunGit(seq!["status"@, "--porcelain"@])),
        SyncStep::CleanReadBranch => Some(
            ActionView::RunGit(seq!["rev-parse"@, "--abbrev-ref"@, "HEAD"@]),
        ),
        SyncStep::CleanPush => Some(
            ActionView::RunGit(seq!["push"@, "origin"@, opt_or_empty(s.branch)]),
        ),
        SyncStep::StageAll => Some(ActionView::RunGit(seq!["add"@, "."@])),
        SyncStep::Commit => Some(
            ActionView::RunGit(seq!["commit"@, "-m"@, opt_or_empty(s.message)]),
        ),
        SyncStep::ReadBranch => Some(
            ActionView::RunGit(seq!["rev-parse"@, "--abbrev-ref"@, "HEAD"@]),
        ),
        SyncStep::Push => Some(
            ActionView::RunGit(seq!["push"@, "origin"@, opt_or_empty(s.branch)]),
        ),
        SyncStep::Done => None,
        SyncStep::Aborted => None,
    }
}

/// One transition of a synchronization run. An event that does not answer
/// the current station changes nothing.
pub open spec fn sync_next(s: SyncStateView, e: EventView) -> SyncStateView {
    match s.step {
        SyncStep::CheckRepo => match e {
            EventView::RepoChecked(true) => SyncStateView { step: after_sync_check(s), ..s },
            EventView::RepoChecked(false) => SyncStateView {
                step: SyncStep::Aborted,
                reports: s.reports.push(bare_report(ReportKind::NotARepository)),
                ..s
            },
            _ => s,
        },
        SyncStep::PromptMessage => match e {
            EventView::PromptReply(r) => match r {
                Some(m) => SyncStateView { step: SyncStep::Status, message: Some(m), ..s },
                None => SyncStateView {
                    step: SyncStep::Status,
                    message: Some("Update"@),
                    reports: s.reports.push(bare_report(ReportKind::DefaultMessageUsed)),
                    ..s
                },
            },
            _ => s,
        },
        SyncStep::Status => match e {
            EventView::GitRan(r) => {
                if spec_command_ok(r) {
                    if spec_stdout_clean(r->Ok_0) {
                        SyncStateView {
                            step: SyncStep::CleanReadBranch,
                            reports: s.reports.push(bare_report(ReportKind::NoChanges)),
                            ..s
                        }
                    } else {
                        SyncStateView { step: SyncStep::StageAll, ..s }
                    }
                } else {
                    SyncStateView {
                        step: SyncStep::StageAll,
                        reports: s.reports.push(
                            detail_report(ReportKind::StatusCheckFailed, spec_git_failure_text(r)),
                        ),
                        ..s
                    }
                }
            },
            _ => s,
        },
        SyncStep::CleanReadBranch => match e {
            EventView::GitRan(r) => {
                if spec_command_ok(r) && spec_stdout_text(r->Ok_0) is Some {
                    SyncStateView {
                        step: SyncStep::CleanPush,
                        branch: Some(spec_stdout_text(r->Ok_0)->Some_0),
                        ..s
                    }
                } else {
                    SyncStateView {
                        step: SyncStep::Aborted,
                        reports: s.reports.push(branch_failure_report(r)),
                        ..s
                    }
                }
            },
            _ => s,
        },
        SyncStep::CleanPush => match e {
            EventView::GitRan(r) => SyncStateView {
                step: SyncStep::Done,
                reports: s.reports.push(
                    if spec_command_ok(r) {
                        bare_report(ReportKind::PushedExisting)
                    } else {
                        detail_report(ReportKind::PushFailed, spec_git_failure_text(r))
                    },
                ),
                ..s
            },
            _ => s,
        },
        SyncStep::StageAll => match e {
            EventView::GitRan(r) => {
                if spec_command_ok(r) {
                    SyncStateView {
                        step: SyncStep::Commit,
                        reports: s.reports.push(bare_report(ReportKind::FilesStaged)),
                        ..s
                    }
                } else {
                    SyncStateView {
                        step: SyncStep::Aborted,
                        reports: s.reports.push(
                            detail_report(ReportKind::StageFailed, spec_git_failure_text(r)),
                        ),
                        ..s
                    }
                }
            },
            _ => s,
        },
        SyncStep::Commit => match e {
            EventView::GitRan(r) => {
                if spec_command_ok(r) {
                    SyncStateView {
                        step: SyncStep::ReadBranch,
                        reports: s.reports.push(bare_report(ReportKind::ChangesCommitted)),
                        ..s
                    }
                } else {
                    SyncStateView {
                        step: SyncStep::Aborted,
                        reports: s.reports.push(
                            detail_report(ReportKind::CommitFailed, spec_git_failure_text(r)),
                        ),
                        ..s
                    }
                }
            },
            _ => s,
        },
        SyncStep::ReadBranch => match e {
            EventView::GitRan(r) => {
                if spec_command_ok(r) && spec_stdout_text(r->Ok_0) is Some {
                    SyncStateView {
                        step: SyncStep::Push,
                        branch: Some(spec_stdout_text(r->Ok_0)->Some_0),
                        ..s
                    }
                } else {
                    SyncStateView {
                        step: SyncStep::Aborted,
                        reports: s.reports.push(branch_failure_report(r)),
                        ..s
                    }
                }
            },
            _ => s,
        },
        SyncStep::Push => match e {
            EventView::GitRan(r) => SyncStateView {
                step: SyncStep::Done,
                reports: s.reports.push(
                    if spec_command_ok(r) {
                        bare_report(ReportKind::Pushed)
                    } else {
                        detail_report(ReportKind::PushFailed, spec_git_failure_text(r))
                    },
                ),
                ..s
            },
            _ => s,
        },
        SyncStep::Done => s,
        SyncStep::Aborted => s,
    }
}

/// The report of a failed attempt to determine the current branch: the
/// command's failure text, or nothing more when its output was not text.
pub open spec fn branch_failure_report(r: Result<crate::data::CommandResultView, Seq<char>>)
    -> ReportView {
    if spec_command_ok(r) {
        bare_report(ReportKind::CurrentBranchFailed)
    } else {
        detail_report(ReportKind::CurrentBranchFailed, spec_git_failure_text(r))
    }
}

/// Start a synchronization run, with the caller-supplied commit message if
/// one was given.
pub fn sync_start(message: Option<String>) -> (s: SyncState)
    ensures
        s@ == spec_sync_start(message.deep_view()),
{
    let s = SyncState { step: SyncStep::CheckRepo, message, branch: None, reports: Vec::new() };
    proof {
        assert(s@ =~~= spec_sync_start(s.message.deep_view()));
    }
    s
}

/// The action to perform next, or nothing when the run is over.
pub fn next_sync_action(s: &SyncState) -> (a: Option<Action>)
    ensures
        match a {
            Some(a) => sync_action_of(s@) == Some(a@),
            None => sync_action_of(s@) is None,
        },
{
    match s.step {
        SyncStep::CheckRepo => Some(Action::CheckRepo),
        SyncStep::PromptMessage => Some(
            Action::Prompt {
                label: String::from_str("Commit message"),
                default: Some(String::from_str("Update")),
            },
        ),
        SyncStep::Status => Some(Action::RunGit(args2("status", "--porcelain"))),
        SyncStep::CleanReadBranch => Some(
            Action::RunGit(args3("rev-parse", "--abbrev-ref", "HEAD")),
        ),
        SyncStep::CleanPush => {
            let a = args3("push", "origin", opt_str(&s.branch));
            proof {
                assert(a.deep_view() =~~= seq!["push"@, "origin"@, opt_or_empty(s@.branch)]);
            }
            Some(Action::RunGit(a))
        },
        SyncStep::StageAll => Some(Action::RunGit(args2("add", "."))),
        SyncStep::Commit => {
            let a = args3("commit", "-m", opt_str(&s.message));
            proof {
                assert(a.deep_view() =~~= seq!["commit"@, "-m"@, opt_or_empty(s@.message)]);
            }
            Some(Action::RunGit(a))
        },
        SyncStep::ReadBranch => Some(Action::RunGit(args3("rev-parse", "--abbrev-ref", "HEAD"))),
        SyncStep::Push => {
            let a = args3("push", "origin", opt_str(&s.branch));
            proof {
                assert(a.deep_view() =~~= seq!["push"@, "origin"@, opt_or_empty(s@.branch)]);
            }
            Some(Action::RunGit(a))
        },
        SyncStep::Done => None,
        SyncStep::Aborted => None,
    }
}

/// Advance a synchronization run by one answered action.
pub fn sync_step(s: SyncState, e: Event) -> (s2: SyncState)
    ensures
        s2@ == sync_next(s@, e@),
{
    let ghost s0 = s@;
    let ghost e0 = e@;
    let mut s = s;
    match (s.step, e) {
        (SyncStep::CheckRepo, Event::RepoChecked(true)) => {
            s.step = if s.message.is_some() {
                SyncStep::Status
            } else {
                SyncStep::PromptMessage
            };
            proof {
                assert(s@ =~~= sync_next(s0, e0));
            }
        },
        (SyncStep::CheckRepo, Event::RepoChecked(false)) => {
            s.reports.push(Report::bare(ReportKind::NotARepository));
            s.step = SyncStep::Aborted;
            proof {
                assert(s@ =~~= sync_next(s0, e0));
            }
        },
        (SyncStep::PromptMessage, Event::PromptReply(r)) => {
            match r {
                Some(m) => {
                    s.message = Some(m);
                },
                None => {
                    s.reports.push(Report::bare(ReportKind::DefaultMessageUsed));
                    s.message = Some(String::from_str("Update"));
                },
            }
            s.step = SyncStep::Status;
            proof {
                assert(s@ =~~= sync_next(s0, e0));
            }
        },
        (SyncStep::Status, Event::GitRan(r)) => {
            match r {
                Ok(c) if c.exit_success => {
                    if stdout_is_clean(&c) {
                        s.reports.push(Report::bare(ReportKind::NoChanges));
                        s.step = SyncStep::CleanReadBranch;
                    } else {
                        s.step = SyncStep::StageAll;
                    }
                },
                Ok(c) => {
                    s.reports.push(
                        Report::with_detail(ReportKind::StatusCheckFailed, command_error_text(&c)),
                    );
                    s.step = SyncStep::StageAll;
                },
                Err(m) => {
                    s.reports.push(Report::with_detail(ReportKind::StatusCheckFailed, m));
                    s.step = SyncStep::StageAll;
                },
            }
            proof {
                assert(s@ =~~= sync_next(s0, e0));
            }
        },
        (SyncStep::CleanReadBranch, Event::GitRan(r)) => {
            read_branch_arm(&mut s, r, SyncStep::CleanPush);
            proof {
                assert(s@ =~~= sync_next(s0, e0));
            }
        },
        (SyncStep::CleanPush, Event::GitRan(r)) => {
            match r {
                Ok(c) if c.exit_success => s.reports.push(
                    Report::bare(ReportKind::PushedExisting),
                ),
                Ok(c) => s.reports.push(
                    Report::with_detail(ReportKind::PushFailed, command_error_text(&c)),
                ),
                Err(m) => s.reports.push(Report::with_detail(ReportKind::PushFailed, m)),
            }
            s.step = SyncStep::Done;
            proof {
                assert(s@ =~~= sync_next(s0, e0));
            }
        },
        (SyncStep::StageAll, Event::GitRan(r)) => {
            match r {
                Ok(c) if c.exit_success => {
                    s.reports.push(Report::bare(ReportKind::FilesStaged));
                    s.step = SyncStep::Commit;
                },
                Ok(c) => {
                    s.reports.push(
                        Report::with_detail(ReportKind::StageFailed, command_error_text(&c)),
                    );
                    s.step = SyncStep::Aborted;
                },
                Err(m) => {
                    s.reports.push(Report::with_detail(ReportKind::StageFailed, m));
                    s.step = SyncStep::Aborted;
                },
            }
            proof {
                assert(s@ =~~= sync_next(s0, e0));
            }
        },
        (SyncStep::Commit, Event::GitRan(r)) => {
            match r {
                Ok(c) if c.exit_success => {
                    s.reports.push(Report::bare(ReportKind::ChangesCommitted));
                    s.step = SyncStep::ReadBranch;
                },
                Ok(c) => {
                    s.reports.push(
                        Report::with_detail(ReportKind::CommitFailed, command_error_text(&c)),
                    );
                    s.step = SyncStep::Aborted;
                },
                Err(m) => {
                    s.reports.push(Report::with_detail(ReportKind::CommitFailed, m));
                    s.step = SyncStep::Aborted;
                },
            }
            proof {
                assert(s@ =~~= sync_next(s0, e0));
            }
        },
        (SyncStep::ReadBranch, Event::GitRan(r)) => {
            read_branch_arm(&mut s, r, SyncStep::Push);
            proof {
                assert(s@ =~~= sync_next(s0, e0));
            }
        },
        (SyncStep::Push, Event::GitRan(r)) => {
            match r {
                Ok(c) if c.exit_success => s.reports.push(Report::bare(ReportKind::Pushed)),
                Ok(c) => s.reports.push(
                    Report::with_detail(ReportKind::PushFailed, command_error_text(&c)),
                ),
                Err(m) => s.reports.push(Report::with_detail(ReportKind::PushFailed, m)),
            }
            s.step = SyncStep::Done;
            proof {
                assert(s@ =~~= sync_next(s0, e0));
            }
        },
        (_, _) => {
            proof {
                assert(s@ =~~= sync_next(s0, e0));
            }
        },
    }
    s
}

/// Handle the answer to a branch-name read: store the decoded branch and
/// move on, or report and abort.
fn read_branch_arm(
    s: &mut SyncState,
    r: Result<crate::data::CommandResult, String>,
    onward: SyncStep,
)
    ensures
        ({
            let rv = match r {
                Ok(c) => Ok::<crate::data::CommandResultView, Seq<char>>(c@),
                Err(m) => Err(m@),
            };
            if spec_command_ok(rv) && spec_stdout_text(rv->Ok_0) is Some {
                final(s)@ == (SyncStateView {
                    step: onward,
                    branch: Some(spec_stdout_text(rv->Ok_0)->Some_0),
                    ..old(s)@
                })
            } else {
                final(s)@ == (SyncStateView {
                    step: SyncStep::Aborted,
                    reports: old(s)@.reports.push(branch_failure_report(rv)),
                    ..old(s)@
                })
            }
        }),
{
    let ghost s0 = s@;
    match r {
        Ok(c) if c.exit_success => {
            match stdout_text(&c) {
                Some(branch) => {
                    s.branch = Some(branch);
                    s.step = onward;
                },
                None => {
                    s.reports.push(Report::bare(ReportKind::CurrentBranchFailed));
                    s.step = SyncStep::Aborted;
                },
            }
        },
        Ok(c) => {
            s.reports.push(
                Report::with_detail(ReportKind::CurrentBranchFailed, command_error_text(&c)),
            );
            s.step = SyncStep::Aborted;
        },
        Err(m) => {
            s.reports.push(Report::with_detail(ReportKind::CurrentBranchFailed, m));
            s.step = SyncStep::Aborted;
        },
    }
}

/// The per-station failure policy: the stations whose failure aborts the
/// run. The repository check and everything between staging and the branch
/// read are fatal; the status check and the pushes are soft, since local
/// state is already safe when they fail.
pub open spec fn sync_fatal_station(step: SyncStep) -> bool {
    step == SyncStep::CheckRepo || step == SyncStep::CleanReadBranch || step == SyncStep::StageAll
        || step == SyncStep::Commit || step == SyncStep::ReadBranch
}

/// Law: the policy table is exhaustive. A transition aborts the run only
/// from a fatal station; no answer at a soft station ever aborts.
pub proof fn lemma_sync_abort_only_at_fatal_stations(s: SyncStateView, e: EventView)
    requires
        s.step != SyncStep::Aborted,
        sync_next(s, e).step == SyncStep::Aborted,
    ensures
        sync_fatal_station(s.step),
{
}

/// The status answers that mean a clean working tree: the status command
/// ran, exited successfully, and printed nothing but whitespace.
pub open spec fn clean_status(e: EventView) -> bool {
    e matches EventView::GitRan(r) && spec_command_ok(r) && spec_stdout_clean(r->Ok_0)
}

/// The clean terminal path: only the branch read, the push of existing
/// commits, and the run's ends lie on it.
pub open spec fn on_clean_path(t: SyncStateView) -> bool {
    t.step == SyncStep::CleanReadBranch || t.step == SyncStep::CleanPush || t.step == SyncStep::Done
        || t.step == SyncStep::Aborted
}

/// Law: a clean working tree skips staging and committing. The status
/// answer on a clean tree moves the run onto the clean path, the run never
/// leaves that path, and no later state stands at the staging or commit
/// stations.
pub proof fn lemma_clean_tree_skips_commit(s: SyncStateView, e: EventView, events: Seq<EventView>)
    requires
        s.step == SyncStep::Status,
        clean_status(e),
    ensures
        sync_next(s, e).step == SyncStep::CleanReadBranch,
        sync_next(s, e).reports == s.reports.push(bare_report(ReportKind::NoChanges)),
        !reaches(
            |t: SyncStateView, ev: EventView| sync_next(t, ev),
            sync_next(s, e),
            events,
            |t: SyncStateView| t.step == SyncStep::StageAll || t.step == SyncStep::Commit,
        ),
{
    let step_fn = |t: SyncStateView, ev: EventView| sync_next(t, ev);
    let sink = |t: SyncStateView| on_clean_path(t);
    let s2 = sync_next(s, e);
    lemma_absorbing_excludes(
        step_fn,
        sink,
        s2,
        events,
        |t: SyncStateView| t.step == SyncStep::StageAll || t.step == SyncStep::Commit,
    );
}

} // verus!
