//! The branch orchestrator: create (optionally checking the new branch
//! out), list, or switch. Each is a short pass-through run over the
//! version-control binary with direct error reporting.

use vstd::prelude::*;
use crate::command::{args1, args2, command_error_text, spec_command_ok, spec_git_failure_text,
    spec_stdout_text, stdout_text};
use crate::effects::{bare_report, detail_report, Action, ActionView, Event, EventView, Report,
    ReportKind, ReportView};
use vstd::string::StringExecFns;

verus! {

/// What the branch command was asked to do.
#[derive(Debug)]
pub enum BranchCommand {
    /// Create the named branch, and check it out when asked to.
    Create { name: String, checkout: bool },
    /// List the branches.
    List,
    /// Switch to the named branch.
    Switch { name: String },
}

#[verifier::ext_equal]
pub enum BranchCommandView {
    Create { name: Seq<char>, checkout: bool },
    List,
    Switch { name: Seq<char> },
}

impl View for BranchCommand {
    type V = BranchCommandView;

    open spec fn view(&self) -> BranchCommandView {
        match self {
            BranchCommand::Create { name, checkout } => BranchCommandView::Create {
                name: name@,
                checkout: *checkout,
            },
            BranchCommand::List => BranchCommandView::List,
            BranchCommand::Switch { name } => BranchCommandView::Switch { name: name@ },
        }
    }
}

/// The stations of a branch run, in the order they are attempted.
#[derive(Clone, Copy, Debug, PartialEq, Eq, Structural)]
pub enum BranchStep {
    /// The directory must be under version control.
    CheckRepo,
    /// Run the requested branch command.
    Run,
    /// Check the created branch out (only for a create that asked for it).
    Checkout,
    /// The run finished.
    Done,
    /// The run was aborted by a fatal failure.
    Aborted,
}

/// The state of one branch run.
#[derive(Debug)]
pub struct BranchState {
    pub step: BranchStep,
    pub command: BranchCommand,
    pub reports: Vec<Report>,
}

#[verifier::ext_equal]
pub struct BranchStateView {
    pub step: BranchStep,
    pub command: BranchCommandView,
    pub reports: Seq<ReportView>,
}

impl View for BranchState {
    type V = BranchStateView;

    open spec fn view(&self) -> BranchStateView {
        BranchStateView {
            step: self.step,
            command: self.command@,
            reports: self.reports.deep_view(),
        }
    }
}

/// The starting state of a branch run.
pub open spec fn spec_branch_start(command: BranchCommandView) -> BranchStateView {
    BranchStateView { step: BranchStep::CheckRepo, command, reports: Seq::empty() }
}

/// The name the run works on, where the command carries one.
pub open spec fn branch_name_of(c: BranchCommandView) -> Seq<char> {
    match c {
        BranchCommandView::Create { name, .. } => name,
        BranchCommandView::List => Seq::empty(),
        BranchCommandView::Switch { name } => name,
    }
}

/// The action performed at each station. Terminal states ask nothing.
pub open spec fn branch_action_of(s: BranchStateView) -> Option<ActionView> {
    match s.step {
        BranchStep::CheckRepo => Some(ActionView::CheckRepo),
        BranchStep::Run => Some(
            ActionView::RunGit(
                match s.command {
                    BranchCommandView::Create { name, .. } => seq!["branch"@, name],
                    BranchCommandView::List => seq!["branch"@],
                    BranchCommandView::Switch { name } => seq!["checkout"@, name],
                },
            ),
        ),
        BranchStep::Checkout => Some(
            ActionView::RunGit(seq!["checkout"@, branch_name_of(s.command)]),
        ),
        BranchStep::Done => None,
        BranchStep::Aborted => None,
    }
}

/// The listing text reported for a successful list: the decoded output, or
/// a fixed notice when it is not decodable text.
pub open spec fn branch_listing_text(c: crate::data::CommandResultView) -> Seq<char> {
    match spec_stdout_text(c) {
        Some(t) => t,
        None => "Could not parse branches"@,
    }
}

/// One transition of a branch run. An event that does not answer the
/// current station changes nothing.
pub open spec fn branch_next(s: BranchStateView, e: EventView) -> BranchStateView {
    match s.step {
        BranchStep::CheckRepo => match e {
            EventView::RepoChecked(true) => BranchStateView { step: BranchStep::Run, ..s },
            EventView::RepoChecked(false) => BranchStateView {
                step: BranchStep::Aborted,
                reports: s.reports.push(bare_report(ReportKind::NotARepository)),
                ..s
            },
            _ => s,
        },
        BranchStep::Run => match e {
            EventView::GitRan(r) => match s.command {
                BranchCommandView::Create { name, checkout } => {
                    if spec_command_ok(r) {
                        BranchStateView {
                            step: if checkout {
                                BranchStep::Checkout
                            } else {
                                BranchStep::Done
                            },
                            reports: s.reports.push(
                                detail_report(ReportKind::BranchCreated, name),
                            ),
                            ..s
                        }
                    } else {
                        BranchStateView {
                            step: BranchStep::Done,
                            reports: s.reports.push(
                                detail_report(
                                    ReportKind::BranchCreateFailed,
                                    spec_git_failure_text(r),
                                ),
                            ),
                            ..s
                        }
                    }
                },
                BranchCommandView::List => BranchStateView {
                    step: BranchStep::Done,
                    reports: s.reports.push(
                        if spec_command_ok(r) {
                            detail_report(ReportKind::BranchList, branch_listing_text(r->Ok_0))
                        } else {
                            detail_report(ReportKind::BranchListFailed, spec_git_failure_text(r))
                        },
                    ),
                    ..s
                },
                BranchCommandView::Switch { name } => BranchStateView {
                    step: BranchStep::Done,
                    reports: s.reports.push(
                        if spec_command_ok(r) {
                            detail_report(ReportKind::SwitchedBranch, name)
                        } else {
                            detail_report(ReportKind::SwitchFailed, spec_git_failure_text(r))
                        },
                    ),
                    ..s
                },
            },
            _ => s,
        },
        BranchStep::Checkout => match e {
            EventView::GitRan(r) => BranchStateView {
                step: BranchStep::Done,
                reports: s.reports.push(
                    if spec_command_ok(r) {
                        detail_report(ReportKind::SwitchedBranch, branch_name_of(s.command))
                    } else {
                        detail_report(ReportKind::SwitchFailed, spec_git_failure_text(r))
                    },
                ),
                ..s
            },
            _ => s,
        },
        BranchStep::Done => s,
        BranchStep::Aborted => s,
    }
}

/// Start a branch run.
pub fn branch_start(command: BranchCommand) -> (s: BranchState)
    ensures
        s@ == spec_branch_start(command@),
{
    let s = BranchState { step: BranchStep::CheckRepo, command, reports: Vec::new() };
    proof {
        assert(s@ =~~= spec_branch_start(s.command@));
    }
    s
}

/// The action to perform next, or nothing when the run is over.
pub fn next_branch_action(s: &BranchState) -> (a: Option<Action>)
    ensures
        match a {
            Some(a) => branch_action_of(s@) == Some(a@),
            None => branch_action_of(s@) is None,
        },
{
    match s.step {
        BranchStep::CheckRepo => Some(Action::CheckRepo),
        BranchStep::Run => {
            let args = match &s.command {
                BranchCommand::Create { name, .. } => args2("branch", name.as_str()),
                BranchCommand::List => args1("branch"),
                BranchCommand::Switch { name } => args2("checkout", name.as_str()),
            };
            proof {
                assert(args.deep_view() =~~= (match s@.command {
                    BranchCommandView::Create { name, .. } => seq!["branch"@, name],
                    BranchCommandView::List => seq!["branch"@],
                    BranchCommandView::Switch { name } => seq!["checkout"@, name],
                }));
            }
            Some(Action::RunGit(args))
        },
        BranchStep::Checkout => {
            let name: &str = match &s.command {
                BranchCommand::Create { name, .. } => name.as_str(),
                BranchCommand::List => "",
                BranchCommand::Switch { name } => name.as_str(),
            };
            proof {
                reveal_strlit("");
                assert(""@ =~= Seq::<char>::empty());
            }
            let args = args2("checkout", name);
            proof {
                assert(args.deep_view() =~~= seq!["checkout"@, branch_name_of(s@.command)]);
            }
            Some(Action::RunGit(args))
        },
        BranchStep::Done => None,
        BranchStep::Aborted => None,
    }
}

/// Advance a branch run by one answered action.
pub fn branch_step(s: BranchState, e: Event) -> (s2: BranchState)
    ensures
        s2@ == branch_next(s@, e@),
{
    let ghost s0 = s@;
    let ghost e0 = e@;
    let mut s = s;
    match (s.step, e) {
        (BranchStep::CheckRepo, Event::RepoChecked(true)) => {
            s.step = BranchStep::Run;
            proof {
                assert(s@ =~~= branch_next(s0, e0));
            }
        },
        (BranchStep::CheckRepo, Event::RepoChecked(false)) => {
            s.reports.push(Report::bare(ReportKind::NotARepository));
            s.step = BranchStep::Aborted;
            proof {
                assert(s@ =~~= branch_next(s0, e0));
            }
        },
        (BranchStep::Run, Event::GitRan(r)) => {
            match &s.command {
                BranchCommand::Create { name, checkout } => {
                    let goes_on = *checkout;
                    match r {
                        Ok(c) if c.exit_success => {
                            let n = name.clone();
                            s.reports.push(Report::with_detail(ReportKind::BranchCreated, n));
                            s.step = if goes_on {
                                BranchStep::Checkout
                            } else {
                                BranchStep::Done
                            };
                        },
                        Ok(c) => {
                            s.reports.push(
                                Report::with_detail(
                                    ReportKind::BranchCreateFailed,
                                    command_error_text(&c),
                                ),
                            );
                            s.step = BranchStep::Done;
                        },
                        Err(m) => {
                            s.reports.push(
                                Report::with_detail(ReportKind::BranchCreateFailed, m),
                            );
                            s.step = BranchStep::Done;
                        },
                    }
                },
                BranchCommand::List => {
                    match r {
                        Ok(c) if c.exit_success => {
                            let listing = match stdout_text(&c) {
                                Some(t) => t,
                                None => String::from_str("Could not parse branches"),
                            };
                            s.reports.push(Report::with_detail(ReportKind::BranchList, listing));
                        },
                        Ok(c) => {
                            s.reports.push(
                                Report::with_detail(
                                    ReportKind::BranchListFailed,
                                    command_error_text(&c),
                                ),
                            );
                        },
                        Err(m) => {
                            s.reports.push(Report::with_detail(ReportKind::BranchListFailed, m));
                        },
                    }
                    s.step = BranchStep::Done;
                },
                BranchCommand::Switch { name } => {
                    match r {
                        Ok(c) if c.exit_success => {
                            let n = name.clone();
                            s.reports.push(Report::with_detail(ReportKind::SwitchedBranch, n));
                        },
                        Ok(c) => {
                            s.reports.push(
                                Report::with_detail(
                                    ReportKind::SwitchFailed,
                                    command_error_text(&c),
                                ),
                            );
                        },
                        Err(m) => {
                            s.reports.push(Report::with_detail(ReportKind::SwitchFailed, m));
                        },
                    }
                    s.step = BranchStep::Done;
                },
            }
            proof {
                assert(s@ =~~= branch_next(s0, e0));
            }
        },
        (BranchStep::Checkout, Event::GitRan(r)) => {
            let name = match &s.command {
                BranchCommand::Create { name, .. } => name.clone(),
                BranchCommand::List => String::new(),
                BranchCommand::Switch { name } => name.clone(),
            };
            proof {
                assert(name@ == branch_name_of(s0.command));
            }
            match r {
                Ok(c) if c.exit_success => {
                    s.reports.push(Report::with_detail(ReportKind::SwitchedBranch, name));
                },
                Ok(c) => {
                    s.reports.push(
                        Report::with_detail(ReportKind::SwitchFailed, command_error_text(&c)),
                    );
                },
                Err(m) => {
                    s.reports.push(Report::with_detail(ReportKind::SwitchFailed, m));
                },
            }
            s.step = BranchStep::Done;
            proof {
                assert(s@ =~~= branch_next(s0, e0));
            }
        },
        (_, _) => {
            proof {
                assert(s@ =~~= branch_next(s0, e0));
            }
        },
    }
    s
}

} // verus!
