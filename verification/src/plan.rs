//! A plan: the ordered actions of an installation, how they are carried out
//! and undone one step at a time, and whether a plan found on the host can
//! be taken up again.
use vstd::prelude::*;
use crate::action::run::{lemma_asked_again, nodes, reported, Node, Signal, Step, path_view};
use crate::action::StatefulAction;
use crate::error::{failures, ActionError, Failure};
use crate::host::OperatingSystem;
use crate::planner::BuiltinPlanner;
use crate::state::{ActionState, Direction};

verus! {

/// The version of the installer, as plans and configuration files name it.
pub const VERSION: &'static str = "0.1.0";

/// Where the receipt of an installation is kept.
pub const RECEIPT_LOCATION: &'static str = "/nix/receipt.json";

/// The actions of an installation in the order in which they are carried
/// out, with the planner that made them and the version of the installer.
#[derive(Debug, PartialEq, Eq)]
pub struct InstallPlan {
    pub version: String,
    pub planner: BuiltinPlanner,
    pub actions: Vec<StatefulAction>,
}

/// Whether a plan found on the host can be taken up by an installation with
/// a chosen planner.
#[derive(Clone, Copy, PartialEq, Eq, Structural, Debug)]
pub enum Compatibility {
    /// The plan was made by a planner of the same kind with the same
    /// settings and is not carried out in full: it is taken up again.
    Resume,
    /// The plan was made by a planner of another kind.
    DifferentPlanner,
    /// The plan was made with other settings.
    DifferentSettings,
    /// Every action of the plan is completed.
    AlreadyCompleted,
}

/// Whether every action is completed.
pub open spec fn all_completed(actions: Seq<StatefulAction>) -> bool {
    forall|i: int| 0 <= i < actions.len() ==> (#[trigger] actions[i]).state == ActionState::Completed
}

impl Compatibility {
    /// Why the installation is refused, in words; nothing where the plan is
    /// taken up again.
    pub open spec fn refusal_text(self) -> Option<Seq<char>> {
        match self {
            Compatibility::Resume => None,
            Compatibility::DifferentPlanner => Some(
                "Found existing plan in `/nix/receipt.json` which used a different planner, try uninstalling the existing install"@,
            ),
            Compatibility::DifferentSettings => Some(
                "Found existing plan in `/nix/receipt.json` which used different planner settings, try uninstalling the existing install"@,
            ),
            Compatibility::AlreadyCompleted => Some(
                "Found existing plan in `/nix/receipt.json`, with the same settings, already completed, try uninstalling and reinstalling if Nix isn't working"@,
            ),
        }
    }

    /// Why the installation is refused, in words; nothing where the plan is
    /// taken up again.
    pub fn refusal(&self) -> (message: Option<String>)
        ensures
            match message {
                Some(text) => self.refusal_text() == Some(text@),
                None => self.refusal_text() is None,
            },
    {
        match self {
            Compatibility::Resume => None,
            Compatibility::DifferentPlanner => Some(
                String::from_str(
                    "Found existing plan in `/nix/receipt.json` which used a different planner, try uninstalling the existing install",
                ),
            ),
            Compatibility::DifferentSettings => Some(
                String::from_str(
                    "Found existing plan in `/nix/receipt.json` which used different planner settings, try uninstalling the existing install",
                ),
            ),
            Compatibility::AlreadyCompleted => Some(
                String::from_str(
                    "Found existing plan in `/nix/receipt.json`, with the same settings, already completed, try uninstalling and reinstalling if Nix isn't working",
                ),
            ),
        }
    }
}

impl InstallPlan {
    /// Whether every action of the plan is completed.
    pub fn is_completed(&self) -> (completed: bool)
        ensures
            completed == all_completed(self.actions@),
    {
        let mut i: usize = 0;
        while i < self.actions.len()
            invariant
                i <= self.actions@.len(),
                forall|j: int| 0 <= j < i ==> (#[trigger] self.actions@[j]).state == ActionState::Completed,
            decreases self.actions@.len() - i,
        {
            if self.actions[i].state != ActionState::Completed {
                return false;
            }
            i = i + 1;
        }
        true
    }

    /// Whether this plan, found on the host, can be taken up by an
    /// installation with the planner `chosen`: not where the kinds of the
    /// planners differ, nor where any of their settings differs, nor where
    /// every action is completed already.
    pub open spec fn compatibility(self, chosen: BuiltinPlanner) -> Compatibility {
        if self.planner.tag() != chosen.tag() {
            Compatibility::DifferentPlanner
        } else if !self.planner.same(chosen) {
            Compatibility::DifferentSettings
        } else if all_completed(self.actions@) {
            Compatibility::AlreadyCompleted
        } else {
            Compatibility::Resume
        }
    }

    /// Whether this plan, found on the host, can be taken up by an
    /// installation with the planner `chosen`.
    pub fn check_compatibility(&self, chosen: &BuiltinPlanner) -> (found: Compatibility)
        ensures
            found == self.compatibility(*chosen),
    {
        if self.planner.kind() != chosen.kind() {
            return Compatibility::DifferentPlanner;
        }
        if !self.planner.is_same(chosen) {
            return Compatibility::DifferentSettings;
        }
        if self.is_completed() {
            Compatibility::AlreadyCompleted
        } else {
            Compatibility::Resume
        }
    }
}

/// What an attempt to carry a plan out, or to undo it, is busy with.
#[derive(Clone, Copy, PartialEq, Eq, Structural, Debug)]
pub enum Phase {
    /// The actions from `next` on are still to be carried out. `started`
    /// tells whether work on the action `next` has been handed out.
    Installing { next: usize, started: bool },
    /// The installation failed or was cancelled at the action `below`; the
    /// actions before it are being undone, last first.
    Unwinding { below: usize },
    /// The plan is being undone on request; the actions before `below` are
    /// still to be undone, last first.
    Uninstalling { below: usize },
    /// Nothing is left to do.
    Finished,
}

/// A phase as a plain value.
pub enum Stage {
    Installing { next: int, started: bool },
    Unwinding { below: int },
    Uninstalling { below: int },
    Finished,
}

impl Phase {
    /// The direction in which actions are driven in this phase.
    pub open spec fn direction(self) -> Direction {
        match self {
            Phase::Installing { .. } => Direction::Forward,
            _ => Direction::Reverse,
        }
    }

    /// The phase as a plain value.
    pub open spec fn view(self) -> Stage {
        match self {
            Phase::Installing { next, started } => Stage::Installing { next: next as int, started },
            Phase::Unwinding { below } => Stage::Unwinding { below: below as int },
            Phase::Uninstalling { below } => Stage::Uninstalling { below: below as int },
            Phase::Finished => Stage::Finished,
        }
    }
}

/// How an attempt ended badly.
#[derive(Debug, PartialEq, Eq)]
pub enum InstallError {
    /// The installation failed with `error`, or was cancelled; `reverts`
    /// holds what went wrong while the actions before were undone.
    Failed { error: ActionError, reverts: Vec<ActionError> },
    /// Undoing the plan went wrong for the actions that reported these
    /// failures.
    RevertsFailed(Vec<ActionError>),
}

/// An attempt to carry a plan out, or to undo it.
#[derive(Debug, PartialEq, Eq)]
pub struct Executor {
    pub phase: Phase,
    pub host: OperatingSystem,
    /// Why the installation stopped.
    pub failure: Option<ActionError>,
    /// What went wrong while actions were undone, in the order in which
    /// they were undone.
    pub reverts: Vec<ActionError>,
}

/// An attempt as a plain value.
pub struct Run {
    pub phase: Stage,
    pub host: OperatingSystem,
    pub failure: Option<Failure>,
    pub reverts: Seq<Failure>,
}

/// What is to be done next for a plan.
#[derive(Debug, PartialEq, Eq)]
pub enum Task {
    /// Carry out the leaf at `path` in the action with the index `action`.
    Execute { action: usize, path: Vec<usize> },
    /// Undo the leaf at `path` in the action with the index `action`.
    Revert { action: usize, path: Vec<usize> },
    /// Nothing: the attempt is over.
    Finished,
}

/// What is to be done next for a plan, as a plain value.
pub enum Duty {
    Execute { action: int, path: Seq<int> },
    Revert { action: int, path: Seq<int> },
    Finished,
}

impl Task {
    /// The task as a plain value.
    pub open spec fn view(self) -> Duty {
        match self {
            Task::Execute { action, path } => Duty::Execute { action: action as int, path: path_view(path@) },
            Task::Revert { action, path } => Duty::Revert { action: action as int, path: path_view(path@) },
            Task::Finished => Duty::Finished,
        }
    }
}

/// An attempt after it has been asked what comes next: the attempt, the
/// actions, and what is to be done.
pub struct Advance {
    pub run: Run,
    pub actions: Seq<Node>,
    pub duty: Duty,
}

/// How far a phase is from the end, to show that asking comes to an end.
pub open spec fn phase_rank(phase: Stage) -> nat {
    match phase {
        Stage::Installing { .. } => 2,
        Stage::Unwinding { .. } => 1,
        Stage::Uninstalling { .. } => 1,
        Stage::Finished => 0,
    }
}

/// How many actions a phase may still visit.
pub open spec fn phase_left(phase: Stage, count: nat) -> nat {
    match phase {
        Stage::Installing { next, started } => if 0 <= next <= count {
            (count - next) as nat
        } else {
            0
        },
        Stage::Unwinding { below } => if below >= 0 {
            below as nat
        } else {
            0
        },
        Stage::Uninstalling { below } => if below >= 0 {
            below as nat
        } else {
            0
        },
        Stage::Finished => 0,
    }
}

/// What comes next for an attempt `run` on `actions`, given whether
/// cancellation has been asked for.
///
/// While installing, the actions are carried out in their order. Each is
/// asked what it needs: work on a leaf is handed out; an action that needs
/// nothing more is passed; an action that failed ends the installation, and
/// the actions before it are undone, not the failed one. Cancellation counts
/// only between actions, before work on the next action has been handed out,
/// and then ends the installation like a failure. While undoing, the actions
/// are undone last first; a failure to undo one is kept and the actions
/// before it are still undone.
pub open spec fn advance(run: Run, actions: Seq<Node>, cancelled: bool) -> Advance
    decreases phase_rank(run.phase), phase_left(run.phase, actions.len()),
{
    match run.phase {
        Stage::Installing { next, started } => {
            if next < 0 || next >= actions.len() {
                Advance { run: Run { phase: Stage::Finished, ..run }, actions, duty: Duty::Finished }
            } else if !started && cancelled {
                advance(
                    Run {
                        phase: Stage::Unwinding { below: next },
                        failure: Some(Failure::Cancelled),
                        ..run
                    },
                    actions,
                    cancelled,
                )
            } else {
                let prepared = actions[next].prepared(run.host, Direction::Forward);
                match actions[next].signal(run.host, Direction::Forward) {
                    Signal::Work(path) => Advance {
                        run: Run { phase: Stage::Installing { next, started: true }, ..run },
                        actions: actions.update(next, prepared),
                        duty: Duty::Execute { action: next, path },
                    },
                    Signal::Done => advance(
                        Run {
                            phase: Stage::Installing { next: next + 1, started: false },
                            ..run
                        },
                        actions.update(next, prepared),
                        cancelled,
                    ),
                    Signal::Failed(report) => advance(
                        Run { phase: Stage::Unwinding { below: next }, failure: Some(report), ..run },
                        actions.update(next, prepared.cleared()),
                        cancelled,
                    ),
                }
            }
        },
        Stage::Unwinding { below } => {
            if below <= 0 || below > actions.len() {
                Advance { run: Run { phase: Stage::Finished, ..run }, actions, duty: Duty::Finished }
            } else {
                let prepared = actions[below - 1].prepared(run.host, Direction::Reverse);
                match actions[below - 1].signal(run.host, Direction::Reverse) {
                    Signal::Work(path) => Advance {
                        run,
                        actions: actions.update(below - 1, prepared),
                        duty: Duty::Revert { action: below - 1, path },
                    },
                    Signal::Done => advance(
                        Run { phase: Stage::Unwinding { below: below - 1 }, ..run },
                        actions.update(below - 1, prepared),
                        cancelled,
                    ),
                    Signal::Failed(report) => advance(
                        Run {
                            phase: Stage::Unwinding { below: below - 1 },
                            reverts: run.reverts.push(report),
                            ..run
                        },
                        actions.update(below - 1, prepared.cleared()),
                        cancelled,
                    ),
                }
            }
        },
        Stage::Uninstalling { below } => {
            if below <= 0 || below > actions.len() {
                Advance { run: Run { phase: Stage::Finished, ..run }, actions, duty: Duty::Finished }
            } else {
                let prepared = actions[below - 1].prepared(run.host, Direction::Reverse);
                match actions[below - 1].signal(run.host, Direction::Reverse) {
                    Signal::Work(path) => Advance {
                        run,
                        actions: actions.update(below - 1, prepared),
                        duty: Duty::Revert { action: below - 1, path },
                    },
                    Signal::Done => advance(
                        Run { phase: Stage::Uninstalling { below: below - 1 }, ..run },
                        actions.update(below - 1, prepared),
                        cancelled,
                    ),
                    Signal::Failed(report) => advance(
                        Run {
                            phase: Stage::Uninstalling { below: below - 1 },
                            reverts: run.reverts.push(report),
                            ..run
                        },
                        actions.update(below - 1, prepared.cleared()),
                        cancelled,
                    ),
                }
            }
        },
        Stage::Finished => Advance { run, actions, duty: Duty::Finished },
    }
}

impl Executor {
    /// The attempt as a plain value.
    pub open spec fn view(self) -> Run {
        Run {
            phase: self.phase@,
            host: self.host,
            failure: match self.failure {
                Some(error) => Some(error@),
                None => None,
            },
            reverts: failures(self.reverts@),
        }
    }

    /// An attempt to carry a plan out from its first action on.
    pub fn install(host: OperatingSystem) -> (executor: Executor)
        ensures
            executor@ == (Run {
                phase: Stage::Installing { next: 0, started: false },
                host,
                failure: None,
                reverts: Seq::empty(),
            }),
    {
        let executor = Executor {
            phase: Phase::Installing { next: 0, started: false },
            host,
            failure: None,
            reverts: Vec::new(),
        };
        assert(executor@.reverts =~= Seq::<Failure>::empty());
        executor
    }

    /// An attempt to undo `plan` from its last action on.
    pub fn uninstall(host: OperatingSystem, plan: &InstallPlan) -> (executor: Executor)
        ensures
            executor@ == (Run {
                phase: Stage::Uninstalling { below: plan.actions@.len() as int },
                host,
                failure: None,
                reverts: Seq::empty(),
            }),
    {
        let executor = Executor {
            phase: Phase::Uninstalling { below: plan.actions.len() },
            host,
            failure: None,
            reverts: Vec::new(),
        };
        assert(executor@.reverts =~= Seq::<Failure>::empty());
        executor
    }

    /// Asks what is to be done next for `plan`, and prepares the attempt
    /// and the plan for it. `cancelled` tells whether cancellation has been
    /// asked for.
    pub fn next(&mut self, plan: &mut InstallPlan, cancelled: bool) -> (task: Task)
        ensures
            final(self)@ == advance(old(self)@, nodes(old(plan).actions@), cancelled).run,
            nodes(final(plan).actions@) == advance(old(self)@, nodes(old(plan).actions@), cancelled).actions,
            task@ == advance(old(self)@, nodes(old(plan).actions@), cancelled).duty,
            final(plan).version == old(plan).version,
            final(plan).planner == old(plan).planner,
    {
        let ghost goal = advance(old(self)@, nodes(old(plan).actions@), cancelled);
        let host = self.host;
        loop
            invariant
                goal == advance(old(self)@, nodes(old(plan).actions@), cancelled),
                advance(self@, nodes(plan.actions@), cancelled) == goal,
                self.host == host,
                plan.version == old(plan).version,
                plan.planner == old(plan).planner,
            decreases phase_rank(self.phase@), phase_left(self.phase@, plan.actions@.len()),
        {
            let ghost before = nodes(plan.actions@);
            let ghost run = self@;
            match self.phase {
                Phase::Installing { next, started } => {
                    if next >= plan.actions.len() {
                        self.phase = Phase::Finished;
                        assert(goal.run == self@);
                        return Task::Finished;
                    }
                    if !started && cancelled {
                        self.phase = Phase::Unwinding { below: next };
                        self.failure = Some(ActionError::Cancelled);
                        continue ;
                    }
                    let step = plan.actions[next].next_step(host, Direction::Forward);
                    assert(nodes(plan.actions@) =~= before.update(
                        next as int,
                        before[next as int].prepared(host, Direction::Forward),
                    ));
                    match step {
                        Step::Work(path) => {
                            self.phase = Phase::Installing { next, started: true };
                            return Task::Execute { action: next, path };
                        },
                        Step::Done => {
                            self.phase = Phase::Installing { next: next + 1, started: false };
                        },
                        Step::Failed => {
                            proof {
                                lemma_asked_again(before[next as int], host, Direction::Forward);
                            }
                            let report = plan.actions[next].take_failure(host, Direction::Forward);
                            assert(nodes(plan.actions@) =~= before.update(
                                next as int,
                                before[next as int].prepared(host, Direction::Forward).cleared(),
                            ));
                            self.failure = report;
                            self.phase = Phase::Unwinding { below: next };
                        },
                    }
                },
                Phase::Unwinding { below } => {
                    if below == 0 || below > plan.actions.len() {
                        self.phase = Phase::Finished;
                        assert(goal.run == self@);
                        return Task::Finished;
                    }
                    let at = below - 1;
                    let step = plan.actions[at].next_step(host, Direction::Reverse);
                    assert(nodes(plan.actions@) =~= before.update(
                        at as int,
                        before[at as int].prepared(host, Direction::Reverse),
                    ));
                    match step {
                        Step::Work(path) => {
                            return Task::Revert { action: at, path };
                        },
                        Step::Done => {
                            self.phase = Phase::Unwinding { below: at };
                        },
                        Step::Failed => {
                            proof {
                                lemma_asked_again(before[at as int], host, Direction::Reverse);
                            }
                            let report = plan.actions[at].take_failure(host, Direction::Reverse);
                            assert(nodes(plan.actions@) =~= before.update(
                                at as int,
                                before[at as int].prepared(host, Direction::Reverse).cleared(),
                            ));
                            match report {
                                Some(error) => {
                                    let ghost kept = failures(self.reverts@);
                                    let ghost found = error@;
                                    self.reverts.push(error);
                                    assert(failures(self.reverts@) =~= kept.push(found));
                                },
                                None => {},
                            }
                            self.phase = Phase::Unwinding { below: at };
                        },
                    }
                },
                Phase::Uninstalling { below } => {
                    if below == 0 || below > plan.actions.len() {
                        self.phase = Phase::Finished;
                        assert(goal.run == self@);
                        return Task::Finished;
                    }
                    let at = below - 1;
                    let step = plan.actions[at].next_step(host, Direction::Reverse);
                    assert(nodes(plan.actions@) =~= before.update(
                        at as int,
                        before[at as int].prepared(host, Direction::Reverse),
                    ));
                    match step {
                        Step::Work(path) => {
                            return Task::Revert { action: at, path };
                        },
                        Step::Done => {
                            self.phase = Phase::Uninstalling { below: at };
                        },
                        Step::Failed => {
                            proof {
                                lemma_asked_again(before[at as int], host, Direction::Reverse);
                            }
                            let report = plan.actions[at].take_failure(host, Direction::Reverse);
                            assert(nodes(plan.actions@) =~= before.update(
                                at as int,
                                before[at as int].prepared(host, Direction::Reverse).cleared(),
                            ));
                            match report {
                                Some(error) => {
                                    let ghost kept = failures(self.reverts@);
                                    let ghost found = error@;
                                    self.reverts.push(error);
                                    assert(failures(self.reverts@) =~= kept.push(found));
                                },
                                None => {},
                            }
                            self.phase = Phase::Uninstalling { below: at };
                        },
                    }
                },
                Phase::Finished => {
                    return Task::Finished;
                },
            }
        }
    }

    /// Writes down how the work on the leaf at `path` of the action with the
    /// index `action` went. An index beyond the plan changes nothing.
    pub fn record(
        &self,
        plan: &mut InstallPlan,
        action: usize,
        path: &Vec<usize>,
        outcome: Result<(), ActionError>,
    )
        ensures
            nodes(final(plan).actions@) == (if action < old(plan).actions@.len() {
                nodes(old(plan).actions@).update(
                    action as int,
                    nodes(old(plan).actions@)[action as int].recorded(
                        path_view(path@),
                        self.phase.direction(),
                        reported(outcome),
                    ),
                )
            } else {
                nodes(old(plan).actions@)
            }),
            final(plan).version == old(plan).version,
            final(plan).planner == old(plan).planner,
    {
        let direction = match self.phase {
            Phase::Installing { .. } => Direction::Forward,
            _ => Direction::Reverse,
        };
        let ghost before = nodes(plan.actions@);
        if action < plan.actions.len() {
            plan.actions[action].record(path, direction, outcome);
            assert(nodes(plan.actions@) =~= before.update(
                action as int,
                before[action as int].recorded(path_view(path@), direction, reported(outcome)),
            ));
        } else {
            assert(nodes(plan.actions@) =~= before);
        }
    }

    /// How the attempt ended: well where nothing failed; else with the
    /// failure that stopped the installation and what went wrong while
    /// undoing, or with what went wrong while undoing alone.
    pub fn into_result(self) -> (result: Result<(), InstallError>)
        ensures
            match result {
                Ok(_) => self@.failure is None && self@.reverts.len() == 0,
                Err(InstallError::Failed { error, reverts }) => self@.failure == Some(error@)
                    && failures(reverts@) == self@.reverts,
                Err(InstallError::RevertsFailed(reverts)) => self@.failure is None
                    && self@.reverts.len() > 0 && failures(reverts@) == self@.reverts,
            },
    {
        match self.failure {
            Some(error) => Err(InstallError::Failed { error, reverts: self.reverts }),
            None => {
                if self.reverts.len() > 0 {
                    Err(InstallError::RevertsFailed(self.reverts))
                } else {
                    Ok(())
                }
            },
        }
    }
}

/// Whether none of the actions from `from` up to, not including, `to` asks
/// for work when it is undone.
pub open spec fn quiet(actions: Seq<Node>, host: OperatingSystem, from: int, to: int) -> bool {
    forall|j: int|
        from <= j < to && 0 <= j < actions.len() ==> !((#[trigger] actions[j]).signal(
            host,
            Direction::Reverse,
        ) is Work)
}

/// Whether each of the actions from `from` up to, not including, `to` needs
/// nothing more to be carried out.
pub open spec fn settled(actions: Seq<Node>, host: OperatingSystem, from: int, to: int) -> bool {
    forall|j: int|
        from <= j < to && 0 <= j < actions.len() ==> (#[trigger] actions[j]).signal(
            host,
            Direction::Forward,
        ) is Done
}

/// The place before which actions are undone in a phase that undoes.
pub open spec fn undone_below(phase: Stage) -> int {
    match phase {
        Stage::Unwinding { below } => below,
        Stage::Uninstalling { below } => below,
        _ => 0,
    }
}

/// While actions are undone, they are undone last first: the action whose
/// leaf is handed out lies before `below`, no action between it and `below`
/// asks for work, and no action at or after `below` is touched. Nothing is
/// carried out, and the reason why the installation stopped stays.
pub proof fn lemma_undone_in_order(run: Run, actions: Seq<Node>, cancelled: bool)
    requires
        run.phase is Unwinding || run.phase is Uninstalling,
    ensures
        !(advance(run, actions, cancelled).duty is Execute),
        advance(run, actions, cancelled).actions.len() == actions.len(),
        advance(run, actions, cancelled).run.failure == run.failure,
        forall|j: int|
            undone_below(run.phase) <= j < actions.len() && 0 <= j ==> advance(
                run,
                actions,
                cancelled,
            ).actions[j] == #[trigger] actions[j],
        advance(run, actions, cancelled).duty matches Duty::Revert { action, path } ==> {
            &&& 0 <= action < undone_below(run.phase)
            &&& action < actions.len()
            &&& actions[action].signal(run.host, Direction::Reverse) == Signal::Work(path)
            &&& quiet(actions, run.host, action + 1, undone_below(run.phase))
            &&& undone_below(advance(run, actions, cancelled).run.phase) == action + 1
            &&& (run.phase is Unwinding ==> advance(run, actions, cancelled).run.phase is Unwinding)
        },
    decreases phase_left(run.phase, actions.len()),
{
    let below = undone_below(run.phase);
    let after = advance(run, actions, cancelled);
    if 0 < below <= actions.len() {
        let at = below - 1;
        let prepared = actions[at].prepared(run.host, Direction::Reverse);
        match actions[at].signal(run.host, Direction::Reverse) {
            Signal::Work(path) => {},
            Signal::Done => {
                let next = if run.phase is Unwinding {
                    Run { phase: Stage::Unwinding { below: at }, ..run }
                } else {
                    Run { phase: Stage::Uninstalling { below: at }, ..run }
                };
                let updated = actions.update(at, prepared);
                lemma_undone_in_order(next, updated, cancelled);
                assert(after == advance(next, updated, cancelled));
                assert forall|j: int| below <= j < actions.len() && 0 <= j implies after.actions[j]
                    == #[trigger] actions[j] by {
                    assert(updated[j] == actions[j]);
                }
                if after.duty is Revert {
                    let action = after.duty->Revert_action;
                    assert(updated[action] == actions[action]);
                    assert forall|j: int| action + 1 <= j < below && 0 <= j < actions.len() implies !((
                    #[trigger] actions[j]).signal(run.host, Direction::Reverse) is Work) by {
                        if j < at {
                            assert(updated[j] == actions[j]);
                        }
                    }
                }
            },
            Signal::Failed(report) => {
                let next = if run.phase is Unwinding {
                    Run { phase: Stage::Unwinding { below: at }, reverts: run.reverts.push(report), ..run }
                } else {
                    Run {
                        phase: Stage::Uninstalling { below: at },
                        reverts: run.reverts.push(report),
                        ..run
                    }
                };
                let updated = actions.update(at, prepared.cleared());
                lemma_undone_in_order(next, updated, cancelled);
                assert(after == advance(next, updated, cancelled));
                assert forall|j: int| below <= j < actions.len() && 0 <= j implies after.actions[j]
                    == #[trigger] actions[j] by {
                    assert(updated[j] == actions[j]);
                }
                if after.duty is Revert {
                    let action = after.duty->Revert_action;
                    assert(updated[action] == actions[action]);
                    assert forall|j: int| action + 1 <= j < below && 0 <= j < actions.len() implies !((
                    #[trigger] actions[j]).signal(run.host, Direction::Reverse) is Work) by {
                        if j < at {
                            assert(updated[j] == actions[j]);
                        }
                    }
                }
            },
        }
    }
}

/// Where the installation stops when it is asked what comes next with the
/// action `next` at hand: at the first action from `next` on that does not
/// need nothing more; at `next` itself where cancellation counts.
pub open spec fn halt(
    actions: Seq<Node>,
    host: OperatingSystem,
    next: int,
    started: bool,
    cancelled: bool,
) -> int
    decreases actions.len() - next,
{
    if next < 0 || next >= actions.len() {
        next
    } else if !started && cancelled {
        next
    } else if actions[next].signal(host, Direction::Forward) is Done {
        halt(actions, host, next + 1, false, cancelled)
    } else {
        next
    }
}

/// While a plan is carried out, its actions are carried out in their
/// order and never after a failure.
///
/// Let `stop` be where the installation stops: every action from `next` up
/// to `stop` needs nothing more. A leaf that is handed out to be carried out
/// belongs to the action `stop`. Where a leaf is handed out to be undone
/// instead, the action `stop` has failed or cancellation has been asked
/// for, the leaf belongs to an action before `stop`, and no action from
/// `stop` on is undone: the action that failed is left as it is.
pub proof fn lemma_installed_in_order(run: Run, actions: Seq<Node>, cancelled: bool)
    requires
        run.phase is Installing,
        run.phase->Installing_next >= 0,
        run.failure is None,
    ensures
        ({
            let next = run.phase->Installing_next;
            let stop = halt(actions, run.host, next, run.phase->Installing_started, cancelled);
            let after = advance(run, actions, cancelled);
            &&& next <= stop
            &&& settled(actions, run.host, next, stop)
            &&& after.actions.len() == actions.len()
            &&& after.duty matches Duty::Execute { action, path } ==> {
                &&& action == stop
                &&& stop < actions.len()
                &&& actions[stop].signal(run.host, Direction::Forward) == Signal::Work(path)
                &&& after.run.failure is None
            }
            &&& after.duty matches Duty::Revert { action, path } ==> {
                &&& 0 <= action < stop
                &&& stop < actions.len()
                &&& (actions[stop].signal(run.host, Direction::Forward) is Failed || cancelled)
                &&& after.run.phase is Unwinding
                &&& after.run.failure is Some
            }
            &&& after.duty is Finished && after.run.failure is None ==> stop >= actions.len()
        }),
    decreases phase_left(run.phase, actions.len()),
{
    let next = run.phase->Installing_next;
    let started = run.phase->Installing_started;
    let after = advance(run, actions, cancelled);
    if next < actions.len() {
        if !started && cancelled {
            let stop = Run {
                phase: Stage::Unwinding { below: next },
                failure: Some(Failure::Cancelled),
                ..run
            };
            lemma_undone_in_order(stop, actions, cancelled);
            assert(after == advance(stop, actions, cancelled));
        } else {
            let prepared = actions[next].prepared(run.host, Direction::Forward);
            match actions[next].signal(run.host, Direction::Forward) {
                Signal::Work(path) => {},
                Signal::Done => {
                    let updated = actions.update(next, prepared);
                    let on = Run { phase: Stage::Installing { next: next + 1, started: false }, ..run };
                    lemma_installed_in_order(on, updated, cancelled);
                    assert(after == advance(on, updated, cancelled));
                    lemma_halt_ahead(actions, updated, run.host, next + 1, false, cancelled);
                    let stop = halt(actions, run.host, next, started, cancelled);
                    assert(stop == halt(updated, run.host, next + 1, false, cancelled));
                    assert forall|j: int| next <= j < stop && 0 <= j < actions.len() implies (
                    #[trigger] actions[j]).signal(run.host, Direction::Forward) is Done by {
                        if j > next {
                            assert(updated[j] == actions[j]);
                        }
                    }
                    if stop < actions.len() {
                        assert(updated[stop] == actions[stop]);
                    }
                },
                Signal::Failed(report) => {
                    let updated = actions.update(next, prepared.cleared());
                    let stop = Run {
                        phase: Stage::Unwinding { below: next },
                        failure: Some(report),
                        ..run
                    };
                    lemma_undone_in_order(stop, updated, cancelled);
                    assert(after == advance(stop, updated, cancelled));
                },
            }
        }
    }
}

/// Where the installation stops depends only on the actions from `next` on.
pub proof fn lemma_halt_ahead(
    a: Seq<Node>,
    b: Seq<Node>,
    host: OperatingSystem,
    next: int,
    started: bool,
    cancelled: bool,
)
    requires
        a.len() == b.len(),
        forall|j: int| next <= j < a.len() && 0 <= j ==> a[j] == b[j],
    ensures
        halt(a, host, next, started, cancelled) == halt(b, host, next, started, cancelled),
    decreases a.len() - next,
{
    if 0 <= next < a.len() {
        assert(a[next] == b[next]);
        lemma_halt_ahead(a, b, host, next + 1, false, cancelled);
    }
}

/// An attempt that ends without a failure has brought every action that was
/// still to be driven into the goal state: completed after installing from
/// `next` on, uncompleted after undoing all before `below`.
pub proof fn lemma_ends_in_goal(run: Run, actions: Seq<Node>, cancelled: bool)
    requires
        run.phase is Installing || run.phase is Uninstalling,
        run.phase is Installing ==> run.phase->Installing_next >= 0 && run.failure is None,
        run.phase is Uninstalling ==> run.phase->Uninstalling_below <= actions.len(),
        advance(run, actions, cancelled).duty is Finished,
        advance(run, actions, cancelled).run.failure is None,
        advance(run, actions, cancelled).run.reverts == run.reverts,
    ensures
        advance(run, actions, cancelled).actions.len() == actions.len(),
        run.phase matches Stage::Installing { next, started } ==> forall|j: int|
            next <= j < actions.len() ==> (#[trigger] advance(run, actions, cancelled).actions[j]).state
                == ActionState::Completed,
        run.phase matches Stage::Uninstalling { below } ==> forall|j: int|
            0 <= j < below && j < actions.len() ==> (#[trigger] advance(
                run,
                actions,
                cancelled,
            ).actions[j]).state == ActionState::Uncompleted,
    decreases phase_rank(run.phase), phase_left(run.phase, actions.len()),
{
    let after = advance(run, actions, cancelled);
    match run.phase {
        Stage::Installing { next, started } => {
            if next < actions.len() {
                if !started && cancelled {
                    let stop = Run {
                        phase: Stage::Unwinding { below: next },
                        failure: Some(Failure::Cancelled),
                        ..run
                    };
                    lemma_undone_in_order(stop, actions, cancelled);
                } else {
                    let prepared = actions[next].prepared(run.host, Direction::Forward);
                    match actions[next].signal(run.host, Direction::Forward) {
                        Signal::Work(path) => {},
                        Signal::Done => {
                            let updated = actions.update(next, prepared);
                            let on = Run {
                                phase: Stage::Installing { next: next + 1, started: false },
                                ..run
                            };
                            lemma_ends_in_goal(on, updated, cancelled);
                            lemma_installed_in_order(on, updated, cancelled);
                            crate::action::run::lemma_done_reaches_goal(
                                actions[next],
                                run.host,
                                Direction::Forward,
                            );
                            lemma_untouched_before(on, updated, cancelled, next);
                        },
                        Signal::Failed(report) => {
                            let updated = actions.update(next, prepared.cleared());
                            let stop = Run {
                                phase: Stage::Unwinding { below: next },
                                failure: Some(report),
                                ..run
                            };
                            lemma_undone_in_order(stop, updated, cancelled);
                        },
                    }
                }
            }
        },
        Stage::Uninstalling { below } => {
            if 0 < below <= actions.len() {
                let at = below - 1;
                let prepared = actions[at].prepared(run.host, Direction::Reverse);
                match actions[at].signal(run.host, Direction::Reverse) {
                    Signal::Work(path) => {},
                    Signal::Done => {
                        let updated = actions.update(at, prepared);
                        let on = Run { phase: Stage::Uninstalling { below: at }, ..run };
                        assert(after == advance(on, updated, cancelled));
                        lemma_ends_in_goal(on, updated, cancelled);
                        lemma_undone_in_order(on, updated, cancelled);
                        crate::action::run::lemma_done_reaches_goal(
                            actions[at],
                            run.host,
                            Direction::Reverse,
                        );
                        assert(after.actions[at] == updated[at]);
                    },
                    Signal::Failed(report) => {
                        let updated = actions.update(at, prepared.cleared());
                        let on = Run {
                            phase: Stage::Uninstalling { below: at },
                            reverts: run.reverts.push(report),
                            ..run
                        };
                        assert(after == advance(on, updated, cancelled));
                        lemma_reverts_grow(on, updated, cancelled);
                        assert(run.reverts.push(report).len() == run.reverts.len() + 1);
                    },
                }
            }
        },
        _ => {},
    }
}

/// While a plan is carried out, the actions before the one at hand are not
/// touched unless the installation stops and they are undone.
pub proof fn lemma_untouched_before(run: Run, actions: Seq<Node>, cancelled: bool, j: int)
    requires
        run.phase matches Stage::Installing { next, started } && 0 <= j < next,
        j < actions.len(),
        advance(run, actions, cancelled).duty is Finished,
        advance(run, actions, cancelled).run.failure is None,
        run.failure is None,
    ensures
        advance(run, actions, cancelled).actions.len() == actions.len(),
        advance(run, actions, cancelled).actions[j] == actions[j],
    decreases phase_left(run.phase, actions.len()),
{
    let next = run.phase->Installing_next;
    let started = run.phase->Installing_started;
    if next < actions.len() {
        if !started && cancelled {
            let stop = Run {
                phase: Stage::Unwinding { below: next },
                failure: Some(Failure::Cancelled),
                ..run
            };
            lemma_undone_in_order(stop, actions, cancelled);
        } else {
            let prepared = actions[next].prepared(run.host, Direction::Forward);
            match actions[next].signal(run.host, Direction::Forward) {
                Signal::Work(path) => {},
                Signal::Done => {
                    let updated = actions.update(next, prepared);
                    let on = Run { phase: Stage::Installing { next: next + 1, started: false }, ..run };
                    lemma_untouched_before(on, updated, cancelled, j);
                },
                Signal::Failed(report) => {
                    let updated = actions.update(next, prepared.cleared());
                    let stop = Run {
                        phase: Stage::Unwinding { below: next },
                        failure: Some(report),
                        ..run
                    };
                    lemma_undone_in_order(stop, updated, cancelled);
                },
            }
        }
    }
}

/// What went wrong while undoing is only ever added to.
pub proof fn lemma_reverts_grow(run: Run, actions: Seq<Node>, cancelled: bool)
    requires
        run.phase is Unwinding || run.phase is Uninstalling,
    ensures
        advance(run, actions, cancelled).run.reverts.len() >= run.reverts.len(),
    decreases phase_left(run.phase, actions.len()),
{
    let below = undone_below(run.phase);
    if 0 < below <= actions.len() {
        let at = below - 1;
        let prepared = actions[at].prepared(run.host, Direction::Reverse);
        match actions[at].signal(run.host, Direction::Reverse) {
            Signal::Work(path) => {},
            Signal::Done => {
                let next = if run.phase is Unwinding {
                    Run { phase: Stage::Unwinding { below: at }, ..run }
                } else {
                    Run { phase: Stage::Uninstalling { below: at }, ..run }
                };
                lemma_reverts_grow(next, actions.update(at, prepared), cancelled);
            },
            Signal::Failed(report) => {
                let next = if run.phase is Unwinding {
                    Run { phase: Stage::Unwinding { below: at }, reverts: run.reverts.push(report), ..run }
                } else {
                    Run {
                        phase: Stage::Uninstalling { below: at },
                        reverts: run.reverts.push(report),
                        ..run
                    }
                };
                lemma_reverts_grow(next, actions.update(at, prepared.cleared()), cancelled);
            },
        }
    }
}

/// Cancellation between two actions ends the installation before the next
/// action is begun: no leaf is handed out to be carried out, the next
/// action is left as it is, and the attempt ends as cancelled.
pub proof fn lemma_cancelled_between_actions(run: Run, actions: Seq<Node>)
    requires
        run.phase matches Stage::Installing { next, started } && !started && 0 <= next < actions.len(),
    ensures
        !(advance(run, actions, true).duty is Execute),
        advance(run, actions, true).run.failure == Some(Failure::Cancelled),
        advance(run, actions, true).actions[run.phase->Installing_next]
            == actions[run.phase->Installing_next],
{
    let next = run.phase->Installing_next;
    let stop = Run { phase: Stage::Unwinding { below: next }, failure: Some(Failure::Cancelled), ..run };
    lemma_undone_in_order(stop, actions, true);
}

/// Cancellation does not interrupt an action that has been begun: while
/// work on the action at hand has been handed out, what comes next is the
/// same whether cancellation has been asked for or not, as long as that
/// action is not over.
pub proof fn lemma_cancellation_waits(run: Run, actions: Seq<Node>)
    requires
        run.phase matches Stage::Installing { next, started } && started && 0 <= next < actions.len(),
        actions[run.phase->Installing_next].signal(run.host, Direction::Forward) is Work,
    ensures
        advance(run, actions, true) == advance(run, actions, false),
{
}

} // verus!
