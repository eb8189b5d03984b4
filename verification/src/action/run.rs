//! Driving a tree of actions one leaf at a time, forward or in reverse.
use vstd::prelude::*;
use crate::action::{Action, ChildMode, StatefulAction};
use crate::error::{failures, gathered, ActionError, Failure};
use crate::host::OperatingSystem;
use crate::state::{ActionState, Direction};

verus! {

/// A tree of actions as a plain value.
pub struct Node {
    pub action: Action,
    pub state: ActionState,
    pub failure: Option<(Direction, Failure)>,
    pub children: Seq<Node>,
}

/// An action without children in the given state.
pub open spec fn leaf(action: Action, state: ActionState) -> Node {
    Node { action, state, failure: None, children: Seq::empty() }
}

/// An action with its children, still to be carried out.
pub open spec fn composite(action: Action, children: Seq<Node>) -> Node {
    Node { action, state: ActionState::Uncompleted, failure: None, children }
}

/// The trees of a list as plain values.
pub open spec fn nodes(trees: Seq<StatefulAction>) -> Seq<Node> {
    Seq::new(trees.len(), |i: int| trees[i]@)
}

/// What a tree of actions asks for next.
pub enum Signal {
    /// Nothing is left to do.
    Done,
    /// It failed, with this report.
    Failed(Failure),
    /// The leaf at this path, given by the index of the child at each level,
    /// is to be worked on.
    Work(Seq<int>),
}

/// What a tree of actions asks for next.
#[derive(Debug, PartialEq, Eq)]
pub enum Step {
    /// Nothing is left to do.
    Done,
    /// It failed.
    Failed,
    /// The leaf at this path, given by the index of the child at each level,
    /// is to be worked on.
    Work(Vec<usize>),
}

/// A path as plain values.
pub open spec fn path_view(path: Seq<usize>) -> Seq<int> {
    path.map_values(|k: usize| k as int)
}

impl Step {
    /// Whether this step is the one that `signal` stands for.
    pub open spec fn tells(self, signal: Signal) -> bool {
        match self {
            Step::Done => signal is Done,
            Step::Failed => signal is Failed,
            Step::Work(path) => signal == Signal::Work(path_view(path@)),
        }
    }
}

/// The index of the child that is visited at `position`: children are
/// visited in declared order forward, and in the opposite order in reverse.
pub open spec fn child_at(count: int, direction: Direction, position: int) -> int {
    match direction {
        Direction::Forward => position,
        Direction::Reverse => count - 1 - position,
    }
}

/// The failure that counts in `direction`, if the node is marked with one.
pub open spec fn marked(failure: Option<(Direction, Failure)>, direction: Direction) -> Option<Failure> {
    match failure {
        Some((at, report)) => if at == direction {
            Some(report)
        } else {
            None
        },
        None => None,
    }
}

impl Node {
    /// What the tree asks for next in `direction`.
    ///
    /// A node in the direction's goal state asks for nothing. A leaf asks to
    /// be worked on, unless it is marked as failed. A composite asks what its
    /// children ask, in the direction's order and under its rule for each
    /// child's failure.
    pub open spec fn signal(self, host: OperatingSystem, direction: Direction) -> Signal
        decreases self, 0int,
    {
        if self.state == direction.goal() {
            Signal::Done
        } else if !self.action.composite() {
            match marked(self.failure, direction) {
                Some(report) => Signal::Failed(report),
                None => Signal::Work(Seq::empty()),
            }
        } else {
            Self::scan(self.action, self.children, host, direction, 0, Seq::empty())
        }
    }

    /// What the children ask for from `position` on, with the failures
    /// `kept` of parallel children visited before.
    pub open spec fn scan(
        parent: Action,
        children: Seq<Node>,
        host: OperatingSystem,
        direction: Direction,
        position: int,
        kept: Seq<Failure>,
    ) -> Signal
        decreases children, children.len() - position,
    {
        if position < 0 || position >= children.len() {
            match gathered(kept) {
                Some(report) => Signal::Failed(report),
                None => Signal::Done,
            }
        } else {
            let k = child_at(children.len() as int, direction, position);
            let mode = parent.mode_of(host, direction, k);
            if kept.len() > 0 && mode != ChildMode::Gather {
                Signal::Failed(gathered(kept)->0)
            } else {
                match children[k].signal(host, direction) {
                    Signal::Work(path) => Signal::Work(seq![k] + path),
                    Signal::Done => Self::scan(parent, children, host, direction, position + 1, kept),
                    Signal::Failed(report) => match mode {
                        ChildMode::Strict => Signal::Failed(report),
                        ChildMode::Tolerant => Self::scan(
                            parent,
                            children,
                            host,
                            direction,
                            position + 1,
                            kept,
                        ),
                        ChildMode::Gather => Self::scan(
                            parent,
                            children,
                            host,
                            direction,
                            position + 1,
                            kept.push(report),
                        ),
                    },
                }
            }
        }
    }

    /// How many children, counted in the direction's order, are looked at
    /// before the answer of `scan` is known.
    pub open spec fn visited(
        parent: Action,
        children: Seq<Node>,
        host: OperatingSystem,
        direction: Direction,
        position: int,
        kept: Seq<Failure>,
    ) -> int
        decreases children.len() - position,
    {
        if position < 0 || position >= children.len() {
            position
        } else {
            let k = child_at(children.len() as int, direction, position);
            let mode = parent.mode_of(host, direction, k);
            if kept.len() > 0 && mode != ChildMode::Gather {
                position
            } else {
                match children[k].signal(host, direction) {
                    Signal::Work(path) => position + 1,
                    Signal::Done => Self::visited(parent, children, host, direction, position + 1, kept),
                    Signal::Failed(report) => match mode {
                        ChildMode::Strict => position + 1,
                        ChildMode::Tolerant => Self::visited(
                            parent,
                            children,
                            host,
                            direction,
                            position + 1,
                            kept,
                        ),
                        ChildMode::Gather => Self::visited(
                            parent,
                            children,
                            host,
                            direction,
                            position + 1,
                            kept.push(report),
                        ),
                    },
                }
            }
        }
    }

    /// The tree once it has been asked what comes next: the leaf to be
    /// worked on and its ancestors are in `Progress`, and every composite
    /// whose children need no more work is in the goal state.
    pub open spec fn prepared(self, host: OperatingSystem, direction: Direction) -> Node
        decreases self,
    {
        if self.state == direction.goal() {
            self
        } else if !self.action.composite() {
            match marked(self.failure, direction) {
                Some(_) => self,
                None => Node { state: ActionState::Progress, ..self },
            }
        } else {
            let count = self.children.len() as int;
            let seen = Self::visited(self.action, self.children, host, direction, 0, Seq::empty());
            Node {
                state: if self.signal(host, direction) is Done {
                    direction.goal()
                } else {
                    ActionState::Progress
                },
                children: Seq::new(
                    self.children.len(),
                    |k: int|
                        if 0 <= k < count && child_at(count, direction, k) < seen {
                            self.children[k].prepared(host, direction)
                        } else {
                            self.children[k]
                        },
                ),
                ..self
            }
        }
    }
}

impl Node {
    /// The node that `path` leads to, if it leads to one.
    pub open spec fn at(self, path: Seq<int>) -> Option<Node>
        decreases path.len(),
    {
        if path.len() == 0 {
            Some(self)
        } else if 0 <= path[0] < self.children.len() {
            self.children[path[0]].at(path.drop_first())
        } else {
            None
        }
    }

    /// The tree after the outcome of the work on the leaf at `path` has been
    /// written down: success puts the leaf into the direction's goal state,
    /// a failure marks it and leaves its state alone. A path that leads to
    /// no leaf changes nothing.
    pub open spec fn recorded(self, path: Seq<int>, direction: Direction, outcome: Option<Failure>) -> Node
        decreases path.len(),
    {
        if path.len() == 0 {
            if self.action.composite() {
                self
            } else {
                match outcome {
                    None => Node { state: direction.goal(), failure: None, ..self },
                    Some(report) => Node { failure: Some((direction, report)), ..self },
                }
            }
        } else if 0 <= path[0] < self.children.len() {
            Node {
                children: self.children.update(
                    path[0],
                    self.children[path[0]].recorded(path.drop_first(), direction, outcome),
                ),
                ..self
            }
        } else {
            self
        }
    }

    /// The tree without any mark of failure.
    pub open spec fn cleared(self) -> Node
        decreases self,
    {
        Node {
            failure: None,
            children: Seq::new(
                self.children.len(),
                |k: int|
                    if 0 <= k < self.children.len() {
                        self.children[k].cleared()
                    } else {
                        self.children[k]
                    },
            ),
            ..self
        }
    }
}

/// The failure that an outcome holds, as a plain value.
pub open spec fn reported(outcome: Result<(), ActionError>) -> Option<Failure> {
    match outcome {
        Ok(_) => None,
        Err(error) => Some(error@),
    }
}

/// What a tree of actions came to, with the failure moved out of it.
enum Taken {
    /// Nothing is left to do.
    Done,
    /// Work is left to do.
    Pending,
    /// It failed, with this report.
    Failed(ActionError),
}

impl Taken {
    /// Whether this is what `signal` stands for.
    spec fn tells(self, signal: Signal) -> bool {
        match self {
            Taken::Done => signal is Done,
            Taken::Pending => signal is Work,
            Taken::Failed(error) => signal == Signal::Failed(error@),
        }
    }
}

impl StatefulAction {
    /// The tree as a plain value.
    pub open spec fn view(self) -> Node
        decreases self,
    {
        Node {
            action: self.action,
            state: self.state,
            failure: match self.failure {
                Some((direction, error)) => Some((direction, error@)),
                None => None,
            },
            children: Seq::new(
                self.children@.len(),
                |i: int|
                    if 0 <= i < self.children@.len() {
                        self.children@[i].view()
                    } else {
                        arbitrary()
                    },
            ),
        }
    }

    /// Asks the tree what comes next in `direction` and prepares it for that.
    pub fn next_step(&mut self, host: OperatingSystem, direction: Direction) -> (step: Step)
        ensures
            step.tells(old(self)@.signal(host, direction)),
            final(self)@ == old(self)@.prepared(host, direction),
        decreases *old(self),
    {
        let ghost before = self@;
        if self.state == direction.goal_state() {
            return Step::Done;
        }
        if !self.action.is_composite() {
            match &self.failure {
                Some((at, _)) => {
                    if *at == direction {
                        return Step::Failed;
                    }
                },
                None => {},
            }
            self.state = ActionState::Progress;
            assert(self@ =~= before.prepared(host, direction));
            let path: Vec<usize> = Vec::new();
            assert(path_view(path@) =~= Seq::<int>::empty());
            return Step::Work(path);
        }
        let count = self.children.len();
        let mut position: usize = 0;
        let mut failed: bool = false;
        let ghost mut kept: Seq<Failure> = Seq::empty();
        while position < count
            invariant
                position <= count,
                count == self.children@.len(),
                count == before.children.len(),
                self.action == before.action,
                self.state == before.state,
                self@.failure == before.failure,
                before == old(self)@,
                before.action.composite(),
                before.state != direction.goal(),
                failed == (kept.len() > 0),
                forall|k: int|
                    0 <= k < count && child_at(count as int, direction, k) >= position
                        ==> self.children@[k] == #[trigger] old(self).children@[k],
                forall|k: int|
                    0 <= k < count && child_at(count as int, direction, k) < position
                        ==> (#[trigger] self.children@[k])@ == before.children[k].prepared(host, direction),
                Node::scan(before.action, before.children, host, direction, 0, Seq::empty())
                    == Node::scan(before.action, before.children, host, direction, position as int, kept),
                Node::visited(before.action, before.children, host, direction, 0, Seq::empty())
                    == Node::visited(before.action, before.children, host, direction, position as int, kept),
            decreases count - position,
        {
            let k = match direction {
                Direction::Forward => position,
                Direction::Reverse => count - 1 - position,
            };
            let mode = self.action.child_mode(host, direction, k);
            if failed && mode != ChildMode::Gather {
                self.state = ActionState::Progress;
                proof {
                    Self::lemma_view_children(*self);
                    assert(self@.children =~= before.prepared(host, direction).children);
                }
                return Step::Failed;
            }
            assert(self.children@[k as int] == old(self).children@[k as int]);
            let ghost child_before = self.children@[k as int]@;
            assert(child_before == before.children[k as int]);
            let child_step = self.children[k].next_step(host, direction);
            match child_step {
                Step::Work(mut path) => {
                    let ghost rest = path_view(path@);
                    path.insert(0, k);
                    self.state = ActionState::Progress;
                    proof {
                        assert(path_view(path@) =~= seq![k as int] + rest);
                        Self::lemma_view_children(*self);
                        assert(self@.children =~= before.prepared(host, direction).children);
                    }
                    return Step::Work(path);
                },
                Step::Done => {},
                Step::Failed => {
                    match mode {
                        ChildMode::Strict => {
                            self.state = ActionState::Progress;
                            proof {
                                Self::lemma_view_children(*self);
                                assert(self@.children =~= before.prepared(host, direction).children);
                            }
                            return Step::Failed;
                        },
                        ChildMode::Tolerant => {},
                        ChildMode::Gather => {
                            failed = true;
                            proof {
                                kept = kept.push(child_before.signal(host, direction)->Failed_0);
                            }
                        },
                    }
                },
            }
            position = position + 1;
        }
        if failed {
            self.state = ActionState::Progress;
        } else {
            self.state = direction.goal_state();
        }
        proof {
            Self::lemma_view_children(*self);
            assert(self@.children =~= before.prepared(host, direction).children);
        }
        if failed {
            Step::Failed
        } else {
            Step::Done
        }
    }

    /// The node that `path` leads to, if it leads to one.
    pub fn node_at(&self, path: &Vec<usize>) -> (found: Option<&StatefulAction>)
        ensures
            match found {
                Some(node) => self@.at(path_view(path@)) == Some(node@),
                None => self@.at(path_view(path@)) is None,
            },
    {
        let mut node = self;
        let mut depth: usize = 0;
        assert(path_view(path@).skip(0) =~= path_view(path@));
        while depth < path.len()
            invariant
                depth <= path@.len(),
                self@.at(path_view(path@)) == node@.at(path_view(path@).skip(depth as int)),
            decreases path@.len() - depth,
        {
            let k = path[depth];
            let ghost rest = path_view(path@).skip(depth as int);
            assert(rest[0] == k as int);
            assert(rest.drop_first() =~= path_view(path@).skip(depth as int + 1));
            if k >= node.children.len() {
                return None;
            }
            proof {
                Self::lemma_view_children(*node);
            }
            node = &node.children[k];
            depth = depth + 1;
        }
        Some(node)
    }

    /// Writes down the outcome of the work on the leaf at `path`.
    pub fn record(&mut self, path: &Vec<usize>, direction: Direction, outcome: Result<(), ActionError>)
        ensures
            final(self)@ == old(self)@.recorded(
                path_view(path@),
                direction,
                reported(outcome),
            ),
    {
        assert(path_view(path@).skip(0) =~= path_view(path@));
        self.record_from(path, 0, direction, outcome);
    }

    fn record_from(
        &mut self,
        path: &Vec<usize>,
        depth: usize,
        direction: Direction,
        outcome: Result<(), ActionError>,
    )
        requires
            depth <= path@.len(),
        ensures
            final(self)@ == old(self)@.recorded(
                path_view(path@).skip(depth as int),
                direction,
                reported(outcome),
            ),
        decreases path@.len() - depth,
    {
        let ghost before = self@;
        let ghost rest = path_view(path@).skip(depth as int);
        let ghost report = reported(outcome);
        if depth == path.len() {
            if !self.action.is_composite() {
                match outcome {
                    Ok(_) => {
                        self.state = direction.goal_state();
                        self.failure = None;
                    },
                    Err(error) => {
                        self.failure = Some((direction, error));
                    },
                }
            }
            assert(self@ =~= before.recorded(rest, direction, report));
        } else {
            let k = path[depth];
            assert(rest[0] == k as int);
            assert(rest.drop_first() =~= path_view(path@).skip(depth as int + 1));
            if k < self.children.len() {
                proof {
                    Self::lemma_view_children(*self);
                }
                self.children[k].record_from(path, depth + 1, direction, outcome);
                proof {
                    Self::lemma_view_children(*self);
                    assert(self@.children =~= before.recorded(rest, direction, report).children);
                }
            }
        }
    }

    /// Moves the failure that the tree reports in `direction` out of it, if
    /// it reports one, and takes every mark of failure off the tree.
    pub fn take_failure(&mut self, host: OperatingSystem, direction: Direction) -> (report: Option<
        ActionError,
    >)
        ensures
            match report {
                Some(error) => old(self)@.signal(host, direction) == Signal::Failed(error@),
                None => !(old(self)@.signal(host, direction) is Failed),
            },
            final(self)@ == old(self)@.cleared(),
    {
        match self.take(host, direction) {
            Taken::Failed(error) => Some(error),
            _ => None,
        }
    }

    fn take(&mut self, host: OperatingSystem, direction: Direction) -> (taken: Taken)
        ensures
            taken.tells(old(self)@.signal(host, direction)),
            final(self)@ == old(self)@.cleared(),
        decreases *old(self),
    {
        let ghost before = self@;
        let in_goal = self.state == direction.goal_state();
        let composite = self.action.is_composite();
        let own = self.failure.take();
        let count = self.children.len();
        let mut position: usize = 0;
        let mut errors: Vec<ActionError> = Vec::new();
        let mut early: Option<Taken> = None;
        assert(failures(errors@) =~= Seq::<Failure>::empty());
        while position < count
            invariant
                position <= count,
                count == self.children@.len(),
                count == before.children.len(),
                self.action == before.action,
                self.state == before.state,
                self.failure is None,
                before == old(self)@,
                forall|k: int|
                    0 <= k < count && child_at(count as int, direction, k) >= position
                        ==> self.children@[k] == #[trigger] old(self).children@[k],
                forall|k: int|
                    0 <= k < count && child_at(count as int, direction, k) < position
                        ==> (#[trigger] self.children@[k])@ == before.children[k].cleared(),
                match early {
                    Some(taken) => taken.tells(
                        Node::scan(before.action, before.children, host, direction, 0, Seq::empty()),
                    ),
                    None => Node::scan(before.action, before.children, host, direction, 0, Seq::empty())
                        == Node::scan(
                        before.action,
                        before.children,
                        host,
                        direction,
                        position as int,
                        failures(errors@),
                    ),
                },
            decreases count - position,
        {
            let k = match direction {
                Direction::Forward => position,
                Direction::Reverse => count - 1 - position,
            };
            let mode = self.action.child_mode(host, direction, k);
            assert(self.children@[k as int] == old(self).children@[k as int]);
            proof {
                Self::lemma_view_children(*old(self));
            }
            let ghost kept = failures(errors@);
            if early.is_none() && errors.len() > 0 && mode != ChildMode::Gather {
                let mut found: Vec<ActionError> = Vec::new();
                core::mem::swap(&mut errors, &mut found);
                match ActionError::gather(found) {
                    Some(error) => {
                        early = Some(Taken::Failed(error));
                    },
                    None => {},
                }
            }
            let child = self.children[k].take(host, direction);
            if early.is_none() {
                match child {
                    Taken::Pending => {
                        early = Some(Taken::Pending);
                    },
                    Taken::Done => {},
                    Taken::Failed(error) => {
                        match mode {
                            ChildMode::Strict => {
                                early = Some(Taken::Failed(error));
                            },
                            ChildMode::Tolerant => {},
                            ChildMode::Gather => {
                                let ghost report = error@;
                                errors.push(error);
                                assert(failures(errors@) =~= kept.push(report));
                            },
                        }
                    },
                }
            }
            position = position + 1;
        }
        proof {
            Self::lemma_view_children(*self);
            assert(self@.children =~= before.cleared().children);
        }
        if in_goal {
            Taken::Done
        } else if !composite {
            match own {
                Some((at, error)) => {
                    if at == direction {
                        Taken::Failed(error)
                    } else {
                        Taken::Pending
                    }
                },
                None => Taken::Pending,
            }
        } else {
            match early {
                Some(taken) => taken,
                None => match ActionError::gather(errors) {
                    Some(error) => Taken::Failed(error),
                    None => Taken::Done,
                },
            }
        }
    }

    /// The children of the plain value are the plain values of the children.
    pub proof fn lemma_view_children(tree: StatefulAction)
        ensures
            tree@.children.len() == tree.children@.len(),
            forall|k: int| 0 <= k < tree.children@.len() ==> tree@.children[k] == (#[trigger] tree.children@[k])@,
    {
    }
}

/// An action that is in the goal state of a direction is left alone when it
/// is driven in that direction: nothing is asked for, and nothing changes.
pub proof fn lemma_goal_is_rest(node: Node, host: OperatingSystem, direction: Direction)
    requires
        node.state == direction.goal(),
    ensures
        node.signal(host, direction) is Done,
        node.prepared(host, direction) == node,
{
}

/// When nothing is left to do, the action is in the goal state.
pub proof fn lemma_done_reaches_goal(node: Node, host: OperatingSystem, direction: Direction)
    requires
        node.signal(host, direction) is Done,
    ensures
        node.prepared(host, direction).state == direction.goal(),
{
}

/// Where `scan` asks for work, it asks for it in a child that it visits,
/// and every child visited before is done, or has failed in a way that its
/// parent passes over or keeps for later.
pub proof fn lemma_scan_work(
    parent: Action,
    children: Seq<Node>,
    host: OperatingSystem,
    direction: Direction,
    position: int,
    kept: Seq<Failure>,
)
    requires
        0 <= position,
        Node::scan(parent, children, host, direction, position, kept) is Work,
    ensures
        ({
            let path = Node::scan(parent, children, host, direction, position, kept)->Work_0;
            let count = children.len() as int;
            &&& path.len() > 0
            &&& 0 <= path[0] < count
            &&& position <= child_at(count, direction, path[0])
            &&& child_at(count, direction, path[0]) < Node::visited(
                parent,
                children,
                host,
                direction,
                position,
                kept,
            )
            &&& children[path[0]].signal(host, direction) == Signal::Work(path.drop_first())
            &&& forall|j: int|
                0 <= j < count && position <= child_at(count, direction, j) < child_at(
                    count,
                    direction,
                    path[0],
                ) ==> {
                    let earlier = (#[trigger] children[j]).signal(host, direction);
                    earlier is Done || (earlier is Failed && parent.mode_of(host, direction, j)
                        != ChildMode::Strict)
                }
        }),
    decreases children.len() - position,
{
    let count = children.len() as int;
    if position < count {
        let k = child_at(count, direction, position);
        let mode = parent.mode_of(host, direction, k);
        assert(child_at(count, direction, k) == position);
        match children[k].signal(host, direction) {
            Signal::Work(rest) => {
                assert((seq![k] + rest).drop_first() =~= rest);
            },
            Signal::Done => {
                lemma_scan_work(parent, children, host, direction, position + 1, kept);
            },
            Signal::Failed(report) => {
                match mode {
                    ChildMode::Strict => {},
                    ChildMode::Tolerant => {
                        lemma_scan_work(parent, children, host, direction, position + 1, kept);
                    },
                    ChildMode::Gather => {
                        lemma_scan_work(parent, children, host, direction, position + 1, kept.push(report));
                    },
                }
            },
        }
        let path = Node::scan(parent, children, host, direction, position, kept)->Work_0;
        assert forall|j: int|
            0 <= j < count && position <= child_at(count, direction, j) < child_at(
                count,
                direction,
                path[0],
            ) implies {
            let earlier = (#[trigger] children[j]).signal(host, direction);
            earlier is Done || (earlier is Failed && parent.mode_of(host, direction, j)
                != ChildMode::Strict)
        } by {
            if child_at(count, direction, j) == position {
                assert(j == k);
            }
        }
    }
}

/// The order in which a composite's children are worked on.
///
/// Where a composite asks for work in one of its children, every child that
/// comes before it in the direction's order (declared order forward, the
/// opposite order in reverse) needs no more work, or has failed in a way
/// that the composite passes over or keeps for later; under the rule
/// `Strict` it needs no more work.
pub proof fn lemma_children_in_order(node: Node, host: OperatingSystem, direction: Direction)
    requires
        node.action.composite(),
        node.signal(host, direction) is Work,
    ensures
        ({
            let path = node.signal(host, direction)->Work_0;
            let count = node.children.len() as int;
            &&& path.len() > 0
            &&& 0 <= path[0] < count
            &&& node.children[path[0]].signal(host, direction) == Signal::Work(path.drop_first())
            &&& forall|j: int|
                0 <= j < count && child_at(count, direction, j) < child_at(count, direction, path[0])
                    ==> {
                    let earlier = (#[trigger] node.children[j]).signal(host, direction);
                    earlier is Done || (earlier is Failed && node.action.mode_of(host, direction, j)
                        != ChildMode::Strict)
                }
        }),
{
    lemma_scan_work(node.action, node.children, host, direction, 0, Seq::empty());
}

/// The path that is asked for leads to a leaf, and the tree has been
/// prepared for the work: the leaf is in `Progress` and bears no mark of
/// failure for this direction.
pub proof fn lemma_work_names_leaf(node: Node, host: OperatingSystem, direction: Direction)
    requires
        node.signal(host, direction) is Work,
    ensures
        ({
            let path = node.signal(host, direction)->Work_0;
            let found = node.prepared(host, direction).at(path);
            &&& found is Some
            &&& !found->0.action.composite()
            &&& found->0.state == ActionState::Progress
            &&& marked(found->0.failure, direction) is None
        }),
    decreases node,
{
    if node.action.composite() {
        lemma_scan_work(node.action, node.children, host, direction, 0, Seq::empty());
        let path = node.signal(host, direction)->Work_0;
        lemma_work_names_leaf(node.children[path[0]], host, direction);
    }
}

/// What `scan` answers depends on the children only through what they ask.
pub proof fn lemma_scan_by_signals(
    parent: Action,
    a: Seq<Node>,
    b: Seq<Node>,
    host: OperatingSystem,
    direction: Direction,
    position: int,
    kept: Seq<Failure>,
)
    requires
        a.len() == b.len(),
        forall|k: int| 0 <= k < a.len() ==> a[k].signal(host, direction) == b[k].signal(host, direction),
    ensures
        Node::scan(parent, a, host, direction, position, kept) == Node::scan(
            parent,
            b,
            host,
            direction,
            position,
            kept,
        ),
    decreases a.len() - position,
{
    let count = a.len() as int;
    if 0 <= position < count {
        let k = child_at(count, direction, position);
        match a[k].signal(host, direction) {
            Signal::Failed(report) => {
                lemma_scan_by_signals(parent, a, b, host, direction, position + 1, kept);
                lemma_scan_by_signals(parent, a, b, host, direction, position + 1, kept.push(report));
            },
            _ => {
                lemma_scan_by_signals(parent, a, b, host, direction, position + 1, kept);
            },
        }
    }
}

/// One leaf at a time: a tree that is asked again, before the outcome of the
/// work it asked for has been written down, asks for the same thing.
pub proof fn lemma_asked_again(node: Node, host: OperatingSystem, direction: Direction)
    ensures
        node.prepared(host, direction).signal(host, direction) == node.signal(host, direction),
    decreases node,
{
    let after = node.prepared(host, direction);
    if node.state != direction.goal() && node.action.composite() {
        if !(node.signal(host, direction) is Done) {
            assert forall|k: int| 0 <= k < node.children.len() implies after.children[k].signal(
                host,
                direction,
            ) == node.children[k].signal(host, direction) by {
                lemma_asked_again(node.children[k], host, direction);
            }
            lemma_scan_by_signals(
                node.action,
                after.children,
                node.children,
                host,
                direction,
                0,
                Seq::empty(),
            );
        }
    }
}

/// Work that succeeds brings the leaf into the goal state; work that fails
/// leaves the leaf in `Progress`, marked with the failure.
pub proof fn lemma_outcome_recorded(
    node: Node,
    host: OperatingSystem,
    direction: Direction,
    outcome: Option<Failure>,
)
    requires
        node.signal(host, direction) is Work,
    ensures
        ({
            let path = node.signal(host, direction)->Work_0;
            let leaf = node.prepared(host, direction).recorded(path, direction, outcome).at(path);
            &&& leaf is Some
            &&& match outcome {
                None => leaf->0.state == direction.goal(),
                Some(report) => leaf->0.state == ActionState::Progress && leaf->0.signal(
                    host,
                    direction,
                ) == Signal::Failed(report),
            }
        }),
    decreases node,
{
    if node.action.composite() {
        lemma_scan_work(node.action, node.children, host, direction, 0, Seq::empty());
        let path = node.signal(host, direction)->Work_0;
        lemma_outcome_recorded(node.children[path[0]], host, direction, outcome);
    }
}

} // verus!
