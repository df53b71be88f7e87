//! The run of a plan, one outcome at a time.
//!
//! A plan is a list of steps, each at a depth: a step that enters a directory opens a scope,
//! and the steps that follow it at a greater depth stand inside that scope. The run asks for
//! one action at a time and is told how it went. It goes back to the directory of a scope
//! when the plan leaves it, and also when a step has failed: then it leaves every open scope,
//! innermost first, and ends with the failure.

use crate::command_args::Stage;
use crate::error::{BuildError, BuildErrorView};
use vstd::prelude::*;

verus! {

/// One command to run through the shell.
#[derive(Clone, Debug, PartialEq, Eq)]
pub struct Invocation {
    /// The command line.
    pub command: String,
    /// Whether the output goes to the build log and not to the console.
    pub capture: bool,
    /// The build log.
    pub log_path: String,
    /// The stages that the command carries out.
    pub stages: Vec<Stage>,
}

/// An `Invocation` with its strings as sequences of characters.
pub struct InvocationView {
    pub command: Seq<char>,
    pub capture: bool,
    pub log_path: Seq<char>,
    pub stages: Seq<Stage>,
}

impl DeepView for Invocation {
    type V = InvocationView;

    open spec fn deep_view(&self) -> InvocationView {
        InvocationView {
            command: self.command@,
            capture: self.capture,
            log_path: self.log_path@,
            stages: self.stages@,
        }
    }
}

/// What a step of a plan does.
#[derive(Clone, Debug, PartialEq, Eq)]
pub enum Operation {
    /// Makes `dir` the working directory, for the steps that follow at a greater depth.
    Enter { dir: String },
    /// Removes the tree below `path`. That this fails does not end the run.
    Remove { path: String },
    /// Creates the directory `path`, with its ancestors, unless it exists.
    Create { path: String },
    /// Runs a command.
    Run { invocation: Invocation },
}

/// An `Operation` with its strings as sequences of characters.
pub enum OperationView {
    Enter { dir: Seq<char> },
    Remove { path: Seq<char> },
    Create { path: Seq<char> },
    Run { invocation: InvocationView },
}

impl DeepView for Operation {
    type V = OperationView;

    open spec fn deep_view(&self) -> OperationView {
        match self {
            Operation::Enter { dir } => OperationView::Enter { dir: dir@ },
            Operation::Remove { path } => OperationView::Remove { path: path@ },
            Operation::Create { path } => OperationView::Create { path: path@ },
            Operation::Run { invocation } => OperationView::Run {
                invocation: invocation.deep_view(),
            },
        }
    }
}

/// A step of a plan: an operation, and the number of scopes that it stands in.
#[derive(Clone, Debug, PartialEq, Eq)]
pub struct Step {
    pub depth: usize,
    pub operation: Operation,
}

/// A `Step` with its strings as sequences of characters.
pub struct StepView {
    pub depth: nat,
    pub operation: OperationView,
}

impl DeepView for Step {
    type V = StepView;

    open spec fn deep_view(&self) -> StepView {
        StepView { depth: self.depth as nat, operation: self.operation.deep_view() }
    }
}

/// What the run asks for next.
#[derive(Debug, PartialEq, Eq)]
pub enum Action {
    /// Note the working directory, then make `target` the working directory.
    EnterDirectory { target: String },
    /// Make `saved` the working directory again.
    RestoreDirectory { saved: String },
    /// Remove the tree below `path`.
    RemoveTree { path: String },
    /// Create the directory `path`, with its ancestors, unless it exists.
    EnsureDirectory { path: String },
    /// Run a command and wait for it.
    Run { invocation: Invocation },
    /// Nothing: the run is over, with this result.
    Finish { result: Result<(), BuildError> },
}

/// An `Action` with its strings as sequences of characters.
pub enum ActionView {
    EnterDirectory { target: Seq<char> },
    RestoreDirectory { saved: Seq<char> },
    RemoveTree { path: Seq<char> },
    EnsureDirectory { path: Seq<char> },
    Run { invocation: InvocationView },
    Finish { result: Result<(), BuildErrorView> },
}

impl DeepView for Action {
    type V = ActionView;

    open spec fn deep_view(&self) -> ActionView {
        match self {
            Action::EnterDirectory { target } => ActionView::EnterDirectory { target: target@ },
            Action::RestoreDirectory { saved } => ActionView::RestoreDirectory { saved: saved@ },
            Action::RemoveTree { path } => ActionView::RemoveTree { path: path@ },
            Action::EnsureDirectory { path } => ActionView::EnsureDirectory { path: path@ },
            Action::Run { invocation } => ActionView::Run { invocation: invocation.deep_view() },
            Action::Finish { result } => ActionView::Finish {
                result: match result {
                    Ok(_) => Ok(()),
                    Err(error) => Err(error.deep_view()),
                },
            },
        }
    }
}

/// How an action went.
#[derive(Clone, Debug, PartialEq, Eq)]
pub enum Event {
    /// The directory was entered; `previous` was the working directory before.
    Entered { previous: String },
    /// The action was carried out.
    Done,
    /// The command ran and ended, with this exit status if it has one.
    Exited { status: Option<i32> },
    /// The action could not be carried out.
    Failed { message: String },
}

/// An `Event` with its strings as sequences of characters.
pub enum EventView {
    Entered { previous: Seq<char> },
    Done,
    Exited { status: Option<i32> },
    Failed { message: Seq<char> },
}

impl DeepView for Event {
    type V = EventView;

    open spec fn deep_view(&self) -> EventView {
        match self {
            Event::Entered { previous } => EventView::Entered { previous: previous@ },
            Event::Done => EventView::Done,
            Event::Exited { status } => EventView::Exited { status: *status },
            Event::Failed { message } => EventView::Failed { message: message@ },
        }
    }
}

/// The state of a run.
pub struct PipelineView {
    /// The plan.
    pub plan: Seq<StepView>,
    /// How many steps of the plan are behind the run.
    pub next: nat,
    /// The directories to go back to, one for each open scope, the innermost last.
    pub saved: Seq<Seq<char>>,
    /// The failure that ends the run, once there is one.
    pub failure: Option<BuildErrorView>,
}

/// The state in which the run of `plan` begins.
pub open spec fn start_of(plan: Seq<StepView>) -> PipelineView {
    PipelineView { plan, next: 0, saved: Seq::empty(), failure: None }
}

/// What a failed action said, or nothing where the event is no failure.
pub open spec fn message_of(event: EventView) -> Seq<char> {
    match event {
        EventView::Failed { message } => message,
        _ => Seq::empty(),
    }
}

/// The exit status that an event reports, if it reports one.
pub open spec fn status_of(event: EventView) -> Option<i32> {
    match event {
        EventView::Exited { status } => status,
        _ => None,
    }
}

/// Whether no further step of the plan is taken: a step has failed, or none is left.
pub open spec fn winding_up(s: PipelineView) -> bool {
    s.failure is Some || s.next >= s.plan.len()
}

/// The number of scopes that may stay open for what comes next.
pub open spec fn depth_wanted(s: PipelineView) -> nat {
    if winding_up(s) {
        0
    } else {
        s.plan[s.next as int].depth
    }
}

/// The action that asks for `operation`.
pub open spec fn action_for(operation: OperationView) -> ActionView {
    match operation {
        OperationView::Enter { dir } => ActionView::EnterDirectory { target: dir },
        OperationView::Remove { path } => ActionView::RemoveTree { path },
        OperationView::Create { path } => ActionView::EnsureDirectory { path },
        OperationView::Run { invocation } => ActionView::Run { invocation },
    }
}

/// What the run asks for in state `s`: first to leave the scopes that what comes next does
/// not stand in, then the next step of the plan, and at the end nothing.
pub open spec fn action_of(s: PipelineView) -> ActionView {
    if s.saved.len() > depth_wanted(s) {
        ActionView::RestoreDirectory { saved: s.saved.last() }
    } else if winding_up(s) {
        ActionView::Finish {
            result: match s.failure {
                Some(error) => Err(error),
                None => Ok(()),
            },
        }
    } else {
        action_for(s.plan[s.next as int].operation)
    }
}

/// The state after the action of state `s` went as `event` says.
///
/// A scope is left whether or not going back succeeded, and a failure to go back becomes the
/// failure of the run. Removing a tree never fails the run. A command succeeds only with exit
/// status zero. Any other action fails unless its proper event comes back.
pub open spec fn advanced(s: PipelineView, event: EventView) -> PipelineView {
    match action_of(s) {
        ActionView::RestoreDirectory { saved } => PipelineView {
            saved: s.saved.drop_last(),
            failure: if event is Done {
                s.failure
            } else {
                Some(BuildErrorView::Filesystem { path: saved, message: message_of(event) })
            },
            ..s
        },
        ActionView::Finish { .. } => s,
        ActionView::EnterDirectory { target } => match event {
            EventView::Entered { previous } => PipelineView {
                saved: s.saved.push(previous),
                next: s.next + 1,
                ..s
            },
            _ => PipelineView {
                failure: Some(
                    BuildErrorView::Filesystem { path: target, message: message_of(event) },
                ),
                ..s
            },
        },
        ActionView::RemoveTree { .. } => PipelineView { next: s.next + 1, ..s },
        ActionView::EnsureDirectory { path } => if event is Done {
            PipelineView { next: s.next + 1, ..s }
        } else {
            PipelineView {
                failure: Some(BuildErrorView::Filesystem { path, message: message_of(event) }),
                ..s
            }
        },
        ActionView::Run { invocation } => if event == (EventView::Exited { status: Some(0i32) }) {
            PipelineView { next: s.next + 1, ..s }
        } else {
            PipelineView {
                failure: Some(
                    BuildErrorView::CommandFailed {
                        command: invocation.command,
                        status: status_of(event),
                    },
                ),
                ..s
            }
        },
    }
}

/// The stages that an operation carries out.
pub open spec fn stages_in(operation: OperationView) -> Seq<Stage> {
    match operation {
        OperationView::Remove { .. } => seq![Stage::Clean],
        OperationView::Run { invocation } => invocation.stages,
        _ => Seq::empty(),
    }
}

/// The stages that a plan carries out, in the order in which it does.
pub open spec fn stages_performed(plan: Seq<StepView>) -> Seq<Stage>
    decreases plan.len(),
{
    if plan.len() == 0 {
        Seq::empty()
    } else {
        stages_performed(plan.drop_last()) + stages_in(plan.last().operation)
    }
}

/// How far a build has come.
#[derive(Copy, Clone, Debug, PartialEq, Eq, Structural)]
pub enum Progress {
    /// No stage has been carried out.
    NotStarted,
    /// The build tree has been removed.
    Cleaned,
    /// The build tree has been configured.
    Configured,
    /// The project has been built.
    Built,
    /// The project has been installed.
    Installed,
    /// A step has failed.
    Failed,
}

/// The progress that carrying out `stage` makes.
pub open spec fn reached(stage: Stage) -> Progress {
    match stage {
        Stage::Clean => Progress::Cleaned,
        Stage::Configure => Progress::Configured,
        Stage::Build => Progress::Built,
        Stage::Install => Progress::Installed,
    }
}

/// The progress after the stages `done`, in their order.
pub open spec fn progress_after(done: Seq<Stage>) -> Progress {
    if done.len() == 0 {
        Progress::NotStarted
    } else {
        reached(done.last())
    }
}

/// How far the run in state `s` has come: it has failed, or it has reached the last stage of
/// the steps that are behind it.
pub open spec fn progress_of(s: PipelineView) -> Progress {
    if s.failure is Some {
        Progress::Failed
    } else {
        let behind = if s.next <= s.plan.len() {
            s.next as int
        } else {
            s.plan.len() as int
        };
        progress_after(stages_performed(s.plan.subrange(0, behind)))
    }
}

/// A run of a plan.
pub struct Pipeline {
    plan: Vec<Step>,
    next: usize,
    saved: Vec<String>,
    failure: Option<BuildError>,
}

impl DeepView for Pipeline {
    type V = PipelineView;

    closed spec fn deep_view(&self) -> PipelineView {
        PipelineView {
            plan: self.plan.deep_view(),
            next: self.next as nat,
            saved: self.saved.deep_view(),
            failure: self.failure.deep_view(),
        }
    }
}

impl Invocation {
    /// A copy of the invocation.
    pub fn duplicate(&self) -> (r: Invocation)
        ensures
            r.deep_view() == self.deep_view(),
    {
        let n: usize = self.stages.len();
        let mut stages: Vec<Stage> = Vec::new();
        let mut i: usize = 0;
        while i < n
            invariant
                n == self.stages.len(),
                i <= n,
                stages@ == self.stages@.subrange(0, i as int),
            decreases n - i,
        {
            stages.push(self.stages[i]);
            assert(stages@ == self.stages@.subrange(0, i + 1));
            i += 1;
        }
        assert(stages@ == self.stages@);
        Invocation {
            command: self.command.clone(),
            capture: self.capture,
            log_path: self.log_path.clone(),
            stages,
        }
    }
}

impl Operation {
    /// The action that asks for the operation.
    pub fn action(&self) -> (r: Action)
        ensures
            r.deep_view() == action_for(self.deep_view()),
    {
        match self {
            Operation::Enter { dir } => Action::EnterDirectory { target: dir.clone() },
            Operation::Remove { path } => Action::RemoveTree { path: path.clone() },
            Operation::Create { path } => Action::EnsureDirectory { path: path.clone() },
            Operation::Run { invocation } => Action::Run { invocation: invocation.duplicate() },
        }
    }
}

impl Event {
    /// What a failed action said, or nothing where the event is no failure.
    pub fn message(self) -> (r: String)
        ensures
            r@ == message_of(self.deep_view()),
    {
        match self {
            Event::Failed { message } => message,
            _ => String::new(),
        }
    }

    /// The exit status that the event reports, if it reports one.
    pub fn status(&self) -> (r: Option<i32>)
        ensures
            r == status_of(self.deep_view()),
    {
        match self {
            Event::Exited { status } => *status,
            _ => None,
        }
    }

    /// Whether the event says that an action was carried out.
    pub fn is_done(&self) -> (r: bool)
        ensures
            r == (self.deep_view() is Done),
    {
        match self {
            Event::Done => true,
            _ => false,
        }
    }

    /// Whether the event says that a command ended with exit status zero.
    pub fn is_success(&self) -> (r: bool)
        ensures
            r == (self.deep_view() == (EventView::Exited { status: Some(0i32) })),
    {
        match self {
            Event::Exited { status: Some(code) } => *code == 0,
            _ => false,
        }
    }
}

impl Pipeline {
    /// The run of `plan`, at its start.
    pub fn new(plan: Vec<Step>) -> (r: Pipeline)
        ensures
            r.deep_view() == start_of(plan.deep_view()),
    {
        let r = Pipeline { plan, next: 0, saved: Vec::new(), failure: None };
        assert(r.saved.deep_view() == Seq::<Seq<char>>::empty());
        r
    }

    /// Whether no further step of the plan is taken.
    pub fn is_winding_up(&self) -> (r: bool)
        ensures
            r == winding_up(self.deep_view()),
    {
        self.failure.is_some() || self.next >= self.plan.len()
    }

    /// How far the run has come.
    pub fn progress(&self) -> (r: Progress)
        ensures
            r == progress_of(self.deep_view()),
    {
        if self.failure.is_some() {
            return Progress::Failed;
        }
        let behind: usize = if self.next <= self.plan.len() {
            self.next
        } else {
            self.plan.len()
        };
        let ghost plan = self.plan.deep_view();
        let mut progress = Progress::NotStarted;
        let mut i: usize = 0;
        assert(plan.subrange(0, 0) == Seq::<StepView>::empty());
        while i < behind
            invariant
                behind <= self.plan.len(),
                i <= behind,
                plan == self.plan.deep_view(),
                progress == progress_after(stages_performed(plan.subrange(0, i as int))),
            decreases behind - i,
        {
            assert(plan.subrange(0, i + 1).drop_last() == plan.subrange(0, i as int));
            assert(plan.subrange(0, i + 1).last() == self.plan[i as int].deep_view());
            match &self.plan[i].operation {
                Operation::Remove { .. } => {
                    progress = Progress::Cleaned;
                },
                Operation::Run { invocation } => {
                    let n: usize = invocation.stages.len();
                    if n > 0 {
                        progress = match invocation.stages[n - 1] {
                            Stage::Clean => Progress::Cleaned,
                            Stage::Configure => Progress::Configured,
                            Stage::Build => Progress::Built,
                            Stage::Install => Progress::Installed,
                        };
                    } else {
                        assert(stages_performed(plan.subrange(0, i as int))
                            + invocation.stages@ == stages_performed(
                            plan.subrange(0, i as int),
                        ));
                    }
                },
                _ => {
                    assert(stages_performed(plan.subrange(0, i as int)) + Seq::<Stage>::empty()
                        == stages_performed(plan.subrange(0, i as int)));
                },
            }
            i += 1;
        }
        progress
    }

    /// What the run asks for next.
    pub fn action(&self) -> (r: Action)
        ensures
            r.deep_view() == action_of(self.deep_view()),
    {
        let winding_up = self.is_winding_up();
        let wanted: usize = if winding_up {
            0
        } else {
            self.plan[self.next].depth
        };
        if self.saved.len() > wanted {
            Action::RestoreDirectory { saved: self.saved[self.saved.len() - 1].clone() }
        } else if winding_up {
            Action::Finish {
                result: match &self.failure {
                    Some(error) => Err(error.duplicate()),
                    None => Ok(()),
                },
            }
        } else {
            self.plan[self.next].operation.action()
        }
    }

    /// Takes note of how the action that the run asked for went.
    pub fn advance(&mut self, event: Event)
        ensures
            final(self).deep_view() == advanced(old(self).deep_view(), event.deep_view()),
    {
        let ghost before_all = self.deep_view();
        let action = self.action();
        assert(!(action.deep_view() is RestoreDirectory) && !(action.deep_view() is Finish)
            ==> self.next < self.plan.len()) by {
            assert(self.plan.deep_view().len() == self.plan.len());
            if !(action.deep_view() is RestoreDirectory) && !(action.deep_view() is Finish) {
                assert(!winding_up(before_all));
            }
        }
        match action {
            Action::RestoreDirectory { saved } => {
                let ghost before = self.saved.deep_view();
                self.saved.pop();
                assert(self.saved.deep_view() == before.drop_last());
                if !event.is_done() {
                    self.failure = Some(
                        BuildError::Filesystem { path: saved, message: event.message() },
                    );
                }
            },
            Action::Finish { .. } => {},
            Action::EnterDirectory { target } => {
                match event {
                    Event::Entered { previous } => {
                        let ghost before = self.saved.deep_view();
                        self.saved.push(previous);
                        assert(self.saved.deep_view() == before.push(previous@));
                        self.next = self.next + 1;
                    },
                    other => {
                        self.failure = Some(
                            BuildError::Filesystem { path: target, message: other.message() },
                        );
                    },
                }
            },
            Action::RemoveTree { .. } => {
                self.next = self.next + 1;
            },
            Action::EnsureDirectory { path } => {
                if event.is_done() {
                    self.next = self.next + 1;
                } else {
                    self.failure = Some(
                        BuildError::Filesystem { path, message: event.message() },
                    );
                }
            },
            Action::Run { invocation } => {
                if event.is_success() {
                    self.next = self.next + 1;
                } else {
                    self.failure = Some(
                        BuildError::CommandFailed {
                            command: invocation.command,
                            status: event.status(),
                        },
                    );
                }
            },
        }
    }
}

/// The working directory after `action` went as `event` says, where it was `cwd` before.
pub open spec fn directory_after(cwd: Seq<char>, action: ActionView, event: EventView) -> Seq<
    char,
> {
    match action {
        ActionView::EnterDirectory { target } => if event is Entered {
            target
        } else {
            cwd
        },
        ActionView::RestoreDirectory { saved } => if event is Done {
            saved
        } else {
            cwd
        },
        _ => cwd,
    }
}

/// Whether `event` tells the truth about the working directory `cwd`: a directory that was
/// entered was entered from `cwd`.
pub open spec fn truthful(cwd: Seq<char>, action: ActionView, event: EventView) -> bool {
    action is EnterDirectory ==> (event matches EventView::Entered { previous } ==> previous
        == cwd)
}

/// The state and the working directory after a run has been told `events`, one after
/// another, starting in state `s` with working directory `cwd`.
pub open spec fn run(s: PipelineView, cwd: Seq<char>, events: Seq<EventView>) -> (
    PipelineView,
    Seq<char>,
)
    decreases events.len(),
{
    if events.len() == 0 {
        (s, cwd)
    } else {
        run(
            advanced(s, events[0]),
            directory_after(cwd, action_of(s), events[0]),
            events.drop_first(),
        )
    }
}

/// Whether `events` belong to a scope with `depth` scopes around it: every event is
/// truthful, no scope around it is left, and where the run goes back to the directory of the
/// scope itself, that succeeds.
pub open spec fn within_scope(
    s: PipelineView,
    cwd: Seq<char>,
    events: Seq<EventView>,
    depth: nat,
) -> bool
    decreases events.len(),
{
    events.len() > 0 ==> {
        let action = action_of(s);
        let event = events[0];
        &&& truthful(cwd, action, event)
        &&& action is RestoreDirectory ==> s.saved.len() > depth
        &&& action is RestoreDirectory && s.saved.len() == depth + 1 ==> event is Done
        &&& within_scope(
            advanced(s, event),
            directory_after(cwd, action, event),
            events.drop_first(),
            depth,
        )
    }
}

/// The working directory that is current once all scopes but the outer `depth` are left.
pub open spec fn home(s: PipelineView, cwd: Seq<char>, depth: nat) -> Seq<char> {
    if s.saved.len() > depth {
        s.saved[depth as int]
    } else {
        cwd
    }
}

/// How far a run is from its end, at most: every action but the last brings it closer.
pub open spec fn distance(s: PipelineView) -> nat {
    let left = if s.next < s.plan.len() {
        (s.plan.len() - s.next) as nat
    } else {
        0
    };
    2 * left + s.saved.len() + if s.failure is None {
        1nat
    } else {
        0nat
    }
}

/// A run takes the steps of its plan in their order: an outcome moves it on by one step or
/// leaves it where it is, and never changes the plan.
pub proof fn lemma_steps_in_order(s: PipelineView, event: EventView)
    ensures
        advanced(s, event).plan == s.plan,
        advanced(s, event).next == s.next || advanced(s, event).next == s.next + 1,
        advanced(s, event).next == s.next + 1 ==> s.next < s.plan.len() && action_of(s)
            == action_for(s.plan[s.next as int].operation),
{
}

/// Removing a tree cannot fail a run: whatever comes back, the run goes on with the next
/// step.
pub proof fn lemma_removal_never_fails(s: PipelineView, event: EventView)
    requires
        action_of(s) is RemoveTree,
    ensures
        advanced(s, event).failure is None,
        advanced(s, event).next == s.next + 1,
        advanced(s, event).saved == s.saved,
{
}

/// After a failure no step of the plan is taken any more: the run only leaves the scopes
/// that are open and then ends with a failure.
pub proof fn lemma_failure_is_final(s: PipelineView, event: EventView)
    requires
        s.failure is Some,
    ensures
        action_of(s) is RestoreDirectory || action_of(s) is Finish,
        action_of(s) matches ActionView::Finish { result } ==> result is Err,
        advanced(s, event).failure is Some,
        advanced(s, event).next == s.next,
{
}

/// A run ends only with all scopes left, and with success only when the whole plan is behind
/// it.
pub proof fn lemma_finish(s: PipelineView)
    requires
        action_of(s) is Finish,
    ensures
        s.saved.len() == 0,
        action_of(s) == (ActionView::Finish { result: Ok(()) }) <==> s.failure is None,
        s.failure is None ==> s.next >= s.plan.len(),
{
}

/// Every run ends: each outcome of an action other than the last brings the end closer.
pub proof fn lemma_run_ends(s: PipelineView, event: EventView)
    requires
        !(action_of(s) is Finish),
    ensures
        distance(advanced(s, event)) < distance(s),
{
}

/// One outcome inside a scope does not change the directory that the scope goes back to.
proof fn lemma_step_keeps_home(s: PipelineView, cwd: Seq<char>, event: EventView, depth: nat)
    requires
        s.saved.len() >= depth,
        truthful(cwd, action_of(s), event),
        action_of(s) is RestoreDirectory ==> s.saved.len() > depth,
        action_of(s) is RestoreDirectory && s.saved.len() == depth + 1 ==> event is Done,
    ensures
        advanced(s, event).saved.len() >= depth,
        home(advanced(s, event), directory_after(cwd, action_of(s), event), depth) == home(
            s,
            cwd,
            depth,
        ),
{
}

/// The events of a scope do not change the directory that the scope goes back to.
proof fn lemma_run_keeps_home(
    s: PipelineView,
    cwd: Seq<char>,
    events: Seq<EventView>,
    depth: nat,
)
    requires
        s.saved.len() >= depth,
        within_scope(s, cwd, events, depth),
    ensures
        run(s, cwd, events).0.saved.len() >= depth,
        home(run(s, cwd, events).0, run(s, cwd, events).1, depth) == home(s, cwd, depth),
    decreases events.len(),
{
    if events.len() > 0 {
        lemma_step_keeps_home(s, cwd, events[0], depth);
        lemma_run_keeps_home(
            advanced(s, events[0]),
            directory_after(cwd, action_of(s), events[0]),
            events.drop_first(),
            depth,
        );
    }
}

/// When a scope is over, the working directory is the one from which the scope was entered,
/// whatever happened inside it, failures included.
///
/// The scope begins in state `s`, with `depth` scopes open around it, and `events` are its
/// outcomes; it is over when again no more than `depth` scopes are open. Going back to the
/// directory of the scope itself must have succeeded.
pub proof fn lemma_scope_restores_directory(
    s: PipelineView,
    cwd: Seq<char>,
    events: Seq<EventView>,
    depth: nat,
)
    requires
        s.saved.len() == depth,
        within_scope(s, cwd, events, depth),
        run(s, cwd, events).0.saved.len() == depth,
    ensures
        run(s, cwd, events).1 == cwd,
{
    lemma_run_keeps_home(s, cwd, events, depth);
}

/// When a run is over, the working directory is the one in which the run began, whatever
/// happened on the way, as long as going back to that first directory succeeded.
pub proof fn lemma_run_restores_directory(
    plan: Seq<StepView>,
    cwd: Seq<char>,
    events: Seq<EventView>,
)
    requires
        within_scope(start_of(plan), cwd, events, 0),
        action_of(run(start_of(plan), cwd, events).0) is Finish,
    ensures
        run(start_of(plan), cwd, events).1 == cwd,
{
    lemma_finish(run(start_of(plan), cwd, events).0);
    lemma_scope_restores_directory(start_of(plan), cwd, events, 0);
}

} // verus!
