use buildme::command_args::Stage;
use buildme::error::BuildError;
use buildme::pipeline::{Action, Event, Invocation, Operation, Pipeline, Progress, Step};

fn enter(depth: usize, dir: &str) -> Step {
    Step { depth, operation: Operation::Enter { dir: dir.to_string() } }
}

fn remove(depth: usize, path: &str) -> Step {
    Step { depth, operation: Operation::Remove { path: path.to_string() } }
}

fn create(depth: usize, path: &str) -> Step {
    Step { depth, operation: Operation::Create { path: path.to_string() } }
}

fn invocation(command: &str) -> Invocation {
    Invocation {
        command: command.to_string(),
        capture: false,
        log_path: "log".to_string(),
        stages: Vec::new(),
    }
}

fn run(depth: usize, command: &str) -> Step {
    Step { depth, operation: Operation::Run { invocation: invocation(command) } }
}

fn plan() -> Vec<Step> {
    vec![
        enter(0, "proj"),
        remove(1, "build"),
        create(1, "ws"),
        enter(1, "build/Release"),
        run(2, "configure"),
        run(2, "build"),
    ]
}

fn entered(previous: &str) -> Event {
    Event::Entered { previous: previous.to_string() }
}

fn failed(message: &str) -> Event {
    Event::Failed { message: message.to_string() }
}

fn exited(status: i32) -> Event {
    Event::Exited { status: Some(status) }
}

fn enter_action(target: &str) -> Action {
    Action::EnterDirectory { target: target.to_string() }
}

fn restore(saved: &str) -> Action {
    Action::RestoreDirectory { saved: saved.to_string() }
}

fn run_action(command: &str) -> Action {
    Action::Run { invocation: invocation(command) }
}

/// Tells the run the events one by one and collects what it asks for, the last action too.
fn drive(steps: Vec<Step>, events: Vec<Event>) -> Vec<Action> {
    let mut pipeline = Pipeline::new(steps);
    let mut asked = Vec::new();
    for event in events {
        asked.push(pipeline.action());
        pipeline.advance(event);
    }
    asked.push(pipeline.action());
    asked
}

/// The working directory after the actions went as the events say.
fn directory_after(start: &str, asked: &[Action], events: &[Event]) -> String {
    let mut cwd = start.to_string();
    for (action, event) in asked.iter().zip(events.iter()) {
        match (action, event) {
            (Action::EnterDirectory { target }, Event::Entered { .. }) => cwd = target.clone(),
            (Action::RestoreDirectory { saved }, Event::Done) => cwd = saved.clone(),
            _ => {}
        }
    }
    cwd
}

#[test]
fn a_run_without_failures_takes_every_step_and_goes_back() {
    let events = vec![
        entered("/home"),
        Event::Done,
        Event::Done,
        entered("/home/proj"),
        exited(0),
        exited(0),
        Event::Done,
        Event::Done,
    ];
    let asked = drive(plan(), events.clone());
    assert_eq!(
        asked,
        vec![
            enter_action("proj"),
            Action::RemoveTree { path: "build".to_string() },
            Action::EnsureDirectory { path: "ws".to_string() },
            enter_action("build/Release"),
            run_action("configure"),
            run_action("build"),
            restore("/home/proj"),
            restore("/home"),
            Action::Finish { result: Ok(()) },
        ]
    );
    assert_eq!(directory_after("/home", &asked, &events), "/home");
}

#[test]
fn an_empty_plan_is_over_at_once() {
    let mut pipeline = Pipeline::new(Vec::new());
    assert!(pipeline.is_winding_up());
    assert_eq!(pipeline.action(), Action::Finish { result: Ok(()) });
    pipeline.advance(Event::Done);
    assert_eq!(pipeline.action(), Action::Finish { result: Ok(()) });
}

#[test]
fn a_failed_removal_does_not_stop_the_run() {
    let asked = drive(plan(), vec![entered("/home"), failed("no such directory")]);
    assert_eq!(asked[2], Action::EnsureDirectory { path: "ws".to_string() });
    let asked = drive(plan(), vec![entered("/home"), exited(1)]);
    assert_eq!(asked[2], Action::EnsureDirectory { path: "ws".to_string() });
}

#[test]
fn a_failed_command_leaves_both_scopes_and_ends_the_run() {
    let events = vec![
        entered("/home"),
        Event::Done,
        Event::Done,
        entered("/home/proj"),
        exited(2),
        Event::Done,
        Event::Done,
    ];
    let asked = drive(plan(), events.clone());
    assert_eq!(
        asked[5..],
        [
            restore("/home/proj"),
            restore("/home"),
            Action::Finish {
                result: Err(BuildError::CommandFailed {
                    command: "configure".to_string(),
                    status: Some(2),
                }),
            },
        ]
    );
    assert_eq!(directory_after("/home", &asked, &events), "/home");
}

#[test]
fn a_command_without_status_has_failed() {
    let events = vec![
        entered("/home"),
        Event::Done,
        Event::Done,
        entered("/home/proj"),
        Event::Exited { status: None },
        Event::Done,
        Event::Done,
    ];
    let asked = drive(plan(), events);
    assert_eq!(
        asked[7],
        Action::Finish {
            result: Err(BuildError::CommandFailed { command: "configure".to_string(), status: None }),
        }
    );
}

#[test]
fn a_command_that_cannot_be_started_has_failed() {
    let events = vec![
        entered("/home"),
        Event::Done,
        Event::Done,
        entered("/home/proj"),
        exited(0),
        failed("no shell"),
        Event::Done,
        Event::Done,
    ];
    let asked = drive(plan(), events);
    assert_eq!(
        asked[8],
        Action::Finish {
            result: Err(BuildError::CommandFailed { command: "build".to_string(), status: None }),
        }
    );
}

#[test]
fn a_directory_that_cannot_be_created_ends_the_run() {
    let events = vec![entered("/home"), Event::Done, failed("read-only"), Event::Done];
    let asked = drive(plan(), events.clone());
    assert_eq!(
        asked[3..],
        [
            restore("/home"),
            Action::Finish {
                result: Err(BuildError::Filesystem {
                    path: "ws".to_string(),
                    message: "read-only".to_string(),
                }),
            },
        ]
    );
    assert_eq!(directory_after("/home", &asked, &events), "/home");
}

#[test]
fn a_scope_that_cannot_be_entered_runs_nothing_inside() {
    let asked = drive(plan(), vec![failed("no such directory")]);
    assert_eq!(
        asked,
        vec![
            enter_action("proj"),
            Action::Finish {
                result: Err(BuildError::Filesystem {
                    path: "proj".to_string(),
                    message: "no such directory".to_string(),
                }),
            },
        ]
    );
    let inner = drive(
        plan(),
        vec![entered("/home"), Event::Done, Event::Done, failed("gone"), Event::Done],
    );
    assert_eq!(
        inner[4..],
        [
            restore("/home"),
            Action::Finish {
                result: Err(BuildError::Filesystem {
                    path: "build/Release".to_string(),
                    message: "gone".to_string(),
                }),
            },
        ]
    );
}

#[test]
fn an_unexpected_outcome_of_entering_is_a_failure() {
    let asked = drive(plan(), vec![Event::Done]);
    assert_eq!(
        asked[1],
        Action::Finish {
            result: Err(BuildError::Filesystem { path: "proj".to_string(), message: String::new() }),
        }
    );
}

#[test]
fn a_failure_to_go_back_is_the_failure_of_the_run() {
    let events = vec![
        entered("/home"),
        Event::Done,
        Event::Done,
        entered("/home/proj"),
        exited(0),
        exited(0),
        failed("removed meanwhile"),
        Event::Done,
    ];
    let asked = drive(plan(), events.clone());
    assert_eq!(
        asked[6..],
        [
            restore("/home/proj"),
            restore("/home"),
            Action::Finish {
                result: Err(BuildError::Filesystem {
                    path: "/home/proj".to_string(),
                    message: "removed meanwhile".to_string(),
                }),
            },
        ]
    );
    assert_eq!(directory_after("/home", &asked, &events), "/home");
}

#[test]
fn a_failure_to_go_back_replaces_an_earlier_failure() {
    let events = vec![
        entered("/home"),
        Event::Done,
        Event::Done,
        entered("/home/proj"),
        exited(1),
        Event::Done,
        failed("home is gone"),
    ];
    let asked = drive(plan(), events);
    assert_eq!(
        asked[7],
        Action::Finish {
            result: Err(BuildError::Filesystem {
                path: "/home".to_string(),
                message: "home is gone".to_string(),
            }),
        }
    );
}

#[test]
fn a_scope_is_left_before_a_step_outside_it() {
    let steps = vec![enter(0, "a"), run(1, "inside"), run(0, "outside"), enter(0, "b"), run(1, "again")];
    let events = vec![
        entered("/start"),
        exited(0),
        Event::Done,
        exited(0),
        entered("/start"),
        exited(0),
        Event::Done,
    ];
    let asked = drive(steps, events.clone());
    assert_eq!(
        asked,
        vec![
            enter_action("a"),
            run_action("inside"),
            restore("/start"),
            run_action("outside"),
            enter_action("b"),
            run_action("again"),
            restore("/start"),
            Action::Finish { result: Ok(()) },
        ]
    );
    assert_eq!(directory_after("/start", &asked, &events), "/start");
}

#[test]
fn a_finished_run_stays_finished() {
    let mut pipeline = Pipeline::new(vec![create(0, "ws")]);
    pipeline.advance(failed("denied"));
    let end = Action::Finish {
        result: Err(BuildError::Filesystem { path: "ws".to_string(), message: "denied".to_string() }),
    };
    assert_eq!(pipeline.action(), end);
    pipeline.advance(Event::Done);
    pipeline.advance(exited(0));
    assert_eq!(pipeline.action(), end);
}

#[test]
fn events_tell_their_message_and_status() {
    assert_eq!(failed("why").message(), "why");
    assert_eq!(Event::Done.message(), "");
    assert_eq!(exited(3).status(), Some(3));
    assert_eq!(Event::Done.status(), None);
    assert!(Event::Done.is_done());
    assert!(!exited(0).is_done());
    assert!(exited(0).is_success());
    assert!(!exited(1).is_success());
    assert!(!Event::Exited { status: None }.is_success());
    assert!(!Event::Done.is_success());
}

#[test]
fn copies_are_equal_to_what_they_copy() {
    let first = Invocation {
        command: "c".to_string(),
        capture: true,
        log_path: "l".to_string(),
        stages: vec![Stage::Build, Stage::Install],
    };
    assert_eq!(first.duplicate(), first);
    let error = BuildError::CommandFailed { command: "c".to_string(), status: Some(-1) };
    assert_eq!(error.duplicate(), error);
    assert_eq!(
        Operation::Run { invocation: first.duplicate() }.action(),
        Action::Run { invocation: first }
    );
}

#[test]
fn progress_follows_the_stages_that_are_behind() {
    let staged = |depth: usize, command: &str, stages: Vec<Stage>| Step {
        depth,
        operation: Operation::Run {
            invocation: Invocation {
                command: command.to_string(),
                capture: false,
                log_path: "log".to_string(),
                stages,
            },
        },
    };
    let steps = vec![
        enter(0, "proj"),
        remove(1, "build"),
        create(1, "ws"),
        staged(1, "configure", vec![Stage::Configure]),
        staged(1, "build", vec![Stage::Build, Stage::Install]),
    ];
    let mut pipeline = Pipeline::new(steps);
    assert_eq!(pipeline.progress(), Progress::NotStarted);
    pipeline.advance(entered("/home"));
    assert_eq!(pipeline.progress(), Progress::NotStarted);
    pipeline.advance(failed("nothing to remove"));
    assert_eq!(pipeline.progress(), Progress::Cleaned);
    pipeline.advance(Event::Done);
    assert_eq!(pipeline.progress(), Progress::Cleaned);
    pipeline.advance(exited(0));
    assert_eq!(pipeline.progress(), Progress::Configured);
    pipeline.advance(exited(0));
    assert_eq!(pipeline.progress(), Progress::Installed);
    pipeline.advance(Event::Done);
    assert_eq!(pipeline.progress(), Progress::Installed);
    assert_eq!(pipeline.action(), Action::Finish { result: Ok(()) });
}

#[test]
fn progress_of_a_failed_run_is_failed() {
    let mut pipeline = Pipeline::new(plan());
    pipeline.advance(entered("/home"));
    pipeline.advance(Event::Done);
    pipeline.advance(failed("denied"));
    assert_eq!(pipeline.progress(), Progress::Failed);
    pipeline.advance(Event::Done);
    assert_eq!(pipeline.progress(), Progress::Failed);
}
