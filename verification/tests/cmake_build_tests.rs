use buildme::app_context::AppContext;
use buildme::cmake_build::{
    build_command, build_project, cmake_plan, configure_command, log_header, project_plan,
    run_cmake, run_command, shell_for,
};
use buildme::command_args::{CommandArgs, Stage, Variant};
use buildme::pipeline::{Action, Invocation, Operation, Step};
use buildme::string_map::StringMap;
use buildme::utility_helper::UtilityHelper;
use std::path::Path;

fn path(parts: &[&str]) -> String {
    let mut joined = Path::new(parts[0]).to_path_buf();
    for part in &parts[1..] {
        joined = joined.join(part);
    }
    joined.to_string_lossy().into_owned()
}

fn context(stages: Vec<Stage>, capture: Option<bool>) -> AppContext {
    let mut options = StringMap::new();
    options.insert("-DFOO".to_string(), "ON".to_string());
    options.insert("-DBAR".to_string(), "OFF".to_string());
    let mut extra = StringMap::new();
    extra.insert("-DCMAKE_CXX_STANDARD".to_string(), "20".to_string());
    AppContext::new(
        CommandArgs {
            project_location: "proj".to_string(),
            stages,
            variant: Variant::Release,
            generator: None,
            redirect_outstream: capture,
        },
        options,
        extra,
        "ws".to_string(),
        Some("demo".to_string()),
    )
}

fn configure_line() -> String {
    format!(
        "cmake -DCMAKE_INSTALL_PREFIX={} -DCMAKE_BUILD_TYPE=Release -DCMAKE_EXPORT_COMPILE_COMMANDS=ON -G Ninja -DFOO=ON -DBAR=OFF -DCMAKE_CXX_STANDARD=20 proj ",
        path(&["ws", "install", "Release"])
    )
}

fn invocation(command: String, stages: Vec<Stage>) -> Invocation {
    Invocation {
        command,
        capture: false,
        log_path: path(&["ws", "build", "Release", "build_log.txt"]),
        stages,
    }
}

fn step(depth: usize, operation: Operation) -> Step {
    Step { depth, operation }
}

fn preparation(clean: bool) -> Vec<Step> {
    let mut steps = vec![step(0, Operation::Enter { dir: "proj".to_string() })];
    if clean {
        steps.push(step(1, Operation::Remove { path: path(&["ws", "build"]) }));
    }
    steps.push(step(1, Operation::Create { path: "ws".to_string() }));
    steps.push(step(1, Operation::Create { path: path(&["ws", "build", "Release"]) }));
    steps.push(step(1, Operation::Create { path: path(&["ws", "install", "Release"]) }));
    steps.push(step(1, Operation::Enter { dir: path(&["ws", "build", "Release"]) }));
    steps
}

fn stages_of(plan: &[Step]) -> Vec<Stage> {
    let mut stages = Vec::new();
    for step in plan {
        match &step.operation {
            Operation::Remove { .. } => stages.push(Stage::Clean),
            Operation::Run { invocation } => stages.extend(invocation.stages.iter().copied()),
            _ => {}
        }
    }
    stages
}

fn build_commands(plan: &[Step]) -> Vec<String> {
    let mut commands = Vec::new();
    for step in plan {
        if let Operation::Run { invocation } = &step.operation {
            if invocation.stages.contains(&Stage::Build) || invocation.stages.contains(&Stage::Install) {
                commands.push(invocation.command.clone());
            }
        }
    }
    commands
}

#[test]
fn the_configure_line_has_its_parts_in_order() {
    let context = context(vec![Stage::Configure], None);
    assert_eq!(configure_command(&context), configure_line());
}

#[test]
fn the_configure_line_keeps_its_spaces_without_arguments() {
    let context = AppContext::new(
        CommandArgs {
            project_location: "src dir".to_string(),
            stages: vec![Stage::Configure],
            variant: Variant::Debug,
            generator: Some("Unix Makefiles".to_string()),
            redirect_outstream: None,
        },
        StringMap::new(),
        StringMap::new(),
        "ws".to_string(),
        None,
    );
    assert_eq!(
        configure_command(&context),
        format!(
            "cmake -DCMAKE_INSTALL_PREFIX={} -DCMAKE_BUILD_TYPE=Debug -DCMAKE_EXPORT_COMPILE_COMMANDS=ON -G Unix Makefiles   src dir ",
            path(&["ws", "install", "Debug"])
        )
    );
}

#[test]
fn the_build_line_asks_for_the_install_target_only_on_demand() {
    assert_eq!(
        build_command(Variant::Release, true, 8),
        "cmake --build . --config Release --target install -- -j 8"
    );
    assert_eq!(build_command(Variant::Release, false, 8), "cmake --build . --config Release  -- -j 8");
    assert_eq!(
        build_command(Variant::RelWithDebInfo, false, 128),
        "cmake --build . --config RelWithDebInfo  -- -j 128"
    );
    assert_eq!(build_command(Variant::Debug, true, 1), "cmake --build . --config Debug --target install -- -j 1");
}

#[test]
fn the_log_header_is_the_command_between_empty_lines() {
    assert_eq!(log_header("cmake --build ."), "\ncmake --build .\n\n");
    assert_eq!(log_header(""), "\n\n\n");
}

#[test]
fn two_captures_give_two_header_blocks_after_what_was_there() {
    let mut log = String::from("earlier\n");
    for output in ["first run\n", "second run\n"] {
        log.push_str(&log_header("make"));
        log.push_str(output);
    }
    assert_eq!(log, "earlier\n\nmake\n\nfirst run\n\nmake\n\nsecond run\n");
    assert_eq!(log.matches(log_header("make").as_str()).count(), 2);
}

#[test]
fn the_shell_depends_on_the_system() {
    assert_eq!(
        shell_for("windows", "cmake --build ."),
        ("cmd".to_string(), vec!["/C".to_string(), "cmake --build .".to_string()])
    );
    assert_eq!(
        shell_for("linux", "cmake --build ."),
        ("sh".to_string(), vec!["-c".to_string(), "cmake --build .".to_string()])
    );
    assert_eq!(
        shell_for("macos", "x"),
        ("sh".to_string(), vec!["-c".to_string(), "x".to_string()])
    );
}

#[test]
fn an_invocation_captures_where_the_context_says_so() {
    let quiet = context(vec![Stage::Build], Some(false));
    let made = run_command("cmake --build .".to_string(), &quiet, vec![Stage::Build]);
    assert_eq!(
        made,
        Invocation {
            command: "cmake --build .".to_string(),
            capture: true,
            log_path: path(&["ws", "build", "Release", "build_log.txt"]),
            stages: vec![Stage::Build],
        }
    );
    let loud = context(vec![Stage::Build], None);
    assert!(!run_command("x".to_string(), &loud, Vec::new()).capture);
}

#[test]
fn the_whole_pipeline_is_planned_in_its_order() {
    let context = context(vec![Stage::Install, Stage::Build, Stage::Configure, Stage::Clean], None);
    let mut expected = preparation(true);
    expected.push(step(2, Operation::Run { invocation: invocation(configure_line(), vec![Stage::Configure]) }));
    expected.push(step(
        2,
        Operation::Run {
            invocation: invocation(
                "cmake --build . --config Release --target install -- -j 4".to_string(),
                vec![Stage::Build, Stage::Install],
            ),
        },
    ));
    assert_eq!(project_plan(&context, 4), expected);
}

#[test]
fn install_before_configure_still_configures_first() {
    let context = context(vec![Stage::Install, Stage::Configure], None);
    let plan = project_plan(&context, 2);
    assert_eq!(stages_of(&plan), vec![Stage::Configure, Stage::Install]);
}

#[test]
fn every_set_of_stages_runs_in_the_order_of_the_pipeline() {
    let all = [Stage::Clean, Stage::Configure, Stage::Build, Stage::Install];
    for mask in 0u32..16 {
        let wanted: Vec<Stage> =
            all.iter().copied().enumerate().filter(|(i, _)| mask & (1 << i) != 0).map(|(_, s)| s).collect();
        let mut asked: Vec<Stage> = wanted.iter().rev().copied().collect();
        asked.extend(wanted.iter().copied());
        let plan = project_plan(&context(asked, None), 2);
        assert_eq!(stages_of(&plan), wanted);
    }
}

#[test]
fn build_and_install_share_one_command() {
    let both = project_plan(&context(vec![Stage::Build, Stage::Install], None), 3);
    assert_eq!(
        build_commands(&both),
        vec!["cmake --build . --config Release --target install -- -j 3".to_string()]
    );
    let build = project_plan(&context(vec![Stage::Build], None), 3);
    assert_eq!(build_commands(&build), vec!["cmake --build . --config Release  -- -j 3".to_string()]);
    let install = project_plan(&context(vec![Stage::Install], None), 3);
    assert_eq!(
        build_commands(&install),
        vec!["cmake --build . --config Release --target install -- -j 3".to_string()]
    );
    let neither = project_plan(&context(vec![Stage::Clean, Stage::Configure], None), 3);
    assert_eq!(build_commands(&neither), Vec::<String>::new());
}

#[test]
fn the_directories_are_prepared_whatever_was_asked_for() {
    assert_eq!(project_plan(&context(Vec::new(), None), 1), preparation(false));
    assert_eq!(project_plan(&context(vec![Stage::Clean], None), 1), preparation(true));
}

#[test]
fn the_build_tool_is_driven_inside_the_build_directory() {
    let context = context(vec![Stage::Build], Some(true));
    let plan = cmake_plan(&context, 6);
    assert_eq!(plan.len(), 2);
    assert_eq!(plan[0], step(1, Operation::Enter { dir: path(&["ws", "build", "Release"]) }));
    match &plan[1].operation {
        Operation::Run { invocation } => {
            assert_eq!(invocation.command, "cmake --build . --config Release  -- -j 6");
            assert!(invocation.capture);
            assert_eq!(invocation.stages, vec![Stage::Build]);
        }
        other => panic!("unexpected operation {:?}", other),
    }
}

#[test]
fn the_number_of_jobs_is_that_of_the_processors() {
    let context = context(vec![Stage::Build], None);
    let plan = run_cmake(&context);
    assert_eq!(plan.len(), 2);
    match &plan[1].operation {
        Operation::Run { invocation } => {
            let prefix = "cmake --build . --config Release  -- -j ";
            assert!(invocation.command.starts_with(prefix));
            let jobs: usize = invocation.command[prefix.len()..].parse().unwrap();
            assert!(jobs >= 1);
            assert_eq!(plan, cmake_plan(&context, jobs));
        }
        other => panic!("unexpected operation {:?}", other),
    }
}

#[test]
fn a_build_begins_by_entering_the_project() {
    let run = build_project(&context(vec![Stage::Configure], None));
    assert_eq!(run.action(), Action::EnterDirectory { target: "proj".to_string() });
}

#[test]
fn the_configure_line_of_a_scanned_project_names_its_option() {
    let description = "project(demo)\noption(FOO \"desc\" ON)\n";
    let options = UtilityHelper::fetch_cmake_project_options(description, &Vec::new());
    let context = AppContext::new(
        CommandArgs {
            project_location: "proj".to_string(),
            stages: vec![Stage::Configure, Stage::Build, Stage::Install],
            variant: Variant::Release,
            generator: None,
            redirect_outstream: None,
        },
        options,
        StringMap::new(),
        "ws".to_string(),
        UtilityHelper::fetch_project_name(description),
    );
    assert_eq!(context.project_name, "demo");
    let line = configure_command(&context);
    let words: Vec<&str> = line.split(' ').collect();
    assert!(words.contains(&"-DFOO=ON"));
    assert!(words.contains(&"-DCMAKE_BUILD_TYPE=Release"));
    let prefix = format!("-DCMAKE_INSTALL_PREFIX={}", path(&["ws", "install", "Release"]));
    assert!(words.contains(&prefix.as_str()));
    assert_eq!(
        line,
        format!(
            "cmake {} -DCMAKE_BUILD_TYPE=Release -DCMAKE_EXPORT_COMPILE_COMMANDS=ON -G Ninja -DFOO=ON  proj ",
            prefix
        )
    );
}
