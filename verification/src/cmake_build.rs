//! The plan of a build: which commands are run, in which directories and in which order.

use crate::app_context::AppContext;
use crate::command_args::{Stage, Variant};
use crate::pipeline::{
    progress_of, reached, stages_in, stages_performed, start_of, Invocation, InvocationView,
    Operation, OperationView, Pipeline, PipelineView, Progress, Step, StepView,
};
use crate::text;
use crate::utility_helper::{tokens, UtilityHelper};
use vstd::prelude::*;

verus! {

/// The command line of the configure step: the install prefix, the build type, the export of
/// compile commands, the generator, the project options, the extra arguments and the source
/// directory, in this order.
pub open spec fn configure_line(context: &AppContext) -> Seq<char> {
    "cmake -DCMAKE_INSTALL_PREFIX="@ + context.install_variant_path()
        + " -DCMAKE_BUILD_TYPE="@ + context.variant.name()
        + " -DCMAKE_EXPORT_COMPILE_COMMANDS=ON -G "@ + context.generator@ + " "@ + text::joined(
        tokens(context.configure_args.entries()),
        " "@,
    ) + " "@ + text::joined(tokens(context.extra_args.entries()), " "@) + " "@
        + context.project_location@ + " "@
}

/// The part of the build command line that asks for the install target.
pub open spec fn install_flag(install: bool) -> Seq<char> {
    if install {
        "--target install"@
    } else {
        Seq::empty()
    }
}

/// The command line of the build step, for `cpus` parallel jobs. It asks for the install
/// target exactly where `install` holds.
pub open spec fn build_line(variant: Variant, install: bool, cpus: nat) -> Seq<char> {
    "cmake --build . --config "@ + variant.name() + " "@ + install_flag(install) + " -- -j "@
        + text::decimal_digits(cpus)
}

/// What is written to the build log before the output of a command: an empty line, the
/// command line, and another empty line.
pub open spec fn header_of(command: Seq<char>) -> Seq<char> {
    "\n"@ + command + "\n\n"@
}

/// The interpreter that runs a command line on the system `os`, and its arguments.
pub open spec fn shell_of(os: Seq<char>, command: Seq<char>) -> (Seq<char>, Seq<Seq<char>>) {
    if os == "windows"@ {
        ("cmd"@, seq!["/C"@, command])
    } else {
        ("sh"@, seq!["-c"@, command])
    }
}

/// One stage, if it was asked for.
pub open spec fn if_asked(asked: Seq<Stage>, stage: Stage) -> Seq<Stage> {
    if asked.contains(stage) {
        seq![stage]
    } else {
        Seq::empty()
    }
}

/// The stages that were asked for, each once, in the order of the pipeline: clean, configure,
/// build, install.
pub open spec fn in_pipeline_order(asked: Seq<Stage>) -> Seq<Stage> {
    if_asked(asked, Stage::Clean) + if_asked(asked, Stage::Configure) + build_stages(asked)
}

/// The stages that the build command carries out: build and install, as far as they were
/// asked for.
pub open spec fn build_stages(asked: Seq<Stage>) -> Seq<Stage> {
    if_asked(asked, Stage::Build) + if_asked(asked, Stage::Install)
}

/// The invocation of `command` in `context`, for the stages `stages`.
pub open spec fn invocation_of(
    command: Seq<char>,
    context: &AppContext,
    stages: Seq<Stage>,
) -> InvocationView {
    InvocationView {
        command,
        capture: context.redirect_outstream is Some,
        log_path: context.build_log_location@,
        stages,
    }
}

/// The step that runs the configure command.
pub open spec fn configure_step(context: &AppContext) -> StepView {
    StepView {
        depth: 2,
        operation: OperationView::Run {
            invocation: invocation_of(configure_line(context), context, seq![Stage::Configure]),
        },
    }
}

/// The step that runs the build command. One command serves the build and the install stage.
pub open spec fn build_step(context: &AppContext, cpus: nat) -> StepView {
    StepView {
        depth: 2,
        operation: OperationView::Run {
            invocation: invocation_of(
                build_line(context.variant, context.stages@.contains(Stage::Install), cpus),
                context,
                build_stages(context.stages@),
            ),
        },
    }
}

/// The steps that drive the build tool: inside the build directory of the variant, the
/// configure command if that stage was asked for, then one build command if the build or the
/// install stage was asked for.
pub open spec fn cmake_steps(context: &AppContext, cpus: nat) -> Seq<StepView> {
    seq![
        StepView {
            depth: 1,
            operation: OperationView::Enter { dir: context.build_variant_path() },
        },
    ] + (if context.stages@.contains(Stage::Configure) {
        seq![configure_step(context)]
    } else {
        Seq::empty()
    }) + (if context.stages@.contains(Stage::Build) || context.stages@.contains(Stage::Install) {
        seq![build_step(context, cpus)]
    } else {
        Seq::empty()
    })
}

/// The steps before the build tool is driven: inside the project directory, the build tree
/// is removed if the clean stage was asked for, and then the workspace directory and the
/// build and install directories of the variant are created, whatever was asked for.
pub open spec fn preparation_steps(context: &AppContext) -> Seq<StepView> {
    seq![
        StepView { depth: 0, operation: OperationView::Enter { dir: context.project_location@ } },
    ] + (if context.stages@.contains(Stage::Clean) {
        seq![StepView { depth: 1, operation: OperationView::Remove { path: context.build_dir@ } }]
    } else {
        Seq::empty()
    }) + seq![
        StepView { depth: 1, operation: OperationView::Create { path: context.workspace_dir@ } },
        StepView {
            depth: 1,
            operation: OperationView::Create { path: context.build_variant_path() },
        },
        StepView {
            depth: 1,
            operation: OperationView::Create { path: context.install_variant_path() },
        },
    ]
}

/// The plan of a build, for `cpus` parallel jobs.
pub open spec fn project_steps(context: &AppContext, cpus: nat) -> Seq<StepView> {
    preparation_steps(context) + cmake_steps(context, cpus)
}

/// The command of an operation, where it carries out the build or the install stage.
pub open spec fn build_invocation_in(operation: OperationView) -> Seq<InvocationView> {
    match operation {
        OperationView::Run { invocation } => if invocation.stages.contains(Stage::Build)
            || invocation.stages.contains(Stage::Install) {
            seq![invocation]
        } else {
            Seq::empty()
        },
        _ => Seq::empty(),
    }
}

/// The commands of a plan that carry out the build or the install stage.
pub open spec fn build_invocations(plan: Seq<StepView>) -> Seq<InvocationView>
    decreases plan.len(),
{
    if plan.len() == 0 {
        Seq::empty()
    } else {
        build_invocations(plan.drop_last()) + build_invocation_in(plan.last().operation)
    }
}

/// `num_cpus::get`: the number of processors that the system offers to this process. It is
/// at least one, and nothing more is known of it.
#[verifier::external_body]
fn available_cpus() -> (r: usize)
    ensures
        r >= 1,
{
    num_cpus::get()
}

/// The command line of the configure step.
pub fn configure_command(context: &AppContext) -> (r: String)
    ensures
        r@ == configure_line(context),
{
    let install_dir = context.install_variant_dir();
    let configure_args = UtilityHelper::stringify(&context.configure_args);
    let extra_args = UtilityHelper::stringify(&context.extra_args);
    let mut line = String::from_str("cmake -DCMAKE_INSTALL_PREFIX=");
    line.append(install_dir.as_str());
    line.append(" -DCMAKE_BUILD_TYPE=");
    line.append(context.variant.as_str());
    line.append(" -DCMAKE_EXPORT_COMPILE_COMMANDS=ON -G ");
    line.append(context.generator.as_str());
    line.append(" ");
    line.append(configure_args.as_str());
    line.append(" ");
    line.append(extra_args.as_str());
    line.append(" ");
    line.append(context.project_location.as_str());
    line.append(" ");
    line
}

/// The command line of the build step, for `cpus` parallel jobs.
pub fn build_command(variant: Variant, install: bool, cpus: usize) -> (r: String)
    ensures
        r@ == build_line(variant, install, cpus as nat),
{
    let jobs = text::decimal(cpus as u64);
    let mut line = String::from_str("cmake --build . --config ");
    line.append(variant.as_str());
    line.append(" ");
    if install {
        line.append("--target install");
    } else {
        assert(line@ + Seq::<char>::empty() == line@);
    }
    line.append(" -- -j ");
    line.append(jobs.as_str());
    line
}

/// What is written to the build log before the output of a command.
pub fn log_header(command: &str) -> (r: String)
    ensures
        r@ == header_of(command@),
{
    let mut header = String::from_str("\n");
    header.append(command);
    header.append("\n\n");
    header
}

/// The interpreter that runs a command line on the system `os`, and its arguments.
pub fn shell_for(os: &str, command: &str) -> (r: (String, Vec<String>))
    ensures
        r.0@ == shell_of(os@, command@).0,
        r.1.deep_view() == shell_of(os@, command@).1,
{
    let mut arguments: Vec<String> = Vec::new();
    if text::same(os, "windows") {
        arguments.push(String::from_str("/C"));
        arguments.push(String::from_str(command));
        assert(arguments.deep_view() == seq!["/C"@, command@]);
        (String::from_str("cmd"), arguments)
    } else {
        arguments.push(String::from_str("-c"));
        arguments.push(String::from_str(command));
        assert(arguments.deep_view() == seq!["-c"@, command@]);
        (String::from_str("sh"), arguments)
    }
}

/// The invocation of `cmd` in `context`: its output is captured, into the build log of the
/// context, exactly where the context asks for that.
pub fn run_command(cmd: String, context: &AppContext, stages: Vec<Stage>) -> (r: Invocation)
    ensures
        r.deep_view() == invocation_of(cmd@, context, stages@),
{
    Invocation {
        command: cmd,
        capture: context.captures_output(),
        log_path: context.build_log_location.clone(),
        stages,
    }
}

/// The steps that drive the build tool, for `cpus` parallel jobs.
pub fn cmake_plan(context: &AppContext, cpus: usize) -> (r: Vec<Step>)
    ensures
        r.deep_view() == cmake_steps(context, cpus as nat),
{
    let mut steps: Vec<Step> = Vec::new();
    steps.push(Step { depth: 1, operation: Operation::Enter { dir: context.build_variant_dir() } });
    let ghost entered = steps.deep_view();
    assert(entered == seq![
        StepView {
            depth: 1,
            operation: OperationView::Enter { dir: context.build_variant_path() },
        },
    ]);
    if context.has_stage(Stage::Configure) {
        let mut stages: Vec<Stage> = Vec::new();
        stages.push(Stage::Configure);
        let invocation = run_command(configure_command(context), context, stages);
        steps.push(Step { depth: 2, operation: Operation::Run { invocation } });
        assert(steps.deep_view() == entered + seq![configure_step(context)]);
    } else {
        assert(steps.deep_view() == entered + Seq::<StepView>::empty());
    }
    let ghost configured = steps.deep_view();
    let build = context.has_stage(Stage::Build);
    let install = context.has_stage(Stage::Install);
    if build || install {
        let mut stages: Vec<Stage> = Vec::new();
        if build {
            stages.push(Stage::Build);
        }
        if install {
            stages.push(Stage::Install);
        }
        assert(stages@ == build_stages(context.stages@));
        let command = build_command(context.variant, install, cpus);
        let invocation = run_command(command, context, stages);
        steps.push(Step { depth: 2, operation: Operation::Run { invocation } });
        assert(steps.deep_view() == configured + seq![build_step(context, cpus as nat)]);
    } else {
        assert(steps.deep_view() == configured + Seq::<StepView>::empty());
    }
    steps
}

/// The plan of a build, for `cpus` parallel jobs.
pub fn project_plan(context: &AppContext, cpus: usize) -> (r: Vec<Step>)
    ensures
        r.deep_view() == project_steps(context, cpus as nat),
{
    let mut steps: Vec<Step> = Vec::new();
    steps.push(
        Step { depth: 0, operation: Operation::Enter { dir: context.project_location.clone() } },
    );
    let ghost entered = steps.deep_view();
    assert(entered == seq![
        StepView { depth: 0, operation: OperationView::Enter { dir: context.project_location@ } },
    ]);
    if context.has_stage(Stage::Clean) {
        steps.push(
            Step { depth: 1, operation: Operation::Remove { path: context.build_dir.clone() } },
        );
        assert(steps.deep_view() == entered + seq![
            StepView { depth: 1, operation: OperationView::Remove { path: context.build_dir@ } },
        ]);
    } else {
        assert(steps.deep_view() == entered + Seq::<StepView>::empty());
    }
    let ghost cleaned = steps.deep_view();
    steps.push(
        Step { depth: 1, operation: Operation::Create { path: context.workspace_dir.clone() } },
    );
    steps.push(
        Step { depth: 1, operation: Operation::Create { path: context.build_variant_dir() } },
    );
    steps.push(
        Step { depth: 1, operation: Operation::Create { path: context.install_variant_dir() } },
    );
    assert(steps.deep_view() == preparation_steps(context));
    let ghost prepared = steps.deep_view();
    let mut rest = cmake_plan(context, cpus);
    let ghost driven = rest.deep_view();
    steps.append(&mut rest);
    assert(steps.deep_view() == prepared + driven);
    steps
}

/// The steps that drive the build tool, with as many parallel jobs as the system has
/// processors to offer.
pub fn run_cmake(context: &AppContext) -> (r: Vec<Step>)
    ensures
        exists|cpus: usize| cpus >= 1 && r.deep_view() == #[trigger] cmake_steps(context, cpus as nat),
{
    cmake_plan(context, available_cpus())
}

/// The run of a build, at its start, with as many parallel jobs as the system has processors
/// to offer.
pub fn build_project(context: &AppContext) -> (r: Pipeline)
    ensures
        exists|cpus: usize|
            cpus >= 1 && r.deep_view() == start_of(#[trigger] project_steps(context, cpus as nat)),
{
    Pipeline::new(project_plan(context, available_cpus()))
}

/// The stages of two plans, one run after the other, are those of the first and then those
/// of the second.
pub proof fn lemma_stages_performed_concat(first: Seq<StepView>, second: Seq<StepView>)
    ensures
        stages_performed(first + second) == stages_performed(first) + stages_performed(second),
    decreases second.len(),
{
    if second.len() == 0 {
        assert(first + second == first);
        assert(stages_performed(first) + Seq::<Stage>::empty() == stages_performed(first));
    } else {
        assert((first + second).drop_last() == first + second.drop_last());
        lemma_stages_performed_concat(first, second.drop_last());
        assert(stages_performed(first) + stages_performed(second.drop_last()) + stages_in(
            second.last().operation,
        ) == stages_performed(first) + (stages_performed(second.drop_last()) + stages_in(
            second.last().operation,
        )));
    }
}

/// A plan of one step carries out the stages of that step.
pub proof fn lemma_stages_performed_one(step: StepView)
    ensures
        stages_performed(seq![step]) == stages_in(step.operation),
{
    reveal_with_fuel(stages_performed, 2);
    assert(seq![step].drop_last() == Seq::<StepView>::empty());
    assert(Seq::<Stage>::empty() + stages_in(step.operation) == stages_in(step.operation));
}

/// The build commands of two plans, one run after the other, are those of the first and then
/// those of the second.
pub proof fn lemma_build_invocations_concat(first: Seq<StepView>, second: Seq<StepView>)
    ensures
        build_invocations(first + second) == build_invocations(first) + build_invocations(
            second,
        ),
    decreases second.len(),
{
    if second.len() == 0 {
        assert(first + second == first);
        assert(build_invocations(first) + Seq::<InvocationView>::empty() == build_invocations(
            first,
        ));
    } else {
        assert((first + second).drop_last() == first + second.drop_last());
        lemma_build_invocations_concat(first, second.drop_last());
        let last = build_invocation_in(second.last().operation);
        assert(build_invocations(first) + build_invocations(second.drop_last()) + last
            == build_invocations(first) + (build_invocations(second.drop_last()) + last));
    }
}

/// A plan of one step holds the build command of that step, if it is one.
pub proof fn lemma_build_invocations_one(step: StepView)
    ensures
        build_invocations(seq![step]) == build_invocation_in(step.operation),
{
    reveal_with_fuel(build_invocations, 2);
    assert(seq![step].drop_last() == Seq::<StepView>::empty());
    assert(Seq::<InvocationView>::empty() + build_invocation_in(step.operation)
        == build_invocation_in(step.operation));
}

/// The stages of a plan of no step, or of one.
proof fn lemma_stages_performed_some(steps: Seq<StepView>)
    requires
        steps.len() <= 1,
    ensures
        steps.len() == 0 ==> stages_performed(steps) == Seq::<Stage>::empty(),
        steps.len() == 1 ==> stages_performed(steps) == stages_in(steps[0].operation),
{
    if steps.len() == 1 {
        assert(steps == seq![steps[0]]);
        lemma_stages_performed_one(steps[0]);
    }
}

/// The build commands of a plan of no step, or of one.
proof fn lemma_build_invocations_some(steps: Seq<StepView>)
    requires
        steps.len() <= 1,
    ensures
        steps.len() == 0 ==> build_invocations(steps) == Seq::<InvocationView>::empty(),
        steps.len() == 1 ==> build_invocations(steps) == build_invocation_in(
            steps[0].operation,
        ),
{
    if steps.len() == 1 {
        assert(steps == seq![steps[0]]);
        lemma_build_invocations_one(steps[0]);
    }
}

/// The parts that the plan of a build is made of, one after another.
pub open spec fn plan_parts(context: &AppContext, cpus: nat) -> Seq<Seq<StepView>> {
    let asked = context.stages@;
    seq![
        seq![
            StepView {
                depth: 0,
                operation: OperationView::Enter { dir: context.project_location@ },
            },
        ],
        if asked.contains(Stage::Clean) {
            seq![
                StepView {
                    depth: 1,
                    operation: OperationView::Remove { path: context.build_dir@ },
                },
            ]
        } else {
            Seq::empty()
        },
        seq![
            StepView {
                depth: 1,
                operation: OperationView::Create { path: context.workspace_dir@ },
            },
        ],
        seq![
            StepView {
                depth: 1,
                operation: OperationView::Create { path: context.build_variant_path() },
            },
        ],
        seq![
            StepView {
                depth: 1,
                operation: OperationView::Create { path: context.install_variant_path() },
            },
        ],
        seq![
            StepView {
                depth: 1,
                operation: OperationView::Enter { dir: context.build_variant_path() },
            },
        ],
        if asked.contains(Stage::Configure) {
            seq![configure_step(context)]
        } else {
            Seq::empty()
        },
        if asked.contains(Stage::Build) || asked.contains(Stage::Install) {
            seq![build_step(context, cpus)]
        } else {
            Seq::empty()
        },
    ]
}

/// The plan of a build is its parts, one after another.
proof fn lemma_plan_parts(context: &AppContext, cpus: nat)
    ensures
        ({
            let p = plan_parts(context, cpus);
            project_steps(context, cpus) == p[0] + p[1] + p[2] + p[3] + p[4] + p[5] + p[6]
                + p[7]
        }),
{
    let p = plan_parts(context, cpus);
    assert(preparation_steps(context) == p[0] + p[1] + p[2] + p[3] + p[4]);
    assert(cmake_steps(context, cpus) == p[5] + p[6] + p[7]);
    assert(project_steps(context, cpus) == p[0] + p[1] + p[2] + p[3] + p[4] + p[5] + p[6]
        + p[7]);
}

/// Whatever stages were asked for, in whatever order and however often, the plan carries out
/// each of them once, in the order of the pipeline: clean, configure, build, install.
pub proof fn lemma_stages_run_in_pipeline_order(context: &AppContext, cpus: nat)
    ensures
        stages_performed(project_steps(context, cpus)) == in_pipeline_order(context.stages@),
{
    let asked = context.stages@;
    let none = Seq::<Stage>::empty();
    let p = plan_parts(context, cpus);
    lemma_plan_parts(context, cpus);
    lemma_stages_performed_some(p[0]);
    lemma_stages_performed_some(p[1]);
    lemma_stages_performed_some(p[2]);
    lemma_stages_performed_some(p[3]);
    lemma_stages_performed_some(p[4]);
    lemma_stages_performed_some(p[5]);
    lemma_stages_performed_some(p[6]);
    lemma_stages_performed_some(p[7]);
    lemma_stages_performed_concat(p[0], p[1]);
    lemma_stages_performed_concat(p[0] + p[1], p[2]);
    lemma_stages_performed_concat(p[0] + p[1] + p[2], p[3]);
    lemma_stages_performed_concat(p[0] + p[1] + p[2] + p[3], p[4]);
    lemma_stages_performed_concat(p[0] + p[1] + p[2] + p[3] + p[4], p[5]);
    lemma_stages_performed_concat(p[0] + p[1] + p[2] + p[3] + p[4] + p[5], p[6]);
    lemma_stages_performed_concat(p[0] + p[1] + p[2] + p[3] + p[4] + p[5] + p[6], p[7]);
    assert(stages_performed(p[0]) == none);
    assert(stages_performed(p[1]) == if_asked(asked, Stage::Clean));
    assert(stages_performed(p[2]) == none);
    assert(stages_performed(p[3]) == none);
    assert(stages_performed(p[4]) == none);
    assert(stages_performed(p[5]) == none);
    assert(stages_performed(p[6]) == if_asked(asked, Stage::Configure));
    assert(stages_performed(p[7]) == build_stages(asked)) by {
        if !(asked.contains(Stage::Build) || asked.contains(Stage::Install)) {
            assert(build_stages(asked) == none);
        }
    }
    assert(none + if_asked(asked, Stage::Clean) + none + none + none + none + if_asked(
        asked,
        Stage::Configure,
    ) + build_stages(asked) == if_asked(asked, Stage::Clean) + if_asked(
        asked,
        Stage::Configure,
    ) + build_stages(asked));
}

/// Where the build or the install stage was asked for, or both, the plan holds exactly one
/// build command, and that command asks for the install target exactly where the install
/// stage was asked for. Where neither was asked for, the plan holds no build command.
pub proof fn lemma_one_build_command(context: &AppContext, cpus: nat)
    ensures
        build_invocations(project_steps(context, cpus)) == (if context.stages@.contains(
            Stage::Build,
        ) || context.stages@.contains(Stage::Install) {
            seq![
                invocation_of(
                    build_line(context.variant, context.stages@.contains(Stage::Install), cpus),
                    context,
                    build_stages(context.stages@),
                ),
            ]
        } else {
            Seq::empty()
        }),
{
    let asked = context.stages@;
    let none = Seq::<InvocationView>::empty();
    let p = plan_parts(context, cpus);
    lemma_plan_parts(context, cpus);
    lemma_build_invocations_some(p[0]);
    lemma_build_invocations_some(p[1]);
    lemma_build_invocations_some(p[2]);
    lemma_build_invocations_some(p[3]);
    lemma_build_invocations_some(p[4]);
    lemma_build_invocations_some(p[5]);
    lemma_build_invocations_some(p[6]);
    lemma_build_invocations_some(p[7]);
    lemma_build_invocations_concat(p[0], p[1]);
    lemma_build_invocations_concat(p[0] + p[1], p[2]);
    lemma_build_invocations_concat(p[0] + p[1] + p[2], p[3]);
    lemma_build_invocations_concat(p[0] + p[1] + p[2] + p[3], p[4]);
    lemma_build_invocations_concat(p[0] + p[1] + p[2] + p[3] + p[4], p[5]);
    lemma_build_invocations_concat(p[0] + p[1] + p[2] + p[3] + p[4] + p[5], p[6]);
    lemma_build_invocations_concat(p[0] + p[1] + p[2] + p[3] + p[4] + p[5] + p[6], p[7]);
    assert(build_invocations(p[0]) == none);
    assert(build_invocations(p[1]) == none);
    assert(build_invocations(p[2]) == none);
    assert(build_invocations(p[3]) == none);
    assert(build_invocations(p[4]) == none);
    assert(build_invocations(p[5]) == none);
    assert(build_invocations(p[6]) == none) by {
        assert(!seq![Stage::Configure].contains(Stage::Build));
        assert(!seq![Stage::Configure].contains(Stage::Install));
    }
    let found = build_invocations(p[7]);
    if asked.contains(Stage::Build) || asked.contains(Stage::Install) {
        let performed = build_stages(asked);
        if asked.contains(Stage::Build) {
            assert(performed[0] == Stage::Build);
        } else {
            assert(performed[0] == Stage::Install);
        }
        assert(found == seq![
            invocation_of(
                build_line(context.variant, asked.contains(Stage::Install), cpus),
                context,
                performed,
            ),
        ]);
    }
    assert(none + none + none + none + none + none + none + found == found);
}

/// A build that has gone through without a failure has reached the last stage that was asked
/// for, in the order of the pipeline, and has not started where none was asked for.
pub proof fn lemma_success_reaches_last_stage(context: &AppContext, cpus: nat, s: PipelineView)
    requires
        s.plan == project_steps(context, cpus),
        s.failure is None,
        s.next >= s.plan.len(),
    ensures
        progress_of(s) == (if in_pipeline_order(context.stages@).len() == 0 {
            Progress::NotStarted
        } else {
            reached(in_pipeline_order(context.stages@).last())
        }),
{
    lemma_stages_run_in_pipeline_order(context, cpus);
    assert(s.plan.subrange(0, s.plan.len() as int) == s.plan);
}

} // verus!
