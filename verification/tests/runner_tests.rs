use nexish::runner::Runner;
use nexish::runner::StageOutcome;
use nexish::runner::StagePlan;
use nexish::runner::StdinSource;
use nexish::runner::StdoutSink;
use nexish::stage::parse_line;

#[test]
fn two_external_stages_are_wired_left_to_right() {
    let stages = parse_line("echo a|echo b").unwrap();
    assert_eq!(stages.len(), 2);

    let mut runner = Runner::new();

    // First stage: external, not last, nothing piped yet.
    let plan = runner.plan_stage(&stages[0], false);
    assert_eq!(
        plan,
        StagePlan::Spawn { stdin: StdinSource::Inherited, stdout: StdoutSink::Piped }
    );
    runner.record(StageOutcome::ProcessSpawned { piped: true });
    assert_eq!(runner.piped_from, Some(0));

    // Second stage: external, last, consumes the first process's output.
    let plan = runner.plan_stage(&stages[1], true);
    assert_eq!(
        plan,
        StagePlan::Spawn { stdin: StdinSource::FromPipe, stdout: StdoutSink::Inherited }
    );
    runner.record(StageOutcome::ProcessSpawned { piped: false });

    // The shell blocks only once, on the second process alone.
    assert!(runner.must_wait());
    assert_eq!(runner.wait_target(), Some(1));
    assert_eq!(runner.piped_from, None);
}

#[test]
fn failed_spawn_clears_the_pipe_and_owes_no_wait() {
    let stages = parse_line("nosuchprog123|sort").unwrap();
    let mut runner = Runner::new();

    let plan = runner.plan_stage(&stages[0], false);
    assert!(matches!(plan, StagePlan::Spawn { .. }));
    runner.record(StageOutcome::SpawnFailed);
    assert!(!runner.must_wait());
    assert_eq!(runner.wait_target(), None);

    // The next stage runs as if no pipeline context existed.
    let plan = runner.plan_stage(&stages[1], true);
    assert_eq!(
        plan,
        StagePlan::Spawn { stdin: StdinSource::Inherited, stdout: StdoutSink::Inherited }
    );
}

#[test]
fn builtin_stage_keeps_the_pipe_but_is_not_waited_on() {
    let stages = parse_line("echo a|pwd").unwrap();
    let mut runner = Runner::new();

    runner.plan_stage(&stages[0], false);
    runner.record(StageOutcome::ProcessSpawned { piped: true });

    let plan = runner.plan_stage(&stages[1], true);
    assert_eq!(plan, StagePlan::RunBuiltin(nexish::dispatch::Builtin::Pwd));
    runner.record(StageOutcome::BuiltinCompleted);
    assert!(!runner.must_wait());
    // The piped output stays live: builtins never consume it.
    assert_eq!(runner.piped_from, Some(0));
}

#[test]
fn repeating_a_builtin_leaves_the_runner_unchanged() {
    let mut first = Runner::new();
    first.record(StageOutcome::BuiltinCompleted);
    let after_one = first;

    let mut second = after_one;
    second.record(StageOutcome::BuiltinCompleted);
    assert_eq!(second, after_one);
}

#[test]
fn fresh_runner_performs_no_action() {
    let runner = Runner::new();
    assert!(!runner.must_wait());
    assert_eq!(runner.piped_from, None);
    assert_eq!(runner.spawned, 0);
}

#[test]
fn last_external_stage_inherits_stdout() {
    let stages = parse_line("cat notes.txt").unwrap();
    let runner = Runner::new();
    let plan = runner.plan_stage(&stages[0], true);
    assert_eq!(
        plan,
        StagePlan::Spawn { stdin: StdinSource::Inherited, stdout: StdoutSink::Inherited }
    );
}

#[test]
fn each_spawn_takes_the_next_ordinal() {
    let mut runner = Runner::new();
    runner.record(StageOutcome::ProcessSpawned { piped: true });
    runner.record(StageOutcome::ProcessSpawned { piped: true });
    runner.record(StageOutcome::ProcessSpawned { piped: false });
    assert_eq!(runner.spawned, 3);
    assert_eq!(runner.wait_target(), Some(2));
}
