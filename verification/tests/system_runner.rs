use wnf::system_runner::{
    ensure_running_as_system, initial_exit, system_exit, PipelineId, RunnerStep, Stage, State, SystemRunner,
    INTERNAL_ERROR_CODE,
};

#[test]
fn pipeline_id_parsing_and_rendering() {
    assert_eq!(PipelineId::from_str("1234"), Some(PipelineId(1234)));
    assert_eq!(PipelineId::from_str("+7"), Some(PipelineId(7)));
    assert_eq!(PipelineId::from_str("4294967295"), Some(PipelineId(u32::MAX)));
    assert_eq!(PipelineId::from_str("4294967296"), None);
    assert_eq!(PipelineId::from_str(""), None);
    assert_eq!(PipelineId::from_str("+"), None);
    assert_eq!(PipelineId::from_str("-1"), None);
    assert_eq!(PipelineId::from_str("12a"), None);
    assert_eq!(PipelineId(987).to_string(), "987");
    assert_eq!(PipelineId(42).to_pipe_name("payload_stdout"), "__system_runner__.42.payload_stdout");
}

#[test]
fn stages() {
    assert_eq!(Stage::Initial.id(), "0");
    assert_eq!(Stage::Payload.id(), "3");
    assert_eq!(Stage::from_id("2"), Some(Stage::System));
    assert_eq!(Stage::from_id("4"), None);
    assert_eq!(Stage::from_id("01"), None);
    assert_eq!(Stage::Initial.next(), Some(Stage::Admin));
    assert_eq!(Stage::Payload.next(), None);
}

#[test]
fn state_arguments() {
    let state = State { pipeline_id: PipelineId(4711), stage: Stage::Admin };
    assert_eq!(state.to_arg(), "__system_runner__.4711.1");
    assert_eq!(State::from_arg("__system_runner__.4711.1"), Some(state));
    assert_eq!(State::from_arg("__system_runner__.4711.1.extra"), Some(state));
    assert_eq!(State::from_arg("__system_runner__.4711"), None);
    assert_eq!(State::from_arg("__system_runner__.x.1"), None);
    assert_eq!(State::from_arg("__system_runner__.4711.9"), None);
    assert_eq!(State::from_arg("other.4711.1"), None);
    assert_eq!(State::initial(5).next(), Some(State { pipeline_id: PipelineId(5), stage: Stage::Admin }));
    for stage in [Stage::Initial, Stage::Admin, Stage::System, Stage::Payload] {
        let state = State { pipeline_id: PipelineId(u32::MAX), stage };
        assert_eq!(State::from_arg(&state.to_arg()), Some(state));
    }
}

#[test]
fn runner_from_arguments() {
    let runner = SystemRunner::from_args(vec!["--flag".to_string()], 99);
    assert_eq!(runner.state, State::initial(99));
    assert_eq!(runner.args, vec!["--flag".to_string()]);

    let runner = SystemRunner::from_args(vec!["__system_runner__.5.2".to_string(), "x".to_string()], 99);
    assert_eq!(runner.state, State { pipeline_id: PipelineId(5), stage: Stage::System });
    assert_eq!(runner.args, vec!["x".to_string()]);
}

#[test]
fn runner_steps() {
    let (runner, step) = ensure_running_as_system(vec![], 10);
    assert_eq!(runner.state, State::initial(10));
    assert!(matches!(step, RunnerStep::RerunAsAdmin { first_arg } if first_arg == "__system_runner__.10.1"));

    let (_, step) = ensure_running_as_system(vec!["__system_runner__.10.1".to_string()], 11);
    assert!(matches!(step, RunnerStep::RerunAsSystem { first_arg } if first_arg == "__system_runner__.10.2"));

    let (_, step) = ensure_running_as_system(vec!["__system_runner__.10.2".to_string()], 12);
    assert!(matches!(step, RunnerStep::RerunPayload { first_arg } if first_arg == "__system_runner__.10.3"));

    let (runner, step) = ensure_running_as_system(vec!["__system_runner__.10.3".to_string(), "a".to_string()], 13);
    assert!(matches!(step, RunnerStep::Proceed));
    assert_eq!(runner.args, vec!["a".to_string()]);
}

#[test]
fn exit_codes() {
    assert_eq!(initial_exit(3), Ok(3));
    assert_eq!(initial_exit(INTERNAL_ERROR_CODE), Err("rerunning as system failed".to_string()));
    assert_eq!(system_exit(0), Ok(0));
    assert_eq!(system_exit(INTERNAL_ERROR_CODE), Ok(INTERNAL_ERROR_CODE));
    assert_eq!(system_exit(-5), Err("PAExec failed with exit code -5".to_string()));
}

#[test]
fn pipeline_ids_are_read_back_from_their_rendering() {
    for id in [0, 7, 10, 4711, u32::MAX] {
        assert_eq!(PipelineId::from_str(&PipelineId(id).to_string()), Some(PipelineId(id)));
    }
    for stage in [Stage::Initial, Stage::Admin, Stage::System, Stage::Payload] {
        assert_eq!(Stage::from_id(stage.id()), Some(stage));
    }
}
