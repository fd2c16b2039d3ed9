use rvemu_cli::session::{
    check_kernel, check_memory_inputs, check_sizes, goal_reached, instruction_limit,
    instruction_size, Halt, LlmRun, Step,
};

#[test]
fn run_stops_at_limit_fatal_trap_or_goal() {
    let mut run = LlmRun::new(Some(2));
    assert_eq!(run.after_instruction(false, false), Step::Continue);
    assert_eq!(run.after_instruction(false, true), Step::Stop(Halt::LimitReached));
    assert_eq!(run.executed, 2);
    let mut run = LlmRun::new(None);
    assert_eq!(run.after_instruction(false, false), Step::Continue);
    assert_eq!(run.after_instruction(false, true), Step::Stop(Halt::GoalReached));
    assert_eq!(run.after_instruction(true, true), Step::Stop(Halt::FatalTrap));
    assert_eq!(run.executed, 3);
}

#[test]
fn retries_give_up_on_the_third_failure() {
    let run = LlmRun::new(None);
    assert_eq!(run.after_request_failure(0), Step::Continue);
    assert_eq!(run.after_request_failure(1), Step::Continue);
    assert_eq!(run.after_request_failure(2), Step::Stop(Halt::RetriesExhausted));
}

#[test]
fn instruction_sizes() {
    assert_eq!(instruction_size(0x00000013), 4);
    assert_eq!(instruction_size(0x4501), 2);
    assert_eq!(instruction_size(0x0002), 2);
}

#[test]
fn goal_prefix_matching() {
    assert!(goal_reached(&[1, 2, 3], &[1, 2]));
    assert!(goal_reached(&[1, 2, 3], &[]));
    assert!(!goal_reached(&[1, 2, 3], &[1, 3]));
    assert!(goal_reached(&[0x2a, 0, 0], &[0x2a]));
}

#[test]
fn instruction_limit_defaults_to_mock_length() {
    assert_eq!(instruction_limit(Some(5), Some(2)), Some(5));
    assert_eq!(instruction_limit(None, Some(2)), Some(2));
    assert_eq!(instruction_limit(None, None), None);
}

#[test]
fn command_line_input_checks() {
    assert_eq!(check_kernel(false, false), Err("--kernel is required unless --llm is enabled".to_string()));
    assert_eq!(check_kernel(false, true), Ok(()));
    assert_eq!(
        check_memory_inputs(false, true, true, false),
        Err("--starting-memory and --goal-file are only valid with --llm".to_string())
    );
    assert_eq!(
        check_memory_inputs(true, true, true, false),
        Err("Use either --kernel or --starting-memory with --llm, not both".to_string())
    );
    assert_eq!(check_memory_inputs(true, false, true, true), Ok(()));
    assert_eq!(
        check_sizes(65, None, 64),
        Err("initial DRAM input is larger than --memory-size".to_string())
    );
    assert_eq!(
        check_sizes(64, Some(65), 64),
        Err("goal file is larger than --memory-size".to_string())
    );
    assert_eq!(check_sizes(64, Some(64), 64), Ok(()));
}
