use web_spec::execution::debug::{DebugCommand, Debugger, ExecutionState};

#[test]
fn test_debugger_creation() {
    let debugger = Debugger::new();
    assert!(!debugger.enabled);
    assert!(!debugger.paused);
    assert!(debugger.breakpoints.is_empty());
}

#[test]
fn test_debugger_enable_disable() {
    let mut debugger = Debugger::new();
    assert!(!debugger.enabled);
    debugger.enable();
    assert!(debugger.enabled);
    debugger.disable();
    assert!(!debugger.enabled);
}

#[test]
fn test_set_breakpoint() {
    let mut debugger = Debugger::new();
    debugger.set_scenario_breakpoint("Test Scenario", true);
    assert!(debugger.breakpoints.contains_key("Test Scenario"));
    assert_eq!(debugger.breakpoints.get("Test Scenario"), Some(&true));
}

#[test]
fn test_should_pause_at_breakpoint() {
    let mut debugger = Debugger::new();
    debugger.enable();
    debugger.set_scenario_breakpoint("Test Scenario", true);
    assert!(debugger.should_pause("Test Scenario", "I click button"));
}

#[test]
fn test_should_not_pause_without_breakpoint() {
    let mut debugger = Debugger::new();
    debugger.enable();
    assert!(!debugger.should_pause("Test Scenario", "I click button"));
}

#[test]
fn test_parse_commands() {
    let debugger = Debugger::new();
    assert!(matches!(debugger.parse_command("c"), DebugCommand::Continue));
    assert!(matches!(debugger.parse_command("continue"), DebugCommand::Continue));
    assert!(matches!(debugger.parse_command("n"), DebugCommand::Step));
    assert!(matches!(debugger.parse_command("step"), DebugCommand::Step));
    assert!(matches!(debugger.parse_command("r"), DebugCommand::Repeat));
    assert!(matches!(debugger.parse_command("s"), DebugCommand::Skip));
    assert!(matches!(debugger.parse_command("h"), DebugCommand::Help));
    assert!(matches!(debugger.parse_command("q"), DebugCommand::Quit));
}

#[test]
fn test_execution_state() {
    let mut state = ExecutionState::new();
    state.set_variable("test_var", "test_value");
    assert_eq!(state.get_variable("test_var").map(|v| v.as_str()), Some("test_value"));
    assert!(state.get_variable("nonexistent").is_none());
}

#[test]
fn test_clear_breakpoints() {
    let mut debugger = Debugger::new();
    debugger.set_scenario_breakpoint("Test 1", true);
    debugger.set_scenario_breakpoint("Test 2", true);
    debugger.set_step_breakpoint("Step 1", true);
    assert!(!debugger.breakpoints.is_empty());
    debugger.clear_breakpoints();
    assert!(debugger.breakpoints.is_empty());
    assert!(debugger.step_breakpoints.is_empty());
}

#[test]
fn break_command_carries_the_scenario_name() {
    let debugger = Debugger::new();
    match debugger.parse_command("break My Scenario") {
        DebugCommand::SetBreakpoint(name) => assert_eq!(name, "My Scenario"),
        other => panic!("unexpected command: {:?}", other),
    }
    match debugger.parse_command("clear My Scenario") {
        DebugCommand::ClearBreakpoint(name) => assert_eq!(name, "My Scenario"),
        other => panic!("unexpected command: {:?}", other),
    }
    assert!(matches!(debugger.parse_command("break"), DebugCommand::Unknown));
    assert!(matches!(debugger.parse_command("gibberish"), DebugCommand::Unknown));
    assert!(matches!(debugger.parse_command("   "), DebugCommand::Unknown));
}

#[test]
fn overwriting_a_breakpoint_keeps_one_entry() {
    let mut debugger = Debugger::new();
    debugger.set_scenario_breakpoint("S", true);
    debugger.set_scenario_breakpoint("S", false);
    assert_eq!(debugger.breakpoints.len(), 1);
    assert_eq!(debugger.breakpoints.get("S"), Some(&false));
    assert!(!debugger.should_pause("S", "step"));
}
