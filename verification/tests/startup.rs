//! Startup: pattern compilation, command validation, and the failure
//! paths that keep the watch loop from ever starting.

use fswatch::errors::ConfigError;
use fswatch::matcher::CompiledMatcher;
use fswatch::watch::{initialize, setup_failure, TargetCommand, TerminationReason, WatchPhase};

fn echo_command() -> Vec<String> {
    vec!["echo".to_string(), "changed".to_string()]
}

#[test]
fn invalid_pattern_fails_startup() {
    // Unbalanced group syntax cannot compile.
    let err = initialize(
        ".".to_string(),
        echo_command(),
        Some("(unclosed".to_string()),
        2,
    )
    .unwrap_err();
    match err {
        ConfigError::InvalidPattern {
            pattern,
            diagnostic,
        } => {
            assert_eq!(pattern, "(unclosed");
            assert!(!diagnostic.is_empty());
        }
        other => panic!("expected InvalidPattern, got {:?}", other),
    }
}

#[test]
fn invalid_pattern_rejected_at_the_matcher() {
    let err = CompiledMatcher::compile(Some(")mismatched".to_string())).unwrap_err();
    assert!(matches!(err, ConfigError::InvalidPattern { .. }));
}

#[test]
fn empty_command_is_rejected() {
    let err = initialize(".".to_string(), Vec::new(), None, 2).unwrap_err();
    assert_eq!(err, ConfigError::EmptyCommand);
}

#[test]
fn empty_command_rejected_even_with_valid_pattern() {
    let err = initialize(
        ".".to_string(),
        Vec::new(),
        Some("\\.tmp$".to_string()),
        2,
    )
    .unwrap_err();
    assert_eq!(err, ConfigError::EmptyCommand);
}

#[test]
fn invalid_pattern_reported_before_empty_command() {
    let err = initialize(".".to_string(), Vec::new(), Some("(".to_string()), 2).unwrap_err();
    assert!(matches!(err, ConfigError::InvalidPattern { .. }));
}

#[test]
fn valid_configuration_is_kept_verbatim() {
    let config = initialize(
        "watched/dir".to_string(),
        echo_command(),
        Some("\\.log$".to_string()),
        5,
    )
    .unwrap();
    assert_eq!(config.target, "watched/dir");
    assert_eq!(config.debounce_interval, 5);
    assert_eq!(config.command.program(), "echo");
    assert_eq!(config.command.parts(), &echo_command());
    assert!(config.matcher.matches("build.log"));
    assert!(!config.matcher.matches("main.rs"));
}

#[test]
fn target_command_requires_an_executable_name() {
    let err = TargetCommand::new(Vec::new()).unwrap_err();
    assert_eq!(err, ConfigError::EmptyCommand);
    let cmd = TargetCommand::new(vec!["make".to_string()]).unwrap();
    assert_eq!(cmd.program(), "make");
    assert_eq!(cmd.parts().len(), 1);
}

#[test]
fn setup_failure_terminates_without_watching() {
    let phase = setup_failure(ConfigError::EmptyCommand);
    assert_eq!(
        phase,
        WatchPhase::Terminated(TerminationReason::SetupError(ConfigError::EmptyCommand))
    );
}
