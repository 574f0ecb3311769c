use scan_engine::error::ScanError;
use scan_engine::model::{Percent, ScanStatus, Severity};
use scan_engine::process::{ProcessManager, RunEnd};

#[test]
fn manager_keeps_its_budget() {
    let m = ProcessManager::new(300);
    assert_eq!(m.timeout_secs, 300);
    assert_eq!(m.timeout_millis(), 300_000);
    assert_eq!(ProcessManager::new(u64::MAX).timeout_millis(), u64::MAX);
    assert_eq!(ProcessManager::new(u64::MAX / 1000).timeout_millis(), u64::MAX / 1000 * 1000);
    assert_eq!(ProcessManager::new(0).timeout_millis(), 0);
}

#[test]
fn timeout_is_told_apart_from_a_failed_start() {
    let m = ProcessManager::new(1);
    assert_eq!(m.execute_with_timeout(RunEnd::TimedOut), Err(ScanError::Timeout));
    assert_eq!(
        m.execute_with_timeout(RunEnd::NotStarted { reason: "no such file".to_string() }),
        Err(ScanError::Spawn { message: "Failed to execute command: no such file".to_string() })
    );
    assert_eq!(
        m.execute_with_timeout(RunEnd::Finished { stdout: "out".to_string(), stderr: "err".to_string() }),
        Ok(("out".to_string(), "err".to_string()))
    );
}

#[test]
fn kill_command_reaches_the_whole_tree() {
    let unix = ProcessManager::kill_process_tree(4242, false).unwrap();
    assert_eq!(unix.program, "kill");
    assert_eq!(unix.args, vec!["-KILL", "--", "-4242"]);
    let windows = ProcessManager::kill_process_tree(7, true).unwrap();
    assert_eq!(windows.program, "taskkill");
    assert_eq!(windows.args, vec!["/F", "/T", "/PID", "7"]);
}

#[test]
fn no_kill_command_for_the_first_two_identities() {
    for windows in [false, true] {
        assert_eq!(ProcessManager::kill_process_tree(0, windows), None);
        assert_eq!(ProcessManager::kill_process_tree(1, windows), None);
        assert!(ProcessManager::kill_process_tree(2, windows).is_some());
    }
}

#[test]
fn error_messages() {
    assert_eq!(ScanError::Timeout.message(), "Command timed out");
    assert_eq!(ScanError::Cancelled.message(), "Scan cancelled");
    assert_eq!(ScanError::Validation { message: "a".to_string() }.message(), "a");
    assert_eq!(ScanError::Spawn { message: "b".to_string() }.message(), "b");
    assert_eq!(ScanError::ToolExit { message: "c".to_string() }.message(), "c");
    assert_eq!(ScanError::Decode { message: "d".to_string() }.message(), "d");
    assert_eq!(ScanError::Persistence { message: "e".to_string() }.message(), "e");
}

#[test]
fn severities_are_ordered() {
    let order = [Severity::Info, Severity::Low, Severity::Medium, Severity::High, Severity::Critical];
    for (i, a) in order.iter().enumerate() {
        assert_eq!(a.rank() as usize, i);
        for (j, b) in order.iter().enumerate() {
            assert_eq!(a.at_least(b), i >= j);
        }
    }
    assert_eq!(Severity::Critical.name(), "Critical");
    assert_eq!(Severity::Info.name(), "Info");
}

#[test]
fn status_transitions() {
    let failed = ScanStatus::Failed { error: "x".to_string() };
    assert!(!ScanStatus::Queued.is_terminal());
    assert!(!ScanStatus::Running.is_terminal());
    assert!(ScanStatus::Completed.is_terminal());
    assert!(failed.is_terminal());
    assert!(ScanStatus::Cancelled.is_terminal());
    assert!(ScanStatus::Queued.can_transition_to(&ScanStatus::Running));
    assert!(ScanStatus::Queued.can_transition_to(&ScanStatus::Cancelled));
    assert!(!ScanStatus::Queued.can_transition_to(&ScanStatus::Completed));
    assert!(ScanStatus::Running.can_transition_to(&ScanStatus::Completed));
    assert!(ScanStatus::Running.can_transition_to(&failed));
    assert!(!ScanStatus::Running.can_transition_to(&ScanStatus::Queued));
    for terminal in [ScanStatus::Completed, failed.clone(), ScanStatus::Cancelled] {
        for next in [ScanStatus::Queued, ScanStatus::Running, ScanStatus::Completed, ScanStatus::Cancelled] {
            assert!(!terminal.can_transition_to(&next));
        }
    }
}

#[test]
fn percent_constructors() {
    assert_eq!(Percent::zero().hundredths, 0);
    assert_eq!(Percent::whole(100).hundredths, 10000);
    assert_eq!(Percent::whole(10).hundredths, 1000);
    assert_eq!(Percent::whole(101).hundredths, 10000);
}
