use scan_engine::coordinator::pipeline::{
    execute_comprehensive_scan, execute_custom_scan, execute_quick_scan, execute_stealth_scan,
    line_progress, progress_rule, tool_for, Action, Event, Phase, Tool, BACKOFF_MILLIS,
};
use scan_engine::masscan::ProgressRule;
use scan_engine::coordinator::registry::{
    Admission, ScanRegistry, ScanStatistics, TaskEvent,
};
use scan_engine::coordinator::storage::{store_scan_result, StoreStep};
use scan_engine::coordinator::{range_progress, ScanCoordinator, ScanRecord};
use scan_engine::error::ScanError;
use scan_engine::masscan::MasscanScanner;
use scan_engine::model::{
    CvssScore, IpAddress, OsDetection, Percent, Port, ScanId, ScanProgress, ScanResult, ScanStatus,
    ScanTarget, ScanType, Severity, Vulnerability,
};
use scan_engine::nmap::NmapScanner;
use scan_engine::process::ToolRun;
use scan_engine::rate_limiter::RateLimiter;

fn target(id: ScanId, scan_type: ScanType) -> ScanTarget {
    ScanTarget { id, ip: IpAddress::V4(0x0a000001), hostname: None, ports: vec![], scan_type }
}

fn quick(id: ScanId) -> ScanTarget {
    target(id, ScanType::Quick)
}

fn run(lines: &[&str], succeeded: bool, stderr: &str) -> ToolRun {
    ToolRun {
        lines: lines.iter().map(|l| l.to_string()).collect(),
        succeeded,
        stderr: stderr.to_string(),
    }
}

fn stats(total_active: usize, running: usize, queued: usize) -> ScanStatistics {
    ScanStatistics { total_active, running, queued }
}

fn status_of(r: &ScanRegistry, id: ScanId) -> Option<ScanStatus> {
    r.get_active_scans().into_iter().find(|(i, _)| *i == id).map(|(_, s)| s)
}

#[test]
fn new_scan_is_queued() {
    let mut r = ScanRegistry::new(10);
    assert_eq!(r.start_scan(quick(1), 5), Ok(1));
    assert_eq!(status_of(&r, 1), Some(ScanStatus::Queued));
    assert_eq!(r.get_scan_statistics(), stats(1, 0, 1));
}

#[test]
fn identity_on_record_is_refused() {
    let mut r = ScanRegistry::new(10);
    assert_eq!(r.start_scan(quick(1), 5), Ok(1));
    assert_eq!(
        r.start_scan(quick(1), 6),
        Err(ScanError::Validation { message: "Scan is already active".to_string() })
    );
    assert_eq!(r.get_scan_statistics(), stats(1, 0, 1));
}

#[test]
fn running_scans_never_outnumber_the_permits() {
    let capacity = 3;
    let mut r = ScanRegistry::new(capacity);
    for id in 0..20u128 {
        assert_eq!(r.start_scan(quick(id), 0), Ok(id));
    }
    let mut admitted = 0;
    for id in 0..20u128 {
        match r.try_admit(id) {
            Admission::Admitted => admitted += 1,
            Admission::Wait => {},
            other => panic!("unexpected {:?}", other),
        }
        let s = r.get_scan_statistics();
        assert!(s.running <= capacity);
        assert_eq!(s.total_active, s.running + s.queued);
    }
    assert_eq!(admitted, capacity);
    assert_eq!(r.get_scan_statistics(), stats(20, 3, 17));
    let done = r.handle_scan_completion(0, TaskEvent::Failed(ScanError::Timeout));
    assert_eq!(done.status, Some(ScanStatus::Failed { error: "Command timed out".to_string() }));
    assert_eq!(r.try_admit(10), Admission::Admitted);
    assert_eq!(r.try_admit(11), Admission::Wait);
    assert_eq!(r.get_scan_statistics(), stats(19, 3, 16));
}

#[test]
fn admission_is_idempotent() {
    let mut r = ScanRegistry::new(1);
    r.start_scan(quick(1), 0).unwrap();
    assert_eq!(r.try_admit(1), Admission::Admitted);
    assert_eq!(r.try_admit(1), Admission::Admitted);
    assert_eq!(r.get_scan_statistics(), stats(1, 1, 0));
    assert_eq!(r.try_admit(99), Admission::Unknown);
}

#[test]
fn zero_permits_admit_nothing() {
    let mut r = ScanRegistry::new(0);
    r.start_scan(quick(1), 0).unwrap();
    assert_eq!(r.try_admit(1), Admission::Wait);
    assert_eq!(status_of(&r, 1), Some(ScanStatus::Queued));
}

#[test]
fn produced_result_completes_and_is_emitted() {
    let mut r = ScanRegistry::new(1);
    r.start_scan(quick(1), 0).unwrap();
    r.try_admit(1);
    let result = ScanResult::empty(9, 1, 77);
    let done = r.handle_scan_completion(1, TaskEvent::Produced(result.clone()));
    assert_eq!(done.status, Some(ScanStatus::Completed));
    assert_eq!(done.emit, Some(result));
    assert_eq!(r.get_scan_statistics(), stats(0, 0, 0));
    assert_eq!(r.get_active_scans(), vec![]);
}

#[test]
fn failure_is_reported_with_its_message_and_nothing_is_emitted() {
    let mut r = ScanRegistry::new(1);
    r.start_scan(quick(1), 0).unwrap();
    r.try_admit(1);
    let done = r.handle_scan_completion(
        1,
        TaskEvent::Failed(ScanError::ToolExit { message: "Nmap scan failed: x".to_string() }),
    );
    assert_eq!(done.status, Some(ScanStatus::Failed { error: "Nmap scan failed: x".to_string() }));
    assert_eq!(done.emit, None);
}

#[test]
fn cancellation_goes_before_a_late_result() {
    let mut r = ScanRegistry::new(1);
    r.start_scan(quick(1), 0).unwrap();
    r.start_scan(quick(2), 0).unwrap();
    assert_eq!(r.try_admit(1), Admission::Admitted);
    assert_eq!(r.cancel_scan(1), Ok(true));
    assert_eq!(status_of(&r, 1), None);
    assert_eq!(r.get_scan_statistics(), stats(1, 0, 1));
    assert_eq!(r.try_admit(2), Admission::Wait);
    let done = r.handle_scan_completion(1, TaskEvent::Produced(ScanResult::empty(9, 1, 77)));
    assert_eq!(done.status, Some(ScanStatus::Cancelled));
    assert_eq!(done.emit, None);
    assert_eq!(r.try_admit(2), Admission::Admitted);
}

#[test]
fn cancelled_before_admission_never_runs() {
    let mut r = ScanRegistry::new(1);
    r.start_scan(quick(1), 0).unwrap();
    assert_eq!(r.cancel_scan(1), Ok(true));
    assert_eq!(r.try_admit(1), Admission::Cancelled);
    let done = r.handle_scan_completion(1, TaskEvent::CancelObserved);
    assert_eq!(done.status, Some(ScanStatus::Cancelled));
    assert_eq!(done.emit, None);
    assert_eq!(r.try_admit(1), Admission::Unknown);
}

#[test]
fn completion_wins_once_it_has_happened() {
    let mut r = ScanRegistry::new(1);
    r.start_scan(quick(1), 0).unwrap();
    r.try_admit(1);
    let result = ScanResult::empty(9, 1, 77);
    let done = r.handle_scan_completion(1, TaskEvent::Produced(result.clone()));
    assert_eq!(done.emit, Some(result));
    assert_eq!(r.cancel_scan(1), Ok(false));
}

#[test]
fn cancelling_what_is_not_active_changes_nothing() {
    let mut r = ScanRegistry::new(2);
    r.start_scan(quick(1), 0).unwrap();
    r.try_admit(1);
    r.start_scan(quick(2), 0).unwrap();
    let before = r.get_scan_statistics();
    assert_eq!(r.cancel_scan(77), Ok(false));
    assert_eq!(r.get_scan_statistics(), before);
    assert_eq!(status_of(&r, 1), Some(ScanStatus::Running));
    assert_eq!(status_of(&r, 2), Some(ScanStatus::Queued));
    assert_eq!(r.cancel_scan(2), Ok(true));
    assert_eq!(r.cancel_scan(2), Ok(false));
    assert_eq!(r.get_scan_statistics(), stats(1, 1, 0));
}

#[test]
fn completion_of_unknown_work_is_empty() {
    let mut r = ScanRegistry::new(2);
    let done = r.handle_scan_completion(5, TaskEvent::CancelObserved);
    assert_eq!(done.status, None);
    assert_eq!(done.emit, None);
}

#[test]
fn snapshot_lists_every_active_scan_once() {
    let mut r = ScanRegistry::new(2);
    for id in [3u128, 1, 2] {
        r.start_scan(quick(id), 0).unwrap();
    }
    r.try_admit(2);
    let mut listed = r.get_active_scans();
    listed.sort_by_key(|(id, _)| *id);
    assert_eq!(
        listed,
        vec![(1, ScanStatus::Queued), (2, ScanStatus::Running), (3, ScanStatus::Queued)]
    );
    let mut ids = r.active_ids();
    ids.sort();
    assert_eq!(ids, vec![1, 2, 3]);
}

#[test]
fn default_coordinator_has_the_default_limits() {
    let c = ScanCoordinator::new();
    assert_eq!(c.nmap_scanner().rate_limit.limit(), 5);
    assert_eq!(c.masscan_scanner().rate_limit.limit(), 3);
    assert_eq!(c.masscan_scanner().max_rate, 10000);
    assert_eq!(c.process_manager().timeout_secs, 300);
    assert_eq!(c.get_scan_statistics(), stats(0, 0, 0));
}

#[test]
fn tools_run_a_bounded_number_of_processes() {
    let mut c = ScanCoordinator::new();
    for _ in 0..3 {
        assert!(c.try_begin_discovery());
    }
    assert!(!c.try_begin_discovery());
    assert_eq!(c.masscan_scanner().rate_limit.in_use(), 3);
    c.end_discovery();
    assert!(c.try_begin_discovery());
    for _ in 0..5 {
        assert!(c.try_begin_probe());
    }
    assert!(!c.try_begin_probe());
    c.end_probe();
    c.end_probe();
    assert_eq!(c.nmap_scanner().rate_limit.in_use(), 3);
}

#[test]
fn default_coordinator_runs_ten_scans_at_a_time() {
    let mut c = ScanCoordinator::new();
    for id in 0..12u128 {
        c.start_scan(quick(id), 0).unwrap();
    }
    for id in 0..10u128 {
        assert_eq!(c.try_admit(id), Admission::Admitted);
    }
    assert_eq!(c.try_admit(10), Admission::Wait);
    assert_eq!(c.get_scan_statistics(), stats(12, 10, 2));
}

#[test]
fn quick_pipeline_with_findings_stores_the_first() {
    let m = MasscanScanner::new(3, 10000);
    let t = quick(1);
    let begin = execute_quick_scan(&m, &t, Phase::Start, Event::Begin);
    assert_eq!(begin.next, Phase::Discovery);
    assert!(begin.announce.is_none());
    match begin.action {
        Action::Run(inv) => {
            assert_eq!(inv.program, "masscan");
            assert_eq!(inv.args[0], "10.0.0.1");
            assert_eq!(
                inv.args[2],
                "21,22,23,25,53,80,110,111,135,139,143,443,993,995,1723,3306,3389,5900,8080,8443"
            );
        },
        other => panic!("unexpected {:?}", other),
    }
    let end = execute_quick_scan(
        &m,
        &t,
        Phase::Discovery,
        Event::Ended(run(&["rate: 1.0", "open tcp 80 10.0.0.1", "open tcp 22 10.0.0.1"], true, "")),
    );
    assert_eq!(end.next, Phase::Finished);
    assert_eq!(end.progress.len(), 1);
    match end.action {
        Action::Complete(out) => {
            assert_eq!(out.result.target_id, 1);
            assert_eq!(out.result.status, ScanStatus::Completed);
            let ports: Vec<u16> = out.result.open_ports.iter().map(|p| p.number).collect();
            assert_eq!(ports, vec![80, 22]);
            assert_eq!(
                out.store,
                vec![
                    StoreStep::FindHost { address: "10.0.0.1".to_string() },
                    StoreStep::CreateHostIfAbsent { address: "10.0.0.1".to_string() },
                    StoreStep::CreatePort { number: 80, protocol: "tcp".to_string(), state: "open".to_string() },
                    StoreStep::CreatePort { number: 22, protocol: "tcp".to_string(), state: "open".to_string() },
                ]
            );
        },
        other => panic!("unexpected {:?}", other),
    }
}

#[test]
fn quick_pipeline_without_open_ports_completes_empty() {
    let m = MasscanScanner::new(3, 10000);
    let t = quick(17);
    let end = execute_quick_scan(&m, &t, Phase::Discovery, Event::Ended(run(&["Scanning 1 hosts"], true, "")));
    match end.action {
        Action::Complete(out) => {
            assert_eq!(out.result.status, ScanStatus::Completed);
            assert_eq!(out.result.target_id, 17);
            assert!(out.result.open_ports.is_empty());
            assert!(out.result.os_detection.is_none());
            assert!(out.result.vulnerabilities.is_empty());
            assert!(out.store.is_empty());
        },
        other => panic!("unexpected {:?}", other),
    }
}

#[test]
fn quick_pipeline_fails_with_the_tool() {
    let m = MasscanScanner::new(3, 10000);
    let end = execute_quick_scan(&m, &quick(1), Phase::Discovery, Event::Ended(run(&[], false, "boom")));
    assert_eq!(end.next, Phase::Finished);
    match end.action {
        Action::Fail(e) => assert_eq!(
            e,
            ScanError::ToolExit { message: "Masscan port discovery failed: boom".to_string() }
        ),
        other => panic!("unexpected {:?}", other),
    }
}

#[test]
fn event_that_does_not_fit_the_phase_ends_the_pipeline() {
    let m = MasscanScanner::new(3, 10000);
    let n = NmapScanner::new(5);
    let misuse = ScanError::Validation { message: "Unexpected event".to_string() };
    let a = execute_quick_scan(&m, &quick(1), Phase::Probe, Event::Begin);
    assert_eq!(a.next, Phase::Finished);
    assert!(matches!(a.action, Action::Fail(ref e) if *e == misuse));
    let b = execute_custom_scan(&n, &quick(1), Phase::Start, Event::Woke);
    assert!(matches!(b.action, Action::Fail(ref e) if *e == misuse));
    let c = execute_comprehensive_scan(&m, &n, &quick(1), Phase::Finished, Event::Begin);
    assert!(matches!(c.action, Action::Fail(ref e) if *e == misuse));
}

#[test]
fn comprehensive_pipeline_discovers_then_probes() {
    let m = MasscanScanner::new(3, 10000);
    let n = NmapScanner::new(5);
    let t = target(1, ScanType::Comprehensive);
    let begin = execute_comprehensive_scan(&m, &n, &t, Phase::Start, Event::Begin);
    assert_eq!(begin.next, Phase::Discovery);
    assert_eq!(
        begin.announce,
        Some(ScanProgress {
            percent: Percent { hundredths: 1000 },
            message: "Starting port discovery...".to_string(),
            eta: None
        })
    );
    match begin.action {
        Action::Run(inv) => assert_eq!(
            inv.args,
            vec![
                "10.0.0.1", "-p", "1-65535", "--rate", "10000", "--output-format", "list",
                "--output-filename", "-", "--banners"
            ]
        ),
        other => panic!("unexpected {:?}", other),
    }
    let mid = execute_comprehensive_scan(
        &m,
        &n,
        &t,
        Phase::Discovery,
        Event::Ended(run(&["open tcp 80 10.0.0.1"], true, "")),
    );
    assert_eq!(mid.next, Phase::Probe);
    assert_eq!(
        mid.announce,
        Some(ScanProgress {
            percent: Percent { hundredths: 5000 },
            message: "Performing detailed analysis...".to_string(),
            eta: None
        })
    );
    match mid.action {
        Action::Run(inv) => {
            assert_eq!(inv.program, "nmap");
            assert_eq!(inv.args, vec!["-oX", "-", "-sS", "-sV", "-O", "-A", "-T4", "-p", "1-65535", "10.0.0.1"]);
        },
        other => panic!("unexpected {:?}", other),
    }
    let end = execute_comprehensive_scan(
        &m,
        &n,
        &t,
        Phase::Probe,
        Event::Ended(run(&["<r><port portid=\"22\" protocol=\"tcp\"/></r>"], true, "")),
    );
    assert_eq!(end.next, Phase::Finished);
    match end.action {
        Action::Complete(out) => {
            assert_eq!(out.result.target_id, 1);
            assert_eq!(out.result.open_ports[0].number, 22);
            assert_eq!(out.store.len(), 3);
        },
        other => panic!("unexpected {:?}", other),
    }
}

#[test]
fn comprehensive_pipeline_stops_when_discovery_fails() {
    let m = MasscanScanner::new(3, 10000);
    let n = NmapScanner::new(5);
    let t = target(1, ScanType::Comprehensive);
    let mid = execute_comprehensive_scan(&m, &n, &t, Phase::Discovery, Event::Ended(run(&[], false, "denied")));
    assert_eq!(mid.next, Phase::Finished);
    assert!(mid.announce.is_none());
    assert!(matches!(
        mid.action,
        Action::Fail(ScanError::ToolExit { ref message }) if message == "Masscan failed: denied"
    ));
}

#[test]
fn stealth_pipeline_waits_for_a_token() {
    let n = NmapScanner::new(5);
    let t = target(1, ScanType::Stealth);
    let mut empty = RateLimiter::new(0, 0);
    let wait = execute_stealth_scan(&n, &mut empty, &t, Phase::Start, Event::Begin);
    assert_eq!(wait.next, Phase::Throttled);
    assert!(matches!(wait.action, Action::Sleep { millis } if millis == BACKOFF_MILLIS));
    assert_eq!(BACKOFF_MILLIS, 100);
    let again = execute_stealth_scan(&n, &mut empty, &t, Phase::Throttled, Event::Woke);
    assert_eq!(again.next, Phase::Throttled);
    let mut full = RateLimiter::new(1, 0);
    let go = execute_stealth_scan(&n, &mut full, &t, Phase::Throttled, Event::Woke);
    assert_eq!(go.next, Phase::Probe);
    match go.action {
        Action::Run(inv) => assert_eq!(inv.args, vec!["-oX", "-", "-sS", "-T2", "-f", "10.0.0.1"]),
        other => panic!("unexpected {:?}", other),
    }
    assert_eq!(full.available(), 0);
}

#[test]
fn custom_pipeline_probes_with_the_given_options() {
    let n = NmapScanner::new(5);
    let t = target(1, ScanType::Custom { options: "-sU -p 53".to_string() });
    let begin = execute_custom_scan(&n, &t, Phase::Start, Event::Begin);
    assert_eq!(begin.next, Phase::Probe);
    match begin.action {
        Action::Run(inv) => assert_eq!(inv.args, vec!["-oX", "-", "-sU", "-p", "53", "10.0.0.1"]),
        other => panic!("unexpected {:?}", other),
    }
    let end = execute_custom_scan(&n, &t, Phase::Probe, Event::Ended(run(&["<broken"], true, "")));
    assert!(matches!(end.action, Action::Fail(ScanError::Decode { .. })));
}

#[test]
fn work_without_a_permit_starts_no_tool() {
    let mut c = ScanCoordinator::with_capacity(1);
    for mode in [ScanType::Quick, ScanType::Comprehensive, ScanType::Stealth] {
        c = ScanCoordinator::with_capacity(1);
        let first = target(1, mode.clone());
        let second = target(2, mode.clone());
        c.start_scan(first.clone(), 0).unwrap();
        c.start_scan(second.clone(), 0).unwrap();
        let go = c.execute_scan_with_cancellation(&first, Phase::Start, Event::Begin);
        assert!(matches!(go.action, Action::Run(_)));
        assert_eq!(c.get_scan_statistics(), stats(2, 1, 1));
        let wait = c.execute_scan_with_cancellation(&second, Phase::Start, Event::Begin);
        assert!(matches!(wait.action, Action::AwaitPermit));
        assert_eq!(wait.next, Phase::Start);
        assert!(wait.progress.is_empty());
        assert!(wait.announce.is_none());
        assert_eq!(c.get_scan_statistics(), stats(2, 1, 1));
        c.handle_scan_completion(1, TaskEvent::Failed(ScanError::Timeout));
        let now = c.execute_scan_with_cancellation(&second, Phase::Start, Event::Begin);
        assert!(matches!(now.action, Action::Run(_)));
        assert_eq!(c.get_scan_statistics(), stats(1, 1, 0));
    }
    assert_eq!(c.target_of(2).map(|t| t.id), Some(2));
    assert_eq!(c.target_of(1), None);
}

#[test]
fn snapshot_statuses_are_queued_or_running() {
    let mut c = ScanCoordinator::with_capacity(2);
    for id in 0..5u128 {
        c.start_scan(quick(id), 0).unwrap();
        c.try_admit(id);
    }
    c.cancel_scan(0).unwrap();
    c.handle_scan_completion(1, TaskEvent::Produced(ScanResult::empty(9, 1, 1)));
    for (_, status) in c.get_active_scans() {
        assert!(matches!(status, ScanStatus::Queued | ScanStatus::Running));
    }
    assert_eq!(c.get_active_scans().len(), 3);
}

#[test]
fn cancelled_scan_starts_no_tool() {
    let mut c = ScanCoordinator::new();
    let t = quick(1);
    c.start_scan(t.clone(), 0).unwrap();
    assert_eq!(c.try_admit(1), Admission::Admitted);
    assert!(!c.is_cancelled(1));
    let begin = c.execute_scan_with_cancellation(&t, Phase::Start, Event::Begin);
    assert!(matches!(begin.action, Action::Run(_)));
    assert_eq!(c.cancel_scan(1), Ok(true));
    assert!(c.is_cancelled(1));
    let late = c.execute_scan_with_cancellation(
        &t,
        Phase::Discovery,
        Event::Ended(run(&["open tcp 80 10.0.0.1"], true, "")),
    );
    assert_eq!(late.next, Phase::Finished);
    assert!(late.progress.is_empty());
    assert!(matches!(late.action, Action::Fail(ScanError::Cancelled)));
    let done = c.handle_scan_completion(1, TaskEvent::Failed(ScanError::Cancelled));
    assert_eq!(done.status, Some(ScanStatus::Cancelled));
    assert!(c.is_cancelled(1));
}

#[test]
fn coordinator_dispatches_by_mode() {
    let mut c = ScanCoordinator::new();
    for (id, mode, program) in [
        (1u128, ScanType::Quick, "masscan"),
        (2, ScanType::Comprehensive, "masscan"),
        (3, ScanType::Stealth, "nmap"),
        (4, ScanType::Custom { options: String::new() }, "nmap"),
    ] {
        let t = target(id, mode);
        c.start_scan(t.clone(), 0).unwrap();
        let step = c.execute_scan_with_cancellation(&t, Phase::Start, Event::Begin);
        match step.action {
            Action::Run(inv) => assert_eq!(inv.program, program),
            other => panic!("unexpected {:?}", other),
        }
    }
}

#[test]
fn storage_plan_follows_the_result() {
    let result = ScanResult {
        id: 1,
        target_id: 2,
        timestamp: 3,
        status: ScanStatus::Completed,
        open_ports: vec![
            Port {
                number: 22,
                protocol: "tcp".to_string(),
                state: "open".to_string(),
                service: Some("ssh".to_string()),
                version: Some("8.9".to_string()),
                banner: Some("hi".to_string()),
            },
            Port {
                number: 80,
                protocol: "tcp".to_string(),
                state: "open".to_string(),
                service: Some("http".to_string()),
                version: None,
                banner: None,
            },
        ],
        os_detection: Some(OsDetection {
            name: "Linux".to_string(),
            accuracy: 90,
            family: "Linux".to_string(),
            vendor: "Debian".to_string(),
        }),
        vulnerabilities: vec![Vulnerability {
            id: "v1".to_string(),
            name: "weak".to_string(),
            severity: Severity::High,
            description: "d".to_string(),
            cvss_score: Some(CvssScore { tenths: 75 }),
            references: vec![],
        }],
    };
    let steps = store_scan_result(&IpAddress::V6(1), &result);
    assert_eq!(
        steps,
        vec![
            StoreStep::FindHost { address: "::1".to_string() },
            StoreStep::CreateHostIfAbsent { address: "::1".to_string() },
            StoreStep::CreatePort { number: 22, protocol: "tcp".to_string(), state: "open".to_string() },
            StoreStep::UpdatePortService {
                service: "ssh".to_string(),
                version: "8.9".to_string(),
                banner: Some("hi".to_string())
            },
            StoreStep::CreatePort { number: 80, protocol: "tcp".to_string(), state: "open".to_string() },
            StoreStep::UpdateHostOs { name: "Linux".to_string(), family: "Linux".to_string(), accuracy: 90 },
            StoreStep::CreateVulnerability {
                name: "weak".to_string(),
                severity: "High".to_string(),
                description: "d".to_string(),
                cvss_score: Some(CvssScore { tenths: 75 })
            },
        ]
    );
    let c = ScanCoordinator::new();
    assert_eq!(c.store_scan_result(&IpAddress::V6(1), &result), steps);
}

#[test]
fn empty_result_stores_only_the_host() {
    let steps = store_scan_result(&IpAddress::V4(1), &ScanResult::empty(1, 2, 3));
    assert_eq!(
        steps,
        vec![
            StoreStep::FindHost { address: "0.0.0.1".to_string() },
            StoreStep::CreateHostIfAbsent { address: "0.0.0.1".to_string() },
        ]
    );
}

#[test]
fn scan_record_names_address_and_mode() {
    assert_eq!(
        ScanCoordinator::scan_record(&quick(1)),
        ScanRecord {
            name: "Scan 10.0.0.1".to_string(),
            targets: vec!["10.0.0.1".to_string()],
            scan_type: "Quick".to_string()
        }
    );
    assert_eq!(ScanCoordinator::scan_record(&target(1, ScanType::Comprehensive)).scan_type, "Comprehensive");
    assert_eq!(ScanCoordinator::scan_record(&target(1, ScanType::Stealth)).scan_type, "Stealth");
    assert_eq!(
        ScanCoordinator::scan_record(&target(1, ScanType::Custom { options: "-p \"1\"".to_string() })).scan_type,
        "Custom { options: \"-p \\\"1\\\"\" }"
    );
}

#[test]
fn statuses_have_persisted_names() {
    assert_eq!(ScanCoordinator::status_name(&ScanStatus::Queued), "queued");
    assert_eq!(ScanCoordinator::status_name(&ScanStatus::Running), "running");
    assert_eq!(ScanCoordinator::status_name(&ScanStatus::Completed), "completed");
    assert_eq!(ScanCoordinator::status_name(&ScanStatus::Failed { error: "x".to_string() }), "failed");
    assert_eq!(ScanCoordinator::status_name(&ScanStatus::Cancelled), "cancelled");
}

#[test]
fn range_progress_is_index_over_total() {
    let individual = ScanProgress {
        percent: Percent { hundredths: 4200 },
        message: "About 42% done".to_string(),
        eta: Some(99),
    };
    let p = range_progress(1, 4, &IpAddress::V4(0x0a000002), &individual);
    assert_eq!(p.percent.hundredths, 2500);
    assert_eq!(p.message, "Scanning 10.0.0.2 (2/4): About 42% done");
    assert_eq!(p.eta, Some(99));
    assert_eq!(range_progress(0, 3, &IpAddress::V4(1), &individual).percent.hundredths, 0);
    assert_eq!(range_progress(1, 3, &IpAddress::V4(1), &individual).percent.hundredths, 3333);
    assert_eq!(range_progress(2, 3, &IpAddress::V4(1), &individual).percent.hundredths, 6666);
    assert_eq!(range_progress(0, 0, &IpAddress::V4(1), &individual).percent.hundredths, 0);
    assert_eq!(range_progress(5, 3, &IpAddress::V4(1), &individual).percent.hundredths, 10000);
    assert_eq!(
        range_progress(usize::MAX, usize::MAX, &IpAddress::V4(1), &individual).message,
        format!("Scanning 0.0.0.1 ({}/{}): About 42% done", usize::MAX as u128 + 1, usize::MAX)
    );
}

#[test]
fn range_without_an_exclusion_registers_every_address() {
    let mut c = ScanCoordinator::new();
    let ids = c
        .scan_network_range("10.0.0.0/30", &vec!["10.0.0.1/32".to_string()], &ScanType::Stealth, 5)
        .unwrap();
    assert_eq!(ids.len(), 3);
    assert_eq!(c.get_scan_statistics(), stats(3, 0, 3));
    let mut listed: Vec<ScanId> = c.get_active_scans().into_iter().map(|(id, _)| id).collect();
    listed.sort();
    let mut sorted = ids.clone();
    sorted.sort();
    assert_eq!(listed, sorted);
}

#[test]
fn range_that_is_no_network_is_refused() {
    let mut c = ScanCoordinator::new();
    assert_eq!(
        c.scan_network_range("10.0.0.1/30", &vec![], &ScanType::Quick, 5).unwrap_err(),
        ScanError::Validation { message: "Invalid CIDR notation: 10.0.0.1/30".to_string() }
    );
    assert_eq!(c.get_scan_statistics(), stats(0, 0, 0));
}

#[test]
fn range_with_given_identities() {
    let mut c = ScanCoordinator::new();
    let targets = vec![IpAddress::V4(1), IpAddress::V4(2), IpAddress::V4(3)];
    assert_eq!(c.start_range(&targets, &vec![7, 8, 9], &ScanType::Quick, 0), Ok(()));
    assert_eq!(c.get_scan_statistics(), stats(3, 0, 3));
    let e = c.start_range(&targets, &vec![10, 11, 10], &ScanType::Quick, 0).unwrap_err();
    assert_eq!(e, ScanError::Validation { message: "Scan is already active".to_string() });
    assert_eq!(c.get_scan_statistics(), stats(5, 0, 5));
    let short = c.start_range(&targets, &vec![30, 31], &ScanType::Quick, 0).unwrap_err();
    assert_eq!(short, ScanError::Validation { message: "One identity is needed per target".to_string() });
    assert_eq!(c.get_scan_statistics(), stats(5, 0, 5));
    let f = c.start_range(&targets, &vec![7, 20, 21], &ScanType::Quick, 0).unwrap_err();
    assert_eq!(f, ScanError::Validation { message: "Scan is already active".to_string() });
    assert_eq!(c.get_scan_statistics(), stats(5, 0, 5));
}

#[test]
fn progress_rule_follows_the_scan_mode() {
    assert_eq!(progress_rule(&target(1, ScanType::Quick)), ProgressRule::RateLines);
    assert_eq!(progress_rule(&target(1, ScanType::Comprehensive)), ProgressRule::Markers);
    assert_eq!(progress_rule(&target(1, ScanType::Stealth)), ProgressRule::Markers);
    assert_eq!(progress_rule(&target(1, ScanType::Custom { options: String::new() })), ProgressRule::Markers);
}

#[test]
fn each_phase_has_its_tool() {
    assert_eq!(tool_for(Phase::Discovery), Some(Tool::Discovery));
    assert_eq!(tool_for(Phase::Probe), Some(Tool::Probe));
    for phase in [Phase::Start, Phase::Throttled, Phase::Finished] {
        assert_eq!(tool_for(phase), None);
    }
}

#[test]
fn lines_are_read_as_they_arrive() {
    let m = MasscanScanner::new(3, 10000);
    let n = NmapScanner::new(5);
    let q = quick(1);
    let c = target(1, ScanType::Comprehensive);
    let whole = line_progress(&m, &n, &q, Phase::Discovery, "x rate: 1.0 kpps").unwrap();
    assert_eq!(whole.message, "x rate: 1.0 kpps");
    let marked = line_progress(&m, &n, &c, Phase::Discovery, "x rate: 1.0 kpps").unwrap();
    assert_eq!(marked.message, "Scanning - rate: 1.0 kpps");
    assert!(line_progress(&m, &n, &q, Phase::Discovery, "Scanning 4 hosts").is_none());
    assert!(line_progress(&m, &n, &c, Phase::Discovery, "Scanning 4 hosts").is_some());
    let probe = line_progress(&m, &n, &c, Phase::Probe, "About 40% done").unwrap();
    assert_eq!(probe.percent.hundredths, 4000);
    assert!(line_progress(&m, &n, &c, Phase::Start, "About 40% done").is_none());
    let coordinator = ScanCoordinator::new();
    assert_eq!(coordinator.read_line(&c, Phase::Probe, "About 40% done"), Some(probe));
}

#[test]
fn tool_permits_by_tool() {
    let mut c = ScanCoordinator::new();
    for _ in 0..3 {
        assert!(c.try_begin_tool(Tool::Discovery));
    }
    assert!(!c.try_begin_tool(Tool::Discovery));
    for _ in 0..5 {
        assert!(c.try_begin_tool(Tool::Probe));
    }
    assert!(!c.try_begin_tool(Tool::Probe));
    c.end_tool(Tool::Discovery);
    assert!(c.try_begin_tool(Tool::Discovery));
    assert!(!c.try_begin_tool(Tool::Probe));
    c.end_tool(Tool::Probe);
    assert_eq!(c.nmap_scanner().rate_limit.in_use(), 4);
    assert_eq!(c.masscan_scanner().rate_limit.in_use(), 3);
}

#[test]
fn the_step_that_admits_says_so_once() {
    let mut c = ScanCoordinator::with_capacity(1);
    let first = target(1, ScanType::Stealth);
    let second = quick(2);
    c.start_scan(first.clone(), 0).unwrap();
    c.start_scan(second.clone(), 0).unwrap();
    let begin = c.execute_scan_with_cancellation(&first, Phase::Start, Event::Begin);
    assert!(begin.record_running);
    assert!(matches!(begin.action, Action::Run(_)));
    let waiting = c.execute_scan_with_cancellation(&second, Phase::Start, Event::Begin);
    assert!(!waiting.record_running);
    let end = c.execute_scan_with_cancellation(&first, Phase::Probe, Event::Ended(run(&["<r/>"], true, "")));
    assert!(!end.record_running);
    assert!(matches!(end.action, Action::Complete(_)));
    c.cancel_scan(2).unwrap();
    let gone = c.execute_scan_with_cancellation(&second, Phase::Start, Event::Begin);
    assert!(!gone.record_running);
    assert!(matches!(gone.action, Action::Fail(ScanError::Cancelled)));
    let m = MasscanScanner::new(3, 10000);
    assert!(!execute_quick_scan(&m, &second, Phase::Start, Event::Begin).record_running);
}

#[test]
fn new_coordinator_has_a_full_limiter_of_a_hundred_tokens() {
    let mut c = ScanCoordinator::new();
    let mut granted = 0;
    for id in 0..120u128 {
        let t = target(id, ScanType::Stealth);
        c.start_scan(t.clone(), 0).unwrap();
        let step = c.execute_scan_with_cancellation(&t, Phase::Start, Event::Begin);
        match step.action {
            Action::Run(_) => granted += 1,
            Action::Sleep { .. } => {},
            other => panic!("unexpected {:?}", other),
        }
        c.handle_scan_completion(id, TaskEvent::Failed(ScanError::Timeout));
    }
    assert!(granted >= 100);
    assert!(granted < 120);
}
