use scan_engine::commands::{
    active_scan_infos, cancel_scan, get_active_scans, get_scan_statistics, scan_network_range,
    scan_type_from_name, start_scan, start_scan_as, ActiveScanInfo, NetworkRangeRequest,
};
use scan_engine::coordinator::registry::ScanStatistics;
use scan_engine::coordinator::ScanCoordinator;
use scan_engine::error::ScanError;
use scan_engine::model::{ScanStatus, ScanType};

#[test]
fn mode_names_map_to_modes() {
    assert_eq!(scan_type_from_name("quick"), Ok(ScanType::Quick));
    assert_eq!(scan_type_from_name("comprehensive"), Ok(ScanType::Comprehensive));
    assert_eq!(scan_type_from_name("stealth"), Ok(ScanType::Stealth));
    assert_eq!(scan_type_from_name("custom"), Ok(ScanType::Custom { options: String::new() }));
    assert_eq!(
        scan_type_from_name("anything"),
        Err(ScanError::Validation { message: "Invalid scan type: anything".to_string() })
    );
    assert_eq!(
        scan_type_from_name("Quick"),
        Err(ScanError::Validation { message: "Invalid scan type: Quick".to_string() })
    );
}

#[test]
fn unknown_mode_is_refused_before_anything_is_registered() {
    let mut c = ScanCoordinator::new();
    assert_eq!(
        start_scan_as(&mut c, "10.0.0.5", "bogus", 7, 5),
        Err("Invalid scan type: bogus".to_string())
    );
    assert_eq!(start_scan(&mut c, "10.0.0.5", "", 5), Err("Invalid scan type: ".to_string()));
    assert_eq!(
        start_scan(&mut c, "10.0.0", "bogus", 5),
        Err("Invalid IP address: 10.0.0".to_string())
    );
    assert_eq!(get_scan_statistics(&c), ScanStatistics { total_active: 0, running: 0, queued: 0 });
    assert_eq!(start_scan_as(&mut c, "10.0.0.5", "quick", 7, 5).map(|t| t.len()), Ok(36));
}

#[test]
fn custom_mode_registers_a_custom_scan() {
    let mut c = ScanCoordinator::new();
    start_scan_as(&mut c, "10.0.0.5", "custom", 7, 5).unwrap();
    assert_eq!(c.target_of(7).unwrap().scan_type, ScanType::Custom { options: String::new() });
    let request = NetworkRangeRequest {
        cidr: "10.0.0.0/31".to_string(),
        exclude: vec![],
        scan_type: "custom".to_string(),
    };
    let ids = scan_network_range(&mut c, &request, 5).unwrap();
    assert_eq!(ids.len(), 2);
    let modes: Vec<ScanType> = c
        .get_active_scans()
        .into_iter()
        .map(|(id, _)| c.target_of(id).unwrap().scan_type)
        .collect();
    assert_eq!(modes, vec![ScanType::Custom { options: String::new() }; 3]);
}

#[test]
fn range_without_addresses_succeeds_and_registers_nothing() {
    let mut c = ScanCoordinator::new();
    let request = NetworkRangeRequest {
        cidr: "10.0.0.0/30".to_string(),
        exclude: vec!["10.0.0.0/24".to_string()],
        scan_type: "stealth".to_string(),
    };
    assert_eq!(scan_network_range(&mut c, &request, 5), Ok(vec![]));
    assert_eq!(get_scan_statistics(&c), ScanStatistics { total_active: 0, running: 0, queued: 0 });
    assert_eq!(
        c.scan_network_range("10.0.0.4/32", &vec!["10.0.0.4".to_string()], &ScanType::Quick, 5),
        Ok(vec![])
    );
}

#[test]
fn started_scan_answers_with_its_identity() {
    let mut c = ScanCoordinator::new();
    let id = 0xa1a2a3a4b1b2c1c2d1d2d3d4d5d6d7d8u128;
    assert_eq!(
        start_scan_as(&mut c, "10.0.0.1", "stealth", id, 5),
        Ok("a1a2a3a4-b1b2-c1c2-d1d2-d3d4d5d6d7d8".to_string())
    );
    assert_eq!(
        get_active_scans(&c),
        vec![ActiveScanInfo {
            id: "a1a2a3a4-b1b2-c1c2-d1d2-d3d4d5d6d7d8".to_string(),
            status: ScanStatus::Queued
        }]
    );
    assert_eq!(
        start_scan_as(&mut c, "10.0.0.1", "stealth", id, 5),
        Err("Scan is already active".to_string())
    );
}

#[test]
fn identity_text_pads_with_zeros() {
    let infos = active_scan_infos(vec![(1, ScanStatus::Running), (0x10 << 120, ScanStatus::Queued)]);
    assert_eq!(infos[0].id, "00000000-0000-0000-0000-000000000001");
    assert_eq!(infos[0].status, ScanStatus::Running);
    assert_eq!(infos[1].id, "10000000-0000-0000-0000-000000000000");
}

#[test]
fn bad_address_is_refused_before_anything_is_registered() {
    let mut c = ScanCoordinator::new();
    assert_eq!(start_scan(&mut c, "10.0.0", "quick", 5), Err("Invalid IP address: 10.0.0".to_string()));
    assert_eq!(get_scan_statistics(&c), ScanStatistics { total_active: 0, running: 0, queued: 0 });
}

#[test]
fn fresh_identities_differ() {
    let mut c = ScanCoordinator::new();
    let a = start_scan(&mut c, "10.0.0.1", "quick", 5).unwrap();
    let b = start_scan(&mut c, "10.0.0.1", "quick", 5).unwrap();
    assert_ne!(a, b);
    assert_eq!(a.len(), 36);
    assert_eq!(get_scan_statistics(&c).queued, 2);
}

#[test]
fn cancel_reads_the_identity_from_text() {
    let mut c = ScanCoordinator::new();
    let text = start_scan(&mut c, "10.0.0.1", "quick", 5).unwrap();
    assert_eq!(cancel_scan(&mut c, &text), Ok(true));
    assert_eq!(cancel_scan(&mut c, &text), Ok(false));
    assert_eq!(cancel_scan(&mut c, "00000000-0000-0000-0000-000000000001"), Ok(false));
    let e = cancel_scan(&mut c, "not-a-uuid").unwrap_err();
    assert!(e.starts_with("Invalid UUID: "), "{}", e);
    assert_eq!(get_scan_statistics(&c).total_active, 0);
}

#[test]
fn range_request_is_checked_then_registered() {
    let mut c = ScanCoordinator::new();
    let request = NetworkRangeRequest {
        cidr: "10.0.0.0/30".to_string(),
        exclude: vec!["10.0.0.1/32".to_string()],
        scan_type: "quick".to_string(),
    };
    let ids = scan_network_range(&mut c, &request, 5).unwrap();
    assert_eq!(ids.len(), 3);
    let mut listed: Vec<String> = get_active_scans(&c).into_iter().map(|i| i.id).collect();
    listed.sort();
    let mut sorted = ids.clone();
    sorted.sort();
    assert_eq!(listed, sorted);
}

#[test]
fn range_request_errors() {
    let mut c = ScanCoordinator::new();
    let bad_range = NetworkRangeRequest {
        cidr: "10.0.0.0/99".to_string(),
        exclude: vec![],
        scan_type: "bogus".to_string(),
    };
    assert_eq!(
        scan_network_range(&mut c, &bad_range, 5),
        Err("Invalid CIDR notation: 10.0.0.0/99".to_string())
    );
    let bad_mode = NetworkRangeRequest {
        cidr: "10.0.0.0/30".to_string(),
        exclude: vec![],
        scan_type: "bogus".to_string(),
    };
    assert_eq!(scan_network_range(&mut c, &bad_mode, 5), Err("Invalid scan type: bogus".to_string()));
    assert_eq!(get_scan_statistics(&c).total_active, 0);
}

#[test]
fn valid_request_with_no_work_on_record_succeeds() {
    for _ in 0..50 {
        let mut c = ScanCoordinator::new();
        let text = start_scan(&mut c, "192.168.1.1", "comprehensive", 5).unwrap();
        assert_eq!(text.len(), 36);
        assert_eq!(get_scan_statistics(&c).queued, 1);
    }
}

#[test]
fn text_that_names_no_identity_is_refused_with_a_fixed_beginning() {
    let mut c = ScanCoordinator::new();
    for text in ["", "zz", "1234", "a1a2a3a4-b1b2-c1c2-d1d2-d3d4d5d6d7dX"] {
        let e = cancel_scan(&mut c, text).unwrap_err();
        assert!(e.starts_with("Invalid UUID: "), "{:?}", e);
        assert!(e.len() > "Invalid UUID: ".len());
    }
}
