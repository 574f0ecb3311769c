use scan_engine::error::ScanError;
use scan_engine::masscan::{finding_from_line, MasscanScanner, ProgressRule};
use scan_engine::model::{IpAddress, ScanStatus};
use scan_engine::process::ToolRun;

fn scanner() -> MasscanScanner {
    MasscanScanner::new(3, 10000)
}

fn run(lines: &[&str], succeeded: bool, stderr: &str) -> ToolRun {
    ToolRun {
        lines: lines.iter().map(|l| l.to_string()).collect(),
        succeeded,
        stderr: stderr.to_string(),
    }
}

#[test]
fn result_line_gives_one_open_port() {
    let r = scanner().parse_masscan_output("open tcp 22 192.168.1.1 1234567890").unwrap();
    assert_eq!(r.status, ScanStatus::Completed);
    assert_eq!(r.open_ports.len(), 1);
    let p = &r.open_ports[0];
    assert_eq!(p.number, 22);
    assert_eq!(p.protocol, "tcp");
    assert_eq!(p.state, "open");
    assert_eq!(p.service, None);
    assert_eq!(p.version, None);
    assert_eq!(p.banner, Some("1234567890".to_string()));
    assert!(r.os_detection.is_none());
    assert!(r.vulnerabilities.is_empty());
}

#[test]
fn banner_is_joined_with_single_spaces() {
    let p = finding_from_line("open   tcp  80   10.0.0.1   HTTP/1.1   200  OK").unwrap();
    assert_eq!(p.banner, Some("HTTP/1.1 200 OK".to_string()));
    let q = finding_from_line("open udp 53 10.0.0.1").unwrap();
    assert_eq!(q.banner, None);
    assert_eq!(q.protocol, "udp");
}

#[test]
fn ipv6_result_line_is_accepted() {
    let p = finding_from_line("open tcp 443 2001:db8::1").unwrap();
    assert_eq!(p.number, 443);
}

#[test]
fn each_malformed_shape_has_its_error() {
    let format = ScanError::Decode { message: "Invalid masscan output format".to_string() };
    assert_eq!(finding_from_line("").unwrap_err(), format);
    assert_eq!(finding_from_line("open tcp 22").unwrap_err(), format);
    assert_eq!(finding_from_line("closed tcp 22 10.0.0.1").unwrap_err(), format);
    assert_eq!(
        finding_from_line("open tcp http 10.0.0.1").unwrap_err(),
        ScanError::Decode { message: "Failed to parse port number".to_string() }
    );
    assert_eq!(
        finding_from_line("open tcp 70000 10.0.0.1").unwrap_err(),
        ScanError::Decode { message: "Failed to parse port number".to_string() }
    );
    assert_eq!(
        finding_from_line("open tcp 22 10.0.0.256").unwrap_err(),
        ScanError::Decode { message: "Failed to parse IP address".to_string() }
    );
    assert_eq!(
        finding_from_line("open tcp 22 10.0.0").unwrap_err(),
        ScanError::Decode { message: "Failed to parse IP address".to_string() }
    );
    assert_eq!(
        finding_from_line("open tcp 22 10.0.0.0/24").unwrap_err(),
        ScanError::Decode { message: "Failed to parse IP address".to_string() }
    );
}

#[test]
fn one_good_line_and_one_garbage_line_give_one_finding() {
    let d = scanner()
        .scan_range(&run(&["open tcp 22 10.0.0.1", "!!! garbage ###"], true, ""))
        .unwrap();
    assert_eq!(d.results.len(), 1);
    assert_eq!(d.results[0].open_ports.len(), 1);
    assert_eq!(d.results[0].open_ports[0].number, 22);
    let e = scanner()
        .scan_range(&run(&["!!! garbage ###", "open tcp 22 10.0.0.1"], true, ""))
        .unwrap();
    assert_eq!(e.results.len(), 1);
    assert_eq!(e.results[0].open_ports[0].number, 22);
}

#[test]
fn findings_keep_the_order_of_the_lines() {
    let d = scanner()
        .syn_scan_with_excludes(&run(
            &["open tcp 80 10.0.0.1", "rate: 1.00-kpps", "open tcp 22 10.0.0.2", "open udp 53 10.0.0.3"],
            true,
            "",
        ))
        .unwrap();
    let ports: Vec<u16> = d.results.iter().map(|r| r.open_ports[0].number).collect();
    assert_eq!(ports, vec![80, 22, 53]);
    assert_eq!(d.progress.len(), 1);
    assert_eq!(d.progress[0].message, "Scanning - rate: 1.00-kpps");
}

#[test]
fn failed_run_carries_the_error_stream() {
    let s = scanner();
    let r = run(&["open tcp 22 10.0.0.1"], false, "permission denied");
    assert_eq!(
        s.scan_range(&r).unwrap_err(),
        ScanError::ToolExit { message: "Masscan failed: permission denied".to_string() }
    );
    assert_eq!(
        s.fast_port_discovery(&r).unwrap_err(),
        ScanError::ToolExit { message: "Masscan port discovery failed: permission denied".to_string() }
    );
    assert_eq!(
        s.syn_scan_with_excludes(&r).unwrap_err(),
        ScanError::ToolExit { message: "Masscan SYN scan failed: permission denied".to_string() }
    );
    assert_eq!(
        s.udp_scan(&r).unwrap_err(),
        ScanError::ToolExit { message: "Masscan UDP scan failed: permission denied".to_string() }
    );
}

#[test]
fn progress_lines_are_read_by_marker() {
    let s = scanner();
    let p = s.parse_masscan_progress("status rate:  0.10-kpps, 5% done").unwrap();
    assert_eq!(p.percent.hundredths, 0);
    assert_eq!(p.message, "Scanning - rate:  0.10-kpps, 5% done");
    assert_eq!(p.eta, None);
    let q = s.parse_masscan_progress("Scanning 256 hosts").unwrap();
    assert_eq!(q.message, "Scanning 256 hosts");
    assert_eq!(
        s.parse_masscan_progress("open tcp 22 10.0.0.1").unwrap_err(),
        ScanError::Decode { message: "Not a progress line".to_string() }
    );
}

#[test]
fn rate_lines_rule_passes_the_whole_line() {
    let s = scanner();
    let out = s.decode_line("xx rate: 3.5 kpps", ProgressRule::RateLines);
    assert_eq!(out.progress.unwrap().message, "xx rate: 3.5 kpps");
    assert!(out.result.is_none());
    let none = s.decode_line("Scanning 4 hosts", ProgressRule::RateLines);
    assert!(none.progress.is_none());
    let marked = s.decode_line("Scanning 4 hosts", ProgressRule::Markers);
    assert_eq!(marked.progress.unwrap().message, "Scanning 4 hosts");
}

#[test]
fn port_list_is_comma_separated_or_the_whole_range() {
    let s = scanner();
    assert_eq!(s.format_port_list(&vec![]), "1-65535");
    assert_eq!(s.format_port_list(&vec![80]), "80");
    assert_eq!(s.format_port_list(&vec![22, 80, 65535]), "22,80,65535");
}

#[test]
fn top_ports_are_cut_to_the_count() {
    let s = scanner();
    assert_eq!(s.get_top_ports(0), Vec::<u16>::new());
    assert_eq!(s.get_top_ports(3), vec![21, 22, 23]);
    assert_eq!(
        s.get_top_ports(100),
        vec![21, 22, 23, 25, 53, 80, 110, 111, 135, 139, 143, 443, 993, 995, 1723, 3306, 3389, 5900, 8080, 8443]
    );
}

#[test]
fn range_command_lists_targets_then_options() {
    let s = scanner();
    let inv = s.configure_masscan_command(
        &vec![IpAddress::V4(0x0a000001), IpAddress::V4(0xc0a80101)],
        &vec![22, 443],
    );
    assert_eq!(inv.program, "masscan");
    assert_eq!(
        inv.args,
        vec![
            "10.0.0.1", "192.168.1.1", "-p", "22,443", "--rate", "10000", "--output-format", "list",
            "--output-filename", "-", "--banners"
        ]
    );
}

#[test]
fn discovery_command_sweeps_top_ports() {
    let inv = scanner().fast_port_discovery_command("10.0.0.0/24", 3);
    assert_eq!(
        inv.args,
        vec!["10.0.0.0/24", "-p", "21,22,23", "--rate", "10000", "--output-format", "list", "--output-filename", "-"]
    );
}

#[test]
fn syn_command_repeats_the_exclude_flag() {
    let inv = scanner().syn_scan_command(
        "10.0.0.0/8",
        &vec!["10.1.0.0/16".to_string(), "10.2.0.0/16".to_string()],
        &vec![],
    );
    assert_eq!(
        inv.args,
        vec![
            "10.0.0.0/8", "--exclude", "10.1.0.0/16", "--exclude", "10.2.0.0/16", "-p", "1-65535",
            "--rate", "10000", "-sS", "--output-format", "list", "--output-filename", "-"
        ]
    );
}

#[test]
fn udp_command_uses_a_tenth_of_the_rate() {
    let inv = MasscanScanner::new(1, 12345).udp_scan_command(&vec![IpAddress::V4(1)], &vec![53]);
    assert_eq!(
        inv.args,
        vec!["0.0.0.1", "-pU:", "53", "--rate", "1234", "--output-format", "list", "--output-filename", "-"]
    );
}
