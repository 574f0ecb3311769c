use scan_engine::error::ScanError;
use scan_engine::parsing::{first_captures, group_text, parse_thousandfold, OutputParser, ServiceInfo};
use scan_engine::text::chars_of;

fn decode(message: &str) -> ScanError {
    ScanError::Decode { message: message.to_string() }
}

#[test]
fn version_is_found_in_the_banner() {
    assert_eq!(
        OutputParser::parse_nmap_version("Nmap version 7.94 ( https://nmap.org )").unwrap(),
        "7.94"
    );
    assert_eq!(
        OutputParser::parse_nmap_version("nmap 7.94").unwrap_err(),
        decode("Could not parse nmap version")
    );
}

#[test]
fn version_from_given_match() {
    assert_eq!(
        OutputParser::nmap_version_from(&Some(Some(vec![Some("x 1.2".to_string()), Some("1.2".to_string())])))
            .unwrap(),
        "1.2"
    );
    assert_eq!(
        OutputParser::nmap_version_from(&Some(None)).unwrap_err(),
        decode("Could not parse nmap version")
    );
    assert_eq!(OutputParser::nmap_version_from(&None).unwrap_err(), decode("Invalid pattern"));
}

#[test]
fn rate_is_given_in_packets_per_second() {
    assert_eq!(OutputParser::parse_masscan_rate("rate:  12.34 kpps, 1% done").unwrap(), 12340);
    assert_eq!(OutputParser::parse_masscan_rate("rate:0.10kpps").unwrap(), 100);
    assert_eq!(OutputParser::parse_masscan_rate("rate: 1.2345 kpps").unwrap(), 1234);
    assert_eq!(OutputParser::parse_masscan_rate("no marker here").unwrap(), 0);
    assert_eq!(OutputParser::parse_masscan_rate("rate: 5 kpps").unwrap(), 0);
    assert_eq!(
        OutputParser::parse_masscan_rate("rate: 99999999999999999999.0 kpps").unwrap_err(),
        decode("Failed to parse rate")
    );
}

#[test]
fn thousandfold_of_written_numbers() {
    assert_eq!(parse_thousandfold(&chars_of("0.0")), Some(0));
    assert_eq!(parse_thousandfold(&chars_of("1.5")), Some(1500));
    assert_eq!(parse_thousandfold(&chars_of("18446744073709551.615")), Some(u64::MAX));
    assert_eq!(parse_thousandfold(&chars_of("18446744073709551.616")), None);
    assert_eq!(parse_thousandfold(&chars_of("1")), None);
    assert_eq!(parse_thousandfold(&chars_of(".5")), None);
    assert_eq!(parse_thousandfold(&chars_of("1.")), Some(1000));
    assert_eq!(parse_thousandfold(&chars_of("+1.0")), None);
}

#[test]
fn addresses_are_picked_out_of_text() {
    assert_eq!(
        OutputParser::extract_ip_addresses("from 10.0.0.1 to 192.168.1.254, not 1.2.3 or 999.1.1.1x"),
        vec!["10.0.0.1", "192.168.1.254"]
    );
    assert_eq!(OutputParser::extract_ip_addresses("nothing"), Vec::<String>::new());
}

#[test]
fn ssh_banner_gives_service_and_version() {
    let info = OutputParser::parse_service_banner("SSH-2.0-OpenSSH_8.9p1 Ubuntu-3");
    assert_eq!(info.service, Some("ssh".to_string()));
    assert_eq!(info.version, Some("2.0-OpenSSH_8.9p1".to_string()));
    assert_eq!(info.banner, Some("SSH-2.0-OpenSSH_8.9p1 Ubuntu-3".to_string()));
    assert_eq!(OutputParser::extract_ssh_version("SSH only"), None);
}

#[test]
fn http_banner_gives_the_server() {
    let info = OutputParser::parse_service_banner("HTTP/1.1 200 OK\r\nServer:   nginx/1.18.0  \r\nX: y");
    assert_eq!(info.service, Some("http".to_string()));
    assert_eq!(info.version, Some("nginx/1.18.0".to_string()));
    let bare = OutputParser::parse_service_banner("HTTP/1.0 404");
    assert_eq!(bare.service, Some("http".to_string()));
    assert_eq!(bare.version, None);
}

#[test]
fn first_mark_in_the_banner_names_the_service() {
    assert_eq!(OutputParser::parse_service_banner("220 FTP ready").service, Some("ftp".to_string()));
    assert_eq!(OutputParser::parse_service_banner("220 ESMTP").service, Some("smtp".to_string()));
    let both = OutputParser::parse_service_banner("HTTP over SSH");
    assert_eq!(both.service, Some("ssh".to_string()));
    let none = OutputParser::parse_service_banner("hello");
    assert_eq!(
        none,
        ServiceInfo { service: None, version: None, banner: Some("hello".to_string()) }
    );
}

#[test]
fn service_from_given_matches() {
    let ssh = Some(vec![Some("SSH-1.0-x".to_string()), Some("1.0".to_string()), Some("x".to_string())]);
    let http = Some(vec![Some("Server: y ".to_string()), Some("y ".to_string())]);
    let a = OutputParser::service_from("SSH", &ssh, &http);
    assert_eq!(a.version, Some("1.0-x".to_string()));
    let b = OutputParser::service_from("HTTP", &ssh, &http);
    assert_eq!(b.version, Some("y".to_string()));
    let c = OutputParser::service_from("SSH", &None, &http);
    assert_eq!(c.version, None);
}

#[test]
fn captures_are_copied_out_by_group() {
    let c = first_captures(r"(a)(b)?(c)", "xxacyy").unwrap();
    assert_eq!(group_text(&c, 0), Some("ac".to_string()));
    assert_eq!(group_text(&c, 1), Some("a".to_string()));
    assert_eq!(group_text(&c, 2), None);
    assert_eq!(group_text(&c, 3), Some("c".to_string()));
    assert_eq!(group_text(&c, 4), None);
    assert_eq!(first_captures(r"(a", "a"), None);
    assert_eq!(first_captures(r"z", "a"), Some(None));
}

#[test]
fn references_are_the_string_items_of_an_array() {
    assert_eq!(
        OutputParser::parse_vulnerability_references("[\"CVE-1\", 7, \"http://x\", null]").unwrap(),
        vec!["CVE-1", "http://x"]
    );
    assert_eq!(OutputParser::parse_vulnerability_references("[]").unwrap(), Vec::<String>::new());
    assert_eq!(OutputParser::parse_vulnerability_references("").unwrap(), Vec::<String>::new());
    assert_eq!(OutputParser::parse_vulnerability_references("  \n ").unwrap(), Vec::<String>::new());
    assert_eq!(
        OutputParser::parse_vulnerability_references("{\"a\": 1}").unwrap_err(),
        decode("References must be JSON array")
    );
    assert_eq!(
        OutputParser::parse_vulnerability_references("\"text\"").unwrap_err(),
        decode("References must be JSON array")
    );
    assert_eq!(
        OutputParser::parse_vulnerability_references("[1,").unwrap_err(),
        decode("Invalid JSON in vulnerability references")
    );
}

#[test]
fn references_from_given_items() {
    assert_eq!(
        OutputParser::references_from("x", &Some(Some(vec![None, Some("a".to_string())]))).unwrap(),
        vec!["a"]
    );
    assert_eq!(OutputParser::references_from(" ", &None).unwrap(), Vec::<String>::new());
}

#[test]
fn colour_sequences_are_removed() {
    assert_eq!(OutputParser::clean_ansi_codes("\x1b[31mred\x1b[0m and \x1b[1;32mgreen\x1b[m"), "red and green");
    assert_eq!(OutputParser::clean_ansi_codes("plain"), "plain");
    assert_eq!(OutputParser::clean_ansi_codes("\x1b[2Kkept"), "\x1b[2Kkept");
}
