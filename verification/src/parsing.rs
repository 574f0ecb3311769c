//! Reading what the tools print besides their results: versions, rates,
//! service banners, reference lists.
//!
//! Patterns are matched by the `regex` crate and reference lists are read by
//! `serde_json`; what either gives for a text has a name here, and the rules
//! that follow are stated over those names.

use crate::error::{outcome, ScanError, ScanErrorView};
use crate::text::{
    all_digits, chars_of, contains, contains_text, decimal_value, digit_value, digits_only,
    is_digit, parse_decimal, push_all, split, split_text, string_of, texts, trim, trim_text,
};
use vstd::prelude::*;

verus! {

/// The error with which the `regex` crate refuses a pattern.
#[verifier::external_type_specification]
#[verifier::external_body]
pub struct ExRegexError(regex::Error);

/// The error with which `serde_json` refuses a text.
#[verifier::external_type_specification]
#[verifier::external_body]
pub struct ExJsonError(serde_json::Error);

/// The groups of the first match of a pattern: the whole match first, then
/// each capture group, absent where the group took no part in the match; or
/// nothing where the pattern matches nowhere.
pub type Captured = Option<Vec<Option<String>>>;

/// Whether a pattern matches somewhere in a text, if the pattern compiles.
pub uninterp spec fn regex_matches(pattern: Seq<char>, text: Seq<char>) -> Option<bool>;

/// The groups of the first match of a pattern in a text, if the pattern
/// compiles.
pub uninterp spec fn regex_first_captures(pattern: Seq<char>, text: Seq<char>) -> Option<
    Option<Seq<Option<Seq<char>>>>,
>;

/// The successive non-overlapping matches of a pattern in a text, if the
/// pattern compiles.
pub uninterp spec fn regex_all_matches(pattern: Seq<char>, text: Seq<char>) -> Option<
    Seq<Seq<char>>,
>;

/// A text with every match of a pattern replaced, if the pattern compiles.
pub uninterp spec fn regex_replaced(
    pattern: Seq<char>,
    text: Seq<char>,
    replacement: Seq<char>,
) -> Option<Seq<char>>;

/// Compiles the pattern with `regex::Regex::new` and calls `is_match`. The
/// answer is a function of pattern and text.
#[verifier::external_body]
pub(crate) fn regex_is_match(pattern: &str, text: &str) -> (r: Result<bool, regex::Error>)
    ensures
        r matches Ok(b) ==> regex_matches(pattern@, text@) == Some(b),
        r is Err ==> regex_matches(pattern@, text@) is None,
{
    Ok(regex::Regex::new(pattern)?.is_match(text))
}

/// Compiles the pattern with `regex::Regex::new` and calls `captures`, which
/// gives the first match; its groups are copied out in order, group 0 being
/// the whole match. The answer is a function of pattern and text.
#[verifier::external_body]
pub(crate) fn regex_captures(pattern: &str, text: &str) -> (r: Result<Captured, regex::Error>)
    ensures
        r matches Ok(c) ==> regex_first_captures(pattern@, text@) == Some(c.deep_view()),
        r is Err ==> regex_first_captures(pattern@, text@) is None,
{
    Ok(
        regex::Regex::new(pattern)?.captures(text).map(
            |c| c.iter().map(|g| g.map(|m| m.as_str().to_owned())).collect(),
        ),
    )
}

/// Compiles the pattern with `regex::Regex::new` and calls `find_iter`, which
/// yields the successive non-overlapping matches; their texts are copied out
/// in order. The answer is a function of pattern and text.
#[verifier::external_body]
pub(crate) fn regex_find_all(pattern: &str, text: &str) -> (r: Result<Vec<String>, regex::Error>)
    ensures
        r matches Ok(v) ==> regex_all_matches(pattern@, text@) == Some(v.deep_view()),
        r is Err ==> regex_all_matches(pattern@, text@) is None,
{
    Ok(regex::Regex::new(pattern)?.find_iter(text).map(|m| m.as_str().to_owned()).collect())
}

/// Compiles the pattern with `regex::Regex::new` and calls `replace_all` with
/// a replacement text. The answer is a function of the three texts.
#[verifier::external_body]
pub(crate) fn regex_replace_all(pattern: &str, text: &str, replacement: &str) -> (r: Result<
    String,
    regex::Error,
>)
    ensures
        r matches Ok(s) ==> regex_replaced(pattern@, text@, replacement@) == Some(s@),
        r is Err ==> regex_replaced(pattern@, text@, replacement@) is None,
{
    Ok(regex::Regex::new(pattern)?.replace_all(text, replacement).into_owned())
}

/// What `serde_json` reads from a text: nothing where the text is not JSON;
/// else, where the value is an array, its items, each as its text where it is
/// a string; else no array.
pub uninterp spec fn json_array_items(text: Seq<char>) -> Option<Option<Seq<Option<Seq<char>>>>>;

/// Calls `serde_json::from_str` for a `Value`. An array gives its items in
/// order, each with the text of a string item and nothing for any other item;
/// any other value gives no array. The answer is a function of the text.
#[verifier::external_body]
pub(crate) fn json_array(text: &str) -> (r: Result<Option<Vec<Option<String>>>, serde_json::Error>)
    ensures
        r matches Ok(v) ==> json_array_items(text@) == Some(v.deep_view()),
        r is Err ==> json_array_items(text@) is None,
{
    match serde_json::from_str::<serde_json::Value>(text)? {
        serde_json::Value::Array(items) => Ok(
            Some(items.iter().map(|v| v.as_str().map(|s| s.to_owned())).collect()),
        ),
        _ => Ok(None),
    }
}

/// The view of the groups of a first match.
pub open spec fn captured_view(c: Result<Captured, regex::Error>) -> Option<
    Seq<Option<Seq<char>>>,
> {
    match c {
        Ok(c) => c.deep_view(),
        Err(_) => None,
    }
}

/// The group `i` of a first match, where it took part.
pub open spec fn group(c: Option<Seq<Option<Seq<char>>>>, i: int) -> Option<Seq<char>> {
    match c {
        Some(groups) => if 0 <= i < groups.len() {
            groups[i]
        } else {
            None
        },
        None => None,
    }
}

/// Copies group `i` out of a first match.
pub fn group_text(c: &Captured, i: usize) -> (r: Option<String>)
    ensures
        r.deep_view() == group(c.deep_view(), i as int),
{
    match c {
        Some(groups) => if i < groups.len() {
            assert(groups.deep_view()[i as int] == groups@[i as int].deep_view());
            crate::model::clone_opt_text(&groups[i])
        } else {
            None
        },
        None => None,
    }
}

/// The groups of the first match of `pattern` in `text`; nothing where the
/// pattern does not compile.
pub fn first_captures(pattern: &str, text: &str) -> (r: Option<Captured>)
    ensures
        r.deep_view() == regex_first_captures(pattern@, text@),
{
    match regex_captures(pattern, text) {
        Ok(c) => Some(c),
        Err(_) => None,
    }
}

/// What is known of the service behind a port.
#[derive(Debug, Default, PartialEq, Eq)]
pub struct ServiceInfo {
    pub service: Option<String>,
    pub version: Option<String>,
    pub banner: Option<String>,
}

/// The view of a `ServiceInfo`.
pub struct ServiceInfoView {
    pub service: Option<Seq<char>>,
    pub version: Option<Seq<char>>,
    pub banner: Option<Seq<char>>,
}

impl View for ServiceInfo {
    type V = ServiceInfoView;

    open spec fn view(&self) -> ServiceInfoView {
        ServiceInfoView {
            service: self.service.deep_view(),
            version: self.version.deep_view(),
            banner: self.banner.deep_view(),
        }
    }
}

impl Clone for ServiceInfo {
    fn clone(&self) -> (r: Self)
        ensures
            r@ == self@,
    {
        ServiceInfo {
            service: crate::model::clone_opt_text(&self.service),
            version: crate::model::clone_opt_text(&self.version),
            banner: crate::model::clone_opt_text(&self.banner),
        }
    }
}

/// Reads what the tools print.
pub struct OutputParser;

/// The pattern of the tool's version line.
pub open spec fn version_pattern() -> Seq<char> {
    r"Nmap version (\d+\.\d+)"@
}

/// The pattern of the discovery tool's rate marker, in thousands of packets
/// per second.
pub open spec fn rate_pattern() -> Seq<char> {
    r"rate:\s*(\d+\.\d+)\s*kpps"@
}

/// The pattern of a dotted quad in running text.
pub open spec fn address_pattern() -> Seq<char> {
    r"\b(?:\d{1,3}\.){3}\d{1,3}\b"@
}

/// The pattern of the protocol and software versions in an SSH banner.
pub open spec fn ssh_pattern() -> Seq<char> {
    r"SSH-(\d+\.\d+)-(\S+)"@
}

/// The pattern of the server header in an HTTP banner.
pub open spec fn server_pattern() -> Seq<char> {
    r"Server:\s*([^\r\n]+)"@
}

/// The pattern of a terminal colour sequence.
pub open spec fn ansi_pattern() -> Seq<char> {
    r"\x1B\[[0-9;]*m"@
}

/// The version that the first match of the version pattern gives.
pub open spec fn version_given(c: Option<Option<Seq<Option<Seq<char>>>>>) -> Result<
    Seq<char>,
    ScanErrorView,
> {
    match c {
        None => Err(ScanErrorView::Decode { message: "Invalid pattern"@ }),
        Some(m) => match group(m, 1) {
            Some(v) => Ok(v),
            None => Err(ScanErrorView::Decode { message: "Could not parse nmap version"@ }),
        },
    }
}

/// The thousandths that the digits after the point write: the first three
/// digits count, the rest is cut off.
pub open spec fn fraction_thousandths(frac: Seq<char>) -> nat {
    (if frac.len() > 0 {
        digit_value(frac[0]) * 100
    } else {
        0
    }) + (if frac.len() > 1 {
        digit_value(frac[1]) * 10
    } else {
        0
    }) + (if frac.len() > 2 {
        digit_value(frac[2])
    } else {
        0
    })
}

/// A thousand times the number that a text of digits, a point and digits
/// writes, rounded down, where it fits 64 bits.
pub open spec fn thousandfold(t: Seq<char>) -> Option<u64> {
    let parts = split_text(t, '.');
    if parts.len() == 2 && parts[0].len() > 0 && all_digits(parts[0]) && all_digits(parts[1])
        && decimal_value(parts[0]) * 1000 + fraction_thousandths(parts[1]) <= u64::MAX {
        Some((decimal_value(parts[0]) * 1000 + fraction_thousandths(parts[1])) as u64)
    } else {
        None
    }
}

/// The rate in packets per second that the first match of the rate pattern
/// gives: zero where there is no marker.
pub open spec fn rate_given(c: Option<Option<Seq<Option<Seq<char>>>>>) -> Result<
    u64,
    ScanErrorView,
> {
    match c {
        None => Err(ScanErrorView::Decode { message: "Invalid pattern"@ }),
        Some(None) => Ok(0),
        Some(m) => match group(m, 1) {
            Some(t) => match thousandfold(t) {
                Some(v) => Ok(v),
                None => Err(ScanErrorView::Decode { message: "Failed to parse rate"@ }),
            },
            None => Err(ScanErrorView::Decode { message: "Failed to parse rate"@ }),
        },
    }
}

/// The software version that the first match of the SSH pattern gives.
pub open spec fn ssh_version_given(c: Option<Seq<Option<Seq<char>>>>) -> Option<Seq<char>> {
    match (group(c, 1), group(c, 2)) {
        (Some(a), Some(b)) => Some(a + seq!['-'] + b),
        _ => None,
    }
}

/// The server that the first match of the server pattern gives.
pub open spec fn http_server_given(c: Option<Seq<Option<Seq<char>>>>) -> Option<Seq<char>> {
    match group(c, 1) {
        Some(t) => Some(trim_text(t)),
        None => None,
    }
}

/// What a banner tells of a service, where `ssh` and `http` are the first
/// matches of the SSH and server patterns in it. The first of the marks
/// `SSH`, `HTTP`, `FTP`, `SMTP` that the banner holds names the service.
pub open spec fn service_given(
    banner: Seq<char>,
    ssh: Option<Seq<Option<Seq<char>>>>,
    http: Option<Seq<Option<Seq<char>>>>,
) -> ServiceInfoView {
    if contains_text(banner, "SSH"@) {
        ServiceInfoView {
            service: Some("ssh"@),
            version: ssh_version_given(ssh),
            banner: Some(banner),
        }
    } else if contains_text(banner, "HTTP"@) {
        ServiceInfoView {
            service: Some("http"@),
            version: http_server_given(http),
            banner: Some(banner),
        }
    } else if contains_text(banner, "FTP"@) {
        ServiceInfoView { service: Some("ftp"@), version: None, banner: Some(banner) }
    } else if contains_text(banner, "SMTP"@) {
        ServiceInfoView { service: Some("smtp"@), version: None, banner: Some(banner) }
    } else {
        ServiceInfoView { service: None, version: None, banner: Some(banner) }
    }
}

/// The first match of a pattern, or none where the pattern does not compile.
pub open spec fn first_match(pattern: Seq<char>, text: Seq<char>) -> Option<
    Seq<Option<Seq<char>>>,
> {
    match regex_first_captures(pattern, text) {
        Some(m) => m,
        None => None,
    }
}

/// The string items of a list, in order.
pub open spec fn texts_among(items: Seq<Option<Seq<char>>>, n: int) -> Seq<Seq<char>>
    decreases n,
{
    if n <= 0 {
        Seq::empty()
    } else {
        match items[n - 1] {
            Some(t) => texts_among(items, n - 1).push(t),
            None => texts_among(items, n - 1),
        }
    }
}

/// The references that a text lists, where `parsed` is what was read from it
/// as JSON: a blank text lists none, an array lists its string items, and
/// anything else is refused.
pub open spec fn references_given(
    text: Seq<char>,
    parsed: Option<Option<Seq<Option<Seq<char>>>>>,
) -> Result<Seq<Seq<char>>, ScanErrorView> {
    if trim_text(text).len() == 0 {
        Ok(Seq::empty())
    } else {
        match parsed {
            None => Err(
                ScanErrorView::Decode { message: "Invalid JSON in vulnerability references"@ },
            ),
            Some(None) => Err(ScanErrorView::Decode { message: "References must be JSON array"@ }),
            Some(Some(items)) => Ok(texts_among(items, items.len() as int)),
        }
    }
}

/// A thousand times the number that `t` writes.
pub fn parse_thousandfold(t: &Vec<char>) -> (r: Option<u64>)
    ensures
        r == thousandfold(t@),
{
    let parts = split(t, '.');
    if parts.len() != 2 {
        return None;
    }
    assert(texts(parts@)[0] == parts@[0]@ && texts(parts@)[1] == parts@[1]@);
    let w = &parts[0];
    let f = &parts[1];
    if w.len() == 0 || !digits_only(w) || !digits_only(f) {
        return None;
    }
    assert(is_digit(w@[0]));
    let mut frac: u64 = 0;
    if f.len() > 0 {
        assert(is_digit(f@[0]));
        frac = frac + (f[0] as u32 - '0' as u32) as u64 * 100;
    }
    if f.len() > 1 {
        assert(is_digit(f@[1]));
        frac = frac + (f[1] as u32 - '0' as u32) as u64 * 10;
    }
    if f.len() > 2 {
        assert(is_digit(f@[2]));
        frac = frac + (f[2] as u32 - '0' as u32) as u64;
    }
    assert(frac == fraction_thousandths(f@));
    match parse_decimal(w, u64::MAX / 1000) {
        Some(whole) => {
            let total: u128 = whole as u128 * 1000 + frac as u128;
            if total > u64::MAX as u128 {
                None
            } else {
                Some(total as u64)
            }
        },
        None => None,
    }
}

impl OutputParser {
    /// The version in the tool's version line.
    pub fn nmap_version_from(c: &Option<Captured>) -> (r: Result<String, ScanError>)
        ensures
            outcome(r) == version_given(c.deep_view()),
    {
        match c {
            None => Err(ScanError::Decode { message: "Invalid pattern".to_owned() }),
            Some(m) => match group_text(m, 1) {
                Some(v) => Ok(v),
                None => Err(
                    ScanError::Decode { message: "Could not parse nmap version".to_owned() },
                ),
            },
        }
    }

    /// Reads the version from what the probing tool prints about itself.
    pub fn parse_nmap_version(output: &str) -> (r: Result<String, ScanError>)
        ensures
            outcome(r) == version_given(regex_first_captures(version_pattern(), output@)),
    {
        Self::nmap_version_from(&first_captures(r"Nmap version (\d+\.\d+)", output))
    }

    /// The rate in packets per second in a first match of the rate pattern.
    pub fn masscan_rate_from(c: &Option<Captured>) -> (r: Result<u64, ScanError>)
        ensures
            match r {
                Ok(v) => rate_given(c.deep_view()) == Ok::<u64, ScanErrorView>(v),
                Err(e) => rate_given(c.deep_view()) == Err::<u64, ScanErrorView>(e@),
            },
    {
        match c {
            None => Err(ScanError::Decode { message: "Invalid pattern".to_owned() }),
            Some(None) => Ok(0),
            Some(m) => match group_text(m, 1) {
                Some(t) => match parse_thousandfold(&chars_of(t.as_str())) {
                    Some(v) => Ok(v),
                    None => Err(ScanError::Decode { message: "Failed to parse rate".to_owned() }),
                },
                None => Err(ScanError::Decode { message: "Failed to parse rate".to_owned() }),
            },
        }
    }

    /// Reads the rate in packets per second from a line of the discovery tool.
    pub fn parse_masscan_rate(output: &str) -> (r: Result<u64, ScanError>)
        ensures
            match r {
                Ok(v) => rate_given(regex_first_captures(rate_pattern(), output@)) == Ok::<
                    u64,
                    ScanErrorView,
                >(v),
                Err(e) => rate_given(regex_first_captures(rate_pattern(), output@)) == Err::<
                    u64,
                    ScanErrorView,
                >(e@),
            },
    {
        Self::masscan_rate_from(&first_captures(r"rate:\s*(\d+\.\d+)\s*kpps", output))
    }

    /// The dotted quads that stand in a text, in order.
    pub fn extract_ip_addresses(text: &str) -> (r: Vec<String>)
        ensures
            r.deep_view() == match regex_all_matches(address_pattern(), text@) {
                Some(v) => v,
                None => Seq::empty(),
            },
    {
        match regex_find_all(r"\b(?:\d{1,3}\.){3}\d{1,3}\b", text) {
            Ok(v) => v,
            Err(_) => {
                let v: Vec<String> = Vec::new();
                assert(v.deep_view() =~= Seq::empty());
                v
            },
        }
    }

    /// The software version in a first match of the SSH pattern.
    pub fn ssh_version_from(c: &Captured) -> (r: Option<String>)
        ensures
            r.deep_view() == ssh_version_given(c.deep_view()),
    {
        match (group_text(c, 1), group_text(c, 2)) {
            (Some(a), Some(b)) => {
                let mut out = chars_of(a.as_str());
                out.push('-');
                push_all(&mut out, &chars_of(b.as_str()));
                assert(out@ =~= a@ + seq!['-'] + b@);
                Some(string_of(&out))
            },
            _ => None,
        }
    }

    /// The software version in an SSH banner.
    pub fn extract_ssh_version(banner: &str) -> (r: Option<String>)
        ensures
            r.deep_view() == ssh_version_given(first_match(ssh_pattern(), banner@)),
    {
        match first_captures(r"SSH-(\d+\.\d+)-(\S+)", banner) {
            Some(c) => Self::ssh_version_from(&c),
            None => None,
        }
    }

    /// The server in a first match of the server pattern.
    pub fn http_server_from(c: &Captured) -> (r: Option<String>)
        ensures
            r.deep_view() == http_server_given(c.deep_view()),
    {
        match group_text(c, 1) {
            Some(t) => Some(string_of(&trim(&chars_of(t.as_str())))),
            None => None,
        }
    }

    /// The server named in an HTTP banner.
    pub fn extract_http_server(banner: &str) -> (r: Option<String>)
        ensures
            r.deep_view() == http_server_given(first_match(server_pattern(), banner@)),
    {
        match first_captures(r"Server:\s*([^\r\n]+)", banner) {
            Some(c) => Self::http_server_from(&c),
            None => None,
        }
    }

    /// What a banner tells of a service, given the first matches of the SSH
    /// and server patterns in it.
    pub fn service_from(banner: &str, ssh: &Captured, http: &Captured) -> (r: ServiceInfo)
        ensures
            r@ == service_given(banner@, ssh.deep_view(), http.deep_view()),
    {
        let b = chars_of(banner);
        let mut info = ServiceInfo { service: None, version: None, banner: None };
        if contains(&b, &chars_of("SSH")) {
            info.service = Some("ssh".to_owned());
            info.version = Self::ssh_version_from(ssh);
        } else if contains(&b, &chars_of("HTTP")) {
            info.service = Some("http".to_owned());
            info.version = Self::http_server_from(http);
        } else if contains(&b, &chars_of("FTP")) {
            info.service = Some("ftp".to_owned());
        } else if contains(&b, &chars_of("SMTP")) {
            info.service = Some("smtp".to_owned());
        }
        info.banner = Some(banner.to_owned());
        info
    }

    /// Reads a service banner.
    pub fn parse_service_banner(banner: &str) -> (r: ServiceInfo)
        ensures
            r@ == service_given(
                banner@,
                first_match(ssh_pattern(), banner@),
                first_match(server_pattern(), banner@),
            ),
    {
        let ssh: Captured = match first_captures(r"SSH-(\d+\.\d+)-(\S+)", banner) {
            Some(c) => c,
            None => None,
        };
        let http: Captured = match first_captures(r"Server:\s*([^\r\n]+)", banner) {
            Some(c) => c,
            None => None,
        };
        Self::service_from(banner, &ssh, &http)
    }

    /// The references in what was read from a reference list.
    pub fn references_from(refs_str: &str, parsed: &Option<Option<Vec<Option<String>>>>) -> (r:
        Result<Vec<String>, ScanError>)
        ensures
            outcome(r) == references_given(refs_str@, parsed.deep_view()),
    {
        if trim(&chars_of(refs_str)).len() == 0 {
            let v: Vec<String> = Vec::new();
            assert(v.deep_view() =~= Seq::empty());
            return Ok(v);
        }
        match parsed {
            None => Err(
                ScanError::Decode {
                    message: "Invalid JSON in vulnerability references".to_owned(),
                },
            ),
            Some(None) => Err(
                ScanError::Decode { message: "References must be JSON array".to_owned() },
            ),
            Some(Some(items)) => {
                let ghost all = items.deep_view();
                let mut out: Vec<String> = Vec::new();
                let mut i: usize = 0;
                assert(out.deep_view() =~= Seq::empty());
                while i < items.len()
                    invariant
                        i <= items.len(),
                        all == items.deep_view(),
                        out.deep_view() == texts_among(all, i as int),
                    decreases items.len() - i,
                {
                    assert(all[i as int] == items@[i as int].deep_view());
                    match &items[i] {
                        Some(t) => {
                            let ghost before = out.deep_view();
                            out.push(t.clone());
                            assert(out.deep_view() =~= before.push(t@));
                        },
                        None => {},
                    }
                    i += 1;
                }
                Ok(out)
            },
        }
    }

    /// Reads the reference list of a vulnerability: a JSON array of texts.
    pub fn parse_vulnerability_references(refs_str: &str) -> (r: Result<Vec<String>, ScanError>)
        ensures
            outcome(r) == references_given(refs_str@, json_array_items(refs_str@)),
    {
        let parsed = match json_array(refs_str) {
            Ok(v) => Some(v),
            Err(_) => None,
        };
        Self::references_from(refs_str, &parsed)
    }

    /// A text without its terminal colour sequences.
    pub fn clean_ansi_codes(text: &str) -> (r: String)
        ensures
            r@ == match regex_replaced(ansi_pattern(), text@, Seq::empty()) {
                Some(t) => t,
                None => text@,
            },
    {
        proof {
            reveal_strlit("");
            assert(""@ =~= Seq::<char>::empty());
        }
        match regex_replace_all(r"\x1B\[[0-9;]*m", text, "") {
            Ok(s) => s,
            Err(_) => text.to_owned(),
        }
    }
}

} // verus!
