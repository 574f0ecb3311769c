//! The wide-discovery executor: argument lists for the discovery tool and the
//! decoding of its line-oriented output.
//!
//! A result line has the columns `open <protocol> <port> <address>
//! [banner...]`, separated by white space. Lines of any other shape carry no
//! finding and are skipped.

use crate::error::{outcome, ScanError, ScanErrorView};
use crate::fresh::{new_scan_id, now_millis};
use crate::gate::AdmissionGate;
use crate::model::{
    IpAddress, Percent, Port, PortView, ScanId, ScanProgress, ScanProgressView, ScanResult,
    ScanResultView, ScanStatus, ScanStatusView, Timestamp,
};
use crate::network::{address_of_text, address_text, format_address, parse_address};
use crate::process::{Invocation, ToolRun};
use crate::text::{
    chars_of, contains_text, decimal, decimal_text, find, find_text, join_from, join_text,
    parse_decimal, parse_unsigned, push_all, push_text, same_text, slice_of, split_whitespace,
    string_of, texts, words,
};
use vstd::prelude::*;

verus! {

/// The finding that the columns of a result line give, where `address` is what
/// the fourth column was read as.
pub open spec fn finding_given(parts: Seq<Seq<char>>, address: Option<IpAddress>) -> Result<
    PortView,
    ScanErrorView,
> {
    if parts.len() < 4 || parts[0] != "open"@ {
        Err(ScanErrorView::Decode { message: "Invalid masscan output format"@ })
    } else if parse_unsigned(parts[2], 65535) is None {
        Err(ScanErrorView::Decode { message: "Failed to parse port number"@ })
    } else if address is None {
        Err(ScanErrorView::Decode { message: "Failed to parse IP address"@ })
    } else {
        Ok(
            PortView {
                number: parse_unsigned(parts[2], 65535)->0 as u16,
                protocol: parts[1],
                state: "open"@,
                service: None,
                version: None,
                banner: if parts.len() > 4 {
                    Some(join_text(parts.skip(4), " "@))
                } else {
                    None
                },
            },
        )
    }
}

/// What the fourth column of a line was read as, if the line has one.
pub open spec fn line_address(parts: Seq<Seq<char>>) -> Option<IpAddress> {
    if parts.len() >= 4 {
        address_of_text(parts[3])
    } else {
        None
    }
}

/// The finding that a line of tool output gives.
pub open spec fn line_finding(line: Seq<char>) -> Result<PortView, ScanErrorView> {
    finding_given(words(line), line_address(words(line)))
}

/// Decodes the columns of a result line, given what the fourth column was read
/// as.
pub fn finding_from_parts(parts: &Vec<Vec<char>>, address: Option<IpAddress>) -> (r: Result<
    Port,
    ScanError,
>)
    ensures
        outcome(r) == finding_given(texts(parts@), address),
{
    let open = chars_of("open");
    if parts.len() < 4 || !same_text(&parts[0], &open) {
        return Err(ScanError::Decode { message: "Invalid masscan output format".to_owned() });
    }
    let number: u16 = match parse_decimal(&parts[2], 65535) {
        Some(n) => n as u16,
        None => {
            return Err(ScanError::Decode { message: "Failed to parse port number".to_owned() });
        },
    };
    if address.is_none() {
        return Err(ScanError::Decode { message: "Failed to parse IP address".to_owned() });
    }
    let banner: Option<String> = if parts.len() > 4 {
        let space = chars_of(" ");
        Some(string_of(&join_from(parts, 4, &space)))
    } else {
        None
    };
    Ok(
        Port {
            number,
            protocol: string_of(&parts[1]),
            state: "open".to_owned(),
            service: None,
            version: None,
            banner,
        },
    )
}

/// Decodes one line of tool output into the finding it reports.
pub fn finding_from_line(line: &str) -> (r: Result<Port, ScanError>)
    ensures
        outcome(r) == line_finding(line@),
{
    let parts = split_whitespace(&chars_of(line));
    let address = if parts.len() >= 4 {
        let text = string_of(&parts[3]);
        parse_address(text.as_str())
    } else {
        None
    };
    finding_from_parts(&parts, address)
}

/// The result that wraps one finding of the discovery tool: completed, with
/// that finding alone.
pub open spec fn result_of_finding(
    port: PortView,
    id: ScanId,
    target_id: ScanId,
    timestamp: Timestamp,
) -> ScanResultView {
    ScanResultView {
        id,
        target_id,
        timestamp,
        status: ScanStatusView::Completed,
        open_ports: seq![port],
        os_detection: None,
        vulnerabilities: Seq::empty(),
    }
}

/// Wraps one finding in a result with the given identities and time.
pub fn result_for_finding(port: Port, id: ScanId, target_id: ScanId, timestamp: Timestamp) -> (r:
    ScanResult)
    ensures
        r@ == result_of_finding(port@, id, target_id, timestamp),
{
    let mut open_ports: Vec<Port> = Vec::new();
    open_ports.push(port);
    let r = ScanResult {
        id,
        target_id,
        timestamp,
        status: ScanStatus::Completed,
        open_ports,
        os_detection: None,
        vulnerabilities: Vec::new(),
    };
    assert(r.open_ports.deep_view() =~= seq![port@]);
    assert(r.vulnerabilities.deep_view() =~= Seq::empty());
    r
}

/// The progress event that a line of tool output carries: a rate marker gives
/// the text from the marker on, the word `Scanning` gives the whole line. The
/// tool reports no percentage, so the share done is zero.
pub open spec fn line_progress(line: Seq<char>) -> Option<ScanProgressView> {
    match find_text(line, "rate:"@) {
        Some(i) => Some(
            ScanProgressView {
                percent: Percent { hundredths: 0 },
                message: "Scanning - "@ + line.skip(i),
                eta: None,
            },
        ),
        None => if contains_text(line, "Scanning"@) {
            Some(ScanProgressView { percent: Percent { hundredths: 0 }, message: line, eta: None })
        } else {
            None
        },
    }
}

/// How the lines of a run are read for progress.
#[derive(Clone, Copy, Debug, PartialEq, Eq, Structural)]
pub enum ProgressRule {
    /// Lines with a rate marker or the word `Scanning` are progress.
    Markers,
    /// Lines with a rate marker are progress and are passed on whole.
    RateLines,
}

/// The progress event that a line carries under a rule.
pub open spec fn progress_under(rule: ProgressRule, line: Seq<char>) -> Option<ScanProgressView> {
    match rule {
        ProgressRule::Markers => line_progress(line),
        ProgressRule::RateLines => if contains_text(line, "rate:"@) {
            Some(ScanProgressView { percent: Percent { hundredths: 0 }, message: line, eta: None })
        } else {
            None
        },
    }
}

/// The findings that the lines of a run report, in the order of the lines;
/// lines that report none are skipped.
pub open spec fn findings_of(lines: Seq<Seq<char>>) -> Seq<PortView>
    decreases lines.len(),
{
    if lines.len() == 0 {
        Seq::empty()
    } else {
        match line_finding(lines.last()) {
            Ok(p) => findings_of(lines.drop_last()).push(p),
            Err(_) => findings_of(lines.drop_last()),
        }
    }
}

/// The progress events that the lines of a run carry, in the order of the
/// lines.
pub open spec fn progress_of(rule: ProgressRule, lines: Seq<Seq<char>>) -> Seq<ScanProgressView>
    decreases lines.len(),
{
    if lines.len() == 0 {
        Seq::empty()
    } else {
        match progress_under(rule, lines.last()) {
            Some(p) => progress_of(rule, lines.drop_last()).push(p),
            None => progress_of(rule, lines.drop_last()),
        }
    }
}

/// Each result is completed and holds exactly the finding at its index.
pub open spec fn wraps(results: Seq<ScanResultView>, findings: Seq<PortView>) -> bool {
    &&& results.len() == findings.len()
    &&& forall|i: int|
        0 <= i < results.len() ==> #[trigger] results[i] == result_of_finding(
            findings[i],
            results[i].id,
            results[i].target_id,
            results[i].timestamp,
        )
}

/// What one line of output gives: a progress event, a result, both or neither.
#[derive(Debug)]
pub struct LineOutcome {
    pub progress: Option<ScanProgress>,
    pub result: Option<ScanResult>,
}

/// What a discovery run found, and the progress it reported on the way.
#[derive(Debug)]
pub struct Discovery {
    pub progress: Vec<ScanProgress>,
    pub results: Vec<ScanResult>,
}

/// The wide-discovery executor: at most `max_concurrent` tool processes at a
/// time, each sending at most `max_rate` packets per second.
#[derive(Clone, Copy, Debug, PartialEq, Eq, Structural)]
pub struct MasscanScanner {
    pub rate_limit: AdmissionGate,
    pub max_rate: u32,
}

/// The twenty most common ports, most common first.
pub open spec fn top_ports() -> Seq<u16> {
    seq![
        21u16,
        22u16,
        23u16,
        25u16,
        53u16,
        80u16,
        110u16,
        111u16,
        135u16,
        139u16,
        143u16,
        443u16,
        993u16,
        995u16,
        1723u16,
        3306u16,
        3389u16,
        5900u16,
        8080u16,
        8443u16,
    ]
}

/// The decimal texts of a list of ports.
pub open spec fn port_texts(ports: Seq<u16>) -> Seq<Seq<char>> {
    Seq::new(ports.len(), |i: int| decimal_text(ports[i] as nat))
}

/// The port argument of the tool: the whole range for an empty list, else the
/// ports in decimal, separated by commas.
pub open spec fn port_list_text(ports: Seq<u16>) -> Seq<char> {
    if ports.len() == 0 {
        "1-65535"@
    } else {
        join_text(port_texts(ports), ","@)
    }
}

/// The texts of a list of addresses.
pub open spec fn address_texts(targets: Seq<IpAddress>) -> Seq<Seq<char>> {
    Seq::new(targets.len(), |i: int| address_text(targets[i]))
}

/// The arguments that every discovery run ends with: ports, rate and list
/// output on the standard output.
pub open spec fn common_args(ports: Seq<u16>, rate: u32) -> Seq<Seq<char>> {
    seq![
        "-p"@,
        port_list_text(ports),
        "--rate"@,
        decimal_text(rate as nat),
        "--output-format"@,
        "list"@,
        "--output-filename"@,
        "-"@,
    ]
}

/// Each of `items` preceded by `flag`.
pub open spec fn flagged(flag: Seq<char>, items: Seq<Seq<char>>) -> Seq<Seq<char>>
    decreases items.len(),
{
    if items.len() == 0 {
        Seq::empty()
    } else {
        flagged(flag, items.drop_last()).push(flag).push(items.last())
    }
}

impl MasscanScanner {
    /// A discovery executor that runs at most `max_concurrent` processes, each
    /// sending at most `max_rate` packets per second.
    pub fn new(max_concurrent: usize, max_rate: u32) -> (s: MasscanScanner)
        ensures
            s.rate_limit.capacity() == max_concurrent,
            s.rate_limit.taken() == 0,
            s.max_rate == max_rate,
    {
        MasscanScanner { rate_limit: AdmissionGate::new(max_concurrent), max_rate }
    }

    /// Takes the permit for one tool process, if one is free. The permit is
    /// held until `release_process`.
    pub fn try_acquire_process(&mut self) -> (taken: bool)
        ensures
            final(self).max_rate == old(self).max_rate,
            final(self).rate_limit.capacity() == old(self).rate_limit.capacity(),
            taken == (old(self).rate_limit.taken() < old(self).rate_limit.capacity()),
            final(self).rate_limit.taken() == old(self).rate_limit.taken() + if taken {
                1nat
            } else {
                0nat
            },
    {
        self.rate_limit.try_acquire()
    }

    /// Returns the permit of a tool process that has ended.
    pub fn release_process(&mut self)
        ensures
            final(self).max_rate == old(self).max_rate,
            final(self).rate_limit.capacity() == old(self).rate_limit.capacity(),
            final(self).rate_limit.taken() == if old(self).rate_limit.taken() > 0 {
                (old(self).rate_limit.taken() - 1) as nat
            } else {
                0nat
            },
    {
        self.rate_limit.release()
    }

    /// Decodes one result line into a completed result with fresh identities
    /// and the current time.
    pub fn parse_masscan_output(&self, line: &str) -> (r: Result<ScanResult, ScanError>)
        ensures
            match r {
                Ok(res) => line_finding(line@) matches Ok(p) && res@ == result_of_finding(
                    p,
                    res.id,
                    res.target_id,
                    res.timestamp,
                ),
                Err(e) => line_finding(line@) == Err::<PortView, ScanErrorView>(e@),
            },
    {
        match finding_from_line(line) {
            Ok(port) => Ok(result_for_finding(port, new_scan_id(), new_scan_id(), now_millis())),
            Err(e) => Err(e),
        }
    }

    /// The list output of the tool is decoded line by line in the same way.
    pub fn parse_masscan_list_output(&self, line: &str) -> (r: Result<ScanResult, ScanError>)
        ensures
            match r {
                Ok(res) => line_finding(line@) matches Ok(p) && res@ == result_of_finding(
                    p,
                    res.id,
                    res.target_id,
                    res.timestamp,
                ),
                Err(e) => line_finding(line@) == Err::<PortView, ScanErrorView>(e@),
            },
    {
        self.parse_masscan_output(line)
    }

    /// Reads a line as a progress event; a line without a marker is no progress
    /// line.
    pub fn parse_masscan_progress(&self, line: &str) -> (r: Result<ScanProgress, ScanError>)
        ensures
            outcome(r) == match line_progress(line@) {
                Some(p) => Ok::<ScanProgressView, ScanErrorView>(p),
                None => Err(ScanErrorView::Decode { message: "Not a progress line"@ }),
            },
    {
        let s = chars_of(line);
        let rate = chars_of("rate:");
        match find(&s, &rate) {
            Some(i) => {
                let mut message = chars_of("Scanning - ");
                let tail = slice_of(&s, i, s.len());
                push_all(&mut message, &tail);
                assert(s@.skip(i as int) =~= s@.subrange(i as int, s@.len() as int));
                Ok(
                    ScanProgress {
                        percent: Percent::zero(),
                        message: string_of(&message),
                        eta: None,
                    },
                )
            },
            None => {
                let scanning = chars_of("Scanning");
                if crate::text::contains(&s, &scanning) {
                    Ok(
                        ScanProgress {
                            percent: Percent::zero(),
                            message: line.to_owned(),
                            eta: None,
                        },
                    )
                } else {
                    Err(ScanError::Decode { message: "Not a progress line".to_owned() })
                }
            },
        }
    }

    /// The first `count` of the most common ports.
    pub fn get_top_ports(&self, count: usize) -> (r: Vec<u16>)
        ensures
            r@ == top_ports().take(if count < 20 { count as int } else { 20 }),
    {
        let all: [u16; 20] = [
            21,
            22,
            23,
            25,
            53,
            80,
            110,
            111,
            135,
            139,
            143,
            443,
            993,
            995,
            1723,
            3306,
            3389,
            5900,
            8080,
            8443,
        ];
        assert(all@ =~= top_ports());
        let n: usize = if count < 20 {
            count
        } else {
            20
        };
        let mut r: Vec<u16> = Vec::new();
        let mut i: usize = 0;
        while i < n
            invariant
                i <= n <= 20,
                all@ == top_ports(),
                r@ == top_ports().take(i as int),
            decreases n - i,
        {
            r.push(all[i]);
            assert(r@ =~= top_ports().take(i + 1));
            i += 1;
        }
        r
    }

    /// The port argument for a list of ports.
    pub fn format_port_list(&self, ports: &Vec<u16>) -> (r: String)
        ensures
            r@ == port_list_text(ports@),
    {
        if ports.len() == 0 {
            return "1-65535".to_owned();
        }
        let mut parts: Vec<Vec<char>> = Vec::new();
        let mut i: usize = 0;
        while i < ports.len()
            invariant
                i <= ports.len(),
                parts.len() == i,
                forall|j: int| 0 <= j < i ==> parts@[j]@ == decimal_text(ports@[j] as nat),
            decreases ports.len() - i,
        {
            parts.push(decimal(ports[i] as u128));
            i += 1;
        }
        assert(texts(parts@) =~= port_texts(ports@));
        let comma = chars_of(",");
        string_of(&crate::text::join(&parts, &comma))
    }
}

/// Appends the texts of `targets` to `args`.
fn push_addresses(args: &mut Vec<String>, targets: &Vec<IpAddress>)
    ensures
        final(args).deep_view() == old(args).deep_view() + address_texts(targets@),
{
    let mut i: usize = 0;
    assert(args.deep_view() =~= old(args).deep_view() + address_texts(targets@.take(0)));
    while i < targets.len()
        invariant
            i <= targets.len(),
            args.deep_view() == old(args).deep_view() + address_texts(targets@.take(i as int)),
        decreases targets.len() - i,
    {
        push_text(args, format_address(&targets[i]));
        assert(args.deep_view() =~= old(args).deep_view() + address_texts(targets@.take(i + 1)));
        i += 1;
    }
    assert(targets@.take(targets@.len() as int) =~= targets@);
}

impl MasscanScanner {
    /// Appends ports, rate and output arguments to `args`.
    fn push_common(&self, args: &mut Vec<String>, ports: &Vec<u16>)
        ensures
            final(args).deep_view() == old(args).deep_view() + common_args(ports@, self.max_rate),
    {
        push_text(args, "-p".to_owned());
        push_text(args, self.format_port_list(ports));
        push_text(args, "--rate".to_owned());
        push_text(args, string_of(&decimal(self.max_rate as u128)));
        push_text(args, "--output-format".to_owned());
        push_text(args, "list".to_owned());
        push_text(args, "--output-filename".to_owned());
        push_text(args, "-".to_owned());
        assert(args.deep_view() =~= old(args).deep_view() + common_args(ports@, self.max_rate));
    }

    /// The invocation that scans `targets` on `ports` and grabs banners.
    pub fn configure_masscan_command(&self, targets: &Vec<IpAddress>, ports: &Vec<u16>) -> (r:
        Invocation)
        ensures
            r@.program == "masscan"@,
            r@.args == address_texts(targets@) + common_args(ports@, self.max_rate) + seq![
                "--banners"@,
            ],
    {
        let mut args: Vec<String> = Vec::new();
        assert(args.deep_view() =~= Seq::empty());
        push_addresses(&mut args, targets);
        self.push_common(&mut args, ports);
        push_text(&mut args, "--banners".to_owned());
        assert(args.deep_view() =~= address_texts(targets@) + common_args(ports@, self.max_rate)
            + seq!["--banners"@]);
        Invocation { program: "masscan".to_owned(), args }
    }

    /// The invocation that sweeps `cidr_range` on the `top_ports` most common
    /// ports.
    pub fn fast_port_discovery_command(&self, cidr_range: &str, top_ports: usize) -> (r: Invocation)
        ensures
            r@.program == "masscan"@,
            r@.args == seq![cidr_range@] + common_args(
                self::top_ports().take(
                    if top_ports < 20 {
                        top_ports as int
                    } else {
                        20
                    },
                ),
                self.max_rate,
            ),
    {
        let ports = self.get_top_ports(top_ports);
        let mut args: Vec<String> = Vec::new();
        push_text(&mut args, cidr_range.to_owned());
        assert(args.deep_view() =~= seq![cidr_range@]);
        self.push_common(&mut args, &ports);
        Invocation { program: "masscan".to_owned(), args }
    }

    /// The invocation of a SYN scan of `target_range` that leaves out
    /// `exclude_ranges`.
    pub fn syn_scan_command(
        &self,
        target_range: &str,
        exclude_ranges: &Vec<String>,
        ports: &Vec<u16>,
    ) -> (r: Invocation)
        ensures
            r@.program == "masscan"@,
            r@.args == seq![target_range@] + flagged("--exclude"@, exclude_ranges.deep_view())
                + seq![
                "-p"@,
                port_list_text(ports@),
                "--rate"@,
                decimal_text(self.max_rate as nat),
                "-sS"@,
                "--output-format"@,
                "list"@,
                "--output-filename"@,
                "-"@,
            ],
    {
        let mut args: Vec<String> = Vec::new();
        push_text(&mut args, target_range.to_owned());
        let ghost excludes = exclude_ranges.deep_view();
        let mut i: usize = 0;
        assert(args.deep_view() =~= seq![target_range@] + flagged("--exclude"@, excludes.take(0)));
        while i < exclude_ranges.len()
            invariant
                i <= exclude_ranges.len(),
                excludes == exclude_ranges.deep_view(),
                args.deep_view() == seq![target_range@] + flagged(
                    "--exclude"@,
                    excludes.take(i as int),
                ),
            decreases exclude_ranges.len() - i,
        {
            push_text(&mut args, "--exclude".to_owned());
            push_text(&mut args, exclude_ranges[i].clone());
            assert(excludes.take(i + 1).drop_last() =~= excludes.take(i as int));
            assert(excludes.take(i + 1).last() == exclude_ranges@[i as int]@);
            assert(args.deep_view() =~= seq![target_range@] + flagged(
                "--exclude"@,
                excludes.take(i + 1),
            ));
            i += 1;
        }
        assert(excludes.take(excludes.len() as int) =~= excludes);
        let ghost head = args.deep_view();
        push_text(&mut args, "-p".to_owned());
        push_text(&mut args, self.format_port_list(ports));
        push_text(&mut args, "--rate".to_owned());
        push_text(&mut args, string_of(&decimal(self.max_rate as u128)));
        push_text(&mut args, "-sS".to_owned());
        push_text(&mut args, "--output-format".to_owned());
        push_text(&mut args, "list".to_owned());
        push_text(&mut args, "--output-filename".to_owned());
        push_text(&mut args, "-".to_owned());
        assert(args.deep_view() =~= head + seq![
            "-p"@,
            port_list_text(ports@),
            "--rate"@,
            decimal_text(self.max_rate as nat),
            "-sS"@,
            "--output-format"@,
            "list"@,
            "--output-filename"@,
            "-"@,
        ]);
        Invocation { program: "masscan".to_owned(), args }
    }

    /// The invocation of a UDP scan of `targets`, at a tenth of the rate.
    pub fn udp_scan_command(&self, targets: &Vec<IpAddress>, udp_ports: &Vec<u16>) -> (r: Invocation)
        ensures
            r@.program == "masscan"@,
            r@.args == address_texts(targets@) + seq![
                "-pU:"@,
                port_list_text(udp_ports@),
                "--rate"@,
                decimal_text((self.max_rate / 10) as nat),
                "--output-format"@,
                "list"@,
                "--output-filename"@,
                "-"@,
            ],
    {
        let mut args: Vec<String> = Vec::new();
        assert(args.deep_view() =~= Seq::empty());
        push_addresses(&mut args, targets);
        let ghost head = args.deep_view();
        push_text(&mut args, "-pU:".to_owned());
        push_text(&mut args, self.format_port_list(udp_ports));
        push_text(&mut args, "--rate".to_owned());
        push_text(&mut args, string_of(&decimal((self.max_rate / 10) as u128)));
        push_text(&mut args, "--output-format".to_owned());
        push_text(&mut args, "list".to_owned());
        push_text(&mut args, "--output-filename".to_owned());
        push_text(&mut args, "-".to_owned());
        assert(args.deep_view() =~= head + seq![
            "-pU:"@,
            port_list_text(udp_ports@),
            "--rate"@,
            decimal_text((self.max_rate / 10) as nat),
            "--output-format"@,
            "list"@,
            "--output-filename"@,
            "-"@,
        ]);
        Invocation { program: "masscan".to_owned(), args }
    }
}

/// What a run of the discovery tool gives, where `prefix` opens the message of
/// a failed run: after a non-zero exit the error carries the tool's error
/// stream; otherwise one result per reported finding, and the progress events
/// in the order of the lines.
pub open spec fn run_gives(
    rule: ProgressRule,
    prefix: Seq<char>,
    lines: Seq<Seq<char>>,
    succeeded: bool,
    stderr: Seq<char>,
    r: Result<Discovery, ScanError>,
) -> bool {
    match r {
        Ok(d) => succeeded && d.progress.deep_view() == progress_of(rule, lines) && wraps(
            d.results.deep_view(),
            findings_of(lines),
        ),
        Err(e) => !succeeded && e@ == (ScanErrorView::ToolExit { message: prefix + stderr }),
    }
}

impl MasscanScanner {
    /// Reads one line of a run: the progress event it carries under `rule`,
    /// and the result it reports, with fresh identities and the current time.
    pub fn decode_line(&self, line: &str, rule: ProgressRule) -> (out: LineOutcome)
        ensures
            out.progress.deep_view() == progress_under(rule, line@),
            match out.result {
                Some(res) => line_finding(line@) matches Ok(p) && res@ == result_of_finding(
                    p,
                    res.id,
                    res.target_id,
                    res.timestamp,
                ),
                None => line_finding(line@) is Err,
            },
    {
        let progress: Option<ScanProgress> = match rule {
            ProgressRule::Markers => match self.parse_masscan_progress(line) {
                Ok(p) => Some(p),
                Err(_) => None,
            },
            ProgressRule::RateLines => {
                let s = chars_of(line);
                let rate = chars_of("rate:");
                if crate::text::contains(&s, &rate) {
                    Some(
                        ScanProgress {
                            percent: Percent::zero(),
                            message: line.to_owned(),
                            eta: None,
                        },
                    )
                } else {
                    None
                }
            },
        };
        let result: Option<ScanResult> = match self.parse_masscan_output(line) {
            Ok(res) => Some(res),
            Err(_) => None,
        };
        LineOutcome { progress, result }
    }

    /// Reads a whole run: every line in order, then the exit status.
    pub fn collect(&self, run: &ToolRun, rule: ProgressRule, prefix: &str) -> (r: Result<
        Discovery,
        ScanError,
    >)
        ensures
            run_gives(rule, prefix@, run.lines.deep_view(), run.succeeded, run.stderr@, r),
    {
        let ghost lines = run.lines.deep_view();
        let mut progress: Vec<ScanProgress> = Vec::new();
        let mut results: Vec<ScanResult> = Vec::new();
        let mut i: usize = 0;
        assert(progress.deep_view() =~= Seq::empty());
        assert(results.deep_view() =~= Seq::empty());
        while i < run.lines.len()
            invariant
                i <= run.lines.len(),
                lines == run.lines.deep_view(),
                progress.deep_view() == progress_of(rule, lines.take(i as int)),
                wraps(results.deep_view(), findings_of(lines.take(i as int))),
            decreases run.lines.len() - i,
        {
            let out = self.decode_line(run.lines[i].as_str(), rule);
            proof {
                assert(lines.take(i + 1).drop_last() =~= lines.take(i as int));
                assert(lines.take(i + 1).last() == run.lines@[i as int]@);
            }
            let ghost old_progress = progress.deep_view();
            let ghost old_results = results.deep_view();
            match out.progress {
                Some(p) => {
                    progress.push(p);
                    assert(progress.deep_view() =~= old_progress.push(p@));
                },
                None => {},
            }
            match out.result {
                Some(res) => {
                    results.push(res);
                    assert(results.deep_view() =~= old_results.push(res@));
                },
                None => {},
            }
            i += 1;
        }
        assert(lines.take(lines.len() as int) =~= lines);
        if !run.succeeded {
            return Err(
                ScanError::ToolExit { message: crate::error::prefixed(prefix, run.stderr.as_str()) },
            );
        }
        Ok(Discovery { progress, results })
    }

    /// Reads a run started by `configure_masscan_command`.
    pub fn scan_range(&self, run: &ToolRun) -> (r: Result<Discovery, ScanError>)
        ensures
            run_gives(
                ProgressRule::Markers,
                "Masscan failed: "@,
                run.lines.deep_view(),
                run.succeeded,
                run.stderr@,
                r,
            ),
    {
        self.collect(run, ProgressRule::Markers, "Masscan failed: ")
    }

    /// Reads a run started by `fast_port_discovery_command`.
    pub fn fast_port_discovery(&self, run: &ToolRun) -> (r: Result<Discovery, ScanError>)
        ensures
            run_gives(
                ProgressRule::RateLines,
                "Masscan port discovery failed: "@,
                run.lines.deep_view(),
                run.succeeded,
                run.stderr@,
                r,
            ),
    {
        self.collect(run, ProgressRule::RateLines, "Masscan port discovery failed: ")
    }

    /// Reads a run started by `syn_scan_command`.
    pub fn syn_scan_with_excludes(&self, run: &ToolRun) -> (r: Result<Discovery, ScanError>)
        ensures
            run_gives(
                ProgressRule::Markers,
                "Masscan SYN scan failed: "@,
                run.lines.deep_view(),
                run.succeeded,
                run.stderr@,
                r,
            ),
    {
        self.collect(run, ProgressRule::Markers, "Masscan SYN scan failed: ")
    }

    /// Reads a run started by `udp_scan_command`.
    pub fn udp_scan(&self, run: &ToolRun) -> (r: Result<Discovery, ScanError>)
        ensures
            run_gives(
                ProgressRule::Markers,
                "Masscan UDP scan failed: "@,
                run.lines.deep_view(),
                run.succeeded,
                run.stderr@,
                r,
            ),
    {
        self.collect(run, ProgressRule::Markers, "Masscan UDP scan failed: ")
    }
}

/// A line that reports no finding leaves the findings of a run unchanged,
/// wherever it stands among the lines.
pub proof fn lemma_malformed_line_skipped(before: Seq<Seq<char>>, line: Seq<char>, after: Seq<Seq<char>>)
    requires
        line_finding(line) is Err,
    ensures
        findings_of(before + seq![line] + after) == findings_of(before + after),
    decreases after.len(),
{
    if after.len() == 0 {
        assert(before + seq![line] + after =~= before.push(line));
        assert(before.push(line).drop_last() =~= before);
        assert(before + after =~= before);
    } else {
        let all = before + seq![line] + after;
        let rest = before + after;
        lemma_malformed_line_skipped(before, line, after.drop_last());
        assert(all.drop_last() =~= before + seq![line] + after.drop_last());
        assert(rest.drop_last() =~= before + after.drop_last());
        assert(all.last() == after.last());
        assert(rest.last() == after.last());
    }
}

/// The discovery tool reports no share of work done: every progress event of
/// a run stands at zero, so the share never falls within a run.
pub proof fn lemma_discovery_progress_is_flat(rule: ProgressRule, lines: Seq<Seq<char>>, i: int)
    requires
        0 <= i < progress_of(rule, lines).len(),
    ensures
        progress_of(rule, lines)[i].percent.hundredths == 0,
    decreases lines.len(),
{
    if lines.len() > 0 {
        let before = progress_of(rule, lines.drop_last());
        if i < before.len() {
            lemma_discovery_progress_is_flat(rule, lines.drop_last(), i);
        }
    }
}

} // verus!
