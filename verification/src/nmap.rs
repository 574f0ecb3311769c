//! The deep-probe executor: argument lists for the probing tool, the reading
//! of its progress lines, and the decoding of the structured document it
//! writes when it ends.
//!
//! Of the document only two kinds of element count: a `port` element yields a
//! finding and an `osmatch` element yields an operating system guess. Every
//! other element is passed over.

use crate::error::{outcome, prefixed, ScanError, ScanErrorView};
use crate::fresh::{new_scan_id, now_millis};
use crate::gate::AdmissionGate;
use crate::model::{
    OsDetection, OsDetectionView, Percent, Port, PortView, ScanId, ScanProgress, ScanProgressView,
    ScanResult, ScanResultView, ScanStatus, ScanStatusView, ScanTarget, ScanType, ScanTypeView,
    Timestamp,
};
use crate::network::{address_text, format_address};
use crate::process::{Invocation, ToolRun};
use crate::text::{
    all_digits, chars_of, decimal_value, digit_value, digits_only, find, find_text, is_digit, join,
    join_text, parse_decimal, parse_unsigned, push_text, same_text, slice_of, split, split_text,
    split_whitespace, string_of, texts, words,
};
use vstd::prelude::*;

verus! {

/// The error with which the `xml` crate refuses a document.
#[verifier::external_type_specification]
#[verifier::external_body]
pub struct ExXmlError(xml::reader::Error);

/// One attribute of an element: its local name and its value.
#[derive(Debug, PartialEq, Eq)]
pub struct XmlAttribute {
    pub name: String,
    pub value: String,
}

/// The view of an `XmlAttribute`.
pub struct XmlAttributeView {
    pub name: Seq<char>,
    pub value: Seq<char>,
}

impl View for XmlAttribute {
    type V = XmlAttributeView;

    open spec fn view(&self) -> XmlAttributeView {
        XmlAttributeView { name: self.name@, value: self.value@ }
    }
}

impl DeepView for XmlAttribute {
    type V = XmlAttributeView;

    open spec fn deep_view(&self) -> XmlAttributeView {
        self@
    }
}

/// One event of a document, as far as the decoding reads it: the start of an
/// element with its local name and attributes, or anything else.
#[derive(Debug, PartialEq, Eq)]
pub enum XmlNode {
    StartElement { name: String, attributes: Vec<XmlAttribute> },
    Other,
}

/// The view of an `XmlNode`.
pub enum XmlNodeView {
    StartElement { name: Seq<char>, attributes: Seq<XmlAttributeView> },
    Other,
}

impl View for XmlNode {
    type V = XmlNodeView;

    open spec fn view(&self) -> XmlNodeView {
        match self {
            XmlNode::StartElement { name, attributes } => XmlNodeView::StartElement {
                name: name@,
                attributes: attributes.deep_view(),
            },
            XmlNode::Other => XmlNodeView::Other,
        }
    }
}

impl DeepView for XmlNode {
    type V = XmlNodeView;

    open spec fn deep_view(&self) -> XmlNodeView {
        self@
    }
}

/// The events that the `xml` crate reads from a document, in order, if the
/// document is well formed.
pub uninterp spec fn xml_nodes(text: Seq<char>) -> Option<Seq<XmlNodeView>>;

/// Runs `xml::EventReader` over the document and takes every event in order,
/// up to the end of the document or the first error. A start tag keeps its
/// local name and its attributes' local names and values; every other event
/// counts as `Other`. What the crate reads is a function of the text.
#[verifier::external_body]
fn read_xml(text: &str) -> (r: Result<Vec<XmlNode>, xml::reader::Error>)
    ensures
        r matches Ok(v) ==> xml_nodes(text@) == Some(v.deep_view()),
        r is Err ==> xml_nodes(text@) is None,
{
    let mut nodes = Vec::new();
    for event in xml::EventReader::from_str(text) {
        nodes.push(
            match event? {
                xml::reader::XmlEvent::StartElement { name, attributes, .. } => XmlNode::StartElement {
                    name: name.local_name,
                    attributes: attributes.into_iter().map(
                        |a| XmlAttribute { name: a.name.local_name, value: a.value },
                    ).collect(),
                },
                _ => XmlNode::Other,
            },
        );
    }
    Ok(nodes)
}

/// Writes the crate's error as text, position first. Nothing is promised of
/// the wording.
#[verifier::external_body]
fn xml_error_text(e: &xml::reader::Error) -> (r: String) {
    e.to_string()
}

/// The value of the first attribute named `name` at or after index `i`.
pub open spec fn attribute_from(attrs: Seq<XmlAttributeView>, name: Seq<char>, i: int) -> Option<
    Seq<char>,
>
    decreases attrs.len() - i,
{
    if i < 0 || i >= attrs.len() {
        None
    } else if attrs[i].name == name {
        Some(attrs[i].value)
    } else {
        attribute_from(attrs, name, i + 1)
    }
}

/// The value of the first attribute named `name`.
pub open spec fn attribute_value(attrs: Seq<XmlAttributeView>, name: Seq<char>) -> Option<
    Seq<char>,
> {
    attribute_from(attrs, name, 0)
}

/// Looks an attribute up by name.
pub fn attribute(attrs: &Vec<XmlAttribute>, name: &str) -> (r: Option<String>)
    ensures
        r.deep_view() == attribute_value(attrs.deep_view(), name@),
{
    let wanted = chars_of(name);
    let mut i: usize = 0;
    while i < attrs.len()
        invariant
            i <= attrs.len(),
            wanted@ == name@,
            attribute_value(attrs.deep_view(), name@) == attribute_from(
                attrs.deep_view(),
                name@,
                i as int,
            ),
        decreases attrs.len() - i,
    {
        let have = chars_of(attrs[i].name.as_str());
        assert(attrs.deep_view()[i as int] == attrs@[i as int]@);
        if same_text(&have, &wanted) {
            return Some(attrs[i].value.clone());
        }
        i += 1;
    }
    None
}

/// The finding that the attributes of a `port` element give: `portid` and
/// `protocol` are needed, `state` is `unknown` where absent, and `service`,
/// `version` and `banner` are taken where present.
pub open spec fn port_of(attrs: Seq<XmlAttributeView>) -> Result<PortView, ScanErrorView> {
    match attribute_value(attrs, "portid"@) {
        None => Err(ScanErrorView::Decode { message: "Port element without portid"@ }),
        Some(id) => match parse_unsigned(id, 65535) {
            None => Err(ScanErrorView::Decode { message: "Failed to parse port number"@ }),
            Some(number) => match attribute_value(attrs, "protocol"@) {
                None => Err(ScanErrorView::Decode { message: "Port element without protocol"@ }),
                Some(protocol) => Ok(
                    PortView {
                        number: number as u16,
                        protocol,
                        state: match attribute_value(attrs, "state"@) {
                            Some(s) => s,
                            None => "unknown"@,
                        },
                        service: attribute_value(attrs, "service"@),
                        version: attribute_value(attrs, "version"@),
                        banner: attribute_value(attrs, "banner"@),
                    },
                ),
            },
        },
    }
}

/// The guess that the attributes of an `osmatch` element give: `name` and an
/// `accuracy` from 0 to 100 are needed; `osfamily` and `vendor` are empty
/// where absent.
pub open spec fn os_of(attrs: Seq<XmlAttributeView>) -> Result<OsDetectionView, ScanErrorView> {
    match attribute_value(attrs, "name"@) {
        None => Err(ScanErrorView::Decode { message: "OS match without name"@ }),
        Some(name) => match attribute_value(attrs, "accuracy"@) {
            None => Err(ScanErrorView::Decode { message: "OS match without accuracy"@ }),
            Some(a) => match parse_unsigned(a, 100) {
                None => Err(ScanErrorView::Decode { message: "Failed to parse OS accuracy"@ }),
                Some(accuracy) => Ok(
                    OsDetectionView {
                        name,
                        accuracy: accuracy as u8,
                        family: match attribute_value(attrs, "osfamily"@) {
                            Some(s) => s,
                            None => Seq::empty(),
                        },
                        vendor: match attribute_value(attrs, "vendor"@) {
                            Some(s) => s,
                            None => Seq::empty(),
                        },
                    },
                ),
            },
        },
    }
}

/// Of two guesses the one with the higher accuracy; the later one where they
/// are equal.
pub open spec fn better_guess(current: Option<OsDetectionView>, new: OsDetectionView) -> Option<
    OsDetectionView,
> {
    match current {
        Some(c) => if c.accuracy > new.accuracy {
            Some(c)
        } else {
            Some(new)
        },
        None => Some(new),
    }
}

/// What a document yields: its findings in order and its best guess.
pub struct Decoded {
    pub ports: Seq<PortView>,
    pub os: Option<OsDetectionView>,
}

/// What the first `n` events of a document yield. The first element that
/// cannot be decoded fails the whole document.
pub open spec fn decode_nodes(nodes: Seq<XmlNodeView>, n: int) -> Result<Decoded, ScanErrorView>
    decreases n,
{
    if n <= 0 {
        Ok(Decoded { ports: Seq::empty(), os: None })
    } else {
        match decode_nodes(nodes, n - 1) {
            Err(e) => Err(e),
            Ok(d) => match nodes[n - 1] {
                XmlNodeView::StartElement { name, attributes } => if name == "port"@ {
                    match port_of(attributes) {
                        Ok(p) => Ok(Decoded { ports: d.ports.push(p), os: d.os }),
                        Err(e) => Err(e),
                    }
                } else if name == "osmatch"@ {
                    match os_of(attributes) {
                        Ok(o) => Ok(Decoded { ports: d.ports, os: better_guess(d.os, o) }),
                        Err(e) => Err(e),
                    }
                } else {
                    Ok(d)
                },
                XmlNodeView::Other => Ok(d),
            },
        }
    }
}

/// Decodes the attributes of a `port` element.
pub fn parse_port_element(attrs: &Vec<XmlAttribute>) -> (r: Result<Port, ScanError>)
    ensures
        outcome(r) == port_of(attrs.deep_view()),
{
    let id = match attribute(attrs, "portid") {
        Some(id) => id,
        None => {
            return Err(ScanError::Decode { message: "Port element without portid".to_owned() });
        },
    };
    let number: u16 = match parse_decimal(&chars_of(id.as_str()), 65535) {
        Some(n) => n as u16,
        None => {
            return Err(ScanError::Decode { message: "Failed to parse port number".to_owned() });
        },
    };
    let protocol = match attribute(attrs, "protocol") {
        Some(p) => p,
        None => {
            return Err(ScanError::Decode { message: "Port element without protocol".to_owned() });
        },
    };
    let state = match attribute(attrs, "state") {
        Some(s) => s,
        None => "unknown".to_owned(),
    };
    Ok(
        Port {
            number,
            protocol,
            state,
            service: attribute(attrs, "service"),
            version: attribute(attrs, "version"),
            banner: attribute(attrs, "banner"),
        },
    )
}

/// Decodes the attributes of an `osmatch` element.
pub fn parse_os_element(attrs: &Vec<XmlAttribute>) -> (r: Result<OsDetection, ScanError>)
    ensures
        outcome(r) == os_of(attrs.deep_view()),
{
    let name = match attribute(attrs, "name") {
        Some(n) => n,
        None => {
            return Err(ScanError::Decode { message: "OS match without name".to_owned() });
        },
    };
    let a = match attribute(attrs, "accuracy") {
        Some(a) => a,
        None => {
            return Err(ScanError::Decode { message: "OS match without accuracy".to_owned() });
        },
    };
    let accuracy: u8 = match parse_decimal(&chars_of(a.as_str()), 100) {
        Some(n) => n as u8,
        None => {
            return Err(ScanError::Decode { message: "Failed to parse OS accuracy".to_owned() });
        },
    };
    let family = match attribute(attrs, "osfamily") {
        Some(s) => s,
        None => String::new(),
    };
    let vendor = match attribute(attrs, "vendor") {
        Some(s) => s,
        None => String::new(),
    };
    Ok(OsDetection { name, accuracy, family, vendor })
}

/// The result of a probe of the target `target_id`: completed, with what the
/// document yielded and no vulnerability.
pub open spec fn probe_result(d: Decoded, id: ScanId, target_id: ScanId, timestamp: Timestamp) -> ScanResultView {
    ScanResultView {
        id,
        target_id,
        timestamp,
        status: ScanStatusView::Completed,
        open_ports: d.ports,
        os_detection: d.os,
        vulnerabilities: Seq::empty(),
    }
}

/// The result that the events of a document give.
pub open spec fn document_result(
    nodes: Seq<XmlNodeView>,
    id: ScanId,
    target_id: ScanId,
    timestamp: Timestamp,
) -> Result<ScanResultView, ScanErrorView> {
    match decode_nodes(nodes, nodes.len() as int) {
        Ok(d) => Ok(probe_result(d, id, target_id, timestamp)),
        Err(e) => Err(e),
    }
}

/// Walks the events of a document and builds the result of a probe of
/// `target_id`, with the given identity and time.
pub fn decode_document(nodes: &Vec<XmlNode>, id: ScanId, target_id: ScanId, timestamp: Timestamp) -> (r:
    Result<ScanResult, ScanError>)
    ensures
        outcome(r) == document_result(nodes.deep_view(), id, target_id, timestamp),
{
    let ghost all = nodes.deep_view();
    let mut ports: Vec<Port> = Vec::new();
    let mut os: Option<OsDetection> = None;
    let mut i: usize = 0;
    assert(ports.deep_view() =~= Seq::empty());
    while i < nodes.len()
        invariant
            i <= nodes.len(),
            all == nodes.deep_view(),
            decode_nodes(all, i as int) == Ok::<Decoded, ScanErrorView>(
                Decoded { ports: ports.deep_view(), os: os.deep_view() },
            ),
        decreases nodes.len() - i,
    {
        assert(all[i as int] == nodes@[i as int]@);
        match &nodes[i] {
            XmlNode::StartElement { name, attributes } => {
                let tag = chars_of(name.as_str());
                if same_text(&tag, &chars_of("port")) {
                    match parse_port_element(attributes) {
                        Ok(p) => {
                            let ghost before = ports.deep_view();
                            ports.push(p);
                            assert(ports.deep_view() =~= before.push(p@));
                        },
                        Err(e) => {
                            assert(decode_nodes(all, i + 1) == Err::<Decoded, ScanErrorView>(e@));
                            proof {
                                lemma_decode_error_stays(all, i + 1, all.len() as int);
                            }
                            return Err(e);
                        },
                    }
                } else if same_text(&tag, &chars_of("osmatch")) {
                    match parse_os_element(attributes) {
                        Ok(o) => {
                            let keep: bool = match &os {
                                Some(c) => c.accuracy > o.accuracy,
                                None => false,
                            };
                            if !keep {
                                os = Some(o);
                            }
                        },
                        Err(e) => {
                            assert(decode_nodes(all, i + 1) == Err::<Decoded, ScanErrorView>(e@));
                            proof {
                                lemma_decode_error_stays(all, i + 1, all.len() as int);
                            }
                            return Err(e);
                        },
                    }
                }
            },
            XmlNode::Other => {},
        }
        i += 1;
    }
    let r = ScanResult {
        id,
        target_id,
        timestamp,
        status: ScanStatus::Completed,
        open_ports: ports,
        os_detection: os,
        vulnerabilities: Vec::new(),
    };
    assert(r.vulnerabilities.deep_view() =~= Seq::empty());
    Ok(r)
}

/// Once the events up to `n` fail to decode, so do the events up to any later
/// point, with the same error.
pub proof fn lemma_decode_error_stays(nodes: Seq<XmlNodeView>, n: int, m: int)
    requires
        n <= m,
        decode_nodes(nodes, n) is Err,
    ensures
        decode_nodes(nodes, m) == decode_nodes(nodes, n),
    decreases m - n,
{
    if n < m {
        lemma_decode_error_stays(nodes, n, m - 1);
    }
}

/// A character that a written number is made of.
pub open spec fn is_number_char(c: char) -> bool {
    is_digit(c) || c == '.'
}

/// The least index such that only digits and dots stand from it up to `j`.
pub open spec fn number_start(s: Seq<char>, j: int) -> int
    decreases j,
{
    if 0 < j <= s.len() && is_number_char(s[j - 1]) {
        number_start(s, j - 1)
    } else {
        j
    }
}

/// The hundredths that the digits after the point write: the first two
/// digits count, the rest is cut off.
pub open spec fn fraction_hundredths(frac: Seq<char>) -> nat {
    if frac.len() == 0 {
        0
    } else if frac.len() == 1 {
        digit_value(frac[0]) * 10
    } else {
        digit_value(frac[0]) * 10 + digit_value(frac[1])
    }
}

/// The share that a written number stands for: digits, then at most one
/// point followed by digits; at most 100.
pub open spec fn percent_value(tok: Seq<char>) -> Option<Percent> {
    let parts = split_text(tok, '.');
    let frac = if parts.len() == 2 {
        parts[1]
    } else {
        Seq::empty()
    };
    if parts.len() <= 2 && parts[0].len() > 0 && all_digits(parts[0]) && all_digits(frac)
        && decimal_value(parts[0]) <= 100 && decimal_value(parts[0]) * 100 + fraction_hundredths(
        frac,
    ) <= 10000 {
        Some(
            Percent {
                hundredths: (decimal_value(parts[0]) * 100 + fraction_hundredths(frac)) as u32,
            },
        )
    } else {
        None
    }
}

/// The share done that a progress line reports: the number that stands right
/// before the first `% done`.
pub open spec fn line_percent(line: Seq<char>) -> Option<Percent> {
    match find_text(line, "% done"@) {
        Some(i) => percent_value(line.subrange(number_start(line, i), i)),
        None => None,
    }
}

/// The progress event of a line of the probing tool: a line in which a share
/// of at most 100 stands before `% done` carries that share; every other line
/// is a status message at zero.
pub open spec fn probe_progress(line: Seq<char>) -> ScanProgressView {
    ScanProgressView {
        percent: match line_percent(line) {
            Some(p) => p,
            None => Percent { hundredths: 0 },
        },
        message: line,
        eta: None,
    }
}

/// Reads a written share.
pub fn parse_percent(tok: &Vec<char>) -> (r: Option<Percent>)
    ensures
        r == percent_value(tok@),
        r matches Some(p) ==> p.wf(),
{
    let parts = split(tok, '.');
    if parts.len() > 2 {
        return None;
    }
    assert(texts(parts@)[0] == parts@[0]@);
    let whole_part = &parts[0];
    if whole_part.len() == 0 || !digits_only(whole_part) {
        return None;
    }
    assert(is_digit(whole_part@[0]));
    let whole: u32 = match parse_decimal(whole_part, 100) {
        Some(v) => v as u32,
        None => {
            return None;
        },
    };
    let mut frac: u32 = 0;
    if parts.len() == 2 {
        assert(texts(parts@)[1] == parts@[1]@);
        let f = &parts[1];
        if !digits_only(f) {
            return None;
        }
        if f.len() >= 1 {
            assert(is_digit(f@[0]));
            frac = (f[0] as u32 - '0' as u32) * 10;
        }
        if f.len() >= 2 {
            assert(is_digit(f@[1]));
            frac = frac + (f[1] as u32 - '0' as u32);
        }
    } else {
        assert(all_digits(Seq::<char>::empty()));
    }
    let total: u32 = whole * 100 + frac;
    if total > 10000 {
        return None;
    }
    Some(Percent { hundredths: total })
}

/// The deep-probe executor: at most `max_concurrent` tool processes at a time.
#[derive(Clone, Copy, Debug, PartialEq, Eq, Structural)]
pub struct NmapScanner {
    pub rate_limit: AdmissionGate,
}

/// What a probe found, and the progress it reported on the way.
#[derive(Debug)]
pub struct Probe {
    pub progress: Vec<ScanProgress>,
    pub result: ScanResult,
}

/// The flags that a scan mode asks of the probing tool. A custom mode passes
/// the caller's options through, word by word.
pub open spec fn mode_flags(mode: ScanTypeView) -> Seq<Seq<char>> {
    match mode {
        ScanTypeView::Quick => seq!["-sS"@, "-T4"@, "--top-ports"@, "1000"@],
        ScanTypeView::Comprehensive => seq![
            "-sS"@,
            "-sV"@,
            "-O"@,
            "-A"@,
            "-T4"@,
            "-p"@,
            "1-65535"@,
        ],
        ScanTypeView::Stealth => seq!["-sS"@, "-T2"@, "-f"@],
        ScanTypeView::Custom { options } => words(options),
    }
}

/// The progress events of the lines of a probe: one per line, in order.
pub open spec fn probe_progress_of(lines: Seq<Seq<char>>) -> Seq<ScanProgressView> {
    Seq::new(lines.len(), |i: int| probe_progress(lines[i]))
}

/// The document that a run wrote: its lines, joined by line feeds.
pub open spec fn document_of(lines: Seq<Seq<char>>) -> Seq<char> {
    join_text(lines, seq!['\n'])
}

/// What reading a document gives, where `nodes` is what the `xml` crate read
/// from it: a document that is not well formed fails the decoding.
pub open spec fn xml_gives(
    nodes: Option<Seq<XmlNodeView>>,
    target_id: ScanId,
    r: Result<ScanResult, ScanError>,
) -> bool {
    match nodes {
        None => r matches Err(e) && e is Decode,
        Some(nodes) => match r {
            Ok(res) => Ok::<ScanResultView, ScanErrorView>(res@) == document_result(
                nodes,
                res.id,
                target_id,
                res.timestamp,
            ),
            Err(e) => decode_nodes(nodes, nodes.len() as int) == Err::<Decoded, ScanErrorView>(e@),
        },
    }
}

/// What a run of the probing tool gives: after a non-zero exit the error
/// carries the tool's error stream; otherwise the document is decoded.
pub open spec fn probe_gives(
    target_id: ScanId,
    lines: Seq<Seq<char>>,
    succeeded: bool,
    stderr: Seq<char>,
    r: Result<Probe, ScanError>,
) -> bool {
    if !succeeded {
        r matches Err(e) && e@ == (ScanErrorView::ToolExit {
            message: "Nmap scan failed: "@ + stderr,
        })
    } else {
        match r {
            Ok(p) => p.progress.deep_view() == probe_progress_of(lines) && xml_gives(
                xml_nodes(document_of(lines)),
                target_id,
                Ok(p.result),
            ),
            Err(e) => xml_gives(xml_nodes(document_of(lines)), target_id, Err(e)),
        }
    }
}

impl NmapScanner {
    /// A probing executor that runs at most `max_concurrent` processes.
    pub fn new(max_concurrent: usize) -> (s: NmapScanner)
        ensures
            s.rate_limit.capacity() == max_concurrent,
            s.rate_limit.taken() == 0,
    {
        NmapScanner { rate_limit: AdmissionGate::new(max_concurrent) }
    }

    /// Takes the permit for one tool process, if one is free. The permit is
    /// held until `release_process`.
    pub fn try_acquire_process(&mut self) -> (taken: bool)
        ensures
            final(self).rate_limit.capacity() == old(self).rate_limit.capacity(),
            taken == (old(self).rate_limit.taken() < old(self).rate_limit.capacity()),
            final(self).rate_limit.taken() == old(self).rate_limit.taken() + if taken {
                1nat
            } else {
                0nat
            },
    {
        self.rate_limit.try_acquire()
    }

    /// Returns the permit of a tool process that has ended.
    pub fn release_process(&mut self)
        ensures
            final(self).rate_limit.capacity() == old(self).rate_limit.capacity(),
            final(self).rate_limit.taken() == if old(self).rate_limit.taken() > 0 {
                (old(self).rate_limit.taken() - 1) as nat
            } else {
                0nat
            },
    {
        self.rate_limit.release()
    }

    /// The invocation that probes `target`: document output on the standard
    /// output, the flags of the scan mode, then the address.
    pub fn configure_nmap_command(&self, target: &ScanTarget) -> (r: Invocation)
        ensures
            r@.program == "nmap"@,
            r@.args == seq!["-oX"@, "-"@] + mode_flags(target.scan_type@) + seq![
                address_text(target.ip),
            ],
    {
        let mut args: Vec<String> = Vec::new();
        push_text(&mut args, "-oX".to_owned());
        push_text(&mut args, "-".to_owned());
        let ghost head = seq!["-oX"@, "-"@];
        assert(args.deep_view() =~= head);
        match &target.scan_type {
            ScanType::Quick => {
                push_text(&mut args, "-sS".to_owned());
                push_text(&mut args, "-T4".to_owned());
                push_text(&mut args, "--top-ports".to_owned());
                push_text(&mut args, "1000".to_owned());
                assert(args.deep_view() =~= head + mode_flags(target.scan_type@));
            },
            ScanType::Comprehensive => {
                push_text(&mut args, "-sS".to_owned());
                push_text(&mut args, "-sV".to_owned());
                push_text(&mut args, "-O".to_owned());
                push_text(&mut args, "-A".to_owned());
                push_text(&mut args, "-T4".to_owned());
                push_text(&mut args, "-p".to_owned());
                push_text(&mut args, "1-65535".to_owned());
                assert(args.deep_view() =~= head + mode_flags(target.scan_type@));
            },
            ScanType::Stealth => {
                push_text(&mut args, "-sS".to_owned());
                push_text(&mut args, "-T2".to_owned());
                push_text(&mut args, "-f".to_owned());
                assert(args.deep_view() =~= head + mode_flags(target.scan_type@));
            },
            ScanType::Custom { options } => {
                let opts = split_whitespace(&chars_of(options.as_str()));
                let mut i: usize = 0;
                assert(args.deep_view() =~= head + texts(opts@).take(0));
                while i < opts.len()
                    invariant
                        i <= opts.len(),
                        args.deep_view() == head + texts(opts@).take(i as int),
                    decreases opts.len() - i,
                {
                    push_text(&mut args, string_of(&opts[i]));
                    assert(args.deep_view() =~= head + texts(opts@).take(i + 1));
                    i += 1;
                }
                assert(texts(opts@).take(opts@.len() as int) =~= texts(opts@));
            },
        }
        push_text(&mut args, format_address(&target.ip));
        Invocation { program: "nmap".to_owned(), args }
    }

    /// Reads the share done from a progress line.
    pub fn extract_percentage(&self, line: &str) -> (r: Result<Percent, ScanError>)
        ensures
            r matches Ok(p) ==> line_percent(line@) == Some(p) && p.wf(),
            r matches Err(e) ==> line_percent(line@) is None && e@ == (ScanErrorView::Decode {
                message: "Failed to parse progress percentage"@,
            }),
    {
        let s = chars_of(line);
        let marker = chars_of("% done");
        let found: Option<Percent> = match find(&s, &marker) {
            Some(i) => {
                let mut a: usize = i;
                while a > 0 && (('0' <= s[a - 1] && s[a - 1] <= '9') || s[a - 1] == '.')
                    invariant
                        a <= i <= s.len(),
                        number_start(s@, i as int) == number_start(s@, a as int),
                    decreases a,
                {
                    a -= 1;
                }
                parse_percent(&slice_of(&s, a, i))
            },
            None => None,
        };
        match found {
            Some(p) => Ok(p),
            None => Err(
                ScanError::Decode { message: "Failed to parse progress percentage".to_owned() },
            ),
        }
    }

    /// Reads a line of the probing tool as a progress event. Every line is
    /// one: the call never fails.
    pub fn parse_nmap_progress(&self, line: &str) -> (r: Result<ScanProgress, ScanError>)
        ensures
            r matches Ok(p) && p@ == probe_progress(line@) && p.percent.wf(),
    {
        let percent = match self.extract_percentage(line) {
            Ok(percent) => percent,
            Err(_) => Percent::zero(),
        };
        Ok(ScanProgress { percent, message: line.to_owned(), eta: None })
    }

    /// Decodes the document of a probe of `target` into a result with a fresh
    /// identity and the current time.
    pub fn parse_nmap_xml(&self, target: &ScanTarget, xml_data: &str) -> (r: Result<
        ScanResult,
        ScanError,
    >)
        ensures
            xml_gives(xml_nodes(xml_data@), target.id, r),
    {
        match read_xml(xml_data) {
            Ok(nodes) => decode_document(&nodes, new_scan_id(), target.id, now_millis()),
            Err(e) => Err(ScanError::Decode { message: xml_error_text(&e) }),
        }
    }

    /// Reads a whole run started by `configure_nmap_command`: the progress
    /// lines in order, then the exit status, then the document.
    pub fn scan_target(&self, target: &ScanTarget, run: &ToolRun) -> (r: Result<Probe, ScanError>)
        ensures
            probe_gives(target.id, run.lines.deep_view(), run.succeeded, run.stderr@, r),
    {
        if !run.succeeded {
            return Err(
                ScanError::ToolExit { message: prefixed("Nmap scan failed: ", run.stderr.as_str()) },
            );
        }
        let ghost lines = run.lines.deep_view();
        let mut progress: Vec<ScanProgress> = Vec::new();
        let mut parts: Vec<Vec<char>> = Vec::new();
        let mut i: usize = 0;
        while i < run.lines.len()
            invariant
                i <= run.lines.len(),
                lines == run.lines.deep_view(),
                progress.len() == i,
                forall|j: int| 0 <= j < i ==> (#[trigger] progress@[j])@ == probe_progress(lines[j]),
                parts.len() == i,
                forall|j: int| 0 <= j < i ==> (#[trigger] parts@[j])@ == lines[j],
            decreases run.lines.len() - i,
        {
            assert(lines[i as int] == run.lines@[i as int]@);
            match self.parse_nmap_progress(run.lines[i].as_str()) {
                Ok(p) => {
                    progress.push(p);
                },
                Err(_) => {},
            }
            parts.push(chars_of(run.lines[i].as_str()));
            i += 1;
        }
        assert(progress.deep_view() =~= probe_progress_of(lines));
        assert(texts(parts@) =~= lines);
        let mut feed: Vec<char> = Vec::new();
        feed.push('\n');
        assert(feed@ =~= seq!['\n']);
        let document = string_of(&join(&parts, &feed));
        match self.parse_nmap_xml(target, document.as_str()) {
            Ok(result) => Ok(Probe { progress, result }),
            Err(e) => Err(e),
        }
    }
}

/// The guess that a document yields is the one of highest accuracy: no
/// `osmatch` element among the decoded events has a higher one.
pub proof fn lemma_best_guess_is_highest(nodes: Seq<XmlNodeView>, n: int, k: int)
    requires
        0 <= k < n <= nodes.len(),
        decode_nodes(nodes, n) is Ok,
        nodes[k] matches XmlNodeView::StartElement { name, .. } && name == "osmatch"@,
    ensures
        nodes[k] matches XmlNodeView::StartElement { attributes, .. } && os_of(attributes) is Ok
            && decode_nodes(nodes, n)->Ok_0.os is Some && decode_nodes(
            nodes,
            n,
        )->Ok_0.os->0.accuracy >= os_of(attributes)->Ok_0.accuracy,
    decreases n,
{
    reveal_strlit("osmatch");
    reveal_strlit("port");
    assert("osmatch"@ != "port"@) by {
        assert("osmatch"@.len() != "port"@.len());
    }
    if k < n - 1 {
        lemma_best_guess_is_highest(nodes, n - 1, k);
    }
}

} // verus!
