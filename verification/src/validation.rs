//! Checks of what a caller hands in: addresses, ranges, port lists, host
//! names, file names and scan modes.

use crate::error::{prefixed, ScanError, ScanErrorView};
use crate::model::IpAddress;
use crate::network::{address_of_text, cidr_network, IpNetwork, parse_address, parse_network};
use crate::parsing::{regex_is_match, regex_matches};
use crate::text::{
    chars_of, contains, contains_text, decimal, decimal_text, parse_decimal, parse_unsigned,
    push_all, same_text, split, split_text, string_of, texts, trim, trim_text,
};
use vstd::prelude::*;

verus! {

/// Checks what a caller hands in.
pub struct InputValidator;

/// The ports from `start` up to and including `end`, in order.
pub open spec fn port_span(start: u16, end: u16) -> Seq<u16> {
    Seq::new((end - start + 1) as nat, |i: int| (start + i) as u16)
}

/// The ports that one entry of a port list names: a single port, or a span
/// `start-end` with `start` no greater than `end`.
pub open spec fn entry_ports(entry: Seq<char>) -> Result<Seq<u16>, ScanErrorView> {
    if contains_text(entry, seq!['-']) {
        let range = split_text(entry, '-');
        if range.len() != 2 {
            Err(ScanErrorView::Validation { message: "Invalid port range: "@ + entry })
        } else if parse_unsigned(range[0], 65535) is None {
            Err(ScanErrorView::Validation { message: "Invalid start port: "@ + range[0] })
        } else if parse_unsigned(range[1], 65535) is None {
            Err(ScanErrorView::Validation { message: "Invalid end port: "@ + range[1] })
        } else {
            let start = parse_unsigned(range[0], 65535)->0;
            let end = parse_unsigned(range[1], 65535)->0;
            if start > end {
                Err(
                    ScanErrorView::Validation {
                        message: "Invalid port range: "@ + decimal_text(start) + seq!['-']
                            + decimal_text(end),
                    },
                )
            } else {
                Ok(port_span(start as u16, end as u16))
            }
        }
    } else {
        match parse_unsigned(entry, 65535) {
            Some(p) => Ok(seq![p as u16]),
            None => Err(ScanErrorView::Validation { message: "Invalid port: "@ + entry }),
        }
    }
}

/// The ports that the first `n` entries of a port list name, in order; the
/// first entry that names none fails the list.
pub open spec fn entries_ports(entries: Seq<Seq<char>>, n: int) -> Result<Seq<u16>, ScanErrorView>
    decreases n,
{
    if n <= 0 {
        Ok(Seq::empty())
    } else {
        match entries_ports(entries, n - 1) {
            Err(e) => Err(e),
            Ok(ports) => match entry_ports(trim_text(entries[n - 1])) {
                Ok(more) => Ok(ports + more),
                Err(e) => Err(e),
            },
        }
    }
}

/// The ports that a port list names: entries separated by commas, white space
/// around an entry ignored.
pub open spec fn port_list(text: Seq<char>) -> Result<Seq<u16>, ScanErrorView> {
    entries_ports(split_text(text, ','), split_text(text, ',').len() as int)
}

/// Once the entries up to `n` fail, so do the entries up to any later point,
/// with the same error.
pub proof fn lemma_entries_error_stays(entries: Seq<Seq<char>>, n: int, m: int)
    requires
        n <= m,
        entries_ports(entries, n) is Err,
    ensures
        entries_ports(entries, m) == entries_ports(entries, n),
    decreases m - n,
{
    if n < m {
        lemma_entries_error_stays(entries, n, m - 1);
    }
}

/// A character that may not stand in a file name.
pub open spec fn is_reserved(c: char) -> bool {
    c == '<' || c == '>' || c == ':' || c == '"' || c == '/' || c == '\\' || c == '|' || c == '?'
        || c == '*'
}

/// A file name with every reserved character replaced by an underscore.
pub open spec fn sanitized(name: Seq<char>) -> Seq<char> {
    Seq::new(
        name.len(),
        |i: int|
            if is_reserved(name[i]) {
                '_'
            } else {
                name[i]
            },
    )
}

/// The names of the scan modes that a caller may ask for.
pub open spec fn is_scan_type_name(s: Seq<char>) -> bool {
    s == "quick"@ || s == "comprehensive"@ || s == "stealth"@ || s == "custom"@
}

/// The pattern of a host name: labels of letters, digits and inner hyphens,
/// separated by dots.
pub open spec fn hostname_pattern() -> Seq<char> {
    r"^[a-zA-Z0-9]([a-zA-Z0-9\-]{0,61}[a-zA-Z0-9])?(\.[a-zA-Z0-9]([a-zA-Z0-9\-]{0,61}[a-zA-Z0-9])?)*$"@
}

/// Whether a host name is accepted, where `matched` says whether the host name
/// pattern matches it: at most 253 bytes long, and matching.
pub open spec fn hostname_given(name: &str, matched: Option<bool>) -> Result<(), ScanErrorView> {
    if name.len() > 253 {
        Err(ScanErrorView::Validation { message: "Hostname too long: "@ + name@ })
    } else if matched != Some(true) {
        Err(ScanErrorView::Validation { message: "Invalid hostname format: "@ + name@ })
    } else {
        Ok(())
    }
}

fn invalid(prefix: &str, detail: &Vec<char>) -> (e: ScanError)
    ensures
        e@ == (ScanErrorView::Validation { message: prefix@ + detail@ }),
{
    ScanError::Validation { message: prefixed(prefix, string_of(detail).as_str()) }
}

impl InputValidator {
    /// Reads an IP address.
    pub fn validate_ip(ip: &str) -> (r: Result<IpAddress, ScanError>)
        ensures
            match r {
                Ok(a) => address_of_text(ip@) == Some(a),
                Err(e) => address_of_text(ip@) is None && e@ == (ScanErrorView::Validation {
                    message: "Invalid IP address: "@ + ip@,
                }),
            },
    {
        match parse_address(ip) {
            Some(a) => Ok(a),
            None => Err(ScanError::Validation { message: prefixed("Invalid IP address: ", ip) }),
        }
    }

    /// Reads a network in CIDR notation.
    pub fn parse_cidr(cidr: &str) -> (r: Result<IpNetwork, ScanError>)
        ensures
            match r {
                Ok(n) => cidr_network(cidr@) == Some(n) && n.wf(),
                Err(e) => cidr_network(cidr@) is None && e@ == (ScanErrorView::Validation {
                    message: "Invalid CIDR notation: "@ + cidr@,
                }),
            },
    {
        match parse_network(cidr) {
            Ok(n) => Ok(n),
            Err(_) => Err(
                ScanError::Validation { message: prefixed("Invalid CIDR notation: ", cidr) },
            ),
        }
    }

    /// Checks that a text is a network in CIDR notation.
    pub fn validate_cidr(cidr: &str) -> (r: Result<(), ScanError>)
        ensures
            match r {
                Ok(_) => cidr_network(cidr@) is Some,
                Err(e) => cidr_network(cidr@) is None && e@ == (ScanErrorView::Validation {
                    message: "Invalid CIDR notation: "@ + cidr@,
                }),
            },
    {
        match Self::parse_cidr(cidr) {
            Ok(_) => Ok(()),
            Err(e) => Err(e),
        }
    }

    /// The ports that one trimmed entry of a port list names.
    pub fn entry(entry: &Vec<char>) -> (r: Result<Vec<u16>, ScanError>)
        ensures
            match r {
                Ok(v) => entry_ports(entry@) == Ok::<Seq<u16>, ScanErrorView>(v@),
                Err(e) => entry_ports(entry@) == Err::<Seq<u16>, ScanErrorView>(e@),
            },
    {
        let mut dash: Vec<char> = Vec::new();
        dash.push('-');
        assert(dash@ =~= seq!['-']);
        if contains(entry, &dash) {
            let range = split(entry, '-');
            if range.len() != 2 {
                return Err(invalid("Invalid port range: ", entry));
            }
            assert(texts(range@)[0] == range@[0]@ && texts(range@)[1] == range@[1]@);
            let start: u16 = match parse_decimal(&range[0], 65535) {
                Some(v) => v as u16,
                None => {
                    return Err(invalid("Invalid start port: ", &range[0]));
                },
            };
            let end: u16 = match parse_decimal(&range[1], 65535) {
                Some(v) => v as u16,
                None => {
                    return Err(invalid("Invalid end port: ", &range[1]));
                },
            };
            if start > end {
                let mut detail = decimal(start as u128);
                detail.push('-');
                push_all(&mut detail, &decimal(end as u128));
                assert(detail@ =~= decimal_text(start as nat) + seq!['-'] + decimal_text(
                    end as nat,
                ));
                let e = invalid("Invalid port range: ", &detail);
                assert(e@.arrow_Validation_message() =~= "Invalid port range: "@ + decimal_text(
                    start as nat,
                ) + seq!['-'] + decimal_text(end as nat));
                return Err(e);
            }
            let mut out: Vec<u16> = Vec::new();
            let mut p: u32 = start as u32;
            while p <= end as u32
                invariant
                    start <= p <= end + 1,
                    out@ == port_span(start, end).take(p - start),
                decreases end + 1 - p,
            {
                out.push(p as u16);
                assert(out@ =~= port_span(start, end).take(p - start + 1));
                p = p + 1;
            }
            assert(port_span(start, end).take(end - start + 1) =~= port_span(start, end));
            Ok(out)
        } else {
            match parse_decimal(entry, 65535) {
                Some(p) => {
                    let mut out: Vec<u16> = Vec::new();
                    out.push(p as u16);
                    assert(out@ =~= seq![p as u16]);
                    Ok(out)
                },
                None => Err(invalid("Invalid port: ", entry)),
            }
        }
    }

    /// Reads a port list such as `22,80,8000-8010`.
    pub fn validate_port_range(ports: &str) -> (r: Result<Vec<u16>, ScanError>)
        ensures
            match r {
                Ok(v) => port_list(ports@) == Ok::<Seq<u16>, ScanErrorView>(v@),
                Err(e) => port_list(ports@) == Err::<Seq<u16>, ScanErrorView>(e@),
            },
    {
        let entries = split(&chars_of(ports), ',');
        let ghost all = texts(entries@);
        let mut port_list: Vec<u16> = Vec::new();
        let mut i: usize = 0;
        while i < entries.len()
            invariant
                i <= entries.len(),
                all == texts(entries@),
                all == split_text(ports@, ','),
                entries_ports(all, i as int) == Ok::<Seq<u16>, ScanErrorView>(port_list@),
            decreases entries.len() - i,
        {
            assert(all[i as int] == entries@[i as int]@);
            let part = trim(&entries[i]);
            match Self::entry(&part) {
                Ok(more) => {
                    let ghost before = port_list@;
                    let mut k: usize = 0;
                    while k < more.len()
                        invariant
                            k <= more.len(),
                            port_list@ == before + more@.take(k as int),
                        decreases more.len() - k,
                    {
                        port_list.push(more[k]);
                        assert(port_list@ =~= before + more@.take(k + 1));
                        k += 1;
                    }
                    assert(more@.take(more@.len() as int) =~= more@);
                },
                Err(e) => {
                    proof {
                        lemma_entries_error_stays(all, i + 1, all.len() as int);
                    }
                    return Err(e);
                },
            }
            i += 1;
        }
        Ok(port_list)
    }

    /// Decides whether a host name is accepted, given whether the host name
    /// pattern matches it.
    pub fn hostname_from(hostname: &str, matched: Option<bool>) -> (r: Result<(), ScanError>)
        ensures
            match r {
                Ok(_) => hostname_given(hostname, matched) is Ok,
                Err(e) => hostname_given(hostname, matched) == Err::<(), ScanErrorView>(e@),
            },
    {
        if hostname.len() > 253 {
            return Err(
                ScanError::Validation { message: prefixed("Hostname too long: ", hostname) },
            );
        }
        match matched {
            Some(true) => Ok(()),
            _ => Err(
                ScanError::Validation { message: prefixed("Invalid hostname format: ", hostname) },
            ),
        }
    }

    /// Checks a host name.
    pub fn validate_hostname(hostname: &str) -> (r: Result<(), ScanError>)
        ensures
            match r {
                Ok(_) => hostname_given(
                    hostname,
                    regex_matches(hostname_pattern(), hostname@),
                ) is Ok,
                Err(e) => hostname_given(hostname, regex_matches(hostname_pattern(), hostname@))
                    == Err::<(), ScanErrorView>(e@),
            },
    {
        let matched = match regex_is_match(
            r"^[a-zA-Z0-9]([a-zA-Z0-9\-]{0,61}[a-zA-Z0-9])?(\.[a-zA-Z0-9]([a-zA-Z0-9\-]{0,61}[a-zA-Z0-9])?)*$",
            hostname,
        ) {
            Ok(b) => Some(b),
            Err(_) => None,
        };
        Self::hostname_from(hostname, matched)
    }

    /// Replaces every character that may not stand in a file name by an
    /// underscore.
    pub fn sanitize_filename(filename: &str) -> (r: String)
        ensures
            r@ == sanitized(filename@),
    {
        let s = chars_of(filename);
        let mut out: Vec<char> = Vec::new();
        let mut i: usize = 0;
        while i < s.len()
            invariant
                i <= s.len(),
                s@ == filename@,
                out@ == sanitized(filename@).take(i as int),
            decreases s.len() - i,
        {
            let c = s[i];
            let reserved = c == '<' || c == '>' || c == ':' || c == '"' || c == '/' || c == '\\'
                || c == '|' || c == '?' || c == '*';
            out.push(if reserved {
                '_'
            } else {
                c
            });
            assert(out@ =~= sanitized(filename@).take(i + 1));
            i += 1;
        }
        assert(sanitized(filename@).take(s@.len() as int) =~= sanitized(filename@));
        string_of(&out)
    }

    /// Checks the name of a scan mode.
    pub fn validate_scan_type(scan_type: &str) -> (r: Result<(), ScanError>)
        ensures
            match r {
                Ok(_) => is_scan_type_name(scan_type@),
                Err(e) => !is_scan_type_name(scan_type@) && e@ == (ScanErrorView::Validation {
                    message: "Invalid scan type: "@ + scan_type@,
                }),
            },
    {
        let s = chars_of(scan_type);
        if same_text(&s, &chars_of("quick")) || same_text(&s, &chars_of("comprehensive"))
            || same_text(&s, &chars_of("stealth")) || same_text(&s, &chars_of("custom")) {
            Ok(())
        } else {
            Err(ScanError::Validation { message: prefixed("Invalid scan type: ", scan_type) })
        }
    }
}

} // verus!
