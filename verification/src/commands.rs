//! The command boundary: what a caller asks for in text, turned into calls of
//! the coordinator, and what comes back, turned into text.

use crate::coordinator::registry::{
    cancelled, queued_of, running_of, ScanRegistry, ScanStatistics, shows, WorkItem,
};
use crate::coordinator::{all_fresh, range_registered, range_stopped, range_target, ScanCoordinator};
use crate::error::{prefixed, ScanError, ScanErrorView};
use crate::fresh::new_scan_id;
use crate::model::{
    IpAddress, ScanId, ScanProgress, ScanStatus, ScanTarget, ScanType, ScanTypeView, Timestamp,
};
use crate::network::{address_of_text, cidr_network, target_list};
use crate::text::{chars_of, same_text};
use crate::validation::{InputValidator, is_scan_type_name};
use vstd::prelude::*;

verus! {

/// The error with which the `uuid` crate refuses a text.
#[verifier::external_type_specification]
#[verifier::external_body]
pub struct ExUuidError(uuid::Error);

/// The character of a hexadecimal digit, in lower case.
pub open spec fn hex_char(d: nat) -> char {
    seq!['0', '1', '2', '3', '4', '5', '6', '7', '8', '9', 'a', 'b', 'c', 'd', 'e', 'f'][d as int]
}

/// Sixteen to the power `n`.
pub open spec fn sixteen_to(n: nat) -> nat
    decreases n,
{
    if n == 0 {
        1
    } else {
        16 * sixteen_to((n - 1) as nat)
    }
}

/// The hexadecimal digit of `id` at place `k` of 32, counted from the most
/// significant.
pub open spec fn hex_digit(id: ScanId, k: nat) -> nat {
    (id as nat / sixteen_to((31 - k) as nat)) % 16
}

/// The number of digits that stand before index `i` of the text of an
/// identity: the hyphens do not count.
pub open spec fn digits_before(i: int) -> nat {
    (i - (if i > 23 {
        4int
    } else if i > 18 {
        3int
    } else if i > 13 {
        2int
    } else if i > 8 {
        1int
    } else {
        0int
    })) as nat
}

/// The text of an identity: its 32 hexadecimal digits in lower case, most
/// significant first, in groups of 8, 4, 4, 4 and 12 with hyphens between.
pub open spec fn uuid_text(id: ScanId) -> Seq<char> {
    Seq::new(
        36,
        |i: int|
            if i == 8 || i == 13 || i == 18 || i == 23 {
                '-'
            } else {
                hex_char(hex_digit(id, digits_before(i)))
            },
    )
}

/// The identity that the `uuid` crate reads from a text, if it reads one.
pub uninterp spec fn uuid_of_text(text: Seq<char>) -> Option<ScanId>;

/// Calls `uuid::Uuid::from_u128` and `Display`, which writes the hyphenated
/// form in lower case.
#[verifier::external_body]
fn format_scan_id(id: ScanId) -> (r: String)
    ensures
        r@ == uuid_text(id),
{
    uuid::Uuid::from_u128(id).to_string()
}

/// Calls `uuid::Uuid::parse_str` and takes the identity as its 128 bits. Which
/// texts the crate accepts is left to it: the result has a name.
#[verifier::external_body]
fn parse_scan_id(text: &str) -> (r: Result<ScanId, uuid::Error>)
    ensures
        r matches Ok(id) ==> uuid_of_text(text@) == Some(id),
        r is Err ==> uuid_of_text(text@) is None,
{
    Ok(uuid::Uuid::parse_str(text)?.as_u128())
}

/// Writes the crate's error as text. Nothing is promised of the wording.
#[verifier::external_body]
fn uuid_error_text(e: &uuid::Error) -> (r: String) {
    e.to_string()
}

/// A request to scan a range.
#[derive(Debug, PartialEq, Eq)]
pub struct NetworkRangeRequest {
    pub cidr: String,
    pub exclude: Vec<String>,
    pub scan_type: String,
}

/// One active scan, as a caller sees it.
#[derive(Debug, PartialEq, Eq)]
pub struct ActiveScanInfo {
    pub id: String,
    pub status: ScanStatus,
}

/// A progress event of the scan of one target, as a caller sees it.
#[derive(Debug, PartialEq, Eq)]
pub struct ScanProgressEvent {
    pub target: String,
    pub progress: ScanProgress,
}

/// The scan mode that a name asks for: `quick`, `comprehensive` and `stealth`
/// by name, and `custom` for a custom scan without options of its own. Any
/// other name asks for none.
pub open spec fn mode_of_name(name: Seq<char>) -> Option<ScanTypeView> {
    if name == "quick"@ {
        Some(ScanTypeView::Quick)
    } else if name == "comprehensive"@ {
        Some(ScanTypeView::Comprehensive)
    } else if name == "stealth"@ {
        Some(ScanTypeView::Stealth)
    } else if name == "custom"@ {
        Some(ScanTypeView::Custom { options: Seq::empty() })
    } else {
        None
    }
}

/// The names that ask for a scan mode are the names of the scan modes.
pub proof fn lemma_mode_names(name: Seq<char>)
    ensures
        mode_of_name(name) is Some <==> is_scan_type_name(name),
{
}

/// The scan mode that a name asks for; a name that asks for none is refused.
pub fn scan_type_from_name(name: &str) -> (r: Result<ScanType, ScanError>)
    ensures
        match r {
            Ok(mode) => mode_of_name(name@) == Some(mode@),
            Err(e) => mode_of_name(name@) is None && e@ == (ScanErrorView::Validation {
                message: "Invalid scan type: "@ + name@,
            }),
        },
{
    let s = chars_of(name);
    if same_text(&s, &chars_of("quick")) {
        Ok(ScanType::Quick)
    } else if same_text(&s, &chars_of("comprehensive")) {
        Ok(ScanType::Comprehensive)
    } else if same_text(&s, &chars_of("stealth")) {
        Ok(ScanType::Stealth)
    } else if same_text(&s, &chars_of("custom")) {
        Ok(ScanType::Custom { options: String::new() })
    } else {
        Err(ScanError::Validation { message: prefixed("Invalid scan type: ", name) })
    }
}

/// The texts of a list of identities.
pub open spec fn id_texts(ids: Seq<ScanId>) -> Seq<Seq<char>> {
    Seq::new(ids.len(), |i: int| uuid_text(ids[i]))
}

fn format_ids(ids: &Vec<ScanId>) -> (r: Vec<String>)
    ensures
        r.deep_view() == id_texts(ids@),
{
    let mut out: Vec<String> = Vec::new();
    let mut i: usize = 0;
    while i < ids.len()
        invariant
            i <= ids.len(),
            out.len() == i,
            forall|j: int| 0 <= j < i ==> (#[trigger] out@[j])@ == uuid_text(ids@[j]),
        decreases ids.len() - i,
    {
        out.push(format_scan_id(ids[i]));
        i += 1;
    }
    assert(out.deep_view() =~= id_texts(ids@));
    out
}

/// One scan was registered: `id` is new, queued at `now` with the given address
/// and mode, and nothing else has changed.
pub open spec fn registered_as(
    old: ScanRegistry,
    new: ScanRegistry,
    id: ScanId,
    ip: IpAddress,
    mode: ScanTypeView,
    now: Timestamp,
) -> bool {
    &&& new.capacity() == old.capacity()
    &&& new.permits_in_use() == old.permits_in_use()
    &&& !old.in_flight().contains_key(id)
    &&& new.in_flight() == old.in_flight().insert(
        id,
        WorkItem { admitted: false, cancel_signalled: false },
    )
    &&& new.scans().dom() == old.scans().dom().insert(id)
    &&& new.scans()[id].target@ == range_target(id, ip, mode)
    &&& new.scans()[id].status is Queued
    &&& new.scans()[id].start_time == now
    &&& forall|other: ScanId| #[trigger]
        old.scans().contains_key(other) ==> new.scans()[other] == old.scans()[other]
}

/// Nothing of the registry has changed.
pub open spec fn untouched(old: ScanRegistry, new: ScanRegistry) -> bool {
    &&& new.capacity() == old.capacity()
    &&& new.permits_in_use() == old.permits_in_use()
    &&& new.scans() == old.scans()
    &&& new.in_flight() == old.in_flight()
}

/// Why a request to start a scan is refused before anything is registered:
/// an address that cannot be read, or else a name that asks for no scan mode.
pub open spec fn start_refusal(target_ip: Seq<char>, scan_type: Seq<char>) -> Option<Seq<char>> {
    if address_of_text(target_ip) is None {
        Some("Invalid IP address: "@ + target_ip)
    } else if mode_of_name(scan_type) is None {
        Some("Invalid scan type: "@ + scan_type)
    } else {
        None
    }
}

/// Registers a scan of the address `target_ip` in the mode named `scan_type`,
/// under the identity `id`, and answers with the text of the identity. An
/// address that cannot be read is refused with its message, then a name that
/// asks for no scan mode, then an identity that is already on record; a
/// refusal leaves the registry as it was.
pub fn start_scan_as(
    coordinator: &mut ScanCoordinator,
    target_ip: &str,
    scan_type: &str,
    id: ScanId,
    now: Timestamp,
) -> (r: Result<String, String>)
    ensures
        final(coordinator).same_setup(old(coordinator)),
        final(coordinator).limiter() == old(coordinator).limiter(),
        match r {
            Ok(text) => {
                &&& start_refusal(target_ip@, scan_type@) is None
                &&& registered_as(
                    old(coordinator).registry(),
                    final(coordinator).registry(),
                    id,
                    address_of_text(target_ip@)->0,
                    mode_of_name(scan_type@)->0,
                    now,
                )
                &&& text@ == uuid_text(id)
            },
            Err(m) => {
                &&& untouched(old(coordinator).registry(), final(coordinator).registry())
                &&& match start_refusal(target_ip@, scan_type@) {
                    Some(why) => m@ == why,
                    None => old(coordinator).registry().in_flight().contains_key(id) && m@
                        == "Scan is already active"@,
                }
            },
        },
{
    let ip = match InputValidator::validate_ip(target_ip) {
        Ok(ip) => ip,
        Err(e) => {
            return Err(e.message());
        },
    };
    let mode = match scan_type_from_name(scan_type) {
        Ok(mode) => mode,
        Err(e) => {
            return Err(e.message());
        },
    };
    let target = ScanTarget { id, ip, hostname: None, ports: Vec::new(), scan_type: mode };
    assert(target@ =~= range_target(id, ip, mode_of_name(scan_type@)->0)) by {
        assert(target.ports@ =~= Seq::empty());
    }
    match coordinator.start_scan(target, now) {
        Ok(scan_id) => {
            assert(coordinator.registry().scans().dom() =~= old(
                coordinator,
            ).registry().scans().dom().insert(id));
            Ok(format_scan_id(scan_id))
        },
        Err(e) => Err(e.message()),
    }
}

/// Registers a scan of the address `target_ip` in the mode named `scan_type`
/// under a fresh identity, and answers with the text of the identity. A request
/// that is not refused for its address or its mode name fails only where the
/// identity drawn is on record; with no work on record it succeeds.
pub fn start_scan(
    coordinator: &mut ScanCoordinator,
    target_ip: &str,
    scan_type: &str,
    now: Timestamp,
) -> (r: Result<String, String>)
    ensures
        final(coordinator).same_setup(old(coordinator)),
        final(coordinator).limiter() == old(coordinator).limiter(),
        match r {
            Ok(text) => start_refusal(target_ip@, scan_type@) is None && exists|id: ScanId|
                {
                    &&& #[trigger] registered_as(
                        old(coordinator).registry(),
                        final(coordinator).registry(),
                        id,
                        address_of_text(target_ip@)->0,
                        mode_of_name(scan_type@)->0,
                        now,
                    )
                    &&& text@ == uuid_text(id)
                },
            Err(m) => {
                &&& untouched(old(coordinator).registry(), final(coordinator).registry())
                &&& match start_refusal(target_ip@, scan_type@) {
                    Some(why) => m@ == why,
                    None => m@ == "Scan is already active"@ && exists|id: ScanId| #[trigger]
                        old(coordinator).registry().in_flight().contains_key(id),
                }
            },
        },
{
    let id = new_scan_id();
    let r = start_scan_as(coordinator, target_ip, scan_type, id, now);
    proof {
        if r is Err && start_refusal(target_ip@, scan_type@) is None {
            assert(old(coordinator).registry().in_flight().contains_key(id));
        }
        if r is Ok {
            assert(registered_as(
                old(coordinator).registry(),
                coordinator.registry(),
                id,
                address_of_text(target_ip@)->0,
                mode_of_name(scan_type@)->0,
                now,
            ));
        }
    }
    r
}

/// The message that refuses a text that names no identity: a fixed beginning,
/// then the detail that the `uuid` crate gives.
pub open spec fn invalid_identity(detail: Seq<char>) -> Seq<char> {
    "Invalid UUID: "@ + detail
}

/// Cancels the scan that `scan_id` names. A text that names no identity is
/// refused; any identity is accepted, active or not. The answer says whether
/// there is work to signal.
pub fn cancel_scan(coordinator: &mut ScanCoordinator, scan_id: &str) -> (r: Result<bool, String>)
    ensures
        final(coordinator).same_setup(old(coordinator)),
        final(coordinator).limiter() == old(coordinator).limiter(),
        match uuid_of_text(scan_id@) {
            Some(id) => r matches Ok(signal) && cancelled(
                old(coordinator).registry(),
                final(coordinator).registry(),
                id,
                Ok(signal),
            ),
            None => r is Err && untouched(
                old(coordinator).registry(),
                final(coordinator).registry(),
            ) && exists|detail: Seq<char>| r->Err_0@ == #[trigger] invalid_identity(detail),
        },
{
    match parse_scan_id(scan_id) {
        Ok(id) => match coordinator.cancel_scan(id) {
            Ok(signal) => Ok(signal),
            Err(e) => Err(e.message()),
        },
        Err(e) => {
            let detail = uuid_error_text(&e);
            let message = prefixed("Invalid UUID: ", detail.as_str());
            assert(message@ == invalid_identity(detail@));
            Err(message)
        },
    }
}

/// A list of scans as a caller sees them shows `listed`: the same scans in
/// the same order, each identity as text.
pub open spec fn infos_of(listed: Seq<(ScanId, ScanStatus)>, infos: Seq<ActiveScanInfo>) -> bool {
    &&& infos.len() == listed.len()
    &&& forall|i: int|
        0 <= i < infos.len() ==> (#[trigger] infos[i]).id@ == uuid_text(listed[i].0) && infos[i].status@
            == listed[i].1@
}

/// Turns a snapshot of the active scans into what a caller sees.
pub fn active_scan_infos(listed: Vec<(ScanId, ScanStatus)>) -> (r: Vec<ActiveScanInfo>)
    ensures
        infos_of(listed@, r@),
{
    let mut out: Vec<ActiveScanInfo> = Vec::new();
    let mut i: usize = 0;
    while i < listed.len()
        invariant
            i <= listed.len(),
            out.len() == i,
            forall|j: int|
                0 <= j < i ==> (#[trigger] out@[j]).id@ == uuid_text(listed@[j].0) && out@[j].status@
                    == listed@[j].1@,
        decreases listed.len() - i,
    {
        out.push(
            ActiveScanInfo { id: format_scan_id(listed[i].0), status: listed[i].1.clone() },
        );
        i += 1;
    }
    out
}

/// The active scans as a caller sees them, in no particular order. Every
/// status among them is queued or running.
pub fn get_active_scans(coordinator: &ScanCoordinator) -> (r: Vec<ActiveScanInfo>)
    ensures
        exists|listed: Seq<(ScanId, ScanStatus)>|
            #[trigger] shows(listed, coordinator.registry().scans()) && infos_of(listed, r@),
        forall|i: int| 0 <= i < r@.len() ==> (#[trigger] r@[i]).status is Queued || r@[i].status is Running,
{
    let listed = coordinator.get_active_scans();
    let ghost shown = listed@;
    let r = active_scan_infos(listed);
    assert(shows(shown, coordinator.registry().scans()) && infos_of(shown, r@));
    assert forall|i: int| 0 <= i < r@.len() implies (#[trigger] r@[i]).status is Queued
        || r@[i].status is Running by {
        assert(shown[i].1 is Queued || shown[i].1 is Running);
    }
    r
}

/// The statistics of the active scans.
pub fn get_scan_statistics(coordinator: &ScanCoordinator) -> (s: ScanStatistics)
    ensures
        s.total_active == coordinator.registry().scans().dom().len(),
        s.running == running_of(coordinator.registry().scans()).len(),
        s.queued == queued_of(coordinator.registry().scans()).len(),
        s.total_active == s.running + s.queued,
        s.running <= coordinator.registry().capacity(),
{
    coordinator.get_scan_statistics()
}

/// What a range request gives, where `listed` is the target list of its range
/// and `mode` the scan mode that its mode name asks for. A range that is no
/// network is refused, then a name that asks for no scan mode; either leaves
/// the registry as it was. A range without targets succeeds. Otherwise either
/// every target is registered in order and the texts of the identities come
/// back, or an identity was on record and the registration stopped there.
pub open spec fn range_request_gives(
    old: ScanRegistry,
    new: ScanRegistry,
    cidr: Seq<char>,
    scan_type: Seq<char>,
    listed: Result<Seq<IpAddress>, ScanErrorView>,
    now: Timestamp,
    r: Result<Vec<String>, String>,
) -> bool {
    if cidr_network(cidr) is None {
        r is Err && r->Err_0@ == "Invalid CIDR notation: "@ + cidr && untouched(old, new)
    } else if mode_of_name(scan_type) is None {
        r is Err && r->Err_0@ == "Invalid scan type: "@ + scan_type && untouched(old, new)
    } else {
        listed is Ok && match r {
            Ok(texts) => exists|ids: Seq<ScanId>|
                {
                    &&& ids.len() == listed->Ok_0.len()
                    &&& all_fresh(old, ids)
                    &&& #[trigger] range_registered(
                        old,
                        new,
                        listed->Ok_0,
                        ids,
                        mode_of_name(scan_type)->0,
                        now,
                        ids.len() as int,
                    )
                    &&& texts.deep_view() == id_texts(ids)
                },
            Err(m) => {
                &&& listed->Ok_0.len() > 0
                &&& m@ == "Scan is already active"@
                &&& exists|ids: Seq<ScanId>|
                    ids.len() == listed->Ok_0.len() && #[trigger] range_stopped(
                        old,
                        new,
                        listed->Ok_0,
                        ids,
                        mode_of_name(scan_type)->0,
                        now,
                    )
            },
        }
    }
}

/// Registers the scans of a range request and answers with the texts of their
/// identities, in the order of the addresses. The range and the name of the
/// scan mode are checked first.
pub fn scan_network_range(
    coordinator: &mut ScanCoordinator,
    range: &NetworkRangeRequest,
    now: Timestamp,
) -> (r: Result<Vec<String>, String>)
    ensures
        final(coordinator).same_setup(old(coordinator)),
        final(coordinator).limiter() == old(coordinator).limiter(),
        range_request_gives(
            old(coordinator).registry(),
            final(coordinator).registry(),
            range.cidr@,
            range.scan_type@,
            target_list(seq![range.cidr@], range.exclude.deep_view()),
            now,
            r,
        ),
{
    match InputValidator::validate_cidr(range.cidr.as_str()) {
        Ok(_) => {},
        Err(e) => {
            return Err(e.message());
        },
    }
    let mode = match scan_type_from_name(range.scan_type.as_str()) {
        Ok(mode) => mode,
        Err(e) => {
            return Err(e.message());
        },
    };
    proof {
        lemma_single_range_parses(range.cidr@, range.exclude.deep_view());
    }
    let ghost listed = target_list(seq![range.cidr@], range.exclude.deep_view());
    match coordinator.scan_network_range(range.cidr.as_str(), &range.exclude, &mode, now) {
        Ok(ids) => {
            let texts = format_ids(&ids);
            assert(range_registered(
                old(coordinator).registry(),
                coordinator.registry(),
                listed->Ok_0,
                ids@,
                mode_of_name(range.scan_type@)->0,
                now,
                ids@.len() as int,
            ));
            Ok(texts)
        },
        Err(e) => {
            let ghost ids = choose|ids: Seq<ScanId>|
                ids.len() == listed->Ok_0.len() && #[trigger] range_stopped(
                    old(coordinator).registry(),
                    coordinator.registry(),
                    listed->Ok_0,
                    ids,
                    mode@,
                    now,
                );
            assert(range_stopped(
                old(coordinator).registry(),
                coordinator.registry(),
                listed->Ok_0,
                ids,
                mode_of_name(range.scan_type@)->0,
                now,
            ));
            Err(e.message())
        },
    }
}

/// The target list of a single range that is a network is some list.
pub proof fn lemma_single_range_parses(cidr: Seq<char>, excludes: Seq<Seq<char>>)
    requires
        cidr_network(cidr) is Some,
    ensures
        target_list(seq![cidr], excludes) is Ok,
{
    let nets = crate::network::networks_of(seq![cidr]);
    assert(nets[0] is Some);
    reveal_with_fuel(crate::network::targets_of, 2);
}

} // verus!
