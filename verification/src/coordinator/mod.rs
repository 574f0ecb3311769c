//! The scan coordinator: admission, cancellation, the per-mode pipelines and
//! the bookkeeping of results.

pub mod pipeline;
pub mod registry;
pub mod storage;

use crate::coordinator::pipeline::{
    line_progress, live_progress, Tool,
    Action, comprehensive_step, custom_step, Event, execute_comprehensive_scan, execute_custom_scan,
    execute_quick_scan, execute_stealth_scan, fails_with, Phase, quick_step, stealth_step, Step,
};
use crate::coordinator::storage::{storage_plan, StoreStep};
use crate::coordinator::registry::{
    Admission, admission_of, admitted, all_transient, cancelled, completed, Completion, queued_of,
    running_of, ScanHandle, ScanRegistry, ScanStatistics, shows, started, TaskEvent, WorkItem,
};
use crate::error::{ScanError, ScanErrorView};
use crate::fresh::new_scan_id;
use crate::gate::AdmissionGate;
use crate::masscan::MasscanScanner;
use crate::model::{
    IpAddress, Percent, ScanId, ScanProgress, ScanProgressView, ScanResult, ScanStatus,
    ScanStatusView, ScanTarget, ScanTargetView, ScanType, ScanTypeView, Timestamp,
};
use crate::validation::InputValidator;
use crate::network::{address_text, format_address, NetworkUtils, target_list};
use crate::nmap::NmapScanner;
use crate::process::ProcessManager;
use crate::rate_limiter::{Bucket, RateLimiter, MILLIONTH, TOKEN};
use crate::text::{chars_of, decimal, decimal_text, push_all, string_of};
use vstd::prelude::*;

verus! {

/// The number of scans that may run at a time.
pub const MAX_CONCURRENT_SCANS: usize = 10;

/// The number of probing processes that may run at a time.
pub const MAX_PROBES: usize = 5;

/// The number of discovery processes that may run at a time.
pub const MAX_DISCOVERIES: usize = 3;

/// The packets per second that a discovery process may send.
pub const DISCOVERY_RATE: u32 = 10000;

/// The seconds that a tool process may run.
pub const TOOL_TIMEOUT_SECS: u64 = 300;

/// The tokens that the rate limiter can hold.
pub const LIMITER_CAPACITY: u32 = 100;

/// The tokens per second that the rate limiter gains.
pub const LIMITER_REFILL: u32 = 50;

/// The text of a string as `Debug` writes it, in quotes and with escapes.
pub uninterp spec fn quoted_text(s: Seq<char>) -> Seq<char>;

/// Formats a string with `{:?}`, as `Debug` for `str` writes it. The text is a
/// function of the string.
#[verifier::external_body]
fn quoted(s: &str) -> (r: String)
    ensures
        r@ == quoted_text(s@),
{
    format!("{:?}", s)
}

/// The name under which a scan mode is recorded.
pub open spec fn mode_label(mode: ScanTypeView) -> Seq<char> {
    match mode {
        ScanTypeView::Quick => "Quick"@,
        ScanTypeView::Comprehensive => "Comprehensive"@,
        ScanTypeView::Stealth => "Stealth"@,
        ScanTypeView::Custom { options } => "Custom { options: "@ + quoted_text(options) + " }"@,
    }
}

/// The name under which a status is persisted.
pub open spec fn status_label(status: ScanStatusView) -> Seq<char> {
    match status {
        ScanStatusView::Queued => "queued"@,
        ScanStatusView::Running => "running"@,
        ScanStatusView::Completed => "completed"@,
        ScanStatusView::Failed { .. } => "failed"@,
        ScanStatusView::Cancelled => "cancelled"@,
    }
}

/// What is recorded of a scan when it is registered.
#[derive(Debug, PartialEq, Eq)]
pub struct ScanRecord {
    pub name: String,
    pub targets: Vec<String>,
    pub scan_type: String,
}

/// The share of a range that lies before the target at `index`, in hundredths
/// of a percent: `index / total`, rounded down; nothing of an empty range, and
/// never more than the whole.
pub open spec fn range_share(index: nat, total: nat) -> nat {
    if total == 0 {
        0
    } else if index >= total {
        10000
    } else {
        index * 10000 / total
    }
}

/// The message of a progress event of one target, as the range reports it.
pub open spec fn range_message(index: nat, total: nat, ip: IpAddress, message: Seq<char>) -> Seq<
    char,
> {
    "Scanning "@ + address_text(ip) + " ("@ + decimal_text(index + 1) + "/"@ + decimal_text(total)
        + "): "@ + message
}

/// The progress of a range when the target at `index` of `total` reports
/// `individual`: the share is that of the targets before it, the message names
/// the target and its place, the expected end is passed on.
pub open spec fn range_event(
    index: nat,
    total: nat,
    ip: IpAddress,
    individual: ScanProgressView,
) -> ScanProgressView {
    ScanProgressView {
        percent: Percent { hundredths: range_share(index, total) as u32 },
        message: range_message(index, total, ip, individual.message),
        eta: individual.eta,
    }
}

/// Rewrites the progress of one target of a range into progress of the range.
pub fn range_progress(index: usize, total: usize, ip: &IpAddress, individual: &ScanProgress) -> (r:
    ScanProgress)
    ensures
        r@ == range_event(index as nat, total as nat, *ip, individual@),
        r.percent.wf(),
{
    let hundredths: u32 = if total == 0 {
        0
    } else if index >= total {
        10000
    } else {
        assert(index as int * 10000 / total as int <= 10000) by (nonlinear_arith)
            requires
                0 <= index < total,
        ;
        (index as u128 * 10000 / total as u128) as u32
    };
    let mut message = chars_of("Scanning ");
    push_all(&mut message, &chars_of(format_address(ip).as_str()));
    push_all(&mut message, &chars_of(" ("));
    push_all(&mut message, &decimal(index as u128 + 1));
    push_all(&mut message, &chars_of("/"));
    push_all(&mut message, &decimal(total as u128));
    push_all(&mut message, &chars_of("): "));
    push_all(&mut message, &chars_of(individual.message.as_str()));
    assert(message@ =~= range_message(index as nat, total as nat, *ip, individual.message@));
    ScanProgress {
        percent: Percent { hundredths },
        message: string_of(&message),
        eta: individual.eta,
    }
}

/// The rate limiter of a new coordinator: full, with the default capacity and
/// refill rate, and no time counted yet.
pub open spec fn full_limiter() -> Bucket {
    Bucket {
        tokens: LIMITER_CAPACITY as nat * TOKEN as nat,
        capacity: LIMITER_CAPACITY as nat * TOKEN as nat,
        refill_rate: LIMITER_REFILL as nat * MILLIONTH as nat,
        last_refill: 0,
    }
}

/// The coordinator: the registry of scans in flight with its admission gate,
/// the two tool executors, and the rate limiter of the stealth mode.
pub struct ScanCoordinator {
    registry: ScanRegistry,
    rate_limiter: RateLimiter,
    nmap_scanner: NmapScanner,
    masscan_scanner: MasscanScanner,
    process_manager: ProcessManager,
}

/// How the pipeline of `target` steps, by its scan mode.
pub open spec fn dispatched(
    masscan: MasscanScanner,
    before: Bucket,
    after: Bucket,
    target: ScanTarget,
    phase: Phase,
    event: Event,
    step: Step,
) -> bool {
    match target.scan_type {
        ScanType::Quick => quick_step(masscan, target, phase, event, step) && after == before,
        ScanType::Comprehensive => comprehensive_step(masscan, target, phase, event, step) && after
            == before,
        ScanType::Stealth => stealth_step(before, after, target, phase, event, step),
        ScanType::Custom { .. } => custom_step(target, phase, event, step) && after == before,
    }
}

/// The tool that `tool` is not.
pub open spec fn other_tool(tool: Tool) -> Tool {
    match tool {
        Tool::Discovery => Tool::Probe,
        Tool::Probe => Tool::Discovery,
    }
}

/// A step that starts nothing and leaves the pipeline where it stands: the
/// work is to come back when a permit is returned.
pub open spec fn is_waiting_step(step: Step, phase: Phase) -> bool {
    &&& step.next == phase
    &&& step.progress@.len() == 0
    &&& step.announce is None
    &&& step.action is AwaitPermit
}

/// A step that ends the pipeline because the scan was cancelled.
pub open spec fn is_cancelled_step(step: Step) -> bool {
    fails_with(step, ScanErrorView::Cancelled) && step.progress@.len() == 0
}

impl ScanCoordinator {
    /// The registry of the coordinator.
    pub closed spec fn registry(&self) -> ScanRegistry {
        self.registry
    }

    /// The rate limiter of the coordinator.
    pub closed spec fn limiter(&self) -> RateLimiter {
        self.rate_limiter
    }

    /// The invariant of the coordinator: that of its registry.
    pub open spec fn wf(&self) -> bool {
        self.registry().wf()
    }

    /// The probing executor of the coordinator.
    pub closed spec fn nmap(&self) -> NmapScanner {
        self.nmap_scanner
    }

    /// The discovery executor of the coordinator.
    pub closed spec fn masscan(&self) -> MasscanScanner {
        self.masscan_scanner
    }

    /// The process manager of the coordinator.
    pub closed spec fn processes(&self) -> ProcessManager {
        self.process_manager
    }

    /// The limits of the coordinator, which no call changes.
    pub open spec fn same_setup(&self, other: &ScanCoordinator) -> bool {
        &&& self.nmap().rate_limit.capacity() == other.nmap().rate_limit.capacity()
        &&& self.masscan().rate_limit.capacity() == other.masscan().rate_limit.capacity()
        &&& self.masscan().max_rate == other.masscan().max_rate
        &&& self.processes() == other.processes()
    }

    /// The permits of the executor that runs `tool`.
    pub open spec fn gate_of(&self, tool: Tool) -> AdmissionGate {
        match tool {
            Tool::Discovery => self.masscan().rate_limit,
            Tool::Probe => self.nmap().rate_limit,
        }
    }

    /// The permits of both tools are as they were.
    pub open spec fn same_tool_permits(&self, other: &ScanCoordinator) -> bool {
        &&& self.nmap().rate_limit.taken() == other.nmap().rate_limit.taken()
        &&& self.masscan().rate_limit.taken() == other.masscan().rate_limit.taken()
    }

    /// Takes the permit for one process of `tool`, if one is free.
    pub fn try_begin_tool(&mut self, tool: Tool) -> (taken: bool)
        ensures
            final(self).same_setup(old(self)),
            final(self).registry() == old(self).registry(),
            final(self).limiter() == old(self).limiter(),
            taken == (old(self).gate_of(tool).taken() < old(self).gate_of(tool).capacity()),
            final(self).gate_of(tool).taken() == old(self).gate_of(tool).taken() + if taken {
                1nat
            } else {
                0nat
            },
            final(self).gate_of(other_tool(tool)) == old(self).gate_of(other_tool(tool)),
    {
        match tool {
            Tool::Discovery => self.try_begin_discovery(),
            Tool::Probe => self.try_begin_probe(),
        }
    }

    /// Returns the permit of a process of `tool` that has ended.
    pub fn end_tool(&mut self, tool: Tool)
        ensures
            final(self).same_setup(old(self)),
            final(self).registry() == old(self).registry(),
            final(self).limiter() == old(self).limiter(),
            final(self).gate_of(tool).taken() == if old(self).gate_of(tool).taken() > 0 {
                (old(self).gate_of(tool).taken() - 1) as nat
            } else {
                0nat
            },
            final(self).gate_of(other_tool(tool)) == old(self).gate_of(other_tool(tool)),
    {
        match tool {
            Tool::Discovery => self.end_discovery(),
            Tool::Probe => self.end_probe(),
        }
    }

    /// Reads a line that a tool wrote for the scan of `target`, as it
    /// arrives, for the progress it carries.
    pub fn read_line(&self, target: &ScanTarget, phase: Phase, line: &str) -> (r: Option<
        ScanProgress,
    >)
        ensures
            r.deep_view() == live_progress(*target, phase, line@),
    {
        line_progress(&self.masscan_scanner, &self.nmap_scanner, target, phase, line)
    }

    /// Takes the permit for one process of the discovery tool, if one is free.
    pub fn try_begin_discovery(&mut self) -> (taken: bool)
        ensures
            final(self).same_setup(old(self)),
            final(self).registry() == old(self).registry(),
            final(self).limiter() == old(self).limiter(),
            final(self).nmap() == old(self).nmap(),
            taken == (old(self).masscan().rate_limit.taken() < old(
                self,
            ).masscan().rate_limit.capacity()),
            final(self).masscan().rate_limit.taken() == old(self).masscan().rate_limit.taken()
                + if taken {
                1nat
            } else {
                0nat
            },
    {
        self.masscan_scanner.try_acquire_process()
    }

    /// Returns the permit of a process of the discovery tool that has ended.
    pub fn end_discovery(&mut self)
        ensures
            final(self).same_setup(old(self)),
            final(self).registry() == old(self).registry(),
            final(self).limiter() == old(self).limiter(),
            final(self).nmap() == old(self).nmap(),
            final(self).masscan().rate_limit.taken() == if old(self).masscan().rate_limit.taken()
                > 0 {
                (old(self).masscan().rate_limit.taken() - 1) as nat
            } else {
                0nat
            },
    {
        self.masscan_scanner.release_process()
    }

    /// Takes the permit for one process of the probing tool, if one is free.
    pub fn try_begin_probe(&mut self) -> (taken: bool)
        ensures
            final(self).same_setup(old(self)),
            final(self).registry() == old(self).registry(),
            final(self).limiter() == old(self).limiter(),
            final(self).masscan() == old(self).masscan(),
            taken == (old(self).nmap().rate_limit.taken() < old(self).nmap().rate_limit.capacity()),
            final(self).nmap().rate_limit.taken() == old(self).nmap().rate_limit.taken() + if taken {
                1nat
            } else {
                0nat
            },
    {
        self.nmap_scanner.try_acquire_process()
    }

    /// Returns the permit of a process of the probing tool that has ended.
    pub fn end_probe(&mut self)
        ensures
            final(self).same_setup(old(self)),
            final(self).registry() == old(self).registry(),
            final(self).limiter() == old(self).limiter(),
            final(self).masscan() == old(self).masscan(),
            final(self).nmap().rate_limit.taken() == if old(self).nmap().rate_limit.taken() > 0 {
                (old(self).nmap().rate_limit.taken() - 1) as nat
            } else {
                0nat
            },
    {
        self.nmap_scanner.release_process()
    }

    /// The probing executor.
    pub fn nmap_scanner(&self) -> (r: &NmapScanner)
        ensures
            *r == self.nmap(),
    {
        &self.nmap_scanner
    }

    /// The discovery executor.
    pub fn masscan_scanner(&self) -> (r: &MasscanScanner)
        ensures
            *r == self.masscan(),
    {
        &self.masscan_scanner
    }

    /// The process manager.
    pub fn process_manager(&self) -> (r: &ProcessManager)
        ensures
            *r == self.processes(),
    {
        &self.process_manager
    }

    /// A coordinator with the default limits, no scan, no tool process and a
    /// full rate limiter.
    pub fn new() -> (c: ScanCoordinator)
        ensures
            c.wf(),
            c.registry().scans() == Map::<ScanId, ScanHandle>::empty(),
            c.registry().in_flight() == Map::<ScanId, WorkItem>::empty(),
            c.registry().capacity() == MAX_CONCURRENT_SCANS,
            c.registry().permits_in_use() == 0,
            c.nmap().rate_limit.capacity() == MAX_PROBES,
            c.nmap().rate_limit.taken() == 0,
            c.masscan().rate_limit.capacity() == MAX_DISCOVERIES,
            c.masscan().rate_limit.taken() == 0,
            c.masscan().max_rate == DISCOVERY_RATE,
            c.processes().timeout_secs == TOOL_TIMEOUT_SECS,
            c.limiter()@ == full_limiter(),
    {
        Self::with_capacity(MAX_CONCURRENT_SCANS)
    }

    /// A coordinator that lets `capacity` scans run at a time; everything else
    /// as in `new`.
    pub fn with_capacity(capacity: usize) -> (c: ScanCoordinator)
        ensures
            c.wf(),
            c.registry().scans() == Map::<ScanId, ScanHandle>::empty(),
            c.registry().in_flight() == Map::<ScanId, WorkItem>::empty(),
            c.registry().capacity() == capacity,
            c.registry().permits_in_use() == 0,
            c.nmap().rate_limit.capacity() == MAX_PROBES,
            c.nmap().rate_limit.taken() == 0,
            c.masscan().rate_limit.capacity() == MAX_DISCOVERIES,
            c.masscan().rate_limit.taken() == 0,
            c.masscan().max_rate == DISCOVERY_RATE,
            c.processes().timeout_secs == TOOL_TIMEOUT_SECS,
            c.limiter()@ == full_limiter(),
    {
        ScanCoordinator {
            registry: ScanRegistry::new(capacity),
            rate_limiter: RateLimiter::new(LIMITER_CAPACITY, LIMITER_REFILL),
            nmap_scanner: NmapScanner::new(MAX_PROBES),
            masscan_scanner: MasscanScanner::new(MAX_DISCOVERIES, DISCOVERY_RATE),
            process_manager: ProcessManager::new(TOOL_TIMEOUT_SECS),
        }
    }

    /// Registers `target` as a queued scan that started at `now`. The call
    /// returns at once; the work behind the scan asks for admission later. An
    /// identity that is on record is refused: that of an active scan, and also
    /// that of a cancelled scan whose work has not reported back yet.
    pub fn start_scan(&mut self, target: ScanTarget, now: Timestamp) -> (r: Result<
        ScanId,
        ScanError,
    >)
        ensures
            old(self).wf(),
            final(self).wf(),
            final(self).same_setup(old(self)),
            final(self).same_tool_permits(old(self)),
            final(self).limiter() == old(self).limiter(),
            started(old(self).registry(), final(self).registry(), target, now, r),
    {
        proof {
            use_type_invariant(&self.registry);
        }
        self.registry.start_scan(target, now)
    }

    /// Asks for a permit for the work behind the scan `id`.
    pub fn try_admit(&mut self, id: ScanId) -> (r: Admission)
        ensures
            old(self).wf(),
            final(self).wf(),
            final(self).same_setup(old(self)),
            final(self).same_tool_permits(old(self)),
            final(self).limiter() == old(self).limiter(),
            admitted(old(self).registry(), final(self).registry(), id, r),
    {
        proof {
            use_type_invariant(&self.registry);
        }
        self.registry.try_admit(id)
    }

    /// Ends the attempt `id` with what its work reports.
    pub fn handle_scan_completion(&mut self, id: ScanId, event: TaskEvent) -> (c: Completion)
        ensures
            old(self).wf(),
            final(self).wf(),
            final(self).same_setup(old(self)),
            final(self).same_tool_permits(old(self)),
            final(self).limiter() == old(self).limiter(),
            completed(old(self).registry(), final(self).registry(), id, event@, c@),
    {
        proof {
            use_type_invariant(&self.registry);
        }
        self.registry.handle_scan_completion(id, event)
    }

    /// Cancels the scan `id`. The call succeeds for every identity; the answer
    /// says whether there is work to signal.
    pub fn cancel_scan(&mut self, id: ScanId) -> (r: Result<bool, ScanError>)
        ensures
            old(self).wf(),
            final(self).wf(),
            final(self).same_setup(old(self)),
            final(self).same_tool_permits(old(self)),
            final(self).limiter() == old(self).limiter(),
            cancelled(old(self).registry(), final(self).registry(), id, r),
    {
        proof {
            use_type_invariant(&self.registry);
        }
        self.registry.cancel_scan(id)
    }

    /// A snapshot of the active scans with their statuses, in no particular
    /// order. Every status in it is queued or running.
    pub fn get_active_scans(&self) -> (r: Vec<(ScanId, ScanStatus)>)
        ensures
            shows(r@, self.registry().scans()),
            all_transient(r@),
    {
        self.registry.get_active_scans()
    }

    /// The target of the active scan `id`, if there is one.
    pub fn target_of(&self, id: ScanId) -> (r: Option<ScanTarget>)
        ensures
            match r {
                Some(t) => self.registry().scans().contains_key(id) && t@
                    == self.registry().scans()[id].target@ && t.id == id,
                None => !self.registry().scans().contains_key(id),
            },
    {
        self.registry.target_of(id)
    }

    /// Counts the active scans by status.
    pub fn get_scan_statistics(&self) -> (s: ScanStatistics)
        ensures
            s.total_active == self.registry().scans().dom().len(),
            s.running == running_of(self.registry().scans()).len(),
            s.queued == queued_of(self.registry().scans()).len(),
            s.total_active == s.running + s.queued,
            s.running <= self.registry().capacity(),
    {
        self.registry.get_scan_statistics()
    }

    /// Whether a cancellation was signalled to the work behind the scan `id`,
    /// or no such work is on record.
    pub fn is_cancelled(&self, id: ScanId) -> (b: bool)
        ensures
            b == (!self.registry().in_flight().contains_key(id) || self.registry().in_flight()[id].cancel_signalled),
    {
        match self.registry.try_peek(id) {
            Some(w) => w.cancel_signalled,
            None => true,
        }
    }

    /// One step of the work behind the scan of `target`. The work asks for a
    /// permit first: while every permit is taken the scan stays queued and the
    /// step starts nothing but asks the caller to come back when a permit is
    /// returned. Once the scan was cancelled no tool is started and no result
    /// is handed over. Work that holds a permit steps the pipeline of its scan
    /// mode. The step with which the scan becomes running says so, so that
    /// the running status is persisted exactly then.
    pub fn execute_scan_with_cancellation(&mut self, target: &ScanTarget, phase: Phase, event: Event) -> (step:
        Step)
        ensures
            old(self).wf(),
            final(self).wf(),
            final(self).same_setup(old(self)),
            final(self).same_tool_permits(old(self)),
            admitted(
                old(self).registry(),
                final(self).registry(),
                target.id,
                admission_of(old(self).registry(), target.id),
            ),
            match admission_of(old(self).registry(), target.id) {
                Admission::Unknown | Admission::Cancelled => is_cancelled_step(step) && final(self).limiter()@ == old(self).limiter()@,
                Admission::Wait => is_waiting_step(step, phase) && final(self).limiter()@ == old(
                    self,
                ).limiter()@,
                Admission::Admitted => dispatched(
                    old(self).masscan(),
                    old(self).limiter()@,
                    final(self).limiter()@,
                    *target,
                    phase,
                    event,
                    step,
                ),
            },
            step.record_running == (admission_of(old(self).registry(), target.id)
                == Admission::Admitted && !old(self).registry().in_flight()[target.id].admitted),
            step.action is Run ==> final(self).registry().in_flight().contains_key(target.id)
                && final(self).registry().in_flight()[target.id].admitted && final(self).registry().scans().contains_key(target.id) && final(self).registry().scans()[target.id].status is Running,
    {
        let held: bool = match self.registry.try_peek(target.id) {
            Some(work) => work.admitted,
            None => false,
        };
        match self.registry.try_admit(target.id) {
            Admission::Unknown | Admission::Cancelled => {
                return Step {
                    next: Phase::Finished,
                    progress: Vec::new(),
                    announce: None,
                    record_running: false,
                    action: Action::Fail(ScanError::Cancelled),
                };
            },
            Admission::Wait => {
                return Step {
                    next: phase,
                    progress: Vec::new(),
                    announce: None,
                    record_running: false,
                    action: Action::AwaitPermit,
                };
            },
            Admission::Admitted => {},
        }
        let step = match &target.scan_type {
            ScanType::Quick => execute_quick_scan(&self.masscan_scanner, target, phase, event),
            ScanType::Comprehensive => execute_comprehensive_scan(
                &self.masscan_scanner,
                &self.nmap_scanner,
                target,
                phase,
                event,
            ),
            ScanType::Stealth => execute_stealth_scan(
                &self.nmap_scanner,
                &mut self.rate_limiter,
                target,
                phase,
                event,
            ),
            ScanType::Custom { .. } => execute_custom_scan(&self.nmap_scanner, target, phase, event),
        };
        let Step { next, progress, announce, record_running: _, action } = step;
        Step { next, progress, announce, record_running: !held, action }
    }

    /// What is written for `result`, found at `address`.
    pub fn store_scan_result(&self, address: &IpAddress, result: &ScanResult) -> (steps: Vec<
        StoreStep,
    >)
        ensures
            steps.deep_view() == storage_plan(*address, result@),
    {
        crate::coordinator::storage::store_scan_result(address, result)
    }

    /// What is recorded of `target` when it is registered: a name that holds
    /// its address, the address, and the name of its scan mode.
    pub fn scan_record(target: &ScanTarget) -> (r: ScanRecord)
        ensures
            r.name@ == "Scan "@ + address_text(target.ip),
            r.targets.deep_view() == seq![address_text(target.ip)],
            r.scan_type@ == mode_label(target.scan_type@),
    {
        let address = format_address(&target.ip);
        let mut targets: Vec<String> = Vec::new();
        targets.push(address.clone());
        assert(targets.deep_view() =~= seq![address_text(target.ip)]);
        let scan_type = match &target.scan_type {
            ScanType::Quick => "Quick".to_owned(),
            ScanType::Comprehensive => "Comprehensive".to_owned(),
            ScanType::Stealth => "Stealth".to_owned(),
            ScanType::Custom { options } => {
                let mut label = chars_of("Custom { options: ");
                push_all(&mut label, &chars_of(quoted(options.as_str()).as_str()));
                push_all(&mut label, &chars_of(" }"));
                string_of(&label)
            },
        };
        ScanRecord {
            name: crate::error::prefixed("Scan ", address.as_str()),
            targets,
            scan_type,
        }
    }

    /// The name under which a status is persisted.
    pub fn status_name(status: &ScanStatus) -> (r: String)
        ensures
            r@ == status_label(status@),
    {
        match status {
            ScanStatus::Queued => "queued".to_owned(),
            ScanStatus::Running => "running".to_owned(),
            ScanStatus::Completed => "completed".to_owned(),
            ScanStatus::Failed { .. } => "failed".to_owned(),
            ScanStatus::Cancelled => "cancelled".to_owned(),
        }
    }
}

/// The target of one address of a range: no host name, no ports of its own.
pub open spec fn range_target(id: ScanId, ip: IpAddress, mode: ScanTypeView) -> ScanTargetView {
    ScanTargetView { id, ip, hostname: None, ports: Seq::empty(), scan_type: mode }
}

/// The first `n` targets of a range are registered under the first `n`
/// identities, each queued at `now`, and nothing else has changed.
pub open spec fn range_registered(
    old: ScanRegistry,
    new: ScanRegistry,
    targets: Seq<IpAddress>,
    ids: Seq<ScanId>,
    mode: ScanTypeView,
    now: Timestamp,
    n: int,
) -> bool {
    &&& new.capacity() == old.capacity()
    &&& new.permits_in_use() == old.permits_in_use()
    &&& forall|i: int|
        0 <= i < n ==> {
            &&& new.scans().contains_key(#[trigger] ids[i])
            &&& new.scans()[ids[i]].target@ == range_target(ids[i], targets[i], mode)
            &&& new.scans()[ids[i]].status is Queued
            &&& new.scans()[ids[i]].start_time == now
            &&& new.in_flight().contains_key(ids[i])
        }
    &&& forall|id: ScanId| #[trigger]
        old.scans().contains_key(id) ==> new.scans().contains_key(id) && new.scans()[id]
            == old.scans()[id]
    &&& forall|id: ScanId| #[trigger]
        old.in_flight().contains_key(id) ==> new.in_flight().contains_key(id)
            && new.in_flight()[id] == old.in_flight()[id]
    &&& forall|id: ScanId| #[trigger]
        new.in_flight().contains_key(id) ==> old.in_flight().contains_key(id) || exists|i: int|
            0 <= i < n && ids[i] == id
    &&& forall|id: ScanId| #[trigger]
        new.scans().contains_key(id) ==> old.scans().contains_key(id) || exists|i: int|
            0 <= i < n && ids[i] == id
}

/// The registration of a range stopped at a target whose identity is on
/// record or was used for a target before it: the targets before that one are
/// registered, each queued at `now`, and nothing else has changed.
pub open spec fn range_stopped(
    old: ScanRegistry,
    new: ScanRegistry,
    targets: Seq<IpAddress>,
    ids: Seq<ScanId>,
    mode: ScanTypeView,
    now: Timestamp,
) -> bool {
    exists|k: int|
        0 <= k < ids.len() && #[trigger] range_registered(old, new, targets, ids, mode, now, k)
            && all_fresh(old, ids.take(k)) && !all_fresh(old, ids.take(k + 1))
}

/// What a range scan gives, where `listed` is the target list of the range.
/// A range that is refused is refused with its error and nothing changes. A
/// range without targets succeeds. Otherwise either every target is
/// registered, in order, under identities that are distinct and were not on
/// record; or an identity was on record and the registration stopped there.
pub open spec fn range_scan_gives(
    old: ScanRegistry,
    new: ScanRegistry,
    listed: Result<Seq<IpAddress>, ScanErrorView>,
    mode: ScanTypeView,
    now: Timestamp,
    r: Result<Vec<ScanId>, ScanError>,
) -> bool {
    match listed {
        Err(refused) => r is Err && r->Err_0@ == refused && new == old,
        Ok(targets) => match r {
            Ok(ids) => {
                &&& ids.len() == targets.len()
                &&& all_fresh(old, ids@)
                &&& range_registered(old, new, targets, ids@, mode, now, ids@.len() as int)
            },
            Err(e) => {
                &&& targets.len() > 0
                &&& e@ == (ScanErrorView::Validation { message: "Scan is already active"@ })
                &&& exists|ids: Seq<ScanId>|
                    ids.len() == targets.len() && #[trigger] range_stopped(
                        old,
                        new,
                        targets,
                        ids,
                        mode,
                        now,
                    )
            },
        },
    }
}

/// The identities are distinct and none is on record.
pub open spec fn all_fresh(old: ScanRegistry, ids: Seq<ScanId>) -> bool {
    &&& ids.no_duplicates()
    &&& forall|i: int| 0 <= i < ids.len() ==> !old.in_flight().contains_key(#[trigger] ids[i])
}

impl ScanCoordinator {
    /// Registers one scan per target under the given identities, in order.
    /// Unless there is one identity per target nothing is registered. An
    /// identity that is on record or occurs twice fails the call at that
    /// target; the targets before it stay registered.
    pub fn start_range(
        &mut self,
        targets: &Vec<IpAddress>,
        ids: &Vec<ScanId>,
        scan_type: &ScanType,
        now: Timestamp,
    ) -> (r: Result<(), ScanError>)
        ensures
            old(self).wf(),
            final(self).wf(),
            final(self).same_setup(old(self)),
            final(self).same_tool_permits(old(self)),
            final(self).limiter() == old(self).limiter(),
            r is Ok <==> ids.len() == targets.len() && all_fresh(old(self).registry(), ids@),
            ids.len() != targets.len() ==> final(self).registry() == old(self).registry(),
            ids.len() != targets.len() ==> (r matches Err(e) && e@ == (ScanErrorView::Validation {
                message: "One identity is needed per target"@,
            })),
            r is Ok ==> range_registered(
                old(self).registry(),
                final(self).registry(),
                targets@,
                ids@,
                scan_type@,
                now,
                ids@.len() as int,
            ),
            ids.len() == targets.len() ==> (r matches Err(e) ==> e@ == (ScanErrorView::Validation {
                message: "Scan is already active"@,
            }) && range_stopped(
                old(self).registry(),
                final(self).registry(),
                targets@,
                ids@,
                scan_type@,
                now,
            )),
    {
        proof {
            use_type_invariant(&self.registry);
        }
        if ids.len() != targets.len() {
            return Err(
                ScanError::Validation { message: "One identity is needed per target".to_owned() },
            );
        }
        let mut i: usize = 0;
        while i < targets.len()
            invariant
                i <= targets.len(),
                ids.len() == targets.len(),
                old(self).wf(),
                self.wf(),
                self.same_setup(old(self)),
                self.same_tool_permits(old(self)),
                self.limiter() == old(self).limiter(),
                all_fresh(old(self).registry(), ids@.take(i as int)),
                range_registered(
                    old(self).registry(),
                    self.registry(),
                    targets@,
                    ids@,
                    scan_type@,
                    now,
                    i as int,
                ),
            decreases targets.len() - i,
        {
            let target = ScanTarget {
                id: ids[i],
                ip: targets[i],
                hostname: None,
                ports: Vec::new(),
                scan_type: scan_type.clone(),
            };
            assert(target@ =~= range_target(ids@[i as int], targets@[i as int], scan_type@)) by {
                assert(target.ports@ =~= Seq::empty());
            }
            let ghost before = self.registry();
            match self.start_scan(target, now) {
                Ok(_) => {
                    proof {
                        let id = ids@[i as int];
                        assert(!before.in_flight().contains_key(id));
                        assert(!old(self).registry().in_flight().contains_key(id));
                        let done = ids@.take(i as int);
                        let next = ids@.take(i + 1);
                        assert forall|a: int, b: int| 0 <= a < b < next.len() implies #[trigger] next[a]
                            != #[trigger] next[b] by {
                            if b == i {
                                assert(before.in_flight().contains_key(ids@[a]));
                            } else {
                                assert(done[a] != done[b]);
                            }
                        }
                        assert(next.no_duplicates());
                        assert forall|k: int| 0 <= k < next.len() implies !old(
                            self,
                        ).registry().in_flight().contains_key(#[trigger] next[k]) by {
                            if k < i {
                                assert(done[k] == ids@[k]);
                            }
                        }
                        assert forall|k: int| 0 <= k < i + 1 implies {
                            &&& self.registry().scans().contains_key(#[trigger] ids@[k])
                            &&& self.registry().scans()[ids@[k]].target@ == range_target(
                                ids@[k],
                                targets@[k],
                                scan_type@,
                            )
                            &&& self.registry().scans()[ids@[k]].status is Queued
                            &&& self.registry().scans()[ids@[k]].start_time == now
                            &&& self.registry().in_flight().contains_key(ids@[k])
                        } by {
                            if k < i {
                                assert(before.scans().contains_key(ids@[k]));
                                assert(before.in_flight().contains_key(ids@[k]));
                                assert(ids@[k] != id);
                            }
                        }
                        assert forall|x: ScanId| #[trigger]
                            self.registry().in_flight().contains_key(x) implies old(
                            self,
                        ).registry().in_flight().contains_key(x) || exists|k: int|
                            0 <= k < i + 1 && ids@[k] == x by {
                            if x == id {
                                assert(ids@[i as int] == x);
                            } else {
                                assert(before.in_flight().contains_key(x));
                                if !old(self).registry().in_flight().contains_key(x) {
                                    let k = choose|k: int| 0 <= k < i && ids@[k] == x;
                                    assert(0 <= k < i + 1 && ids@[k] == x);
                                }
                            }
                        }
                        assert forall|x: ScanId| #[trigger]
                            self.registry().scans().contains_key(x) implies old(
                            self,
                        ).registry().scans().contains_key(x) || exists|k: int|
                            0 <= k < i + 1 && ids@[k] == x by {
                            if x == id {
                                assert(ids@[i as int] == x);
                            } else {
                                assert(before.scans().contains_key(x));
                                if !old(self).registry().scans().contains_key(x) {
                                    let k = choose|k: int| 0 <= k < i && ids@[k] == x;
                                    assert(0 <= k < i + 1 && ids@[k] == x);
                                }
                            }
                        }
                    }
                },
                Err(e) => {
                    proof {
                        let id = ids@[i as int];
                        assert(before.in_flight().contains_key(id));
                        if all_fresh(old(self).registry(), ids@) {
                            assert(!old(self).registry().in_flight().contains_key(ids@[i as int]));
                            let k = choose|k: int| 0 <= k < i && ids@[k] == id;
                            assert(ids@[k] == ids@[i as int]);
                        }
                        let next = ids@.take(i + 1);
                        if all_fresh(old(self).registry(), next) {
                            assert(!old(self).registry().in_flight().contains_key(next[i as int]));
                            let k = choose|k: int| 0 <= k < i && ids@[k] == id;
                            assert(next[k] == next[i as int]);
                        }
                        assert(range_registered(
                            old(self).registry(),
                            self.registry(),
                            targets@,
                            ids@,
                            scan_type@,
                            now,
                            i as int,
                        ));
                    }
                    return Err(e);
                },
            }
            i += 1;
        }
        assert(ids@.take(ids@.len() as int) =~= ids@);
        Ok(())
    }

    /// Expands `cidr`, leaves out the addresses of `excludes`, and registers
    /// one scan of mode `scan_type` per remaining address, each under a fresh
    /// identity. The identities come back in the order of the addresses. A
    /// range without addresses succeeds and registers nothing. Should a fresh
    /// identity be on record already, the call stops there with the targets
    /// before it registered.
    pub fn scan_network_range(
        &mut self,
        cidr: &str,
        excludes: &Vec<String>,
        scan_type: &ScanType,
        now: Timestamp,
    ) -> (r: Result<Vec<ScanId>, ScanError>)
        ensures
            old(self).wf(),
            final(self).wf(),
            final(self).same_setup(old(self)),
            final(self).same_tool_permits(old(self)),
            final(self).limiter() == old(self).limiter(),
            range_scan_gives(
                old(self).registry(),
                final(self).registry(),
                target_list(seq![cidr@], excludes.deep_view()),
                scan_type@,
                now,
                r,
            ),
    {
        proof {
            use_type_invariant(&self.registry);
        }
        let mut ranges: Vec<String> = Vec::new();
        ranges.push(cidr.to_owned());
        assert(ranges.deep_view() =~= seq![cidr@]);
        match InputValidator::validate_cidr(cidr) {
            Ok(_) => {},
            Err(e) => {
                proof {
                    let nets = crate::network::networks_of(seq![cidr@]);
                    assert(nets[0] is None);
                    reveal_with_fuel(crate::network::targets_of, 2);
                }
                return Err(e);
            },
        }
        let targets = match NetworkUtils::generate_target_list(&ranges, excludes) {
            Ok(t) => t,
            Err(e) => {
                return Err(e);
            },
        };
        let mut ids: Vec<ScanId> = Vec::new();
        let mut i: usize = 0;
        while i < targets.len()
            invariant
                i <= targets.len(),
                ids.len() == i,
            decreases targets.len() - i,
        {
            ids.push(new_scan_id());
            i += 1;
        }
        proof {
            if targets.len() == 0 {
                assert(ids@.no_duplicates());
                assert(all_fresh(self.registry(), ids@));
            }
        }
        let ghost listed = target_list(seq![cidr@], excludes.deep_view());
        assert(listed == Ok::<Seq<IpAddress>, ScanErrorView>(targets@));
        match self.start_range(&targets, &ids, scan_type, now) {
            Ok(_) => {
                assert(ids.len() == targets@.len());
                assert(all_fresh(old(self).registry(), ids@));
                assert(range_registered(
                    old(self).registry(),
                    self.registry(),
                    targets@,
                    ids@,
                    scan_type@,
                    now,
                    ids@.len() as int,
                ));
                Ok(ids)
            },
            Err(e) => {
                assert(targets@.len() != 0);
                assert(e@ == (ScanErrorView::Validation { message: "Scan is already active"@ }));
                assert(range_stopped(
                    old(self).registry(),
                    self.registry(),
                    targets@,
                    ids@,
                    scan_type@,
                    now,
                ));
                Err(e)
            },
        }
    }
}

/// The share of a range never falls as the targets go by, and never exceeds
/// the whole.
pub proof fn lemma_range_share_rises(i: nat, j: nat, total: nat)
    requires
        i <= j,
    ensures
        range_share(i, total) <= range_share(j, total) <= 10000,
{
    if total > 0 && j < total {
        assert(i * 10000 / total <= j * 10000 / total <= 10000) by (nonlinear_arith)
            requires
                i <= j < total,
                total > 0,
        ;
    } else if total > 0 && i < total {
        assert(i * 10000 / total <= 10000) by (nonlinear_arith)
            requires
                i < total,
                total > 0,
        ;
    }
}

} // verus!
