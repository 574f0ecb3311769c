//! The pipelines of the scan modes, as steps between the runs of the external
//! tools.
//!
//! The caller starts the tool that a step asks for, streams its output, and
//! hands the finished run back as the next event. Nothing here waits.

use crate::coordinator::storage::{storage_plan, store_scan_result, StoreStep};
use crate::error::{ScanError, ScanErrorView};
use crate::fresh::{new_scan_id, now_millis};
use crate::masscan::{
    progress_under,
    address_texts, common_args, Discovery, findings_of, MasscanScanner, progress_of, ProgressRule,
    top_ports, wraps,
};
use crate::model::{
    ScanType, ScanTypeView,
    IpAddress, Percent, Port, PortView, ScanProgress, ScanProgressView, ScanResult, ScanResultView,
    ScanStatus, ScanStatusView, ScanTarget,
};
use crate::network::{address_text, format_address};
use crate::nmap::{
    probe_progress,
    document_of, mode_flags, NmapScanner, Probe, probe_progress_of, xml_gives, xml_nodes,
};
use crate::process::{Invocation, ToolRun};
use crate::rate_limiter::{acquired, Bucket, RateLimiter};
use vstd::prelude::*;

verus! {

/// Where a pipeline stands.
#[derive(Clone, Copy, Debug, PartialEq, Eq, Structural)]
pub enum Phase {
    /// Nothing was started yet.
    Start,
    /// The discovery tool is running.
    Discovery,
    /// The probing tool is running.
    Probe,
    /// The pipeline waits for a token of the rate limiter.
    Throttled,
    /// The pipeline has ended.
    Finished,
}

/// What the caller reports to a pipeline.
#[derive(Debug)]
pub enum Event {
    /// The scan was admitted and its pipeline begins.
    Begin,
    /// The tool that the step before asked for has ended.
    Ended(ToolRun),
    /// The pause that the step before asked for is over.
    Woke,
}

/// What a finished pipeline hands over: the result, and what is to be written
/// for it.
#[derive(Debug)]
pub struct ScanOutput {
    pub result: ScanResult,
    pub store: Vec<StoreStep>,
}

/// What the caller is to do next.
#[derive(Debug)]
pub enum Action {
    /// Every permit is taken: come back with the same event when one is
    /// returned.
    AwaitPermit,
    /// Start this tool and report its run.
    Run(Invocation),
    /// Pause for this many milliseconds and report back.
    Sleep { millis: u64 },
    /// The pipeline ended with a result.
    Complete(ScanOutput),
    /// The pipeline ended with an error.
    Fail(ScanError),
}

/// One step of a pipeline.
#[derive(Debug)]
pub struct Step {
    /// Where the pipeline stands after the step.
    pub next: Phase,
    /// The progress that the run just ended reported, in order.
    pub progress: Vec<ScanProgress>,
    /// A progress anchor of the pipeline itself, sent after `progress`.
    pub announce: Option<ScanProgress>,
    /// The scan became running with this step: the running status is to be
    /// persisted before the action is carried out. Only the coordinator, which
    /// holds the permits, ever says so.
    pub record_running: bool,
    pub action: Action,
}

/// One of the two external tools.
#[derive(Clone, Copy, Debug, PartialEq, Eq, Structural)]
pub enum Tool {
    /// The wide-discovery tool.
    Discovery,
    /// The deep-probe tool.
    Probe,
}

/// The tool that runs while a pipeline stands in `phase`, if any does.
pub open spec fn tool_of(phase: Phase) -> Option<Tool> {
    match phase {
        Phase::Discovery => Some(Tool::Discovery),
        Phase::Probe => Some(Tool::Probe),
        _ => None,
    }
}

/// The tool that runs while a pipeline stands in `phase`, if any does.
pub fn tool_for(phase: Phase) -> (r: Option<Tool>)
    ensures
        r == tool_of(phase),
{
    match phase {
        Phase::Discovery => Some(Tool::Discovery),
        Phase::Probe => Some(Tool::Probe),
        _ => None,
    }
}

/// How the lines of the discovery tool are read for progress in a scan mode:
/// the quick sweep passes rate lines on whole, every other mode reads markers.
pub open spec fn rule_of(mode: ScanTypeView) -> ProgressRule {
    match mode {
        ScanTypeView::Quick => ProgressRule::RateLines,
        _ => ProgressRule::Markers,
    }
}

/// How the lines of the discovery tool are read for progress in the scan of
/// `target`.
pub fn progress_rule(target: &ScanTarget) -> (r: ProgressRule)
    ensures
        r == rule_of(target.scan_type@),
{
    match &target.scan_type {
        ScanType::Quick => ProgressRule::RateLines,
        _ => ProgressRule::Markers,
    }
}

/// The progress event that a line carries as it arrives, while the pipeline of
/// `target` stands in `phase`: a line of the discovery tool is read under the
/// rule of the scan mode, every line of the probing tool is an event, and no
/// line counts while no tool runs.
pub open spec fn live_progress(target: ScanTarget, phase: Phase, line: Seq<char>) -> Option<
    ScanProgressView,
> {
    match tool_of(phase) {
        Some(Tool::Discovery) => progress_under(rule_of(target.scan_type@), line),
        Some(Tool::Probe) => Some(probe_progress(line)),
        None => None,
    }
}

/// Reads a line that a tool wrote, as it arrives, for the progress it carries.
pub fn line_progress(
    masscan: &MasscanScanner,
    nmap: &NmapScanner,
    target: &ScanTarget,
    phase: Phase,
    line: &str,
) -> (r: Option<ScanProgress>)
    ensures
        r.deep_view() == live_progress(*target, phase, line@),
{
    match tool_for(phase) {
        Some(Tool::Discovery) => masscan.decode_line(line, progress_rule(target)).progress,
        Some(Tool::Probe) => match nmap.parse_nmap_progress(line) {
            Ok(p) => Some(p),
            Err(_) => None,
        },
        None => None,
    }
}

/// The progress that a step reports for a run that ended is the progress that
/// its lines carried as they arrived: for the quick and the comprehensive scan
/// the rule of the mode is the rule by which the ended run is read.
pub proof fn lemma_live_progress_agrees(target: ScanTarget, line: Seq<char>)
    ensures
        target.scan_type is Quick ==> live_progress(target, Phase::Discovery, line)
            == progress_under(ProgressRule::RateLines, line),
        target.scan_type is Comprehensive ==> live_progress(target, Phase::Discovery, line)
            == progress_under(ProgressRule::Markers, line),
        live_progress(target, Phase::Probe, line) == Some(probe_progress(line)),
{
}

/// The pause between two requests to the rate limiter, in milliseconds.
pub const BACKOFF_MILLIS: u64 = 100;

/// The number of most common ports that a quick scan sweeps.
pub const QUICK_TOP_PORTS: usize = 100;

/// A step that ends the pipeline because the event does not fit the phase.
pub open spec fn is_misuse(step: Step) -> bool {
    &&& step.next == Phase::Finished
    &&& step.progress@.len() == 0
    &&& step.announce is None
    &&& step.action matches Action::Fail(e) && e@ == (ScanErrorView::Validation {
        message: "Unexpected event"@,
    })
}

/// A step that starts a tool and says nothing else.
pub open spec fn runs(step: Step, next: Phase, program: Seq<char>, args: Seq<Seq<char>>) -> bool {
    &&& step.next == next
    &&& step.progress@.len() == 0
    &&& step.action matches Action::Run(inv) && inv@.program == program && inv@.args == args
}

/// A step that ends the pipeline with `e`.
pub open spec fn fails_with(step: Step, e: ScanErrorView) -> bool {
    &&& step.next == Phase::Finished
    &&& step.announce is None
    &&& step.action matches Action::Fail(err) && err@ == e
}

/// The result of a quick scan of `target_id`: completed, with every finding of
/// the discovery run in the order of the run, and nothing else.
pub open spec fn quick_result(
    findings: Seq<PortView>,
    id: u128,
    target_id: u128,
    timestamp: i64,
) -> ScanResultView {
    ScanResultView {
        id,
        target_id,
        timestamp,
        status: ScanStatusView::Completed,
        open_ports: findings,
        os_detection: None,
        vulnerabilities: Seq::empty(),
    }
}

/// What a quick scan hands over for the findings of its discovery run: one
/// completed result of the target that holds all of them, stored under the
/// target's address. Where there is no finding the result is empty and nothing
/// is stored for it.
pub open spec fn quick_output(findings: Seq<PortView>, target: ScanTarget, out: ScanOutput) -> bool {
    &&& out.result@ == quick_result(findings, out.result.id, target.id, out.result.timestamp)
    &&& out.store.deep_view() == if findings.len() == 0 {
        Seq::empty()
    } else {
        storage_plan(target.ip, out.result@)
    }
}

/// Gathers the findings of the results of a discovery run, in order.
fn gather_findings(results: &Vec<ScanResult>, Ghost(findings): Ghost<Seq<PortView>>) -> (ports: Vec<
    Port,
>)
    requires
        wraps(results.deep_view(), findings),
    ensures
        ports.deep_view() == findings,
{
    let mut ports: Vec<Port> = Vec::new();
    let mut i: usize = 0;
    while i < results.len()
        invariant
            i <= results.len(),
            wraps(results.deep_view(), findings),
            ports.len() == i,
            forall|j: int| 0 <= j < i ==> (#[trigger] ports@[j])@ == findings[j],
        decreases results.len() - i,
    {
        assert(results.deep_view()[i as int] == results@[i as int]@);
        assert(results@[i as int].open_ports.deep_view() =~= seq![findings[i as int]]);
        assert(results@[i as int].open_ports.deep_view()[0] == results@[i as int].open_ports@[0]@);
        ports.push(results[i].open_ports[0].clone());
        i += 1;
    }
    assert(ports.deep_view() =~= findings);
    ports
}

/// What the end of a probe gives, step by step: a failed run or a document
/// that cannot be decoded ends the pipeline with the error; else the result is
/// handed over with its storage plan.
pub open spec fn probe_step(target: ScanTarget, run: ToolRun, step: Step) -> bool {
    &&& step.next == Phase::Finished
    &&& step.announce is None
    &&& if !run.succeeded {
        &&& step.progress@.len() == 0
        &&& step.action matches Action::Fail(e) && e@ == (ScanErrorView::ToolExit {
            message: "Nmap scan failed: "@ + run.stderr@,
        })
    } else {
        match step.action {
            Action::Complete(out) => {
                &&& step.progress.deep_view() == probe_progress_of(run.lines.deep_view())
                &&& xml_gives(
                    xml_nodes(document_of(run.lines.deep_view())),
                    target.id,
                    Ok(out.result),
                )
                &&& out.store.deep_view() == storage_plan(target.ip, out.result@)
            },
            Action::Fail(e) => xml_gives(
                xml_nodes(document_of(run.lines.deep_view())),
                target.id,
                Err(e),
            ),
            _ => false,
        }
    }
}

fn misuse() -> (step: Step)
    ensures
        is_misuse(step),
        !step.record_running,
{
    Step {
        next: Phase::Finished,
        progress: Vec::new(),
        announce: None,
        record_running: false,
        action: Action::Fail(ScanError::Validation { message: "Unexpected event".to_owned() }),
    }
}

fn run_step(next: Phase, announce: Option<ScanProgress>, inv: Invocation) -> (step: Step)
    ensures
        runs(step, next, inv@.program, inv@.args),
        step.announce == announce,
        !step.record_running,
{
    Step { next, progress: Vec::new(), announce, record_running: false, action: Action::Run(inv) }
}

/// Reads the end of a probe of `target`.
pub fn finish_probe(nmap: &NmapScanner, target: &ScanTarget, run: &ToolRun) -> (step: Step)
    ensures
        probe_step(*target, *run, step),
        !step.record_running,
{
    match nmap.scan_target(target, run) {
        Ok(probe) => {
            let Probe { progress, result } = probe;
            let store = store_scan_result(&target.ip, &result);
            Step {
                next: Phase::Finished,
                progress,
                announce: None,
                record_running: false,
                action: Action::Complete(ScanOutput { result, store }),
            }
        },
        Err(e) => Step {
            next: Phase::Finished,
            progress: Vec::new(),
            announce: None,
            record_running: false,
            action: Action::Fail(e),
        },
    }
}

/// The steps of the quick pipeline.
pub open spec fn quick_step(masscan: MasscanScanner, target: ScanTarget, phase: Phase, event: Event, step: Step) -> bool {
    match (phase, event) {
        (Phase::Start, Event::Begin) => runs(
            step,
            Phase::Discovery,
            "masscan"@,
            seq![address_text(target.ip)] + common_args(top_ports(), masscan.max_rate),
        ) && step.announce is None,
        (Phase::Discovery, Event::Ended(run)) => if run.succeeded {
            &&& step.next == Phase::Finished
            &&& step.announce is None
            &&& step.progress.deep_view() == progress_of(
                ProgressRule::RateLines,
                run.lines.deep_view(),
            )
            &&& step.action matches Action::Complete(out) && quick_output(
                findings_of(run.lines.deep_view()),
                target,
                out,
            )
        } else {
            &&& step.progress@.len() == 0
            &&& fails_with(
                step,
                ScanErrorView::ToolExit {
                    message: "Masscan port discovery failed: "@ + run.stderr@,
                },
            )
        },
        _ => is_misuse(step),
    }
}

/// The steps of the comprehensive pipeline.
pub open spec fn comprehensive_step(masscan: MasscanScanner, target: ScanTarget, phase: Phase, event: Event, step: Step) -> bool {
    match (phase, event) {
        (Phase::Start, Event::Begin) => {
            &&& runs(
                step,
                Phase::Discovery,
                "masscan"@,
                seq![address_text(target.ip)] + common_args(Seq::empty(), masscan.max_rate)
                    + seq!["--banners"@],
            )
            &&& step.announce.deep_view() == Some(anchor(10, "Starting port discovery..."@))
        },
        (Phase::Discovery, Event::Ended(run)) => if run.succeeded {
            &&& step.next == Phase::Probe
            &&& step.progress.deep_view() == progress_of(
                ProgressRule::Markers,
                run.lines.deep_view(),
            )
            &&& step.announce.deep_view() == Some(
                anchor(50, "Performing detailed analysis..."@),
            )
            &&& step.action matches Action::Run(inv) && inv@.program == "nmap"@ && inv@.args
                == probe_args(target)
        } else {
            &&& step.progress@.len() == 0
            &&& fails_with(
                step,
                ScanErrorView::ToolExit { message: "Masscan failed: "@ + run.stderr@ },
            )
        },
        (Phase::Probe, Event::Ended(run)) => probe_step(target, run, step),
        _ => is_misuse(step),
    }
}

/// The steps of the stealth pipeline, from the limiter `before` to the limiter
/// `after`.
pub open spec fn stealth_step(before: Bucket, after: Bucket, target: ScanTarget, phase: Phase, event: Event, step: Step) -> bool {
    match (phase, event) {
        (Phase::Start, Event::Begin) | (Phase::Throttled, Event::Woke) => {
            &&& step.announce is None
            &&& step.progress@.len() == 0
            &&& exists|now: nat|
                #![trigger acquired(before, now)]
                {
                    &&& acquired(before, now).0 == after
                    &&& if acquired(before, now).1 {
                        runs(step, Phase::Probe, "nmap"@, probe_args(target))
                    } else {
                        step.next == Phase::Throttled && step.action == (Action::Sleep {
                            millis: BACKOFF_MILLIS,
                        })
                    }
                }
        },
        (Phase::Probe, Event::Ended(run)) => probe_step(target, run, step) && after
            == before,
        _ => is_misuse(step) && after == before,
    }
}

/// The steps of the custom pipeline.
pub open spec fn custom_step(target: ScanTarget, phase: Phase, event: Event, step: Step) -> bool {
    match (phase, event) {
        (Phase::Start, Event::Begin) => runs(step, Phase::Probe, "nmap"@, probe_args(target))
            && step.announce is None,
        (Phase::Probe, Event::Ended(run)) => probe_step(target, run, step),
        _ => is_misuse(step),
    }
}

/// The quick pipeline: one sweep of the most common ports with the discovery
/// tool. No open port is no error: the scan completes with an empty result.
pub fn execute_quick_scan(
    masscan: &MasscanScanner,
    target: &ScanTarget,
    phase: Phase,
    event: Event,
) -> (step: Step)
    ensures
        quick_step(*masscan, *target, phase, event, step),
        !step.record_running,
{
    match (phase, event) {
        (Phase::Start, Event::Begin) => {
            let address = format_address(&target.ip);
            let inv = masscan.fast_port_discovery_command(address.as_str(), QUICK_TOP_PORTS);
            assert(top_ports().take(20) =~= top_ports());
            run_step(Phase::Discovery, None, inv)
        },
        (Phase::Discovery, Event::Ended(run)) => {
            match masscan.fast_port_discovery(&run) {
                Ok(discovery) => {
                    let Discovery { progress, results } = discovery;
                    let ghost findings = findings_of(run.lines.deep_view());
                    let open_ports = gather_findings(&results, Ghost(findings));
                    let result = ScanResult {
                        id: new_scan_id(),
                        target_id: target.id,
                        timestamp: now_millis(),
                        status: ScanStatus::Completed,
                        open_ports,
                        os_detection: None,
                        vulnerabilities: Vec::new(),
                    };
                    assert(result.vulnerabilities.deep_view() =~= Seq::empty());
                    let store = if result.open_ports.len() > 0 {
                        store_scan_result(&target.ip, &result)
                    } else {
                        let none: Vec<StoreStep> = Vec::new();
                        assert(none.deep_view() =~= Seq::empty());
                        none
                    };
                    let out = ScanOutput { result, store };
                    Step {
                        next: Phase::Finished,
                        progress,
                        announce: None,
                        record_running: false,
                        action: Action::Complete(out),
                    }
                },
                Err(e) => Step {
                    next: Phase::Finished,
                    progress: Vec::new(),
                    announce: None,
                    record_running: false,
                    action: Action::Fail(e),
                },
            }
        },
        _ => misuse(),
    }
}

/// The arguments of a probe of `target`.
pub open spec fn probe_args(target: ScanTarget) -> Seq<Seq<char>> {
    seq!["-oX"@, "-"@] + mode_flags(target.scan_type@) + seq![address_text(target.ip)]
}

/// A progress anchor of the pipeline: a whole share and a message.
pub open spec fn anchor(percent: nat, message: Seq<char>) -> ScanProgressView {
    ScanProgressView { percent: Percent { hundredths: (percent * 100) as u32 }, message, eta: None }
}

fn announce(percent: u32, message: &str) -> (p: ScanProgress)
    requires
        percent <= 100,
    ensures
        p@ == anchor(percent as nat, message@),
{
    ScanProgress { percent: Percent::whole(percent), message: message.to_owned(), eta: None }
}

/// The comprehensive pipeline: a discovery of the target on every port,
/// announced at 10 %, then a probe of the same target, announced at 50 %. Only
/// what the probe finds is handed over.
pub fn execute_comprehensive_scan(
    masscan: &MasscanScanner,
    nmap: &NmapScanner,
    target: &ScanTarget,
    phase: Phase,
    event: Event,
) -> (step: Step)
    ensures
        comprehensive_step(*masscan, *target, phase, event, step),
        !step.record_running,
{
    match (phase, event) {
        (Phase::Start, Event::Begin) => {
            let mut targets: Vec<IpAddress> = Vec::new();
            targets.push(target.ip);
            let ports: Vec<u16> = Vec::new();
            let inv = masscan.configure_masscan_command(&targets, &ports);
            assert(address_texts(targets@) =~= seq![address_text(target.ip)]);
            assert(ports@ =~= Seq::empty());
            run_step(Phase::Discovery, Some(announce(10, "Starting port discovery...")), inv)
        },
        (Phase::Discovery, Event::Ended(run)) => {
            match masscan.scan_range(&run) {
                Ok(discovery) => {
                    let Discovery { progress, results: _ } = discovery;
                    Step {
                        next: Phase::Probe,
                        progress,
                        announce: Some(announce(50, "Performing detailed analysis...")),
                        record_running: false,
                        action: Action::Run(nmap.configure_nmap_command(target)),
                    }
                },
                Err(e) => Step {
                    next: Phase::Finished,
                    progress: Vec::new(),
                    announce: None,
                    record_running: false,
                    action: Action::Fail(e),
                },
            }
        },
        (Phase::Probe, Event::Ended(run)) => finish_probe(nmap, target, &run),
        _ => misuse(),
    }
}

/// The stealth pipeline: the rate limiter is asked for a token, with a pause
/// after every refusal, and once a token is granted the target is probed.
pub fn execute_stealth_scan(
    nmap: &NmapScanner,
    limiter: &mut RateLimiter,
    target: &ScanTarget,
    phase: Phase,
    event: Event,
) -> (step: Step)
    ensures
        stealth_step(old(limiter)@, final(limiter)@, *target, phase, event, step),
        !step.record_running,
{
    match (phase, event) {
        (Phase::Start, Event::Begin) | (Phase::Throttled, Event::Woke) => {
            if limiter.acquire() {
                run_step(Phase::Probe, None, nmap.configure_nmap_command(target))
            } else {
                Step {
                    next: Phase::Throttled,
                    progress: Vec::new(),
                    announce: None,
                    record_running: false,
                    action: Action::Sleep { millis: BACKOFF_MILLIS },
                }
            }
        },
        (Phase::Probe, Event::Ended(run)) => finish_probe(nmap, target, &run),
        _ => misuse(),
    }
}

/// The custom pipeline: one probe with the caller's options.
pub fn execute_custom_scan(nmap: &NmapScanner, target: &ScanTarget, phase: Phase, event: Event) -> (step:
    Step)
    ensures
        custom_step(*target, phase, event, step),
        !step.record_running,
{
    match (phase, event) {
        (Phase::Start, Event::Begin) => run_step(
            Phase::Probe,
            None,
            nmap.configure_nmap_command(target),
        ),
        (Phase::Probe, Event::Ended(run)) => finish_probe(nmap, target, &run),
        _ => misuse(),
    }
}

/// Every result that a quick scan hands over is a completed result of its
/// target and holds every finding of the run.
pub proof fn lemma_quick_output_names_its_target(
    findings: Seq<PortView>,
    target: ScanTarget,
    out: ScanOutput,
)
    requires
        quick_output(findings, target, out),
    ensures
        out.result.target_id == target.id,
        out.result@.status == ScanStatusView::Completed,
        out.result@.open_ports == findings,
{
}

/// Every result that a probe hands over is a completed result of its target.
pub proof fn lemma_probe_output_names_its_target(target: ScanTarget, run: ToolRun, step: Step)
    requires
        probe_step(target, run, step),
    ensures
        step.action matches Action::Complete(out) ==> out.result.target_id == target.id
            && out.result@.status == ScanStatusView::Completed,
{
}

} // verus!
