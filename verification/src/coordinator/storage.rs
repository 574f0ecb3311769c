//! What is written to the persistence boundary for one result, and in what
//! order.
//!
//! The storage calls themselves are made by the caller; a failed call ends the
//! sequence there, and what was written before it stays.

use crate::model::{
    CvssScore, IpAddress, OsDetectionView, Port, PortView, ScanResult, ScanResultView,
    VulnerabilityView,
};
use crate::network::{address_text, format_address};
use vstd::prelude::*;

verus! {

/// One call to the persistence boundary.
#[derive(Debug, PartialEq, Eq)]
pub enum StoreStep {
    /// Look the host up by its address.
    FindHost { address: String },
    /// Create the host if the lookup found none.
    CreateHostIfAbsent { address: String },
    /// Create a port record on the host.
    CreatePort { number: u16, protocol: String, state: String },
    /// Attach service, version and banner to the port record created by the
    /// step before.
    UpdatePortService { service: String, version: String, banner: Option<String> },
    /// Set the operating system fields of the host.
    UpdateHostOs { name: String, family: String, accuracy: u8 },
    /// Create a vulnerability record on the host, linked to no port.
    CreateVulnerability {
        name: String,
        severity: String,
        description: String,
        cvss_score: Option<CvssScore>,
    },
}

/// The view of a `StoreStep`.
pub enum StoreStepView {
    FindHost { address: Seq<char> },
    CreateHostIfAbsent { address: Seq<char> },
    CreatePort { number: u16, protocol: Seq<char>, state: Seq<char> },
    UpdatePortService { service: Seq<char>, version: Seq<char>, banner: Option<Seq<char>> },
    UpdateHostOs { name: Seq<char>, family: Seq<char>, accuracy: u8 },
    CreateVulnerability {
        name: Seq<char>,
        severity: Seq<char>,
        description: Seq<char>,
        cvss_score: Option<CvssScore>,
    },
}

impl View for StoreStep {
    type V = StoreStepView;

    open spec fn view(&self) -> StoreStepView {
        match self {
            StoreStep::FindHost { address } => StoreStepView::FindHost { address: address@ },
            StoreStep::CreateHostIfAbsent { address } => StoreStepView::CreateHostIfAbsent {
                address: address@,
            },
            StoreStep::CreatePort { number, protocol, state } => StoreStepView::CreatePort {
                number: *number,
                protocol: protocol@,
                state: state@,
            },
            StoreStep::UpdatePortService {
                service,
                version,
                banner,
            } => StoreStepView::UpdatePortService {
                service: service@,
                version: version@,
                banner: banner.deep_view(),
            },
            StoreStep::UpdateHostOs { name, family, accuracy } => StoreStepView::UpdateHostOs {
                name: name@,
                family: family@,
                accuracy: *accuracy,
            },
            StoreStep::CreateVulnerability {
                name,
                severity,
                description,
                cvss_score,
            } => StoreStepView::CreateVulnerability {
                name: name@,
                severity: severity@,
                description: description@,
                cvss_score: *cvss_score,
            },
        }
    }
}

impl DeepView for StoreStep {
    type V = StoreStepView;

    open spec fn deep_view(&self) -> StoreStepView {
        self@
    }
}

/// The steps for one port: its record, then its service fields where both
/// service and version are known.
pub open spec fn port_steps(p: PortView) -> Seq<StoreStepView> {
    let create = StoreStepView::CreatePort {
        number: p.number,
        protocol: p.protocol,
        state: p.state,
    };
    if p.service is Some && p.version is Some {
        seq![
            create,
            StoreStepView::UpdatePortService {
                service: p.service->0,
                version: p.version->0,
                banner: p.banner,
            },
        ]
    } else {
        seq![create]
    }
}

/// The steps for the ports up to index `n`, in order.
pub open spec fn ports_steps(ports: Seq<PortView>, n: int) -> Seq<StoreStepView>
    decreases n,
{
    if n <= 0 {
        Seq::empty()
    } else {
        ports_steps(ports, n - 1) + port_steps(ports[n - 1])
    }
}

/// The step for an operating system guess, if there is one.
pub open spec fn os_steps(os: Option<OsDetectionView>) -> Seq<StoreStepView> {
    match os {
        Some(os) => seq![
            StoreStepView::UpdateHostOs { name: os.name, family: os.family, accuracy: os.accuracy },
        ],
        None => Seq::empty(),
    }
}

/// The step for one vulnerability.
pub open spec fn vulnerability_step(v: VulnerabilityView) -> StoreStepView {
    StoreStepView::CreateVulnerability {
        name: v.name,
        severity: v.severity.name_spec(),
        description: v.description,
        cvss_score: v.cvss_score,
    }
}

/// The steps for the vulnerabilities, in order.
pub open spec fn vulnerabilities_steps(vs: Seq<VulnerabilityView>) -> Seq<StoreStepView> {
    Seq::new(vs.len(), |i: int| vulnerability_step(vs[i]))
}

/// Everything that is written for a result found at `address`: the host is
/// found or created, then every port in order, then the operating system
/// guess, then every vulnerability in order.
pub open spec fn storage_plan(address: IpAddress, result: ScanResultView) -> Seq<StoreStepView> {
    seq![
        StoreStepView::FindHost { address: address_text(address) },
        StoreStepView::CreateHostIfAbsent { address: address_text(address) },
    ] + ports_steps(result.open_ports, result.open_ports.len() as int) + os_steps(
        result.os_detection,
    ) + vulnerabilities_steps(result.vulnerabilities)
}

/// Appends the steps for one port.
fn push_port_steps(steps: &mut Vec<StoreStep>, port: &Port)
    ensures
        final(steps).deep_view() == old(steps).deep_view() + port_steps(port@),
{
    steps.push(
        StoreStep::CreatePort {
            number: port.number,
            protocol: port.protocol.clone(),
            state: port.state.clone(),
        },
    );
    match (&port.service, &port.version) {
        (Some(service), Some(version)) => {
            steps.push(
                StoreStep::UpdatePortService {
                    service: service.clone(),
                    version: version.clone(),
                    banner: crate::model::clone_opt_text(&port.banner),
                },
            );
        },
        _ => {},
    }
    assert(steps.deep_view() =~= old(steps).deep_view() + port_steps(port@));
}

/// The storage plan for `result`, found at `address`.
pub fn store_scan_result(address: &IpAddress, result: &ScanResult) -> (steps: Vec<StoreStep>)
    ensures
        steps.deep_view() == storage_plan(*address, result@),
{
    let mut steps: Vec<StoreStep> = Vec::new();
    steps.push(StoreStep::FindHost { address: format_address(address) });
    steps.push(StoreStep::CreateHostIfAbsent { address: format_address(address) });
    let ghost head = seq![
        StoreStepView::FindHost { address: address_text(*address) },
        StoreStepView::CreateHostIfAbsent { address: address_text(*address) },
    ];
    let ghost ports = result.open_ports.deep_view();
    assert(steps.deep_view() =~= head + ports_steps(ports, 0));
    let mut i: usize = 0;
    while i < result.open_ports.len()
        invariant
            i <= result.open_ports.len(),
            ports == result.open_ports.deep_view(),
            steps.deep_view() == head + ports_steps(ports, i as int),
        decreases result.open_ports.len() - i,
    {
        push_port_steps(&mut steps, &result.open_ports[i]);
        assert(ports[i as int] == result.open_ports@[i as int]@);
        assert(steps.deep_view() =~= head + ports_steps(ports, i + 1));
        i += 1;
    }
    let ghost after_ports = steps.deep_view();
    match &result.os_detection {
        Some(os) => {
            steps.push(
                StoreStep::UpdateHostOs {
                    name: os.name.clone(),
                    family: os.family.clone(),
                    accuracy: os.accuracy,
                },
            );
        },
        None => {},
    }
    assert(steps.deep_view() =~= after_ports + os_steps(result.os_detection.deep_view()));
    let ghost after_os = steps.deep_view();
    let ghost vulns = result.vulnerabilities.deep_view();
    let mut j: usize = 0;
    assert(steps.deep_view() =~= after_os + vulnerabilities_steps(vulns.take(0)));
    while j < result.vulnerabilities.len()
        invariant
            j <= result.vulnerabilities.len(),
            vulns == result.vulnerabilities.deep_view(),
            steps.deep_view() == after_os + vulnerabilities_steps(vulns.take(j as int)),
        decreases result.vulnerabilities.len() - j,
    {
        let v = &result.vulnerabilities[j];
        let ghost before = steps.deep_view();
        steps.push(
            StoreStep::CreateVulnerability {
                name: v.name.clone(),
                severity: v.severity.name(),
                description: v.description.clone(),
                cvss_score: v.cvss_score,
            },
        );
        assert(vulns[j as int] == result.vulnerabilities@[j as int]@);
        assert(steps.deep_view() =~= before.push(vulnerability_step(vulns[j as int])));
        assert(vulnerabilities_steps(vulns.take(j + 1)) =~= vulnerabilities_steps(
            vulns.take(j as int),
        ).push(vulnerability_step(vulns[j as int])));
        assert(steps.deep_view() =~= after_os + vulnerabilities_steps(vulns.take(j + 1)));
        j += 1;
    }
    assert(vulns.take(vulns.len() as int) =~= vulns);
    steps
}

} // verus!
