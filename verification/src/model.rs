//! The data exchanged between the coordinator, the tool executors and the
//! persistence boundary.
//!
//! Each type that holds text has a view in which `String` is `Seq<char>` and
//! `Vec` is `Seq`; contracts speak of those views.

use vstd::prelude::*;

verus! {

/// Identity of a scan attempt or of a result: 128 opaque bits.
pub type ScanId = u128;

/// Milliseconds since the Unix epoch.
pub type Timestamp = i64;

/// An IP address as its number: 32 bits for IPv4, 128 bits for IPv6, most
/// significant octet first.
#[derive(Clone, Copy, Debug, PartialEq, Eq, Hash, Structural)]
pub enum IpAddress {
    V4(u32),
    V6(u128),
}

/// A share of work done, in hundredths of a percent.
#[derive(Clone, Copy, Debug, PartialEq, Eq, Structural)]
pub struct Percent {
    pub hundredths: u32,
}

impl Percent {
    /// Between 0 % and 100 %.
    pub open spec fn wf(self) -> bool {
        self.hundredths <= 10000
    }

    /// Nothing done.
    pub fn zero() -> (p: Percent)
        ensures
            p.hundredths == 0,
            p.wf(),
    {
        Percent { hundredths: 0 }
    }

    /// A whole number of percent, at most a hundred.
    pub fn whole(percent: u32) -> (p: Percent)
        ensures
            p.hundredths == if percent <= 100 {
                percent * 100
            } else {
                10000
            },
            p.wf(),
    {
        if percent <= 100 {
            Percent { hundredths: percent * 100 }
        } else {
            Percent { hundredths: 10000 }
        }
    }
}

/// How thoroughly a target is scanned.
#[derive(Debug, PartialEq, Eq)]
pub enum ScanType {
    Quick,
    Comprehensive,
    Stealth,
    Custom { options: String },
}

/// The view of a `ScanType`.
pub enum ScanTypeView {
    Quick,
    Comprehensive,
    Stealth,
    Custom { options: Seq<char> },
}

impl View for ScanType {
    type V = ScanTypeView;

    open spec fn view(&self) -> ScanTypeView {
        match self {
            ScanType::Quick => ScanTypeView::Quick,
            ScanType::Comprehensive => ScanTypeView::Comprehensive,
            ScanType::Stealth => ScanTypeView::Stealth,
            ScanType::Custom { options } => ScanTypeView::Custom { options: options@ },
        }
    }
}

impl DeepView for ScanType {
    type V = ScanTypeView;

    open spec fn deep_view(&self) -> ScanTypeView {
        self@
    }
}

impl Clone for ScanType {
    fn clone(&self) -> (r: Self)
        ensures
            r@ == self@,
    {
        match self {
            ScanType::Quick => ScanType::Quick,
            ScanType::Comprehensive => ScanType::Comprehensive,
            ScanType::Stealth => ScanType::Stealth,
            ScanType::Custom { options } => ScanType::Custom { options: options.clone() },
        }
    }
}

/// The state of a scan attempt. `Queued` and `Running` are transient; the
/// other three are terminal.
#[derive(Debug, PartialEq, Eq)]
pub enum ScanStatus {
    Queued,
    Running,
    Completed,
    Failed { error: String },
    Cancelled,
}

/// The view of a `ScanStatus`.
pub enum ScanStatusView {
    Queued,
    Running,
    Completed,
    Failed { error: Seq<char> },
    Cancelled,
}

impl View for ScanStatus {
    type V = ScanStatusView;

    open spec fn view(&self) -> ScanStatusView {
        match self {
            ScanStatus::Queued => ScanStatusView::Queued,
            ScanStatus::Running => ScanStatusView::Running,
            ScanStatus::Completed => ScanStatusView::Completed,
            ScanStatus::Failed { error } => ScanStatusView::Failed { error: error@ },
            ScanStatus::Cancelled => ScanStatusView::Cancelled,
        }
    }
}

impl DeepView for ScanStatus {
    type V = ScanStatusView;

    open spec fn deep_view(&self) -> ScanStatusView {
        self@
    }
}

impl Clone for ScanStatus {
    fn clone(&self) -> (r: Self)
        ensures
            r@ == self@,
    {
        match self {
            ScanStatus::Queued => ScanStatus::Queued,
            ScanStatus::Running => ScanStatus::Running,
            ScanStatus::Completed => ScanStatus::Completed,
            ScanStatus::Failed { error } => ScanStatus::Failed { error: error.clone() },
            ScanStatus::Cancelled => ScanStatus::Cancelled,
        }
    }
}

impl ScanStatus {
    /// No transition leaves a terminal status.
    pub open spec fn is_terminal_spec(&self) -> bool {
        self is Completed || self is Failed || self is Cancelled
    }

    /// Whether the status is terminal.
    #[verifier::when_used_as_spec(is_terminal_spec)]
    pub fn is_terminal(&self) -> (b: bool)
        ensures
            b == self.is_terminal_spec(),
    {
        match self {
            ScanStatus::Queued => false,
            ScanStatus::Running => false,
            _ => true,
        }
    }

    /// The transitions of the state machine:
    /// `Queued -> Running -> {Completed | Failed | Cancelled}`, and a queued
    /// scan may be cancelled or fail before it runs.
    pub open spec fn may_become(&self, next: ScanStatus) -> bool {
        match self {
            ScanStatus::Queued => next is Running || next is Failed || next is Cancelled,
            ScanStatus::Running => next.is_terminal_spec(),
            _ => false,
        }
    }

    /// Whether the state machine allows the step from `self` to `next`.
    pub fn can_transition_to(&self, next: &ScanStatus) -> (b: bool)
        ensures
            b == self.may_become(*next),
    {
        match self {
            ScanStatus::Queued => match next {
                ScanStatus::Running => true,
                ScanStatus::Failed { .. } => true,
                ScanStatus::Cancelled => true,
                _ => false,
            },
            ScanStatus::Running => next.is_terminal(),
            _ => false,
        }
    }
}

/// Copies a text that may be absent.
pub fn clone_opt_text(t: &Option<String>) -> (r: Option<String>)
    ensures
        r.deep_view() == t.deep_view(),
{
    match t {
        Some(s) => Some(s.clone()),
        None => None,
    }
}

/// Copies a list of texts.
pub fn clone_texts(v: &Vec<String>) -> (r: Vec<String>)
    ensures
        r.deep_view() == v.deep_view(),
{
    let mut r: Vec<String> = Vec::new();
    let mut i: usize = 0;
    while i < v.len()
        invariant
            i <= v.len(),
            r.len() == i,
            forall|j: int| 0 <= j < i ==> r@[j]@ == v@[j]@,
        decreases v.len() - i,
    {
        r.push(v[i].clone());
        i += 1;
    }
    assert(r.deep_view() =~= v.deep_view());
    r
}

/// One discovered port: its state and what is known of the service behind it.
#[derive(Debug, PartialEq, Eq)]
pub struct Port {
    pub number: u16,
    pub protocol: String,
    pub state: String,
    pub service: Option<String>,
    pub version: Option<String>,
    pub banner: Option<String>,
}

/// The view of a `Port`.
pub struct PortView {
    pub number: u16,
    pub protocol: Seq<char>,
    pub state: Seq<char>,
    pub service: Option<Seq<char>>,
    pub version: Option<Seq<char>>,
    pub banner: Option<Seq<char>>,
}

impl View for Port {
    type V = PortView;

    open spec fn view(&self) -> PortView {
        PortView {
            number: self.number,
            protocol: self.protocol@,
            state: self.state@,
            service: self.service.deep_view(),
            version: self.version.deep_view(),
            banner: self.banner.deep_view(),
        }
    }
}

impl DeepView for Port {
    type V = PortView;

    open spec fn deep_view(&self) -> PortView {
        self@
    }
}

impl Clone for Port {
    fn clone(&self) -> (r: Self)
        ensures
            r@ == self@,
    {
        Port {
            number: self.number,
            protocol: self.protocol.clone(),
            state: self.state.clone(),
            service: clone_opt_text(&self.service),
            version: clone_opt_text(&self.version),
            banner: clone_opt_text(&self.banner),
        }
    }
}

/// A guess at the operating system of a host, with a confidence from 0 to 100.
#[derive(Debug, PartialEq, Eq)]
pub struct OsDetection {
    pub name: String,
    pub accuracy: u8,
    pub family: String,
    pub vendor: String,
}

/// The view of an `OsDetection`.
pub struct OsDetectionView {
    pub name: Seq<char>,
    pub accuracy: u8,
    pub family: Seq<char>,
    pub vendor: Seq<char>,
}

impl View for OsDetection {
    type V = OsDetectionView;

    open spec fn view(&self) -> OsDetectionView {
        OsDetectionView {
            name: self.name@,
            accuracy: self.accuracy,
            family: self.family@,
            vendor: self.vendor@,
        }
    }
}

impl DeepView for OsDetection {
    type V = OsDetectionView;

    open spec fn deep_view(&self) -> OsDetectionView {
        self@
    }
}

impl Clone for OsDetection {
    fn clone(&self) -> (r: Self)
        ensures
            r@ == self@,
    {
        OsDetection {
            name: self.name.clone(),
            accuracy: self.accuracy,
            family: self.family.clone(),
            vendor: self.vendor.clone(),
        }
    }
}

/// How grave a vulnerability is: `Info < Low < Medium < High < Critical`.
#[derive(Clone, Copy, Debug, PartialEq, Eq, Hash, Structural)]
pub enum Severity {
    Info,
    Low,
    Medium,
    High,
    Critical,
}

impl Severity {
    /// The place of a severity in the order, from 0 (`Info`) to 4 (`Critical`).
    pub open spec fn rank_spec(&self) -> nat {
        match self {
            Severity::Info => 0,
            Severity::Low => 1,
            Severity::Medium => 2,
            Severity::High => 3,
            Severity::Critical => 4,
        }
    }

    /// The place of the severity in the order.
    pub fn rank(&self) -> (r: u8)
        ensures
            r == self.rank_spec(),
    {
        match self {
            Severity::Info => 0,
            Severity::Low => 1,
            Severity::Medium => 2,
            Severity::High => 3,
            Severity::Critical => 4,
        }
    }

    /// Whether `self` is at least as grave as `other`.
    pub fn at_least(&self, other: &Severity) -> (b: bool)
        ensures
            b == (self.rank_spec() >= other.rank_spec()),
    {
        self.rank() >= other.rank()
    }

    /// The name of the severity, as the persistence boundary stores it.
    pub open spec fn name_spec(&self) -> Seq<char> {
        match self {
            Severity::Info => "Info"@,
            Severity::Low => "Low"@,
            Severity::Medium => "Medium"@,
            Severity::High => "High"@,
            Severity::Critical => "Critical"@,
        }
    }

    /// The name of the severity.
    pub fn name(&self) -> (r: String)
        ensures
            r@ == self.name_spec(),
    {
        match self {
            Severity::Info => "Info".to_owned(),
            Severity::Low => "Low".to_owned(),
            Severity::Medium => "Medium".to_owned(),
            Severity::High => "High".to_owned(),
            Severity::Critical => "Critical".to_owned(),
        }
    }
}

/// The order of severities is total and strict between distinct ones.
pub proof fn lemma_severity_order(a: Severity, b: Severity)
    ensures
        a.rank_spec() == b.rank_spec() <==> a == b,
        a.rank_spec() <= 4,
        Severity::Info.rank_spec() < Severity::Low.rank_spec() < Severity::Medium.rank_spec()
            < Severity::High.rank_spec() < Severity::Critical.rank_spec(),
{
}

/// A CVSS score from 0.0 to 10.0, in tenths.
#[derive(Clone, Copy, Debug, PartialEq, Eq, Structural)]
pub struct CvssScore {
    pub tenths: u8,
}

/// A vulnerability found on a host.
#[derive(Debug, PartialEq, Eq)]
pub struct Vulnerability {
    pub id: String,
    pub name: String,
    pub severity: Severity,
    pub description: String,
    pub cvss_score: Option<CvssScore>,
    pub references: Vec<String>,
}

/// The view of a `Vulnerability`.
pub struct VulnerabilityView {
    pub id: Seq<char>,
    pub name: Seq<char>,
    pub severity: Severity,
    pub description: Seq<char>,
    pub cvss_score: Option<CvssScore>,
    pub references: Seq<Seq<char>>,
}

impl View for Vulnerability {
    type V = VulnerabilityView;

    open spec fn view(&self) -> VulnerabilityView {
        VulnerabilityView {
            id: self.id@,
            name: self.name@,
            severity: self.severity,
            description: self.description@,
            cvss_score: self.cvss_score,
            references: self.references.deep_view(),
        }
    }
}

impl DeepView for Vulnerability {
    type V = VulnerabilityView;

    open spec fn deep_view(&self) -> VulnerabilityView {
        self@
    }
}

impl Clone for Vulnerability {
    fn clone(&self) -> (r: Self)
        ensures
            r@ == self@,
    {
        Vulnerability {
            id: self.id.clone(),
            name: self.name.clone(),
            severity: self.severity,
            description: self.description.clone(),
            cvss_score: self.cvss_score,
            references: clone_texts(&self.references),
        }
    }
}

/// Copies a list of ports.
pub fn clone_ports(v: &Vec<Port>) -> (r: Vec<Port>)
    ensures
        r.deep_view() == v.deep_view(),
{
    let mut r: Vec<Port> = Vec::new();
    let mut i: usize = 0;
    while i < v.len()
        invariant
            i <= v.len(),
            r.len() == i,
            forall|j: int| 0 <= j < i ==> r@[j]@ == v@[j]@,
        decreases v.len() - i,
    {
        r.push(v[i].clone());
        i += 1;
    }
    assert(r.deep_view() =~= v.deep_view());
    r
}

/// Copies a list of vulnerabilities.
pub fn clone_vulnerabilities(v: &Vec<Vulnerability>) -> (r: Vec<Vulnerability>)
    ensures
        r.deep_view() == v.deep_view(),
{
    let mut r: Vec<Vulnerability> = Vec::new();
    let mut i: usize = 0;
    while i < v.len()
        invariant
            i <= v.len(),
            r.len() == i,
            forall|j: int| 0 <= j < i ==> r@[j]@ == v@[j]@,
        decreases v.len() - i,
    {
        r.push(v[i].clone());
        i += 1;
    }
    assert(r.deep_view() =~= v.deep_view());
    r
}

/// What is to be scanned, and how. One per scan attempt.
#[derive(Debug, PartialEq, Eq)]
pub struct ScanTarget {
    pub id: ScanId,
    pub ip: IpAddress,
    pub hostname: Option<String>,
    pub ports: Vec<u16>,
    pub scan_type: ScanType,
}

/// The view of a `ScanTarget`.
pub struct ScanTargetView {
    pub id: ScanId,
    pub ip: IpAddress,
    pub hostname: Option<Seq<char>>,
    pub ports: Seq<u16>,
    pub scan_type: ScanTypeView,
}

impl View for ScanTarget {
    type V = ScanTargetView;

    open spec fn view(&self) -> ScanTargetView {
        ScanTargetView {
            id: self.id,
            ip: self.ip,
            hostname: self.hostname.deep_view(),
            ports: self.ports@,
            scan_type: self.scan_type@,
        }
    }
}

impl DeepView for ScanTarget {
    type V = ScanTargetView;

    open spec fn deep_view(&self) -> ScanTargetView {
        self@
    }
}

impl Clone for ScanTarget {
    fn clone(&self) -> (r: Self)
        ensures
            r@ == self@,
    {
        let mut ports: Vec<u16> = Vec::new();
        let mut i: usize = 0;
        while i < self.ports.len()
            invariant
                i <= self.ports.len(),
                ports@ == self.ports@.subrange(0, i as int),
            decreases self.ports.len() - i,
        {
            ports.push(self.ports[i]);
            i += 1;
        }
        assert(ports@ =~= self.ports@);
        ScanTarget {
            id: self.id,
            ip: self.ip,
            hostname: clone_opt_text(&self.hostname),
            ports,
            scan_type: self.scan_type.clone(),
        }
    }
}

/// What one scan attempt found. Built once, never changed.
#[derive(Debug, PartialEq, Eq)]
pub struct ScanResult {
    pub id: ScanId,
    pub target_id: ScanId,
    pub timestamp: Timestamp,
    pub status: ScanStatus,
    pub open_ports: Vec<Port>,
    pub os_detection: Option<OsDetection>,
    pub vulnerabilities: Vec<Vulnerability>,
}

/// The view of a `ScanResult`.
pub struct ScanResultView {
    pub id: ScanId,
    pub target_id: ScanId,
    pub timestamp: Timestamp,
    pub status: ScanStatusView,
    pub open_ports: Seq<PortView>,
    pub os_detection: Option<OsDetectionView>,
    pub vulnerabilities: Seq<VulnerabilityView>,
}

impl View for ScanResult {
    type V = ScanResultView;

    open spec fn view(&self) -> ScanResultView {
        ScanResultView {
            id: self.id,
            target_id: self.target_id,
            timestamp: self.timestamp,
            status: self.status@,
            open_ports: self.open_ports.deep_view(),
            os_detection: self.os_detection.deep_view(),
            vulnerabilities: self.vulnerabilities.deep_view(),
        }
    }
}

impl DeepView for ScanResult {
    type V = ScanResultView;

    open spec fn deep_view(&self) -> ScanResultView {
        self@
    }
}

impl Clone for ScanResult {
    fn clone(&self) -> (r: Self)
        ensures
            r@ == self@,
    {
        ScanResult {
            id: self.id,
            target_id: self.target_id,
            timestamp: self.timestamp,
            status: self.status.clone(),
            open_ports: clone_ports(&self.open_ports),
            os_detection: match &self.os_detection {
                Some(os) => Some(os.clone()),
                None => None,
            },
            vulnerabilities: clone_vulnerabilities(&self.vulnerabilities),
        }
    }
}

impl ScanResult {
    /// A completed result that holds no finding.
    pub fn empty(id: ScanId, target_id: ScanId, timestamp: Timestamp) -> (r: ScanResult)
        ensures
            r@ == (ScanResultView {
                id,
                target_id,
                timestamp,
                status: ScanStatusView::Completed,
                open_ports: Seq::empty(),
                os_detection: None,
                vulnerabilities: Seq::empty(),
            }),
    {
        let r = ScanResult {
            id,
            target_id,
            timestamp,
            status: ScanStatus::Completed,
            open_ports: Vec::new(),
            os_detection: None,
            vulnerabilities: Vec::new(),
        };
        assert(r.open_ports.deep_view() =~= Seq::empty());
        assert(r.vulnerabilities.deep_view() =~= Seq::empty());
        r
    }
}

/// A point-in-time progress event: an estimate of the share done, a message
/// and, where known, when the scan is expected to end.
#[derive(Debug, PartialEq, Eq)]
pub struct ScanProgress {
    pub percent: Percent,
    pub message: String,
    pub eta: Option<Timestamp>,
}

/// The view of a `ScanProgress`.
pub struct ScanProgressView {
    pub percent: Percent,
    pub message: Seq<char>,
    pub eta: Option<Timestamp>,
}

impl View for ScanProgress {
    type V = ScanProgressView;

    open spec fn view(&self) -> ScanProgressView {
        ScanProgressView { percent: self.percent, message: self.message@, eta: self.eta }
    }
}

impl DeepView for ScanProgress {
    type V = ScanProgressView;

    open spec fn deep_view(&self) -> ScanProgressView {
        self@
    }
}

impl Clone for ScanProgress {
    fn clone(&self) -> (r: Self)
        ensures
            r@ == self@,
    {
        ScanProgress { percent: self.percent, message: self.message.clone(), eta: self.eta }
    }
}

} // verus!
