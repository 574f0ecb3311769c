//! The registry of scans in flight and the admission of their work.
//!
//! A scan is registered as `Queued`, runs once it holds one of a bounded
//! number of permits, and leaves the registry when it ends or is cancelled.
//! The unit of work behind a cancelled scan stays on record until it reports
//! back, so that a late result is dropped and its permit returned.

use crate::error::{error_text, ScanError, ScanErrorView};
use crate::model::{
    ScanId, ScanResult, ScanResultView, ScanStatus, ScanStatusView, ScanTarget, Timestamp,
};
use std::collections::HashMap;
use vstd::prelude::*;
use vstd::set_lib::*;
use vstd::std_specs::iter::IteratorSpec;

verus! {

broadcast use vstd::std_specs::hash::group_hash_axioms;

/// The record of one scan in flight.
#[derive(Debug)]
pub struct ScanHandle {
    pub target: ScanTarget,
    pub status: ScanStatus,
    /// Whether a cancellation can be signalled to the work behind the scan.
    pub cancel_armed: bool,
    pub start_time: Timestamp,
}

/// The state of one unit of work.
#[derive(Clone, Copy, Debug, PartialEq, Eq, Structural)]
pub struct WorkItem {
    /// The work holds a permit.
    pub admitted: bool,
    /// A cancellation was signalled to the work.
    pub cancel_signalled: bool,
}

/// The answer to a unit of work that asks for a permit.
#[derive(Clone, Copy, Debug, PartialEq, Eq, Structural)]
pub enum Admission {
    /// The work holds a permit and its scan is running.
    Admitted,
    /// Every permit is taken: ask again when one is returned.
    Wait,
    /// The scan was cancelled: report the cancellation instead of running.
    Cancelled,
    /// No such work is on record.
    Unknown,
}

/// What a unit of work reports when it ends.
#[derive(Debug)]
pub enum TaskEvent {
    /// The pipeline produced a result.
    Produced(ScanResult),
    /// The pipeline failed.
    Failed(ScanError),
    /// The work saw the cancellation signal before the pipeline ended.
    CancelObserved,
}

/// The view of a `TaskEvent`.
pub enum TaskEventView {
    Produced(ScanResultView),
    Failed(ScanErrorView),
    CancelObserved,
}

impl View for TaskEvent {
    type V = TaskEventView;

    open spec fn view(&self) -> TaskEventView {
        match self {
            TaskEvent::Produced(r) => TaskEventView::Produced(r@),
            TaskEvent::Failed(e) => TaskEventView::Failed(e@),
            TaskEvent::CancelObserved => TaskEventView::CancelObserved,
        }
    }
}

/// How an attempt ended: its terminal status, and the result that goes to the
/// result sink, if any. Both are absent where no such work was on record.
#[derive(Debug)]
pub struct Completion {
    pub status: Option<ScanStatus>,
    pub emit: Option<ScanResult>,
}

/// The view of a `Completion`.
pub struct CompletionView {
    pub status: Option<ScanStatusView>,
    pub emit: Option<ScanResultView>,
}

impl View for Completion {
    type V = CompletionView;

    open spec fn view(&self) -> CompletionView {
        CompletionView { status: self.status.deep_view(), emit: self.emit.deep_view() }
    }
}

/// How an attempt ends, given the state of its work, if any, and what the work
/// reports. A signalled cancellation goes before anything the pipeline
/// produced; only a produced result that was not cancelled is emitted.
pub open spec fn completion_for(work: Option<WorkItem>, event: TaskEventView) -> CompletionView {
    match work {
        None => CompletionView { status: None, emit: None },
        Some(w) => if w.cancel_signalled {
            CompletionView { status: Some(ScanStatusView::Cancelled), emit: None }
        } else {
            match event {
                TaskEventView::Produced(r) => CompletionView {
                    status: Some(ScanStatusView::Completed),
                    emit: Some(r),
                },
                TaskEventView::Failed(e) => CompletionView {
                    status: Some(ScanStatusView::Failed { error: error_text(e) }),
                    emit: None,
                },
                TaskEventView::CancelObserved => CompletionView {
                    status: Some(ScanStatusView::Cancelled),
                    emit: None,
                },
            }
        },
    }
}

/// The scans of a registry that are running.
pub open spec fn running_of(scans: Map<ScanId, ScanHandle>) -> Set<ScanId> {
    Set::new(|id: ScanId| scans.contains_key(id) && scans[id].status is Running)
}

/// The scans of a registry that are queued.
pub open spec fn queued_of(scans: Map<ScanId, ScanHandle>) -> Set<ScanId> {
    Set::new(|id: ScanId| scans.contains_key(id) && scans[id].status is Queued)
}

/// The units of work that hold a permit.
pub open spec fn admitted_of(work: Map<ScanId, WorkItem>) -> Set<ScanId> {
    Set::new(|id: ScanId| work.contains_key(id) && work[id].admitted)
}

/// The maps and counters behind a registry.
struct RegistryState {
    active_scans: HashMap<ScanId, ScanHandle>,
    work: HashMap<ScanId, WorkItem>,
    capacity: usize,
    in_use: usize,
}

impl RegistryState {
    /// The registry that holds this state.
    spec fn lift(self) -> ScanRegistry {
        ScanRegistry { state: self }
    }

    /// A state without scans and without permits.
    fn blank() -> (r: RegistryState)
        ensures
            r.lift().wf(),
    {
        let r = RegistryState {
            active_scans: HashMap::new(),
            work: HashMap::new(),
            capacity: 0,
            in_use: 0,
        };
        assert(admitted_of(r.work@) =~= Set::empty());
        r
    }
}

/// The registry of active scans together with the admission gate.
pub struct ScanRegistry {
    state: RegistryState,
}

impl ScanRegistry {
    /// The active scans by identity.
    pub closed spec fn scans(&self) -> Map<ScanId, ScanHandle> {
        self.state.active_scans@
    }

    /// The units of work on record by identity.
    pub closed spec fn in_flight(&self) -> Map<ScanId, WorkItem> {
        self.state.work@
    }

    /// The number of permits.
    pub closed spec fn capacity(&self) -> nat {
        self.state.capacity as nat
    }

    /// The number of permits that are taken.
    pub closed spec fn permits_in_use(&self) -> nat {
        self.state.in_use as nat
    }

    /// The invariant of the registry. Every active scan is queued or running,
    /// is backed by work that was not cancelled, and runs exactly when that
    /// work holds a permit; work without an active scan was cancelled; and the
    /// permits taken are those of the admitted work, never more than there are.
    #[verifier::type_invariant]
    pub open spec fn wf(&self) -> bool {
        &&& self.scans().dom().finite()
        &&& self.in_flight().dom().finite()
        &&& forall|id: ScanId| #[trigger]
            self.scans().contains_key(id) ==> {
                &&& self.in_flight().contains_key(id)
                &&& !self.in_flight()[id].cancel_signalled
                &&& self.scans()[id].target.id == id
                &&& self.scans()[id].cancel_armed
                &&& (self.scans()[id].status is Queued || self.scans()[id].status is Running)
                &&& (self.scans()[id].status is Running <==> self.in_flight()[id].admitted)
            }
        &&& forall|id: ScanId| #[trigger]
            self.in_flight().contains_key(id) && !self.scans().contains_key(id)
                ==> self.in_flight()[id].cancel_signalled
        &&& self.permits_in_use() == admitted_of(self.in_flight()).len()
        &&& self.permits_in_use() <= self.capacity()
    }

    /// An empty registry with `capacity` permits.
    pub fn new(capacity: usize) -> (r: ScanRegistry)
        ensures
            r.wf(),
            r.scans() == Map::<ScanId, ScanHandle>::empty(),
            r.in_flight() == Map::<ScanId, WorkItem>::empty(),
            r.capacity() == capacity,
            r.permits_in_use() == 0,
    {
        let state = RegistryState {
            active_scans: HashMap::new(),
            work: HashMap::new(),
            capacity,
            in_use: 0,
        };
        assert(admitted_of(state.work@) =~= Set::empty());
        ScanRegistry { state }
    }
}

/// The step of `start_scan`: a fresh identity is registered as queued, with
/// work that holds no permit; an identity on record is refused and nothing
/// changes.
pub open spec fn started(
    old: ScanRegistry,
    new: ScanRegistry,
    target: ScanTarget,
    now: Timestamp,
    r: Result<ScanId, ScanError>,
) -> bool {
    &&& new.capacity() == old.capacity()
    &&& new.permits_in_use() == old.permits_in_use()
    &&& match r {
        Ok(id) => {
            &&& id == target.id
            &&& !old.in_flight().contains_key(id)
            &&& new.scans() == old.scans().insert(
                id,
                ScanHandle { target, status: ScanStatus::Queued, cancel_armed: true, start_time: now },
            )
            &&& new.in_flight() == old.in_flight().insert(
                id,
                WorkItem { admitted: false, cancel_signalled: false },
            )
        },
        Err(e) => {
            &&& old.in_flight().contains_key(target.id)
            &&& e@ == (ScanErrorView::Validation { message: "Scan is already active"@ })
            &&& new.scans() == old.scans()
            &&& new.in_flight() == old.in_flight()
        },
    }
}

/// The answer to work that asks for a permit.
pub open spec fn admission_of(old: ScanRegistry, id: ScanId) -> Admission {
    if !old.in_flight().contains_key(id) {
        Admission::Unknown
    } else if old.in_flight()[id].cancel_signalled {
        Admission::Cancelled
    } else if old.in_flight()[id].admitted || old.permits_in_use() < old.capacity() {
        Admission::Admitted
    } else {
        Admission::Wait
    }
}

/// The step of `try_admit`: work that is newly admitted takes one permit and
/// its scan becomes running; any other answer changes nothing.
pub open spec fn admitted(old: ScanRegistry, new: ScanRegistry, id: ScanId, r: Admission) -> bool {
    &&& new.capacity() == old.capacity()
    &&& r == admission_of(old, id)
    &&& if r == Admission::Admitted && !old.in_flight()[id].admitted {
        &&& new.permits_in_use() == old.permits_in_use() + 1
        &&& new.in_flight() == old.in_flight().insert(
            id,
            WorkItem { admitted: true, cancel_signalled: false },
        )
        &&& new.scans() == old.scans().insert(
            id,
            ScanHandle {
                target: old.scans()[id].target,
                status: ScanStatus::Running,
                cancel_armed: old.scans()[id].cancel_armed,
                start_time: old.scans()[id].start_time,
            },
        )
    } else {
        &&& new.permits_in_use() == old.permits_in_use()
        &&& new.in_flight() == old.in_flight()
        &&& new.scans() == old.scans()
    }
}

/// The work on record for `id`, if any.
pub open spec fn work_of(r: ScanRegistry, id: ScanId) -> Option<WorkItem> {
    if r.in_flight().contains_key(id) {
        Some(r.in_flight()[id])
    } else {
        None
    }
}

/// The step of `handle_scan_completion`: the scan and its work leave, a held
/// permit is returned, and the attempt ends as `completion_for` says.
pub open spec fn completed(
    old: ScanRegistry,
    new: ScanRegistry,
    id: ScanId,
    event: TaskEventView,
    c: CompletionView,
) -> bool {
    &&& new.capacity() == old.capacity()
    &&& new.scans() == old.scans().remove(id)
    &&& new.in_flight() == old.in_flight().remove(id)
    &&& new.permits_in_use() == old.permits_in_use() - (if old.in_flight().contains_key(id)
        && old.in_flight()[id].admitted {
        1int
    } else {
        0int
    })
    &&& c == completion_for(work_of(old, id), event)
}

/// The step of `cancel_scan`: an active scan leaves the registry and its work
/// is marked as signalled; for any other identity nothing changes. The call
/// always succeeds, and says whether there is a signal to send.
pub open spec fn cancelled(
    old: ScanRegistry,
    new: ScanRegistry,
    id: ScanId,
    r: Result<bool, ScanError>,
) -> bool {
    &&& new.capacity() == old.capacity()
    &&& new.permits_in_use() == old.permits_in_use()
    &&& r == Ok::<bool, ScanError>(old.scans().contains_key(id))
    &&& new.scans() == old.scans().remove(id)
    &&& if old.scans().contains_key(id) {
        new.in_flight() == old.in_flight().insert(
            id,
            WorkItem { admitted: old.in_flight()[id].admitted, cancel_signalled: true },
        )
    } else {
        new.in_flight() == old.in_flight() && new.scans() == old.scans()
    }
}

/// Recording work changes the admitted set by that one identity.
pub proof fn lemma_admitted_insert(work: Map<ScanId, WorkItem>, id: ScanId, item: WorkItem)
    requires
        work.dom().finite(),
    ensures
        admitted_of(work).finite(),
        admitted_of(work.insert(id, item)) == if item.admitted {
            admitted_of(work).insert(id)
        } else {
            admitted_of(work).remove(id)
        },
{
    lemma_len_subset(admitted_of(work), work.dom());
    if item.admitted {
        assert(admitted_of(work.insert(id, item)) =~= admitted_of(work).insert(id));
    } else {
        assert(admitted_of(work.insert(id, item)) =~= admitted_of(work).remove(id));
    }
}

/// Forgetting work removes its identity from the admitted set.
pub proof fn lemma_admitted_remove(work: Map<ScanId, WorkItem>, id: ScanId)
    requires
        work.dom().finite(),
    ensures
        admitted_of(work).finite(),
        admitted_of(work.remove(id)) == admitted_of(work).remove(id),
{
    lemma_len_subset(admitted_of(work), work.dom());
    assert(admitted_of(work.remove(id)) =~= admitted_of(work).remove(id));
}

impl RegistryState {
    /// Registers `target` as a queued scan that started at `now`, and records
    /// the work behind it. An identity that is already on record is refused.
    fn start_scan(&mut self, target: ScanTarget, now: Timestamp) -> (r: Result<
        ScanId,
        ScanError,
    >)
        requires
            old(self).lift().wf(),
        ensures
            final(self).lift().wf(),
            started(old(self).lift(), final(self).lift(), target, now, r),
    {
        let id = target.id;
        if self.work.contains_key(&id) {
            return Err(ScanError::Validation { message: "Scan is already active".to_owned() });
        }
        proof {
            lemma_admitted_insert(
                self.work@,
                id,
                WorkItem { admitted: false, cancel_signalled: false },
            );
            assert(!admitted_of(self.work@).contains(id));
            assert(admitted_of(self.work@).remove(id) =~= admitted_of(self.work@));
        }
        self.work.insert(id, WorkItem { admitted: false, cancel_signalled: false });
        self.active_scans.insert(
            id,
            ScanHandle { target, status: ScanStatus::Queued, cancel_armed: true, start_time: now },
        );
        Ok(id)
    }

    /// The target of the active scan `id`, if there is one.
    fn target_of(&self, id: ScanId) -> (r: Option<ScanTarget>)
        ensures
            match r {
                Some(t) => self.lift().scans().contains_key(id) && t@
                    == self.lift().scans()[id].target@,
                None => !self.lift().scans().contains_key(id),
            },
    {
        match self.active_scans.get(&id) {
            Some(handle) => Some(handle.target.clone()),
            None => None,
        }
    }

    /// The work on record for `id`, if any.
    fn try_peek(&self, id: ScanId) -> (r: Option<WorkItem>)
        ensures
            r == work_of(self.lift(), id),
    {
        match self.work.get(&id) {
            Some(w) => Some(*w),
            None => None,
        }
    }

    /// Asks for a permit for the work `id`. A permit is given while fewer than
    /// the capacity are taken; the scan is then running.
    fn try_admit(&mut self, id: ScanId) -> (r: Admission)
        requires
            old(self).lift().wf(),
        ensures
            final(self).lift().wf(),
            admitted(old(self).lift(), final(self).lift(), id, r),
    {
        let item: WorkItem = match self.work.get(&id) {
            Some(w) => *w,
            None => {
                return Admission::Unknown;
            },
        };
        if item.cancel_signalled {
            return Admission::Cancelled;
        }
        if item.admitted {
            return Admission::Admitted;
        }
        if self.in_use >= self.capacity {
            return Admission::Wait;
        }
        assert(self.lift().scans().contains_key(id));
        proof {
            lemma_admitted_insert(
                self.work@,
                id,
                WorkItem { admitted: true, cancel_signalled: false },
            );
            assert(!admitted_of(self.work@).contains(id));
        }
        self.work.insert(id, WorkItem { admitted: true, cancel_signalled: false });
        self.in_use = self.in_use + 1;
        match self.active_scans.remove(&id) {
            Some(handle) => {
                let ScanHandle { target, status: _, cancel_armed, start_time } = handle;
                self.active_scans.insert(
                    id,
                    ScanHandle { target, status: ScanStatus::Running, cancel_armed, start_time },
                );
                assert(self.active_scans@ =~= old(self).lift().scans().insert(
                    id,
                    ScanHandle {
                        target: old(self).lift().scans()[id].target,
                        status: ScanStatus::Running,
                        cancel_armed: old(self).lift().scans()[id].cancel_armed,
                        start_time: old(self).lift().scans()[id].start_time,
                    },
                ));
            },
            None => {},
        }
        Admission::Admitted
    }

    /// Ends the attempt `id` with what its work reports: the scan leaves the
    /// registry, the work is forgotten and its permit returned.
    fn handle_scan_completion(&mut self, id: ScanId, event: TaskEvent) -> (c: Completion)
        requires
            old(self).lift().wf(),
        ensures
            final(self).lift().wf(),
            completed(old(self).lift(), final(self).lift(), id, event@, c@),
    {
        proof {
            lemma_admitted_remove(self.work@, id);
        }
        let item: WorkItem = match self.work.remove(&id) {
            Some(w) => w,
            None => {
                assert(self.work@ =~= old(self).lift().in_flight());
                assert(!self.active_scans@.contains_key(id));
                assert(self.active_scans@.remove(id) =~= self.active_scans@);
                assert(admitted_of(old(self).lift().in_flight()).remove(id) =~= admitted_of(
                    old(self).lift().in_flight(),
                ));
                return Completion { status: None, emit: None };
            },
        };
        if item.admitted {
            assert(admitted_of(old(self).lift().in_flight()).contains(id));
            self.in_use = self.in_use - 1;
        } else {
            assert(admitted_of(old(self).lift().in_flight()).remove(id) =~= admitted_of(
                old(self).lift().in_flight(),
            ));
        }
        let _ = self.active_scans.remove(&id);
        if item.cancel_signalled {
            return Completion { status: Some(ScanStatus::Cancelled), emit: None };
        }
        match event {
            TaskEvent::Produced(result) => Completion {
                status: Some(ScanStatus::Completed),
                emit: Some(result),
            },
            TaskEvent::Failed(e) => Completion {
                status: Some(ScanStatus::Failed { error: e.message() }),
                emit: None,
            },
            TaskEvent::CancelObserved => Completion {
                status: Some(ScanStatus::Cancelled),
                emit: None,
            },
        }
    }

    /// Cancels the scan `id`: it leaves the registry and its work is to be
    /// signalled. The answer says whether there is a signal to send. An
    /// identity that is not active is left alone.
    fn cancel_scan(&mut self, id: ScanId) -> (r: Result<bool, ScanError>)
        requires
            old(self).lift().wf(),
        ensures
            final(self).lift().wf(),
            cancelled(old(self).lift(), final(self).lift(), id, r),
    {
        if !self.active_scans.contains_key(&id) {
            assert(self.active_scans@.remove(id) =~= self.active_scans@);
            return Ok(false);
        }
        let _ = self.active_scans.remove(&id);
        let admitted: bool = match self.work.get(&id) {
            Some(w) => w.admitted,
            None => false,
        };
        proof {
            lemma_admitted_insert(self.work@, id, WorkItem { admitted, cancel_signalled: true });
            if admitted {
                assert(admitted_of(self.work@).insert(id) =~= admitted_of(self.work@));
            } else {
                assert(admitted_of(self.work@).remove(id) =~= admitted_of(self.work@));
            }
        }
        self.work.insert(id, WorkItem { admitted, cancel_signalled: true });
        Ok(true)
    }
}

/// A derived snapshot of the registry.
#[derive(Clone, Copy, Debug, PartialEq, Eq, Structural)]
pub struct ScanStatistics {
    pub total_active: usize,
    pub running: usize,
    pub queued: usize,
}

/// The running scans never outnumber the permits.
pub proof fn lemma_running_within_capacity(r: ScanRegistry)
    requires
        r.wf(),
    ensures
        running_of(r.scans()).finite(),
        running_of(r.scans()).len() <= r.permits_in_use(),
        running_of(r.scans()).len() <= r.capacity(),
{
    lemma_len_subset(admitted_of(r.in_flight()), r.in_flight().dom());
    assert forall|id: ScanId| running_of(r.scans()).contains(id) implies admitted_of(
        r.in_flight(),
    ).contains(id) by {
        assert(r.scans().contains_key(id));
    }
    lemma_len_subset(running_of(r.scans()), admitted_of(r.in_flight()));
}

/// Every active scan is either running or queued, and none is both.
pub proof fn lemma_active_is_running_plus_queued(r: ScanRegistry)
    requires
        r.wf(),
    ensures
        running_of(r.scans()).finite(),
        queued_of(r.scans()).finite(),
        r.scans().dom().len() == running_of(r.scans()).len() + queued_of(r.scans()).len(),
{
    let running = running_of(r.scans());
    let queued = queued_of(r.scans());
    lemma_len_subset(running, r.scans().dom());
    lemma_len_subset(queued, r.scans().dom());
    assert(running.disjoint(queued));
    lemma_set_disjoint_lens(running, queued);
    assert forall|id: ScanId| r.scans().dom().contains(id) implies (running + queued).contains(
        id,
    ) by {
        assert(r.scans().contains_key(id));
    }
    assert(running + queued =~= r.scans().dom());
}

/// A cancellation that was signalled before the work reports decides the
/// outcome: the attempt ends cancelled, never completed, and nothing is
/// emitted, whatever the pipeline produced.
pub proof fn lemma_cancellation_precedence(work: WorkItem, event: TaskEventView)
    requires
        work.cancel_signalled,
    ensures
        completion_for(Some(work), event).status == Some(ScanStatusView::Cancelled),
        completion_for(Some(work), event).emit is None,
{
}

/// A result is emitted exactly when the pipeline produced it and the work was
/// on record and not cancelled; the emitted result is the produced one.
pub proof fn lemma_emit_only_uncancelled(work: Option<WorkItem>, event: TaskEventView)
    ensures
        completion_for(work, event).emit is Some <==> (work is Some && !work->0.cancel_signalled
            && event is Produced),
        completion_for(work, event).emit is Some ==> completion_for(work, event).emit == Some(
            event->Produced_0,
        ) && completion_for(work, event).status == Some(ScanStatusView::Completed),
{
}

impl RegistryState {
    /// The identities of the active scans, each once, in no particular order.
    fn active_ids(&self) -> (v: Vec<ScanId>)
        ensures
            v@.no_duplicates(),
            v@.to_set() == self.lift().scans().dom(),
    {
        let mut v: Vec<ScanId> = Vec::new();
        let keys = self.active_scans.keys();
        let ghost all = keys.remaining().unref();
        for k in iter: keys
            invariant
                iter.seq().unref() == all,
                v@ == all.take(iter.index() as int),
        {
            v.push(*k);
            assert(v@ =~= all.take(iter.index() + 1));
        }
        assert(all.take(all.len() as int) =~= all);
        v
    }
}

/// Every listed status is transient: queued or running.
pub open spec fn all_transient(listed: Seq<(ScanId, ScanStatus)>) -> bool {
    forall|i: int| 0 <= i < listed.len() ==> (#[trigger] listed[i]).1 is Queued || listed[i].1 is Running
}

/// The running scans among `seen`.
pub open spec fn running_among(scans: Map<ScanId, ScanHandle>, seen: Set<ScanId>) -> Set<ScanId> {
    Set::new(|id: ScanId| seen.contains(id) && scans.contains_key(id) && scans[id].status is Running)
}

/// The queued scans among `seen`.
pub open spec fn queued_among(scans: Map<ScanId, ScanHandle>, seen: Set<ScanId>) -> Set<ScanId> {
    Set::new(|id: ScanId| seen.contains(id) && scans.contains_key(id) && scans[id].status is Queued)
}

/// A list of identities with statuses shows the registry: every active scan
/// once, with its status.
pub open spec fn shows(listed: Seq<(ScanId, ScanStatus)>, scans: Map<ScanId, ScanHandle>) -> bool {
    &&& listed.len() == scans.dom().len()
    &&& forall|i: int|
        0 <= i < listed.len() ==> scans.contains_key(#[trigger] listed[i].0) && listed[i].1@
            == scans[listed[i].0].status@
    &&& forall|i: int, j: int|
        0 <= i < j < listed.len() ==> #[trigger] listed[i].0 != #[trigger] listed[j].0
    &&& forall|id: ScanId|
        scans.contains_key(id) ==> exists|i: int| 0 <= i < listed.len() && #[trigger] listed[i].0 == id
}

impl RegistryState {
    /// A snapshot of the active scans with their statuses, in no particular
    /// order.
    fn get_active_scans(&self) -> (r: Vec<(ScanId, ScanStatus)>)
        ensures
            shows(r@, self.lift().scans()),
    {
        let ids = self.active_ids();
        proof {
            ids@.unique_seq_to_set();
        }
        let mut out: Vec<(ScanId, ScanStatus)> = Vec::new();
        let mut i: usize = 0;
        while i < ids.len()
            invariant
                i <= ids.len(),
                ids@.no_duplicates(),
                ids@.to_set() == self.lift().scans().dom(),
                out.len() == i,
                forall|j: int|
                    0 <= j < i ==> (#[trigger] out@[j]).0 == ids@[j] && out@[j].1@
                        == self.lift().scans()[ids@[j]].status@,
            decreases ids.len() - i,
        {
            let id = ids[i];
            assert(ids@.to_set().contains(ids@[i as int]));
            match self.active_scans.get(&id) {
                Some(handle) => {
                    out.push((id, handle.status.clone()));
                },
                None => {},
            }
            i += 1;
        }
        proof {
            assert forall|id: ScanId| self.lift().scans().contains_key(id) implies exists|k: int|
                0 <= k < out@.len() && #[trigger] out@[k].0 == id by {
                assert(ids@.to_set().contains(id));
                let k = choose|k: int| 0 <= k < ids@.len() && ids@[k] == id;
                assert(out@[k].0 == id);
            }
            assert forall|a: int| 0 <= a < out@.len() implies self.lift().scans().contains_key(
                #[trigger] out@[a].0,
            ) && out@[a].1@ == self.lift().scans()[out@[a].0].status@ by {
                assert(ids@.to_set().contains(ids@[a]));
            }
        }
        out
    }

    /// Counts the active scans by status.
    fn get_scan_statistics(&self) -> (s: ScanStatistics)
        requires
            self.lift().wf(),
        ensures
            s.total_active == self.lift().scans().dom().len(),
            s.running == running_of(self.lift().scans()).len(),
            s.queued == queued_of(self.lift().scans()).len(),
            s.total_active == s.running + s.queued,
    {
        let ids = self.active_ids();
        proof {
            ids@.unique_seq_to_set();
            lemma_active_is_running_plus_queued(self.lift());
        }
        let mut running: usize = 0;
        let mut queued: usize = 0;
        let mut i: usize = 0;
        assert(running_among(self.lift().scans(), ids@.take(0).to_set()) =~= Set::empty());
        assert(queued_among(self.lift().scans(), ids@.take(0).to_set()) =~= Set::empty());
        while i < ids.len()
            invariant
                i <= ids.len(),
                ids@.no_duplicates(),
                ids@.to_set() == self.lift().scans().dom(),
                running_among(self.lift().scans(), ids@.take(i as int).to_set()).finite(),
                queued_among(self.lift().scans(), ids@.take(i as int).to_set()).finite(),
                running == running_among(self.lift().scans(), ids@.take(i as int).to_set()).len(),
                queued == queued_among(self.lift().scans(), ids@.take(i as int).to_set()).len(),
                running <= i,
                queued <= i,
            decreases ids.len() - i,
        {
            let id = ids[i];
            let ghost seen = ids@.take(i as int).to_set();
            let ghost next = ids@.take(i + 1).to_set();
            proof {
                let cur = ids@.take(i as int);
                assert(ids@.to_set().contains(ids@[i as int]));
                assert(!seen.contains(id)) by {
                    if cur.contains(id) {
                        let k = choose|k: int| 0 <= k < cur.len() && cur[k] == id;
                        assert(ids@[k] == ids@[i as int]);
                    }
                }
                assert(ids@.take(i + 1) =~= cur.push(id));
                cur.lemma_push_to_set_commute(id);
                assert(next =~= seen.insert(id));
            }
            match self.active_scans.get(&id) {
                Some(handle) => {
                    match handle.status {
                        ScanStatus::Running => {
                            assert(running_among(self.lift().scans(), next) =~= running_among(
                                self.lift().scans(),
                                seen,
                            ).insert(id));
                            assert(queued_among(self.lift().scans(), next) =~= queued_among(
                                self.lift().scans(),
                                seen,
                            ));
                            running = running + 1;
                        },
                        ScanStatus::Queued => {
                            assert(queued_among(self.lift().scans(), next) =~= queued_among(
                                self.lift().scans(),
                                seen,
                            ).insert(id));
                            assert(running_among(self.lift().scans(), next) =~= running_among(
                                self.lift().scans(),
                                seen,
                            ));
                            queued = queued + 1;
                        },
                        _ => {
                            assert(queued_among(self.lift().scans(), next) =~= queued_among(
                                self.lift().scans(),
                                seen,
                            ));
                            assert(running_among(self.lift().scans(), next) =~= running_among(
                                self.lift().scans(),
                                seen,
                            ));
                        },
                    }
                },
                None => {},
            }
            i += 1;
        }
        proof {
            assert(ids@.take(ids@.len() as int) =~= ids@);
            assert(running_among(self.lift().scans(), self.lift().scans().dom()) =~= running_of(self.lift().scans()));
            assert(queued_among(self.lift().scans(), self.lift().scans().dom()) =~= queued_of(self.lift().scans()));
        }
        ScanStatistics { total_active: ids.len(), running, queued }
    }
}

impl ScanRegistry {
    /// Registers `target` as a queued scan that started at `now`, and records
    /// the work behind it. An identity that is already on record is refused:
    /// that of an active scan, and also that of a cancelled scan whose work has
    /// not reported back yet.
    pub fn start_scan(&mut self, target: ScanTarget, now: Timestamp) -> (r: Result<
        ScanId,
        ScanError,
    >)
        ensures
            old(self).wf(),
            final(self).wf(),
            started(*old(self), *final(self), target, now, r),
    {
        proof {
            use_type_invariant(&*self);
        }
        let mut state = RegistryState::blank();
        core::mem::swap(&mut self.state, &mut state);
        let r = state.start_scan(target, now);
        self.state = state;
        r
    }

    /// The work on record for `id`, if any.
    pub fn try_peek(&self, id: ScanId) -> (r: Option<WorkItem>)
        ensures
            r == work_of(*self, id),
    {
        self.state.try_peek(id)
    }

    /// Asks for a permit for the work `id`. A permit is given while fewer than
    /// the capacity are taken; the scan is then running.
    pub fn try_admit(&mut self, id: ScanId) -> (r: Admission)
        ensures
            old(self).wf(),
            final(self).wf(),
            admitted(*old(self), *final(self), id, r),
    {
        proof {
            use_type_invariant(&*self);
        }
        let mut state = RegistryState::blank();
        core::mem::swap(&mut self.state, &mut state);
        let r = state.try_admit(id);
        self.state = state;
        r
    }

    /// Ends the attempt `id` with what its work reports: the scan leaves the
    /// registry, the work is forgotten and its permit returned.
    pub fn handle_scan_completion(&mut self, id: ScanId, event: TaskEvent) -> (c: Completion)
        ensures
            old(self).wf(),
            final(self).wf(),
            completed(*old(self), *final(self), id, event@, c@),
    {
        proof {
            use_type_invariant(&*self);
        }
        let mut state = RegistryState::blank();
        core::mem::swap(&mut self.state, &mut state);
        let r = state.handle_scan_completion(id, event);
        self.state = state;
        r
    }

    /// Cancels the scan `id`: it leaves the registry and its work is to be
    /// signalled. The answer says whether there is a signal to send. An
    /// identity that is not active is left alone.
    pub fn cancel_scan(&mut self, id: ScanId) -> (r: Result<bool, ScanError>)
        ensures
            old(self).wf(),
            final(self).wf(),
            cancelled(*old(self), *final(self), id, r),
    {
        proof {
            use_type_invariant(&*self);
        }
        let mut state = RegistryState::blank();
        core::mem::swap(&mut self.state, &mut state);
        let r = state.cancel_scan(id);
        self.state = state;
        r
    }

    /// The identities of the active scans, each once, in no particular order.
    pub fn active_ids(&self) -> (v: Vec<ScanId>)
        ensures
            v@.no_duplicates(),
            v@.to_set() == self.scans().dom(),
    {
        self.state.active_ids()
    }

    /// A snapshot of the active scans with their statuses, in no particular
    /// order. Every status in it is queued or running.
    pub fn get_active_scans(&self) -> (r: Vec<(ScanId, ScanStatus)>)
        ensures
            shows(r@, self.scans()),
            all_transient(r@),
    {
        proof {
            use_type_invariant(self);
        }
        let r = self.state.get_active_scans();
        assert forall|i: int| 0 <= i < r@.len() implies (#[trigger] r@[i]).1 is Queued || r@[i].1 is Running by {
            assert(self.scans().contains_key(r@[i].0));
        }
        r
    }

    /// The target of the active scan `id`, if there is one.
    pub fn target_of(&self, id: ScanId) -> (r: Option<ScanTarget>)
        ensures
            match r {
                Some(t) => self.scans().contains_key(id) && t@ == self.scans()[id].target@ && t.id
                    == id,
                None => !self.scans().contains_key(id),
            },
    {
        proof {
            use_type_invariant(self);
        }
        self.state.target_of(id)
    }

    /// Counts the active scans by status. The running scans never outnumber
    /// the permits, and every active scan is running or queued.
    pub fn get_scan_statistics(&self) -> (s: ScanStatistics)
        ensures
            self.wf(),
            s.total_active == self.scans().dom().len(),
            s.running == running_of(self.scans()).len(),
            s.queued == queued_of(self.scans()).len(),
            s.total_active == s.running + s.queued,
            s.running <= self.capacity(),
    {
        proof {
            use_type_invariant(self);
            lemma_running_within_capacity(*self);
        }
        self.state.get_scan_statistics()
    }
}

/// Cancelling an identity that is not active, be it unknown or already ended,
/// succeeds and changes nothing that can be observed.
pub proof fn lemma_cancel_inactive_changes_nothing(
    old: ScanRegistry,
    new: ScanRegistry,
    id: ScanId,
    r: Result<bool, ScanError>,
)
    requires
        cancelled(old, new, id, r),
        !old.scans().contains_key(id),
    ensures
        r == Ok::<bool, ScanError>(false),
        new.scans() == old.scans(),
        new.in_flight() == old.in_flight(),
        new.capacity() == old.capacity(),
        new.permits_in_use() == old.permits_in_use(),
{
}

/// A scan that was cancelled or has ended is no longer active, so cancelling
/// it again changes nothing.
pub proof fn lemma_cancel_twice(
    a: ScanRegistry,
    b: ScanRegistry,
    c: ScanRegistry,
    id: ScanId,
    first: Result<bool, ScanError>,
    second: Result<bool, ScanError>,
)
    requires
        cancelled(a, b, id, first),
        cancelled(b, c, id, second),
    ensures
        second == Ok::<bool, ScanError>(false),
        c.scans() == b.scans(),
        c.in_flight() == b.in_flight(),
{
}

/// Once the work of a cancelled scan reports back, the attempt ends cancelled
/// and nothing is emitted, whatever the work reports.
pub proof fn lemma_cancel_then_complete(
    a: ScanRegistry,
    b: ScanRegistry,
    c: ScanRegistry,
    id: ScanId,
    first: Result<bool, ScanError>,
    event: TaskEventView,
    completion: CompletionView,
)
    requires
        a.wf(),
        a.scans().contains_key(id),
        cancelled(a, b, id, first),
        completed(b, c, id, event, completion),
    ensures
        completion.status == Some(ScanStatusView::Cancelled),
        completion.emit is None,
{
}

/// A scan is in the registry only while it has not ended: no active scan has
/// a terminal status.
pub proof fn lemma_active_is_not_terminal(r: ScanRegistry, id: ScanId)
    requires
        r.wf(),
        r.scans().contains_key(id),
    ensures
        !r.scans()[id].status.is_terminal_spec(),
{
}

/// A scan that has ended has left the registry: after its completion it is no
/// longer active, and neither is its work on record.
pub proof fn lemma_ended_scan_has_left(
    old: ScanRegistry,
    new: ScanRegistry,
    id: ScanId,
    event: TaskEventView,
    c: CompletionView,
)
    requires
        completed(old, new, id, event, c),
    ensures
        !new.scans().contains_key(id),
        !new.in_flight().contains_key(id),
        c.status is Some ==> c.status->0 is Completed || c.status->0 is Failed || c.status->0 is Cancelled,
{
}

} // verus!
