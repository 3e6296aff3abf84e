//! The per-kind task slot: an exclusive-run guard and the handle of the
//! worker it tracks. Callers hold each slot behind its own lock, so every
//! method here runs as one atomic step.

use vstd::prelude::*;
use crate::progress::TaskKind;

verus! {

/// Refusals of the slot's guard.
#[derive(Clone, Copy, Debug, PartialEq, Eq, Structural)]
pub enum SlotError {
    /// `start` while a run of that kind is in progress.
    AlreadyRunning,
    /// `cancel` while no run of that kind is in progress.
    NotRunning,
}

impl SlotError {
    /// The message shown to the caller.
    pub fn message(&self, kind: TaskKind) -> (r: String)
        ensures
            r@ == slot_error_text(*self, kind),
    {
        proof {
            reveal_strlit("인덱싱이 이미 진행 중입니다.");
            reveal_strlit("동기화가 이미 진행 중입니다.");
            reveal_strlit("진행 중인 인덱싱이 없습니다.");
            reveal_strlit("진행 중인 동기화가 없습니다.");
        }
        let s = match (self, kind) {
            (SlotError::AlreadyRunning, TaskKind::Indexing) => "인덱싱이 이미 진행 중입니다.",
            (SlotError::AlreadyRunning, TaskKind::Sync) => "동기화가 이미 진행 중입니다.",
            (SlotError::NotRunning, TaskKind::Indexing) => "진행 중인 인덱싱이 없습니다.",
            (SlotError::NotRunning, TaskKind::Sync) => "진행 중인 동기화가 없습니다.",
        };
        s.to_owned()
    }
}

/// The text of a guard refusal for a task kind.
pub open spec fn slot_error_text(e: SlotError, kind: TaskKind) -> Seq<char> {
    match (e, kind) {
        (SlotError::AlreadyRunning, TaskKind::Indexing) => "인덱싱이 이미 진행 중입니다."@,
        (SlotError::AlreadyRunning, TaskKind::Sync) => "동기화가 이미 진행 중입니다."@,
        (SlotError::NotRunning, TaskKind::Indexing) => "진행 중인 인덱싱이 없습니다."@,
        (SlotError::NotRunning, TaskKind::Sync) => "진행 중인 동기화가 없습니다."@,
    }
}

/// What a cancel request is to do once the guard let it through.
#[derive(Clone, Copy, Debug, PartialEq, Eq, Structural)]
pub enum CancelAction {
    /// Send the termination signal to the tracked worker.
    Signal,
    /// The worker is not tracked at this moment (being finalized, or not yet
    /// registered): nothing to signal, the request still succeeds.
    NothingToSignal,
}

/// Outcome of `start` on a slot whose guard reads `running`.
pub open spec fn start_result(running: bool) -> Result<(), SlotError> {
    if running {
        Err(SlotError::AlreadyRunning)
    } else {
        Ok(())
    }
}

/// Outcome of `cancel` on a slot with guard `running` and a handle or not.
pub open spec fn cancel_result(running: bool, has_handle: bool) -> Result<CancelAction, SlotError> {
    if !running {
        Err(SlotError::NotRunning)
    } else if has_handle {
        Ok(CancelAction::Signal)
    } else {
        Ok(CancelAction::NothingToSignal)
    }
}

/// The exclusive-run guard of one task kind, with the worker handle `H`
/// and process id it tracks.
pub struct TaskSlot<H> {
    running: bool,
    handle: Option<H>,
    pid: Option<u32>,
}

impl<H> TaskSlot<H> {
    pub closed spec fn running(&self) -> bool {
        self.running
    }

    pub closed spec fn handle(&self) -> Option<H> {
        self.handle
    }

    pub closed spec fn tracked_pid(&self) -> Option<u32> {
        self.pid
    }

    /// The slot with its guard set and everything else as it was.
    pub closed spec fn started(&self) -> Self {
        TaskSlot { running: true, handle: self.handle, pid: self.pid }
    }

    /// A worker is tracked only while the guard is set.
    pub open spec fn wf(&self) -> bool {
        (self.handle() is Some ==> self.running()) && (self.tracked_pid() is Some ==> self.running())
    }

    /// An idle slot: guard clear, nothing tracked.
    pub open spec fn idle(&self) -> bool {
        !self.running() && self.handle() is None && self.tracked_pid() is None
    }

    pub fn new() -> (r: Self)
        ensures
            r.idle(),
            r.wf(),
    {
        TaskSlot { running: false, handle: None, pid: None }
    }

    /// Reads the guard.
    pub fn is_running(&self) -> (r: bool)
        ensures
            r == self.running(),
    {
        self.running
    }

    /// The id of the tracked worker process, if any.
    pub fn pid(&self) -> (r: Option<u32>)
        ensures
            r == self.tracked_pid(),
    {
        self.pid
    }

    /// Test-and-set of the guard: succeeds only on a slot that is not
    /// running, which it marks running; a refusal changes nothing.
    pub fn try_start(&mut self) -> (r: Result<(), SlotError>)
        requires
            old(self).wf(),
        ensures
            r == start_result(old(self).running()),
            *final(self) == old(self).started(),
            final(self).running(),
            final(self).handle() == old(self).handle(),
            final(self).tracked_pid() == old(self).tracked_pid(),
            final(self).wf(),
    {
        if self.running {
            Err(SlotError::AlreadyRunning)
        } else {
            self.running = true;
            Ok(())
        }
    }

    /// Records the spawned worker of the run in progress.
    pub fn register(&mut self, handle: H, pid: Option<u32>)
        requires
            old(self).running(),
        ensures
            final(self).running(),
            final(self).handle() == Some(handle),
            final(self).tracked_pid() == pid,
            final(self).wf(),
    {
        self.handle = Some(handle);
        self.pid = pid;
    }

    /// Takes the tracked worker out of the slot; the guard stays as it was.
    pub fn take_handle(&mut self) -> (r: Option<H>)
        requires
            old(self).wf(),
        ensures
            r == old(self).handle(),
            final(self).handle() is None,
            final(self).running() == old(self).running(),
            final(self).tracked_pid() == old(self).tracked_pid(),
            final(self).wf(),
    {
        self.handle.take()
    }

    /// Decides a cancel request: refused on a slot that is not running,
    /// else a signal to the tracked worker if there is one. The slot is
    /// left as it is.
    pub fn cancel_action(&self) -> (r: Result<CancelAction, SlotError>)
        ensures
            r == cancel_result(self.running(), self.handle() is Some),
    {
        if !self.running {
            Err(SlotError::NotRunning)
        } else if self.handle.is_some() {
            Ok(CancelAction::Signal)
        } else {
            Ok(CancelAction::NothingToSignal)
        }
    }

    /// Releases the slot after a run ended or failed to spawn.
    pub fn release(&mut self)
        ensures
            final(self).idle(),
            final(self).wf(),
    {
        self.running = false;
        self.handle = None;
        self.pid = None;
    }
}

/// Two `start` calls on one slot with no release between them: whatever
/// the first returned, it left the guard set, so the second is refused as
/// already running and leaves the slot as the first left it.
pub proof fn lemma_start_is_exclusive<H>(slot: TaskSlot<H>)
    requires
        slot.wf(),
    ensures
        start_result(slot.started().running()) == Err::<(), SlotError>(SlotError::AlreadyRunning),
        slot.started().started() == slot.started(),
        start_result(slot.running()) is Ok <==> !slot.running(),
{
}

/// Slots of different kinds are separate values: when both are idle, a
/// `start` on each succeeds, in either order.
pub proof fn lemma_kinds_are_independent<H>(indexing: TaskSlot<H>, sync: TaskSlot<H>)
    requires
        indexing.idle(),
        sync.idle(),
    ensures
        start_result(indexing.running()) is Ok,
        start_result(sync.running()) is Ok,
        start_result(indexing.started().running()) is Err,
        start_result(sync.started().running()) is Err,
{
}

/// `cancel` on a slot that is not running is refused, and asks for no
/// signal to any process.
pub proof fn lemma_cancel_when_idle_is_refused(has_handle: bool)
    ensures
        cancel_result(false, has_handle) == Err::<CancelAction, SlotError>(SlotError::NotRunning),
{
}

} // verus!
