use vstd::prelude::*;

verus! {

/// The state of the one worker slot.
#[derive(Clone, Copy, Debug, PartialEq, Eq, Structural)]
pub enum WorkerState {
    /// No worker is held.
    Idle,
    /// A start was admitted and is provisioning; no handle is held yet.
    Starting,
    /// A worker handle is held.
    Running,
}

/// Why a start was refused at the slot.
#[derive(Clone, Copy, Debug, PartialEq, Eq, Structural)]
pub enum SlotRefusal {
    /// A live worker is held, or another start is in progress.
    AlreadyRunning,
}

/// The slot after a start request, and whether it was admitted; `alive` is
/// the non-blocking probe of the held handle, read only when one is held.
pub open spec fn slot_admit(s: WorkerState, alive: bool) -> (WorkerState, Result<(), SlotRefusal>) {
    match s {
        WorkerState::Running => if alive {
            (s, Err(SlotRefusal::AlreadyRunning))
        } else {
            (WorkerState::Starting, Ok(()))
        },
        WorkerState::Starting => (s, Err(SlotRefusal::AlreadyRunning)),
        WorkerState::Idle => (WorkerState::Starting, Ok(())),
    }
}

/// The slot once an admitted start ended, with a worker launched or not.
pub open spec fn slot_finish(launched: bool) -> WorkerState {
    if launched {
        WorkerState::Running
    } else {
        WorkerState::Idle
    }
}

/// The slot after a stop request, and whether the held worker is to be
/// terminated.
pub open spec fn slot_stop(s: WorkerState) -> (WorkerState, bool) {
    match s {
        WorkerState::Running => (WorkerState::Idle, true),
        _ => (s, false),
    }
}

/// The single worker slot. The host keeps it, with the worker's handle, under
/// one lock, and holds a handle exactly while the state is `Running`.
#[derive(Debug)]
pub struct Supervisor {
    state: WorkerState,
}

impl View for Supervisor {
    type V = WorkerState;

    closed spec fn view(&self) -> WorkerState {
        self.state
    }
}

impl Supervisor {
    /// A slot that holds no worker.
    pub fn new() -> (r: Supervisor)
        ensures
            r@ == WorkerState::Idle,
    {
        Supervisor { state: WorkerState::Idle }
    }

    pub fn state(&self) -> (r: WorkerState)
        ensures
            r == self@,
    {
        self.state
    }

    /// Admits a start unless a live worker is held or a start is in
    /// progress. A held worker that has exited is dropped: on `Ok` the host
    /// discards any handle it held.
    pub fn request_start(&mut self, alive: bool) -> (r: Result<(), SlotRefusal>)
        ensures
            (final(self)@, r) == slot_admit(old(self)@, alive),
            forall|live: bool|
                #[trigger] slot_step((SlotWorld { slot: old(self)@, live }), SlotOp::Start { alive }).slot
                    == final(self)@,
    {
        match self.state {
            WorkerState::Running => {
                if alive {
                    Err(SlotRefusal::AlreadyRunning)
                } else {
                    self.state = WorkerState::Starting;
                    Ok(())
                }
            },
            WorkerState::Starting => Err(SlotRefusal::AlreadyRunning),
            WorkerState::Idle => {
                self.state = WorkerState::Starting;
                Ok(())
            },
        }
    }

    /// Ends an admitted start: the host installs the new handle when
    /// `launched`.
    pub fn finish_start(&mut self, launched: bool)
        ensures
            final(self)@ == slot_finish(launched),
            forall|live: bool|
                #[trigger] slot_step((SlotWorld { slot: old(self)@, live }), SlotOp::Finish { launched }).slot
                    == final(self)@,
    {
        self.state = if launched {
            WorkerState::Running
        } else {
            WorkerState::Idle
        };
    }

    /// Clears the slot; `true` when a worker was held, which the host then
    /// signals to terminate. With none held this is a no-op.
    pub fn request_stop(&mut self) -> (r: bool)
        ensures
            (final(self)@, r) == slot_stop(old(self)@),
            old(self)@ != WorkerState::Running ==> !r && final(self)@ == old(self)@,
            forall|live: bool|
                #[trigger] slot_step((SlotWorld { slot: old(self)@, live }), SlotOp::Stop).slot == final(self)@,
    {
        match self.state {
            WorkerState::Running => {
                self.state = WorkerState::Idle;
                true
            },
            _ => false,
        }
    }
}

/// The slot together with whether the worker it launched is still alive. Each
/// method of `Supervisor` moves its state as `slot_step` moves `slot`.
pub struct SlotWorld {
    pub slot: WorkerState,
    pub live: bool,
}

/// One operation on the slot, each taken under the lock, or the worker
/// exiting by itself.
pub enum SlotOp {
    /// A start request, with the probe of the held handle.
    Start { alive: bool },
    /// The admitted start ends, with a worker launched or not.
    Finish { launched: bool },
    /// A stop request; the signalled worker terminates.
    Stop,
    /// The worker exits on its own.
    Exit,
}

/// Whether `op` can happen in `w`: a probe reports the truth, and only the
/// caller whose start was admitted ends it.
pub open spec fn slot_op_allowed(w: SlotWorld, op: SlotOp) -> bool {
    match op {
        SlotOp::Start { alive } => w.slot == WorkerState::Running ==> alive == w.live,
        SlotOp::Finish { .. } => w.slot == WorkerState::Starting,
        _ => true,
    }
}

pub open spec fn slot_step(w: SlotWorld, op: SlotOp) -> SlotWorld {
    match op {
        SlotOp::Start { alive } => SlotWorld { slot: slot_admit(w.slot, alive).0, live: w.live },
        SlotOp::Finish { launched } => SlotWorld { slot: slot_finish(launched), live: launched },
        SlotOp::Stop => if slot_stop(w.slot).1 {
            SlotWorld { slot: slot_stop(w.slot).0, live: false }
        } else {
            w
        },
        SlotOp::Exit => SlotWorld { slot: w.slot, live: false },
    }
}

/// The world after `ops`, or `None` when one of them could not happen.
pub open spec fn slot_run(w: SlotWorld, ops: Seq<SlotOp>) -> Option<SlotWorld>
    decreases ops.len(),
{
    if ops.len() == 0 {
        Some(w)
    } else if slot_op_allowed(w, ops[0]) {
        slot_run(slot_step(w, ops[0]), ops.drop_first())
    } else {
        None
    }
}

/// A live worker is always held by the slot.
pub open spec fn slot_consistent(w: SlotWorld) -> bool {
    w.live ==> w.slot == WorkerState::Running
}

/// Under any interleaving of starts, stops and exits, a live worker is always
/// held by the slot, and a held worker found dead by a start is dropped.
pub proof fn lemma_slot_stays_consistent(w: SlotWorld, ops: Seq<SlotOp>)
    requires
        slot_consistent(w),
    ensures
        slot_run(w, ops) matches Some(w2) ==> slot_consistent(w2),
    decreases ops.len(),
{
    if ops.len() > 0 && slot_op_allowed(w, ops[0]) {
        lemma_slot_stays_consistent(slot_step(w, ops[0]), ops.drop_first());
    }
}

/// A start admitted while the held worker is dead leaves no live worker
/// outside the slot: the slot is `Starting` and nothing is alive.
pub proof fn lemma_dead_worker_dropped(w: SlotWorld)
    requires
        slot_consistent(w),
        w.slot == WorkerState::Running,
        !w.live,
    ensures
        slot_step(w, SlotOp::Start { alive: false }) == (SlotWorld { slot: WorkerState::Starting, live: false }),
{
}

/// A second start right after the first is refused while the first is
/// provisioning or its worker lives, and admitted once that worker exited.
pub proof fn lemma_second_start_refused()
    ensures
        slot_admit(WorkerState::Idle, false) == (WorkerState::Starting, Ok::<(), SlotRefusal>(())),
        slot_admit(WorkerState::Starting, false).1 == Err::<(), SlotRefusal>(SlotRefusal::AlreadyRunning),
        slot_admit(WorkerState::Starting, true).1 == Err::<(), SlotRefusal>(SlotRefusal::AlreadyRunning),
        slot_admit(slot_finish(true), true) == (WorkerState::Running, Err::<(), SlotRefusal>(
            SlotRefusal::AlreadyRunning,
        )),
        slot_admit(slot_finish(true), false) == (WorkerState::Starting, Ok::<(), SlotRefusal>(())),
{
}

/// Stopping with no worker held changes nothing and signals nothing.
pub proof fn lemma_stop_when_idle(s: WorkerState)
    requires
        s != WorkerState::Running,
    ensures
        slot_stop(s) == (s, false),
{
}

} // verus!
