use vstd::prelude::*;

use crate::error::CoolerError;

verus! {

/// Where a device session stands. Setup runs from `Opening` to `Active`;
/// teardown runs from `ReleasingInterface` to `Closed`, which is final.
#[derive(Debug, Clone, Copy, PartialEq, Eq, Structural)]
pub enum Stage {
    Opening,
    QueryingDriver,
    Detaching,
    Claiming,
    Resetting,
    Active,
    ReleasingInterface,
    ReattachingDriver,
    ClosingHandle,
    ClosingContext,
    Closed,
}

/// What came of the last action, or a request from the session's owner.
#[derive(Debug, Clone, Copy, PartialEq, Eq, Structural)]
pub enum Event {
    Succeeded,
    Failed,
    /// The device to open is not present.
    NotFound,
    /// The answer to `QueryDriver`: whether a kernel driver holds the
    /// interface.
    DriverActive(bool),
    /// The owner is done with the session.
    CloseRequested,
}

/// What the session's owner is to do next on the device.
#[derive(Debug, Clone, Copy, PartialEq, Eq, Structural)]
pub enum Action {
    /// Create the USB context and open the device by vendor and product.
    OpenDevice,
    QueryDriver,
    DetachDriver,
    ClaimInterface,
    Reset,
    /// Setup is complete; the device may be read and written.
    Ready,
    ReleaseInterface,
    AttachDriver,
    CloseHandle,
    CloseContext,
    /// Teardown of a session that had been ready is complete.
    Finished,
    /// Setup failed with this error; what it had acquired is released.
    Aborted(CoolerError),
    /// Nothing to do.
    Wait,
}

/// The lifecycle of one device session: which step it is at, whether a
/// kernel driver was detached (and so must be given back), and why setup
/// failed, if it did.
#[derive(Debug, Clone, Copy, PartialEq, Eq, Structural)]
pub struct Session {
    pub stage: Stage,
    pub driver_detached: bool,
    pub failure: Option<CoolerError>,
}

/// The teardown steps after the interface is released: the driver goes back
/// if it was taken, then the handle closes.
pub open spec fn after_release(s: Session) -> (Session, Action) {
    if s.driver_detached {
        (Session { stage: Stage::ReattachingDriver, ..s }, Action::AttachDriver)
    } else {
        (Session { stage: Stage::ClosingHandle, ..s }, Action::CloseHandle)
    }
}

/// Setup stops with `err` and teardown starts at `stage` with `action`.
pub open spec fn fail_to(s: Session, err: CoolerError, stage: Stage, action: Action) -> (Session, Action) {
    (Session { stage, failure: Some(err), ..s }, action)
}

/// The actions of a complete teardown of an active session, in order.
pub open spec fn teardown_plan(driver_detached: bool) -> Seq<Action> {
    if driver_detached {
        seq![Action::ReleaseInterface, Action::AttachDriver, Action::CloseHandle, Action::CloseContext, Action::Finished]
    } else {
        seq![Action::ReleaseInterface, Action::CloseHandle, Action::CloseContext, Action::Finished]
    }
}

impl Session {
    /// A session that has not opened anything yet.
    pub open spec fn initial() -> Session {
        Session { stage: Stage::Opening, driver_detached: false, failure: None }
    }

    /// The state after `e`, and the action it calls for. In teardown every
    /// outcome moves on to the next step.
    pub open spec fn next(self, e: Event) -> (Session, Action) {
        match self.stage {
            Stage::Opening => match e {
                Event::Succeeded => (Session { stage: Stage::QueryingDriver, ..self }, Action::QueryDriver),
                Event::NotFound => fail_to(self, CoolerError::DeviceNotFound, Stage::ClosingContext, Action::CloseContext),
                _ => fail_to(self, CoolerError::OpenFailed, Stage::ClosingContext, Action::CloseContext),
            },
            Stage::QueryingDriver => match e {
                Event::DriverActive(true) => (Session { stage: Stage::Detaching, ..self }, Action::DetachDriver),
                Event::DriverActive(false) => (Session { stage: Stage::Claiming, ..self }, Action::ClaimInterface),
                _ => fail_to(self, CoolerError::DriverQueryFailed, Stage::ClosingHandle, Action::CloseHandle),
            },
            Stage::Detaching => match e {
                Event::Succeeded => (
                    Session { stage: Stage::Claiming, driver_detached: true, ..self },
                    Action::ClaimInterface,
                ),
                _ => fail_to(self, CoolerError::DetachFailed, Stage::ClosingHandle, Action::CloseHandle),
            },
            Stage::Claiming => match e {
                Event::Succeeded => (Session { stage: Stage::Resetting, ..self }, Action::Reset),
                _ => after_release(Session { failure: Some(CoolerError::ClaimFailed), ..self }),
            },
            Stage::Resetting => match e {
                Event::Succeeded => (Session { stage: Stage::Active, ..self }, Action::Ready),
                _ => fail_to(self, CoolerError::ResetFailed, Stage::ReleasingInterface, Action::ReleaseInterface),
            },
            Stage::Active => match e {
                Event::CloseRequested => (Session { stage: Stage::ReleasingInterface, ..self }, Action::ReleaseInterface),
                _ => (self, Action::Wait),
            },
            Stage::ReleasingInterface => after_release(self),
            Stage::ReattachingDriver => (Session { stage: Stage::ClosingHandle, ..self }, Action::CloseHandle),
            Stage::ClosingHandle => (Session { stage: Stage::ClosingContext, ..self }, Action::CloseContext),
            Stage::ClosingContext => (
                Session { stage: Stage::Closed, ..self },
                match self.failure {
                    Some(err) => Action::Aborted(err),
                    None => Action::Finished,
                },
            ),
            Stage::Closed => (self, Action::Wait),
        }
    }

    /// The actions called for by a sequence of events, fed one at a time.
    pub open spec fn run(self, events: Seq<Event>) -> Seq<Action>
        decreases events.len(),
    {
        if events.len() == 0 {
            seq![]
        } else {
            let (s, a) = self.next(events[0]);
            seq![a] + s.run(events.drop_first())
        }
    }

    /// The state after a sequence of events.
    pub open spec fn after(self, events: Seq<Event>) -> Session
        decreases events.len(),
    {
        if events.len() == 0 {
            self
        } else {
            self.next(events[0]).0.after(events.drop_first())
        }
    }

    /// A fresh session and its first action, opening the device.
    pub fn new() -> (r: (Session, Action))
        ensures
            r.0 == Session::initial(),
            r.1 == Action::OpenDevice,
    {
        (Session { stage: Stage::Opening, driver_detached: false, failure: None }, Action::OpenDevice)
    }

    /// Whether the device may be read and written.
    pub fn is_active(&self) -> (r: bool)
        ensures
            r == (self.stage == Stage::Active),
    {
        match self.stage {
            Stage::Active => true,
            _ => false,
        }
    }

    fn release_done(&mut self) -> (r: Action)
        ensures
            (*final(self), r) == after_release(*old(self)),
    {
        if self.driver_detached {
            self.stage = Stage::ReattachingDriver;
            Action::AttachDriver
        } else {
            self.stage = Stage::ClosingHandle;
            Action::CloseHandle
        }
    }

    fn fail(&mut self, err: CoolerError, stage: Stage, action: Action) -> (r: Action)
        ensures
            (*final(self), r) == fail_to(*old(self), err, stage, action),
    {
        self.failure = Some(err);
        self.stage = stage;
        action
    }

    /// Takes in what came of the last action and returns the next one.
    pub fn step(&mut self, e: Event) -> (r: Action)
        ensures
            (*final(self), r) == old(self).next(e),
    {
        match self.stage {
            Stage::Opening => match e {
                Event::Succeeded => {
                    self.stage = Stage::QueryingDriver;
                    Action::QueryDriver
                },
                Event::NotFound => self.fail(CoolerError::DeviceNotFound, Stage::ClosingContext, Action::CloseContext),
                _ => self.fail(CoolerError::OpenFailed, Stage::ClosingContext, Action::CloseContext),
            },
            Stage::QueryingDriver => match e {
                Event::DriverActive(true) => {
                    self.stage = Stage::Detaching;
                    Action::DetachDriver
                },
                Event::DriverActive(false) => {
                    self.stage = Stage::Claiming;
                    Action::ClaimInterface
                },
                _ => self.fail(CoolerError::DriverQueryFailed, Stage::ClosingHandle, Action::CloseHandle),
            },
            Stage::Detaching => match e {
                Event::Succeeded => {
                    self.stage = Stage::Claiming;
                    self.driver_detached = true;
                    Action::ClaimInterface
                },
                _ => self.fail(CoolerError::DetachFailed, Stage::ClosingHandle, Action::CloseHandle),
            },
            Stage::Claiming => match e {
                Event::Succeeded => {
                    self.stage = Stage::Resetting;
                    Action::Reset
                },
                _ => {
                    self.failure = Some(CoolerError::ClaimFailed);
                    self.release_done()
                },
            },
            Stage::Resetting => match e {
                Event::Succeeded => {
                    self.stage = Stage::Active;
                    Action::Ready
                },
                _ => self.fail(CoolerError::ResetFailed, Stage::ReleasingInterface, Action::ReleaseInterface),
            },
            Stage::Active => match e {
                Event::CloseRequested => {
                    self.stage = Stage::ReleasingInterface;
                    Action::ReleaseInterface
                },
                _ => Action::Wait,
            },
            Stage::ReleasingInterface => self.release_done(),
            Stage::ReattachingDriver => {
                self.stage = Stage::ClosingHandle;
                Action::CloseHandle
            },
            Stage::ClosingHandle => {
                self.stage = Stage::ClosingContext;
                Action::CloseContext
            },
            Stage::ClosingContext => {
                self.stage = Stage::Closed;
                match self.failure {
                    Some(err) => Action::Aborted(err),
                    None => Action::Finished,
                }
            },
            Stage::Closed => Action::Wait,
        }
    }
}

impl Session {
    /// Setup has not failed while the session is still being set up or is
    /// active.
    pub open spec fn wf(self) -> bool {
        match self.stage {
            Stage::Opening | Stage::QueryingDriver | Stage::Detaching | Stage::Claiming
            | Stage::Resetting | Stage::Active => self.failure is None,
            _ => true,
        }
    }
}

/// Every session reached from a fresh one by any events is well formed.
pub proof fn lemma_reachable_wf(events: Seq<Event>)
    ensures
        Session::initial().after(events).wf(),
{
    lemma_next_keeps_wf(Session::initial(), events);
}

/// Stepping keeps a session well formed.
pub proof fn lemma_next_keeps_wf(s: Session, events: Seq<Event>)
    requires
        s.wf(),
    ensures
        s.after(events).wf(),
    decreases events.len(),
{
    if events.len() > 0 {
        lemma_next_keeps_wf(s.next(events[0]).0, events.drop_first());
    }
}

/// Closing an active session runs every teardown step in order whatever each
/// step reports: the interface is released, the kernel driver is given back if
/// it was detached, the handle and then the context are closed, and the
/// session ends closed.
pub proof fn lemma_teardown_runs_every_step(s: Session, outcomes: Seq<Event>)
    requires
        s.wf(),
        s.stage == Stage::Active,
        outcomes.len() + 1 == teardown_plan(s.driver_detached).len(),
    ensures
        s.run(seq![Event::CloseRequested] + outcomes) == teardown_plan(s.driver_detached),
        s.after(seq![Event::CloseRequested] + outcomes).stage == Stage::Closed,
{
    reveal_with_fuel(Session::run, 6);
    reveal_with_fuel(Session::after, 6);
    let evs = seq![Event::CloseRequested] + outcomes;
    assert(evs.drop_first() =~= outcomes);
    assert(s.run(evs) =~= teardown_plan(s.driver_detached));
}

/// A closed session stays closed and asks for nothing more.
pub proof fn lemma_closed_is_final(s: Session, events: Seq<Event>)
    requires
        s.stage == Stage::Closed,
    ensures
        s.after(events) == s,
        forall|i: int| 0 <= i < events.len() ==> #[trigger] s.run(events)[i] == Action::Wait,
        s.run(events).len() == events.len(),
    decreases events.len(),
{
    if events.len() > 0 {
        lemma_closed_is_final(s, events.drop_first());
        assert forall|i: int| 0 <= i < events.len() implies #[trigger] s.run(events)[i] == Action::Wait by {
            if i > 0 {
                assert(s.run(events)[i] == s.run(events.drop_first())[i - 1]);
            }
        }
    }
}

/// How many more events a session in teardown needs to be closed.
pub open spec fn steps_to_close(s: Session) -> nat {
    match s.stage {
        Stage::ReleasingInterface => if s.driver_detached {
            4
        } else {
            3
        },
        Stage::ReattachingDriver => 3,
        Stage::ClosingHandle => 2,
        Stage::ClosingContext => 1,
        _ => 0,
    }
}

/// Once teardown has begun, after a failed setup or on closing, it runs to
/// the end whatever each step reports: enough further events always leave the
/// session closed.
pub proof fn lemma_teardown_finishes(s: Session, events: Seq<Event>)
    requires
        s.stage == Stage::ReleasingInterface || s.stage == Stage::ReattachingDriver
            || s.stage == Stage::ClosingHandle || s.stage == Stage::ClosingContext
            || s.stage == Stage::Closed,
        events.len() >= steps_to_close(s),
    ensures
        s.after(events).stage == Stage::Closed,
    decreases events.len(),
{
    if s.stage == Stage::Closed {
        lemma_closed_is_final(s, events);
    } else {
        lemma_teardown_finishes(s.next(events[0]).0, events.drop_first());
    }
}

/// A setup step that does not succeed ends setup: the session records why,
/// enters teardown to release what it had acquired, and never becomes active.
pub proof fn lemma_failed_setup_step(s: Session, e: Event)
    requires
        s.wf(),
        s.stage == Stage::Opening || s.stage == Stage::QueryingDriver || s.stage == Stage::Detaching
            || s.stage == Stage::Claiming || s.stage == Stage::Resetting,
        e != Event::Succeeded,
        s.stage == Stage::QueryingDriver ==> !(e is DriverActive),
    ensures
        s.next(e).0.failure is Some,
        s.next(e).0.stage == Stage::ReleasingInterface || s.next(e).0.stage == Stage::ReattachingDriver
            || s.next(e).0.stage == Stage::ClosingHandle || s.next(e).0.stage == Stage::ClosingContext,
        s.next(e).0.driver_detached == s.driver_detached,
{
}

} // verus!
