//! The driver: owns the lifecycle and the running instance, and turns each
//! event of the window's event source into at most one lifecycle call.
use crate::config::Application;
use crate::lifecycle::Runnable;
use vstd::prelude::*;

verus! {

/// An event of the window's event source, as far as the driver tells them apart.
#[derive(Clone, Copy, Debug, PartialEq, Eq, Structural)]
pub enum LoopEvent {
    /// All pending events were handled: a frame is due.
    FrameReady,
    /// The user asked to close the window.
    CloseRequested,
    /// The event loop is being torn down; nothing follows.
    LoopDestroyed,
    /// Any other event; it is absorbed.
    Other,
}

/// Where the driver stands.
#[derive(Clone, Copy, Debug, PartialEq, Eq, Structural)]
pub enum DriverState {
    /// `initialize` has not been called yet.
    Created,
    /// Initialized; each frame calls `update`.
    Polling,
    /// The window is closing; no lifecycle call follows.
    Exiting,
    /// `initialize` failed; no lifecycle call follows.
    Failed,
}

/// A call that the driver made into the lifecycle.
#[derive(Clone, Copy, Debug, PartialEq, Eq, Structural)]
pub enum LifecycleCall {
    Initialize,
    Update,
}

/// What the driver does on one event.
#[derive(Clone, Copy, Debug, PartialEq, Eq, Structural)]
pub enum Action {
    /// Call `update`.
    Update,
    /// Stop the event loop.
    Exit,
    /// Report that the loop has ended.
    Shutdown,
    /// Nothing.
    Ignore,
}

/// What handling one event came to, for the one who runs the event loop.
pub enum Outcome {
    /// Nothing to do, or `update` succeeded.
    Continue,
    /// `update` failed; the error is to be reported, and the loop goes on.
    UpdateFailed(anyhow::Error),
    /// The loop is to stop.
    Exit,
    /// The loop has ended; the shutdown is to be reported.
    Shutdown,
}

/// The state after `event` in state `s`.
pub open spec fn next_state(s: DriverState, event: LoopEvent) -> DriverState {
    match (s, event) {
        (DriverState::Polling, LoopEvent::CloseRequested) => DriverState::Exiting,
        (DriverState::Polling, LoopEvent::LoopDestroyed) => DriverState::Exiting,
        _ => s,
    }
}

/// What the driver does on `event` in state `s`.
pub open spec fn action_of(s: DriverState, event: LoopEvent) -> Action {
    match (s, event) {
        (DriverState::Polling, LoopEvent::FrameReady) => Action::Update,
        (DriverState::Polling, LoopEvent::CloseRequested) => Action::Exit,
        (DriverState::Polling, LoopEvent::LoopDestroyed) => Action::Shutdown,
        (DriverState::Exiting, LoopEvent::LoopDestroyed) => Action::Shutdown,
        _ => Action::Ignore,
    }
}

/// `r` reports the action `a`: an `update` may have succeeded or failed.
pub open spec fn reports(r: Outcome, a: Action) -> bool {
    match a {
        Action::Update => r is Continue || r is UpdateFailed,
        Action::Exit => r is Exit,
        Action::Shutdown => r is Shutdown,
        Action::Ignore => r is Continue,
    }
}

/// The calls that handling `event` in state `s` adds to `calls`.
pub open spec fn calls_after(calls: Seq<LifecycleCall>, s: DriverState, event: LoopEvent) -> Seq<
    LifecycleCall,
> {
    if action_of(s, event) is Update {
        calls.push(LifecycleCall::Update)
    } else {
        calls
    }
}

/// How many times `update` is called when `events` arrive in state `s`.
pub open spec fn updates_from(s: DriverState, events: Seq<LoopEvent>) -> nat
    decreases events.len(),
{
    if events.len() == 0 {
        0
    } else {
        (if action_of(s, events[0]) is Update {
            1nat
        } else {
            0nat
        }) + updates_from(next_state(s, events[0]), events.drop_first())
    }
}

/// The state that `events` lead to from state `s`.
pub open spec fn state_after(s: DriverState, events: Seq<LoopEvent>) -> DriverState
    decreases events.len(),
{
    if events.len() == 0 {
        s
    } else {
        state_after(next_state(s, events[0]), events.drop_first())
    }
}

/// Owns the lifecycle and the running instance for the length of a run.
pub struct Driver<R> {
    pub runnable: R,
    pub app: Application,
    pub state: DriverState,
    /// The record that the driver keeps beside each lifecycle call it
    /// makes, in order.
    pub calls: Ghost<Seq<LifecycleCall>>,
    /// The record of what `initialize` returned, kept once it was called.
    pub initialized: Ghost<Option<Result<(), anyhow::Error>>>,
    /// The record of what the latest `update` returned, if one was called.
    pub updated: Ghost<Option<Result<(), anyhow::Error>>>,
}

impl<R: Runnable> Driver<R> {
    /// `initialize` comes first and once, every later call is an `update`,
    /// and a failed `initialize` is the only call.
    pub open spec fn wf(&self) -> bool {
        &&& (self.state is Created <==> self.calls@.len() == 0)
        &&& (self.state is Created <==> self.initialized@ is None)
        &&& (self.calls@.len() > 0 ==> self.calls@[0] is Initialize)
        &&& forall|i: int| 1 <= i < self.calls@.len() ==> #[trigger] self.calls@[i] is Update
        &&& (self.state is Failed <==> self.initialized@ matches Some(Err(_)))
        &&& (self.state is Failed ==> self.calls@.len() == 1)
    }

    /// A driver that has made no call yet.
    pub fn new(runnable: R, app: Application) -> (r: Self)
        ensures
            r.wf(),
            r.state is Created,
            r.calls@ == Seq::<LifecycleCall>::empty(),
            r.runnable == runnable,
            r.app == app,
    {
        Driver {
            runnable,
            app,
            state: DriverState::Created,
            calls: Ghost(Seq::empty()),
            initialized: Ghost(None),
            updated: Ghost(None),
        }
    }

    /// Calls `initialize`, once, and returns what it returned. On success
    /// frames are driven from now on; on failure nothing more is called.
    pub fn initialize(&mut self) -> (r: Result<(), anyhow::Error>)
        requires
            old(self).wf(),
            old(self).state is Created,
        ensures
            final(self).wf(),
            final(self).calls@ == seq![LifecycleCall::Initialize],
            final(self).initialized@ == Some(r),
            r is Ok <==> final(self).state is Polling,
            r is Err <==> final(self).state is Failed,
    {
        let r = self.runnable.initialize(&mut self.app);
        proof {
            self.calls@ = seq![LifecycleCall::Initialize];
            self.initialized@ = Some(r);
        }
        match r {
            Ok(()) => {
                self.state = DriverState::Polling;
            },
            Err(_) => {
                self.state = DriverState::Failed;
            },
        }
        r
    }

    /// Handles one event: calls `update` on a frame while polling, stops on
    /// a close request, and reports the end of the loop. A failed `update`
    /// is handed back, and leaves the state as a successful one does.
    pub fn handle(&mut self, event: LoopEvent) -> (r: Outcome)
        requires
            old(self).wf(),
        ensures
            final(self).wf(),
            final(self).state == next_state(old(self).state, event),
            final(self).calls@ == calls_after(old(self).calls@, old(self).state, event),
            final(self).initialized@ == old(self).initialized@,
            reports(r, action_of(old(self).state, event)),
            action_of(old(self).state, event) is Update ==> (final(self).updated@ matches Some(u)
                && (r is Continue <==> u is Ok) && (u matches Err(e) ==> r
                == Outcome::UpdateFailed(e))),
            !(action_of(old(self).state, event) is Update) ==> final(self).updated@ == old(
                self,
            ).updated@,
    {
        match (self.state, event) {
            (DriverState::Polling, LoopEvent::FrameReady) => {
                let r = self.runnable.update(&mut self.app);
                proof {
                    self.calls@ = self.calls@.push(LifecycleCall::Update);
                    self.updated@ = Some(r);
                }
                match r {
                    Ok(()) => Outcome::Continue,
                    Err(e) => Outcome::UpdateFailed(e),
                }
            },
            (DriverState::Polling, LoopEvent::CloseRequested) => {
                self.state = DriverState::Exiting;
                Outcome::Exit
            },
            (DriverState::Polling, LoopEvent::LoopDestroyed) => {
                self.state = DriverState::Exiting;
                Outcome::Shutdown
            },
            (DriverState::Exiting, LoopEvent::LoopDestroyed) => Outcome::Shutdown,
            _ => Outcome::Continue,
        }
    }

    /// A whole run over a finite stream of events: `initialize`, then each
    /// event in turn. Returns what a failed `initialize` returned, else `Ok`;
    /// failed updates are dropped and do not stop the run.
    pub fn run_events(&mut self, events: &Vec<LoopEvent>) -> (r: Result<(), anyhow::Error>)
        requires
            old(self).wf(),
            old(self).state is Created,
        ensures
            final(self).wf(),
            final(self).initialized@ == Some(r),
            r is Err <==> final(self).state is Failed,
            r is Err ==> final(self).calls@ == seq![LifecycleCall::Initialize],
            r is Ok ==> final(self).calls@.len() == 1 + updates_from(DriverState::Polling, events@),
            r is Ok ==> final(self).state == state_after(DriverState::Polling, events@),
    {
        let r = self.initialize();
        if r.is_err() {
            return r;
        }
        let mut i: usize = 0;
        assert(events@.subrange(0, events@.len() as int) =~= events@);
        while i < events.len()
            invariant
                self.wf(),
                self.initialized@ == Some(r),
                r is Ok,
                !(self.state is Created) && !(self.state is Failed),
                0 <= i <= events@.len(),
                self.calls@.len() - 1 + updates_from(self.state, events@.subrange(i as int, events@.len() as int))
                    == updates_from(DriverState::Polling, events@),
                state_after(self.state, events@.subrange(i as int, events@.len() as int))
                    == state_after(DriverState::Polling, events@),
            decreases events@.len() - i,
        {
            let event = events[i];
            proof {
                let rest = events@.subrange(i as int, events@.len() as int);
                assert(rest[0] == event);
                assert(rest.drop_first() =~= events@.subrange(i + 1, events@.len() as int));
            }
            let _ = self.handle(event);
            i = i + 1;
        }
        proof {
            assert(events@.subrange(i as int, events@.len() as int).len() == 0);
        }
        r
    }
}

} // verus!

verus! {

/// `initialize` is the first lifecycle call of a run and the only one of its
/// kind: every other call is an `update`.
pub proof fn initialize_once_and_first<R: Runnable>(d: &Driver<R>, i: int)
    requires
        d.wf(),
        0 <= i < d.calls@.len(),
    ensures
        d.calls@[i] is Initialize <==> i == 0,
        d.calls@[i] is Update <==> i > 0,
{
}

/// Once the driver is no longer polling (before `initialize`, after a failed
/// `initialize`, or while exiting), no event brings about an `update`.
pub proof fn no_updates_unless_polling(s: DriverState, events: Seq<LoopEvent>)
    requires
        !(s is Polling),
    ensures
        updates_from(s, events) == 0,
    decreases events.len(),
{
    if events.len() > 0 {
        no_updates_unless_polling(next_state(s, events[0]), events.drop_first());
    }
}

/// After a close request, whatever follows, no more `update` is called: the
/// events after it add nothing to the count.
pub proof fn no_updates_after_close(s: DriverState, before: Seq<LoopEvent>, after: Seq<LoopEvent>)
    ensures
        updates_from(s, before.push(LoopEvent::CloseRequested) + after) == updates_from(s, before),
    decreases before.len(),
{
    let all = before.push(LoopEvent::CloseRequested) + after;
    if before.len() == 0 {
        assert(all[0] == LoopEvent::CloseRequested);
        assert(all.drop_first() =~= after);
        no_updates_unless_polling(next_state(s, LoopEvent::CloseRequested), after);
        if s is Polling {
        } else {
            no_updates_unless_polling(s, before);
        }
    } else {
        assert(all[0] == before[0]);
        assert(all.drop_first() =~= before.drop_first().push(LoopEvent::CloseRequested) + after);
        no_updates_after_close(next_state(s, before[0]), before.drop_first(), after);
    }
}

/// `n` frames while polling are `n` calls of `update`, whatever each of them
/// returned, and polling goes on after them.
pub proof fn every_frame_updates(n: nat, after: Seq<LoopEvent>)
    ensures
        updates_from(DriverState::Polling, Seq::new(n, |_i: int| LoopEvent::FrameReady) + after)
            == n + updates_from(DriverState::Polling, after),
    decreases n,
{
    let all = Seq::new(n, |_i: int| LoopEvent::FrameReady) + after;
    if n > 0 {
        assert(all[0] == LoopEvent::FrameReady);
        assert(all.drop_first() =~= Seq::new((n - 1) as nat, |_i: int| LoopEvent::FrameReady) + after);
        every_frame_updates((n - 1) as nat, after);
    } else {
        assert(all =~= after);
    }
}

} // verus!
