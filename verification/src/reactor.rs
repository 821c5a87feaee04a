//! The reactor: what the daemon does on each event of the tracer. It keeps,
//! for each child to which the probe is attached, the handle of that
//! attachment, and it keeps the bootloop guard.

use crate::bootloop::{after_crash, BootloopTracker};
use crate::error::{Error, Transient};
use crate::event::EbpfEvent;
use crate::protocol::Failure;
use crate::umount::check;
use std::collections::HashMap;
use vstd::prelude::*;

verus! {

broadcast use vstd::std_specs::hash::group_hash_axioms;

/// What the daemon does for an event.
#[derive(Debug)]
pub enum Action<H> {
    /// Nothing but a line in the log.
    Log,
    /// The zygote keeps crashing: the daemon gives up.
    Exit,
    /// The probe is attached to the child, whose handle is then handed to
    /// `attached`; the child is continued when the event has been dealt
    /// with.
    Attach { pid: i32 },
    /// The attachment `detach` of the child, if there is one, is released,
    /// and the injection into the child is started. The injection continues
    /// the child.
    Inject { pid: i32, return_addr: u64, detach: Option<H> },
    /// The mounts of the child are scrubbed; the scrubber continues the
    /// child.
    Umount { pid: i32, uid: u32 },
    /// The child needs nothing and is continued.
    Resume { pid: i32 },
}

/// The state of the reactor.
pub struct ReactorState<H> {
    /// The handle of the probe's attachment, for each child that has one.
    pub attached: Map<i32, H>,
    /// The crash times that the bootloop guard holds.
    pub crashes: Seq<u64>,
    /// Window of the bootloop guard.
    pub window: u64,
    /// Number of crashes within the window at which the daemon gives up.
    pub limit: usize,
    /// The users for whose processes mounts are scrubbed.
    pub denylist: Seq<u32>,
}

impl<H> ReactorState<H> {
    /// The state after an event that arrived at `now` was dealt with. Only
    /// the demand for an injection makes the reactor forget a child; only a
    /// crash of the zygote touches the bootloop guard.
    pub open spec fn after(self, event: EbpfEvent, now: u64) -> ReactorState<H> {
        match event {
            EbpfEvent::ZygoteCrashed(_) => ReactorState {
                crashes: after_crash(self.crashes, self.window, now),
                ..self
            },
            EbpfEvent::RequireInject(pid, _) => ReactorState {
                attached: self.attached.remove(pid),
                ..self
            },
            _ => self,
        }
    }

    /// What is done for an event that arrives at `now`.
    pub open spec fn action(self, event: EbpfEvent, now: u64) -> Action<H> {
        match event {
            EbpfEvent::ZygoteStarted(_) => Action::Log,
            EbpfEvent::ZygoteForked(_) => Action::Log,
            EbpfEvent::ZygoteCrashed(_) => if after_crash(self.crashes, self.window, now).len()
                >= self.limit {
                Action::Exit
            } else {
                Action::Log
            },
            EbpfEvent::RequireUprobeAttach(pid) => Action::Attach { pid },
            EbpfEvent::RequireInject(pid, return_addr) => Action::Inject {
                pid,
                return_addr,
                detach: if self.attached.contains_key(pid) {
                    Some(self.attached[pid])
                } else {
                    None
                },
            },
            EbpfEvent::RequireUmount(pid, uid) => if self.denylist.contains(uid) {
                Action::Umount { pid, uid }
            } else {
                Action::Resume { pid }
            },
        }
    }

    /// The state after a series of events, each with the time at which it
    /// arrived.
    pub open spec fn after_all(self, events: Seq<(EbpfEvent, u64)>) -> ReactorState<H>
        decreases events.len(),
    {
        if events.len() == 0 {
            self
        } else {
            self.after_all(events.drop_last()).after(events.last().0, events.last().1)
        }
    }
}

/// The event demands the injection into `pid`.
pub open spec fn demands_inject(event: EbpfEvent, pid: i32) -> bool {
    match event {
        EbpfEvent::RequireInject(subject, _) => subject == pid,
        _ => false,
    }
}

/// The child that is continued when an action has been carried out: the one
/// whose stop nobody else answers.
pub open spec fn resumed_by<H>(action: Action<H>) -> Option<i32> {
    match action {
        Action::Attach { pid } => Some(pid),
        Action::Resume { pid } => Some(pid),
        _ => None,
    }
}

/// The child that is continued for an action, by whoever the action leaves
/// this to: by the reactor itself for an attachment and for a child that
/// needs nothing, by the injection for a child that is injected into, by the
/// scrubber for a child whose mounts are scrubbed.
pub open spec fn continued<H>(action: Action<H>) -> Option<i32> {
    match action {
        Action::Attach { pid } => Some(pid),
        Action::Resume { pid } => Some(pid),
        Action::Inject { pid, return_addr, detach } => Some(pid),
        Action::Umount { pid, uid } => Some(pid),
        _ => None,
    }
}

/// Every stop is answered once: for an event that tells of a stopped
/// child, the action continues that child, through the reactor or through
/// the worker that the action starts, and never through both; for any other
/// event nobody is continued.
pub proof fn lemma_every_stop_is_answered<H>(state: ReactorState<H>, event: EbpfEvent, now: u64)
    ensures
        continued(state.action(event, now)) == if event.stops() {
            Some(event.subject())
        } else {
            None
        },
        resumed_by(state.action(event, now)) is Some ==> resumed_by(state.action(event, now))
            == continued(state.action(event, now)),
        resumed_by(state.action(event, now)) is Some ==> !(state.action(event, now) is Inject)
            && !(state.action(event, now) is Umount),
{
}

/// Once the probe is attached to a child, the reactor keeps the child's
/// handle through every event but the demand for the injection into that
/// child: whatever events are dealt with, the child is still known
/// afterwards, with the same handle, exactly when none of them was such a
/// demand. A crash of the zygote, in particular, makes the reactor forget
/// nobody.
pub proof fn lemma_attachment_kept_until_inject<H>(
    state: ReactorState<H>,
    events: Seq<(EbpfEvent, u64)>,
    pid: i32,
)
    requires
        state.attached.contains_key(pid),
    ensures
        state.after_all(events).attached.contains_key(pid) <==> forall|i: int|
            0 <= i < events.len() ==> !demands_inject(#[trigger] events[i].0, pid),
        state.after_all(events).attached.contains_key(pid) ==> state.after_all(events).attached[pid]
            == state.attached[pid],
    decreases events.len(),
{
    if events.len() > 0 {
        let before = events.drop_last();
        lemma_attachment_kept_until_inject(state, before, pid);
        let last = events.last().0;
        if state.after_all(events).attached.contains_key(pid) {
            assert(!demands_inject(last, pid));
            assert forall|i: int| 0 <= i < events.len() implies !demands_inject(
                #[trigger] events[i].0,
                pid,
            ) by {
                if i < before.len() {
                    assert(before[i] == events[i]);
                }
            }
        } else {
            if state.after_all(before).attached.contains_key(pid) {
                assert(demands_inject(events[events.len() - 1].0, pid));
            } else {
                let i = choose|i: int| 0 <= i < before.len() && demands_inject(before[i].0, pid);
                assert(before[i] == events[i]);
            }
        }
    }
}

/// The demand for the injection into a child releases the child's handle
/// and makes the reactor forget the child: a second demand finds nothing to
/// release.
pub proof fn lemma_inject_forgets<H>(state: ReactorState<H>, pid: i32, addr: u64, now: u64)
    ensures
        !state.after(EbpfEvent::RequireInject(pid, addr), now).attached.contains_key(pid),
        state.after(EbpfEvent::RequireInject(pid, addr), now).action(
            EbpfEvent::RequireInject(pid, addr),
            now,
        ) == (Action::<H>::Inject { pid, return_addr: addr, detach: None }),
{
}

/// The reactor.
pub struct Reactor<H> {
    attached: HashMap<i32, H>,
    tracker: BootloopTracker,
    denylist: Vec<u32>,
}

impl<H> View for Reactor<H> {
    type V = ReactorState<H>;

    closed spec fn view(&self) -> ReactorState<H> {
        ReactorState {
            attached: self.attached@,
            crashes: self.tracker.crashes(),
            window: self.tracker.window(),
            limit: self.tracker.limit(),
            denylist: self.denylist@,
        }
    }
}

impl<H> Reactor<H> {
    /// A reactor that knows no child, with a bootloop guard that gives up
    /// at `threshold` crashes within `duration`, and with the users for
    /// whose processes mounts are scrubbed.
    pub fn new(duration: u64, threshold: usize, denylist: Vec<u32>) -> (reactor: Self)
        ensures
            reactor@ == (ReactorState::<H> {
                attached: Map::empty(),
                crashes: Seq::empty(),
                window: duration,
                limit: threshold,
                denylist: denylist@,
            }),
    {
        Reactor {
            attached: HashMap::new(),
            tracker: BootloopTracker::new(duration, threshold),
            denylist,
        }
    }

    /// Takes the handle of the probe's attachment to a child. A handle that
    /// was held for the child before is handed back.
    pub fn attached(&mut self, pid: i32, handle: H) -> (previous: Option<H>)
        ensures
            final(self)@ == (ReactorState { attached: old(self)@.attached.insert(pid, handle), ..old(
                self,
            )@ }),
            previous == if old(self)@.attached.contains_key(pid) {
                Some(old(self)@.attached[pid])
            } else {
                None
            },
    {
        self.attached.insert(pid, handle)
    }

    /// Whether the probe is attached to a child, as far as the reactor
    /// knows.
    pub fn is_attached(&self, pid: i32) -> (known: bool)
        ensures
            known == self@.attached.contains_key(pid),
    {
        self.attached.contains_key(&pid)
    }

    /// Deals with an event that arrived at `now`, and says what is to be
    /// done.
    pub fn handle(&mut self, event: EbpfEvent, now: u64) -> (action: Action<H>)
        ensures
            final(self)@ == old(self)@.after(event, now),
            action == old(self)@.action(event, now),
    {
        match event {
            EbpfEvent::ZygoteStarted(_) => Action::Log,
            EbpfEvent::ZygoteForked(_) => Action::Log,
            EbpfEvent::ZygoteCrashed(_) => {
                if self.tracker.zygote_crashed(now) {
                    Action::Exit
                } else {
                    Action::Log
                }
            },
            EbpfEvent::RequireUprobeAttach(pid) => Action::Attach { pid },
            EbpfEvent::RequireInject(pid, return_addr) => {
                let detach = self.attached.remove(&pid);
                Action::Inject { pid, return_addr, detach }
            },
            EbpfEvent::RequireUmount(pid, uid) => {
                if check(&self.denylist, uid) {
                    Action::Umount { pid, uid }
                } else {
                    Action::Resume { pid }
                }
            },
        }
    }
}

/// The child that is continued when the action has been carried out.
pub fn resume_later<H>(action: &Action<H>) -> (pid: Option<i32>)
    ensures
        pid == resumed_by(*action),
{
    match action {
        Action::Attach { pid } => Some(*pid),
        Action::Resume { pid } => Some(*pid),
        _ => None,
    }
}

/// What a failure to continue a child comes to: a child that is gone needs
/// no signal, and the failure is dropped; any other failure is an error of
/// this event, which is logged and survived.
pub open spec fn resume_error(why: Failure) -> Option<Error> {
    match why {
        Failure::NoSuchProcess => None,
        Failure::Interrupted => Some(Error::Transient(Transient::Interrupted)),
        _ => Some(Error::RemotePtraceFailed),
    }
}

/// What a failure to continue a child comes to.
pub fn resume_failed(why: Failure) -> (error: Option<Error>)
    ensures
        error == resume_error(why),
{
    match why {
        Failure::NoSuchProcess => None,
        Failure::Interrupted => Some(Error::Transient(Transient::Interrupted)),
        _ => Some(Error::RemotePtraceFailed),
    }
}

} // verus!
