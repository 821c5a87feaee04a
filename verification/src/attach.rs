//! Taking a stopped child into care: the target is seized, its stops are
//! waited out, it is continued once, and the registers with which it then
//! stops at the probe are read.

use crate::error::{Error, ErrorView};
use crate::protocol::{Failure, Reply, ReplyView, Request, RequestView, Step};
use crate::regs::Registers;
use vstd::prelude::*;

verus! {

/// How far the attachment has come.
#[derive(Clone, Copy, Debug, PartialEq, Eq, Structural)]
pub enum AttachPhase {
    /// The target is seized.
    Seize,
    /// A stop of the target is awaited.
    Await,
    /// The signal behind the stop is asked for.
    Inquire,
    /// The target is let run out of a stop that no signal stands behind.
    Pass,
    /// The target is sent the signal that continues it.
    Kick,
    /// The target is let run.
    Release,
    /// The stop at the probe is awaited.
    Settle,
    /// The registers are read.
    Snapshot,
    /// The attachment has failed: the child is sent the signal that
    /// continues it, so that it is not left stopped.
    Abandon,
    Finished,
}

/// The result of an attachment, with its error as a plain value.
pub open spec fn snapshot_view(result: Result<Registers, Error>) -> Result<Registers, ErrorView> {
    match result {
        Ok(regs) => Ok(regs),
        Err(error) => Err(error@),
    }
}

/// The state of an attachment.
pub struct AttachState {
    pub phase: AttachPhase,
    /// The registers at the probe, or why they could not be had.
    pub result: Option<Result<Registers, ErrorView>>,
    pub retried: bool,
}

impl AttachState {
    /// The state in which the work starts.
    pub open spec fn start() -> AttachState {
        AttachState { phase: AttachPhase::Seize, result: None, retried: false }
    }

    /// The state is one that the machine can be in.
    pub open spec fn wf(self) -> bool {
        self.phase == AttachPhase::Finished <==> self.result is Some
    }

    /// The request that waits to be answered; `None` when the work is over.
    pub open spec fn pending(self) -> Option<RequestView> {
        match self.phase {
            AttachPhase::Seize => Some(RequestView::Seize),
            AttachPhase::Await => Some(RequestView::Wait),
            AttachPhase::Inquire => Some(RequestView::SigInfo),
            AttachPhase::Pass => Some(RequestView::Cont),
            AttachPhase::Kick => Some(RequestView::SendCont),
            AttachPhase::Release => Some(RequestView::Cont),
            AttachPhase::Settle => Some(RequestView::Wait),
            AttachPhase::Snapshot => Some(RequestView::GetRegs),
            AttachPhase::Abandon => Some(RequestView::SendCont),
            AttachPhase::Finished => None,
        }
    }

    /// The state in the given phase, with a fresh count of retries.
    pub open spec fn moved(self, phase: AttachPhase) -> AttachState {
        AttachState { phase, retried: false, ..self }
    }

    /// The state in which the work is over, with the given result.
    pub open spec fn finished(self, result: Result<Registers, ErrorView>) -> AttachState {
        AttachState { phase: AttachPhase::Finished, result: Some(result), retried: false }
    }

    /// The state after the pending request was answered. A stop behind which
    /// no signal stands (the inquiry is refused as not applicable) is passed
    /// and the next stop awaited; any other answer to the inquiry ends the
    /// waiting. A request that was interrupted is made once more; any other
    /// failure ends the attachment, with the target's registers untouched,
    /// after the child has been sent the signal that continues it.
    #[verifier::opaque]
    pub open spec fn after(self, reply: ReplyView) -> AttachState {
        if self.phase == AttachPhase::Finished {
            self
        } else if reply == ReplyView::Failed(Failure::Interrupted) && !self.retried {
            AttachState { retried: true, ..self }
        } else {
            match (self.phase, reply) {
                (AttachPhase::Seize, ReplyView::Done) => self.moved(AttachPhase::Await),
                (AttachPhase::Await, ReplyView::Status(_)) => self.moved(AttachPhase::Inquire),
                (AttachPhase::Inquire, ReplyView::Failed(Failure::InvalidArgument)) => self.moved(
                    AttachPhase::Pass,
                ),
                (AttachPhase::Inquire, _) => self.moved(AttachPhase::Kick),
                (AttachPhase::Pass, ReplyView::Done) => self.moved(AttachPhase::Await),
                (AttachPhase::Kick, ReplyView::Done) => self.moved(AttachPhase::Release),
                (AttachPhase::Release, ReplyView::Done) => self.moved(AttachPhase::Settle),
                (AttachPhase::Settle, ReplyView::Status(_)) => self.moved(AttachPhase::Snapshot),
                (AttachPhase::Snapshot, ReplyView::Regs(regs)) => self.finished(Ok(regs)),
                (AttachPhase::Abandon, _) => self.finished(Err(ErrorView::RemotePtraceFailed)),
                _ => self.moved(AttachPhase::Abandon),
            }
        }
    }
}

/// A child that cannot be taken into care is not left stopped: the
/// attachment ends in failure only after it has asked for the child to be
/// continued.
pub proof fn lemma_failed_attachment_continues(state: AttachState, reply: ReplyView)
    requires
        state.wf(),
        state.phase != AttachPhase::Finished,
        state.after(reply).result matches Some(Err(_)),
    ensures
        state.phase == AttachPhase::Abandon,
        state.pending() == Some(RequestView::SendCont),
{
    reveal(AttachState::after);
}

/// An attachment in progress.
#[derive(Debug)]
pub struct Tracee {
    phase: AttachPhase,
    result: Option<Result<Registers, Error>>,
    retried: bool,
}

impl View for Tracee {
    type V = AttachState;

    closed spec fn view(&self) -> AttachState {
        AttachState {
            phase: self.phase,
            result: match self.result {
                Some(result) => Some(snapshot_view(result)),
                None => None,
            },
            retried: self.retried,
        }
    }
}

impl Tracee {
    /// An attachment that has not begun.
    pub fn new() -> (tracee: Self)
        ensures
            tracee@ == AttachState::start(),
            tracee@.wf(),
    {
        Tracee { phase: AttachPhase::Seize, result: None, retried: false }
    }

    /// The request that waits to be answered; `None` when the attachment is
    /// over.
    pub fn request(&self) -> (pending: Option<Request>)
        ensures
            match pending {
                Some(request) => self@.pending() == Some(request@),
                None => self@.pending() is None,
            },
    {
        match self.phase {
            AttachPhase::Seize => Some(Request::Seize),
            AttachPhase::Await => Some(Request::Wait),
            AttachPhase::Inquire => Some(Request::SigInfo),
            AttachPhase::Pass => Some(Request::Cont),
            AttachPhase::Kick => Some(Request::SendCont),
            AttachPhase::Release => Some(Request::Cont),
            AttachPhase::Settle => Some(Request::Wait),
            AttachPhase::Snapshot => Some(Request::GetRegs),
            AttachPhase::Abandon => Some(Request::SendCont),
            AttachPhase::Finished => None,
        }
    }

    fn outcome(&self) -> (step: Step<Result<Registers, Error>>)
        requires
            self@.wf(),
        ensures
            match step {
                Step::Ask(request) => self@.pending() == Some(request@),
                Step::Done(result) => self@.result == Some(snapshot_view(result)),
            },
    {
        match self.request() {
            Some(request) => Step::Ask(request),
            None => match &self.result {
                Some(Ok(regs)) => Step::Done(Ok(*regs)),
                Some(Err(error)) => Step::Done(Err(error.duplicate())),
                None => Step::Done(Err(Error::RemotePtraceFailed)),
            },
        }
    }

    fn move_to(&mut self, phase: AttachPhase)
        requires
            phase != AttachPhase::Finished,
            old(self)@.wf(),
            old(self).phase != AttachPhase::Finished,
        ensures
            final(self)@ == old(self)@.moved(phase),
            final(self)@.wf(),
    {
        self.phase = phase;
        self.retried = false;
    }

    fn finish(&mut self, result: Result<Registers, Error>)
        ensures
            final(self)@ == old(self)@.finished(snapshot_view(result)),
            final(self)@.wf(),
    {
        self.phase = AttachPhase::Finished;
        self.result = Some(result);
        self.retried = false;
    }

    /// Takes the answer to the pending request and hands back what comes
    /// next: another request, or the registers with which the target
    /// stopped at the probe.
    pub fn attach(&mut self, reply: Reply) -> (step: Step<Result<Registers, Error>>)
        requires
            old(self)@.wf(),
        ensures
            final(self)@.wf(),
            final(self)@ == old(self)@.after(reply@),
            match step {
                Step::Ask(request) => final(self)@.pending() == Some(request@),
                Step::Done(result) => final(self)@.result == Some(snapshot_view(result)),
            },
    {
        proof {
            reveal(AttachState::after);
        }
        if self.phase == AttachPhase::Finished {
            return self.outcome();
        }
        match (self.phase, reply) {
            (_, Reply::Failed(Failure::Interrupted)) if !self.retried => {
                self.retried = true;
            },
            (AttachPhase::Seize, Reply::Done) => {
                self.move_to(AttachPhase::Await);
            },
            (AttachPhase::Await, Reply::Status(_)) => {
                self.move_to(AttachPhase::Inquire);
            },
            (AttachPhase::Inquire, Reply::Failed(Failure::InvalidArgument)) => {
                self.move_to(AttachPhase::Pass);
            },
            (AttachPhase::Inquire, _) => {
                self.move_to(AttachPhase::Kick);
            },
            (AttachPhase::Pass, Reply::Done) => {
                self.move_to(AttachPhase::Await);
            },
            (AttachPhase::Kick, Reply::Done) => {
                self.move_to(AttachPhase::Release);
            },
            (AttachPhase::Release, Reply::Done) => {
                self.move_to(AttachPhase::Settle);
            },
            (AttachPhase::Settle, Reply::Status(_)) => {
                self.move_to(AttachPhase::Snapshot);
            },
            (AttachPhase::Snapshot, Reply::Regs(regs)) => {
                self.finish(Ok(regs));
            },
            (AttachPhase::Abandon, _) => {
                self.finish(Err(Error::RemotePtraceFailed));
            },
            _ => {
                self.move_to(AttachPhase::Abandon);
            },
        }
        self.outcome()
    }
}

} // verus!
