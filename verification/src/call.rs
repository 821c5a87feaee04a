//! A remote call: the target is made to run one of its own functions and to
//! stop when the function returns.

use crate::error::{Error, ErrorView};
use crate::protocol::{
    ends_call, Failure, Reply, ReplyView, Request, RequestView, Step, WaitStatus,
};
use crate::protocol::SIGSEGV;
use crate::regs::Registers;
use crate::remote::{
    args_view, call_pokes, call_regs, call_result, finish_call, lemma_marshal_values_len, marshal,
    marshal_sp, marshal_values, marshal_writes, plan_call, Arg, ArgView, Poke, WriteView,
};
use vstd::prelude::*;

verus! {

/// How far a remote call has come.
#[derive(Clone, Copy, Debug, PartialEq, Eq, Structural)]
pub enum CallPhase {
    /// The target's registers are read, to be put back afterwards.
    Backup,
    /// The call is laid out in the target and started.
    Script,
    /// The target runs; its stop is awaited.
    Stop,
    /// The registers with which the target stopped are read.
    Inspect,
    /// The registers are put back.
    Restore,
    /// The call is over.
    Finished,
}

/// What is done to the target to lay out and start a call, once its
/// registers `backup` are known: the bytes of the arguments that are passed
/// by address are stored, then the words of the stack, then the registers are
/// set and the target is let run.
pub open spec fn call_script(
    backup: Registers,
    func: u64,
    args: Seq<ArgView>,
    return_addr: u64,
) -> Seq<RequestView> {
    let sp = backup.stack();
    let ready = backup.with_stack(marshal_sp(sp, args));
    let values = marshal_values(sp, args);
    marshal_writes(sp, args).map_values(|w: WriteView| RequestView::Write(w)) + call_pokes(
        ready,
        values,
        return_addr,
    ).map_values(|p: Poke| RequestView::Poke(p)) + seq![
        RequestView::SetRegs(call_regs(ready, func, values, return_addr)),
        RequestView::Cont,
    ]
}

/// The result of a call, with its error as a plain value.
pub open spec fn result_view(result: Result<u64, Error>) -> Result<u64, ErrorView> {
    match result {
        Ok(value) => Ok(value),
        Err(error) => Err(error@),
    }
}

/// The state of a remote call.
pub struct CallState {
    pub phase: CallPhase,
    pub func: u64,
    pub return_addr: u64,
    pub args: Seq<ArgView>,
    /// The registers that the target had, once they are known.
    pub backup: Option<Registers>,
    /// What has been done of the script.
    pub position: nat,
    /// How the call ended, once that is known.
    pub result: Option<Result<u64, ErrorView>>,
    /// Whether the pending request has been made a second time after an
    /// interruption.
    pub retried: bool,
}

impl CallState {
    /// The state in which a call of `func` with `args` starts.
    pub open spec fn start(func: u64, args: Seq<ArgView>, return_addr: u64) -> CallState {
        CallState {
            phase: CallPhase::Backup,
            func,
            return_addr,
            args,
            backup: None,
            position: 0,
            result: None,
            retried: false,
        }
    }

    /// What is done to lay out and start the call, once the registers are
    /// known.
    pub open spec fn script(self) -> Seq<RequestView> {
        match self.backup {
            Some(backup) => call_script(backup, self.func, self.args, self.return_addr),
            None => Seq::empty(),
        }
    }

    /// The state is one that the machine can be in.
    pub open spec fn wf(self) -> bool {
        &&& 8 * self.args.len() <= u64::MAX
        &&& self.result matches Some(Ok(_)) ==> self.backup is Some
        &&& match self.phase {
            CallPhase::Backup => true,
            CallPhase::Script => self.backup is Some && self.position < self.script().len(),
            CallPhase::Stop => self.backup is Some,
            CallPhase::Inspect => self.backup is Some,
            CallPhase::Restore => self.backup is Some && self.result is Some,
            CallPhase::Finished => self.result is Some,
        }
    }

    /// The request that the call waits to have answered.
    pub open spec fn pending(self) -> Option<RequestView> {
        match self.phase {
            CallPhase::Backup => Some(RequestView::GetRegs),
            CallPhase::Script => Some(self.script()[self.position as int]),
            CallPhase::Stop => Some(RequestView::Wait),
            CallPhase::Inspect => Some(RequestView::GetRegs),
            CallPhase::Restore => Some(RequestView::SetRegs(self.backup->0)),
            CallPhase::Finished => None,
        }
    }

    /// The call fails. Registers that were read are put back first.
    pub open spec fn failed(self) -> CallState {
        CallState {
            phase: if self.backup is Some && self.phase != CallPhase::Restore {
                CallPhase::Restore
            } else {
                CallPhase::Finished
            },
            result: Some(Err(ErrorView::RemotePtraceFailed)),
            retried: false,
            ..self
        }
    }

    /// The state after the pending request was answered with `reply`. A
    /// request that was interrupted is made once more; any other failure,
    /// and any answer that does not fit the request, fails the call.
    #[verifier::opaque]
    pub open spec fn after(self, reply: ReplyView) -> CallState {
        let fresh = CallState { retried: false, ..self };
        if self.phase == CallPhase::Finished {
            self
        } else if reply == ReplyView::Failed(Failure::Interrupted) && !self.retried {
            CallState { retried: true, ..self }
        } else {
            match (self.phase, reply) {
                (CallPhase::Backup, ReplyView::Regs(regs)) => CallState {
                    phase: CallPhase::Script,
                    backup: Some(regs),
                    position: 0,
                    ..fresh
                },
                (CallPhase::Script, ReplyView::Done) => if self.position + 1
                    < self.script().len() {
                    CallState { position: self.position + 1, ..fresh }
                } else {
                    CallState { phase: CallPhase::Stop, ..fresh }
                },
                (CallPhase::Stop, ReplyView::Status(status)) => if ends_call(status) {
                    CallState { phase: CallPhase::Inspect, ..fresh }
                } else {
                    self.failed()
                },
                (CallPhase::Inspect, ReplyView::Regs(regs)) => CallState {
                    phase: CallPhase::Restore,
                    result: Some(result_view(call_result(regs, self.return_addr))),
                    ..fresh
                },
                (CallPhase::Restore, ReplyView::Done) => CallState {
                    phase: CallPhase::Finished,
                    ..fresh
                },
                _ => self.failed(),
            }
        }
    }
}

/// A call leaves the target's registers as it found them: once it has read
/// them, it ends only from the phase that puts them back, whatever happens
/// on the way.
pub proof fn lemma_call_ends_by_restoring(state: CallState, reply: ReplyView)
    requires
        state.wf(),
        state.phase != CallPhase::Finished,
        state.after(reply).phase == CallPhase::Finished,
    ensures
        state.phase == CallPhase::Restore || (state.phase == CallPhase::Backup && state.backup
            is None),
        state.phase == CallPhase::Restore ==> state.pending() == Some(
            RequestView::SetRegs(state.backup->0),
        ),
        state.after(reply).result is Some,
        state.after(reply).result->0 is Ok ==> reply == ReplyView::Done,
{
    reveal(CallState::after);
}

/// The requests as plain values.
pub open spec fn requests_view(requests: Seq<Request>) -> Seq<RequestView> {
    requests.map_values(|r: Request| r@)
}

/// A remote call in progress.
#[derive(Debug)]
pub struct RemoteCall {
    phase: CallPhase,
    func: u64,
    return_addr: u64,
    args: Vec<Arg>,
    backup: Option<Registers>,
    script: Vec<Request>,
    position: usize,
    result: Option<Result<u64, Error>>,
    retried: bool,
}

impl View for RemoteCall {
    type V = CallState;

    closed spec fn view(&self) -> CallState {
        CallState {
            phase: self.phase,
            func: self.func,
            return_addr: self.return_addr,
            args: args_view(self.args@),
            backup: self.backup,
            position: self.position as nat,
            result: match self.result {
                Some(result) => Some(result_view(result)),
                None => None,
            },
            retried: self.retried,
        }
    }
}

impl RemoteCall {
    /// The script that was built is the one that the state asks for.
    pub closed spec fn wf(&self) -> bool {
        &&& self@.wf()
        &&& self.backup is Some ==> requests_view(self.script@) == self@.script()
    }

    /// A call of the function at `func` with `args`, to return to
    /// `return_addr`, an address at which the target cannot execute.
    pub fn new(func: u64, args: Vec<Arg>, return_addr: u64) -> (call: Self)
        requires
            8 * args@.len() <= u64::MAX,
        ensures
            call.wf(),
            call@.wf(),
            call@ == CallState::start(func, args_view(args@), return_addr),
    {
        RemoteCall {
            phase: CallPhase::Backup,
            func,
            return_addr,
            args,
            backup: None,
            script: Vec::new(),
            position: 0,
            result: None,
            retried: false,
        }
    }

    /// The registers that the target had when the call began, once they
    /// have been read.
    pub fn backup(&self) -> (backup: Option<Registers>)
        ensures
            backup == self@.backup,
    {
        self.backup
    }

    /// The request that waits to be answered; `None` when the call is over.
    pub fn request(&self) -> (pending: Option<Request>)
        requires
            self.wf(),
        ensures
            match pending {
                Some(request) => self@.pending() == Some(request@),
                None => self@.pending() is None,
            },
    {
        match self.phase {
            CallPhase::Backup => Some(Request::GetRegs),
            CallPhase::Script => {
                assert(requests_view(self.script@)[self.position as int]
                    == self.script@[self.position as int]@);
                Some(self.script[self.position].duplicate())
            },
            CallPhase::Stop => Some(Request::Wait),
            CallPhase::Inspect => Some(Request::GetRegs),
            CallPhase::Restore => match self.backup {
                Some(backup) => Some(Request::SetRegs(backup)),
                None => None,
            },
            CallPhase::Finished => None,
        }
    }

    fn build_script(&mut self, backup: Registers)
        requires
            old(self).wf(),
        ensures
            final(self).phase == old(self).phase,
            final(self).func == old(self).func,
            final(self).return_addr == old(self).return_addr,
            final(self).args@ == old(self).args@,
            final(self).position == old(self).position,
            final(self).result == old(self).result,
            final(self).retried == old(self).retried,
            final(self).backup == Some(backup),
            requests_view(final(self).script@) == call_script(
                backup,
                old(self).func,
                args_view(old(self).args@),
                old(self).return_addr,
            ),
    {
        let ghost args = args_view(self.args@);
        let ghost sp = backup.stack();
        let ready = marshal(&backup, &self.args);
        proof {
            lemma_marshal_values_len(sp, args);
        }
        let plan = plan_call(&ready.regs, self.func, ready.values.as_slice(), self.return_addr);
        let ghost first = marshal_writes(sp, args).map_values(|w: WriteView| RequestView::Write(w));
        let ghost second = call_pokes(ready.regs, ready.values@, self.return_addr).map_values(
            |p: Poke| RequestView::Poke(p),
        );
        let mut script: Vec<Request> = Vec::new();
        let ghost writes_seq = ready.writes@;
        assert(requests_view(script@) =~= first.take(0));
        for write in it: ready.writes
            invariant
                it.seq() == writes_seq,
                first == crate::remote::writes_view(writes_seq).map_values(
                    |w: WriteView| RequestView::Write(w),
                ),
                requests_view(script@) == first.take(it.index() as int),
        {
            let ghost before = script@;
            let request = Request::Write(write);
            script.push(request);
            assert(requests_view(script@) =~= requests_view(before).push(request@));
            assert(first.take(it.index() + 1) =~= first.take(it.index() as int).push(
                first[it.index() as int],
            ));
        }
        assert(first.take(first.len() as int) == first);
        let mut k: usize = 0;
        assert(first + second.take(0) =~= first);
        while k < plan.pokes.len()
            invariant
                k <= plan.pokes@.len(),
                second == plan.pokes@.map_values(|p: Poke| RequestView::Poke(p)),
                requests_view(script@) == first + second.take(k as int),
            decreases plan.pokes@.len() - k,
        {
            let ghost before = script@;
            let request = Request::Poke(plan.pokes[k]);
            script.push(request);
            assert(requests_view(script@) =~= requests_view(before).push(request@));
            assert(first + second.take(k + 1) =~= (first + second.take(k as int)).push(
                second[k as int],
            ));
            k += 1;
        }
        assert(second.take(second.len() as int) == second);
        let ghost before = script@;
        script.push(Request::SetRegs(plan.regs));
        script.push(Request::Cont);
        assert(requests_view(script@) =~= first + second + seq![
            RequestView::SetRegs(plan.regs),
            RequestView::Cont,
        ]) by {
            assert(requests_view(script@) =~= requests_view(before).push(
                RequestView::SetRegs(plan.regs),
            ).push(RequestView::Cont));
        }
        self.script = script;
        self.backup = Some(backup);
    }

    fn fail(&mut self)
        requires
            old(self).wf(),
            old(self).phase != CallPhase::Finished,
        ensures
            final(self).wf(),
            final(self)@ == old(self)@.failed(),
    {
        self.phase = if self.backup.is_some() && self.phase != CallPhase::Restore {
            CallPhase::Restore
        } else {
            CallPhase::Finished
        };
        self.result = Some(Err(Error::RemotePtraceFailed));
        self.retried = false;
    }

    fn outcome(&self) -> (step: Step<Result<u64, Error>>)
        requires
            self.wf(),
        ensures
            match step {
                Step::Ask(request) => self@.pending() == Some(request@),
                Step::Done(result) => self@.phase == CallPhase::Finished && self@.result
                    == Some(result_view(result)),
            },
    {
        match self.request() {
            Some(request) => Step::Ask(request),
            None => match &self.result {
                Some(Ok(value)) => Step::Done(Ok(*value)),
                Some(Err(error)) => Step::Done(Err(error.duplicate())),
                None => Step::Done(Err(Error::RemotePtraceFailed)),
            },
        }
    }

    /// Takes the answer to the pending request and hands back what comes
    /// next.
    pub fn step(&mut self, reply: Reply) -> (step: Step<Result<u64, Error>>)
        requires
            old(self).wf(),
        ensures
            final(self).wf(),
            final(self)@.wf(),
            final(self)@ == old(self)@.after(reply@),
            match step {
                Step::Ask(request) => final(self)@.pending() == Some(request@),
                Step::Done(result) => {
                    &&& final(self)@.phase == CallPhase::Finished
                    &&& final(self)@.result == Some(result_view(result))
                },
            },
    {
        proof {
            reveal(CallState::after);
        }
        if self.phase == CallPhase::Finished {
            return self.outcome();
        }
        let interrupted = match &reply {
            Reply::Failed(Failure::Interrupted) => true,
            _ => false,
        };
        if interrupted && !self.retried {
            self.retried = true;
            return self.outcome();
        }
        match self.phase {
            CallPhase::Backup => match reply {
                Reply::Regs(regs) => {
                    self.build_script(regs);
                    self.phase = CallPhase::Script;
                    self.position = 0;
                    self.retried = false;
                },
                _ => {
                    self.fail();
                },
            },
            CallPhase::Script => match reply {
                Reply::Done => {
                    let length: usize = self.script.len();
                    assert(requests_view(self.script@).len() == length);
                    if self.position + 1 < length {
                        self.position = self.position + 1;
                    } else {
                        self.phase = CallPhase::Stop;
                    }
                    self.retried = false;
                },
                _ => {
                    self.fail();
                },
            },
            CallPhase::Stop => match reply {
                Reply::Status(WaitStatus::Stopped(signal)) => {
                    if signal == SIGSEGV {
                        self.phase = CallPhase::Inspect;
                        self.retried = false;
                    } else {
                        self.fail();
                    }
                },
                _ => {
                    self.fail();
                },
            },
            CallPhase::Inspect => match reply {
                Reply::Regs(regs) => {
                    self.result = Some(finish_call(&regs, self.return_addr));
                    self.phase = CallPhase::Restore;
                    self.retried = false;
                },
                _ => {
                    self.fail();
                },
            },
            CallPhase::Restore => match reply {
                Reply::Done => {
                    self.phase = CallPhase::Finished;
                    self.retried = false;
                },
                _ => {
                    self.fail();
                },
            },
            CallPhase::Finished => {},
        }
        self.outcome()
    }
}

} // verus!
