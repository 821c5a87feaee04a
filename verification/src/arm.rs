//! Last stage of an injection: the bridge's hook is run on a copy of the
//! arguments, what it left of them is put where the specialization function
//! finds its arguments, and the return of that function is redirected to the
//! bridge's trampoline.

use crate::call::{CallPhase, CallState, RemoteCall};
use crate::error::{Error, ErrorView};
use crate::prepare::unit_view;
use crate::protocol::{Failure, Reply, ReplyView, Request, RequestView, Step};
use crate::regs::{args_on_regs, Arch, Registers};
use crate::remote::{
    alloc_addr, alloc_on_stack, args_view, lemma_words_bytes_len, locate_arg, marshal_sp,
    marshal_values,
    stack_arg_addr, words_bytes, words_to_bytes, Arg, ArgPlace, ArgView, Poke,
};
use vstd::prelude::*;

verus! {

/// How far the last stage has come.
#[derive(Clone, Copy, Debug, PartialEq, Eq, Structural)]
pub enum ArmPhase {
    /// The target is made to run the bridge's hook on a copy of the
    /// arguments.
    Hook,
    /// The copy is read back: the hook may have changed it.
    ReadBack,
    /// The arguments that lie on the stack are stored at their places.
    WriteBack,
    /// The return address on the stack is replaced by the trampoline.
    Redirect,
    /// The registers are set for the target to go on.
    Commit,
    Finished,
}

/// The arguments that travel in registers.
pub open spec fn in_registers(arch: Arch, args: Seq<u64>) -> Seq<u64> {
    if args.len() <= args_on_regs(arch) {
        args
    } else {
        args.take(args_on_regs(arch) as int)
    }
}

/// The registers with which an armed target goes on: those of the entry of
/// the specialization function, with the arguments that travel in registers
/// replaced by what the hook left of them, and on AArch64 with the
/// trampoline in the link register.
pub open spec fn armed_regs(entry: Registers, updated: Seq<u64>, trampoline: u64) -> Registers {
    entry.with_args(in_registers(entry.arch(), updated)).with_link(trampoline)
}

/// The state of the last stage.
pub struct ArmState {
    pub phase: ArmPhase,
    /// The registers at the entry of the specialization function.
    pub entry: Registers,
    /// The arguments of the specialization function, as collected.
    pub args: Seq<u64>,
    /// The arguments as the hook left them, as far as they were read back.
    pub updated: Seq<u64>,
    /// The argument that is stored next.
    pub index: nat,
    /// Address of the bridge's hook.
    pub callback: u64,
    /// Address of the bridge's trampoline.
    pub trampoline: u64,
    /// Where the remote call is made to return.
    pub return_addr: u64,
    /// Where the copy of the arguments lies in the target.
    pub copy: u64,
    pub call: CallState,
    pub result: Option<Result<(), ErrorView>>,
    pub retried: bool,
}

impl ArmState {
    /// The state in which the work starts.
    pub open spec fn start(
        entry: Registers,
        args: Seq<u64>,
        callback: u64,
        trampoline: u64,
        return_addr: u64,
    ) -> ArmState {
        ArmState {
            phase: ArmPhase::Hook,
            entry,
            args,
            updated: Seq::empty(),
            index: 0,
            callback,
            trampoline,
            return_addr,
            copy: 0,
            call: CallState::start(
                callback,
                seq![ArgView::Slice(words_bytes(args)), ArgView::Numeric(args.len() as u64)],
                return_addr,
            ),
            result: None,
            retried: false,
        }
    }

    /// Number of arguments that travel in registers.
    pub open spec fn on_regs(self) -> nat {
        args_on_regs(self.entry.arch())
    }

    /// The state is one that the machine can be in.
    pub open spec fn wf(self) -> bool {
        &&& 8 * self.args.len() <= u64::MAX
        &&& self.call.wf()
        &&& self.phase == ArmPhase::Finished <==> self.result is Some
        &&& match self.phase {
            ArmPhase::Hook => self.call.phase != CallPhase::Finished && self.updated.len() == 0,
            ArmPhase::ReadBack => self.updated.len() < self.args.len(),
            ArmPhase::WriteBack => {
                &&& self.updated.len() == self.args.len()
                &&& self.on_regs() <= self.index < self.updated.len()
            },
            ArmPhase::Redirect => self.updated.len() == self.args.len() && self.entry.arch()
                == Arch::X86_64,
            ArmPhase::Commit => self.updated.len() == self.args.len(),
            ArmPhase::Finished => true,
        }
    }

    /// The request that waits to be answered; `None` when the work is over.
    pub open spec fn pending(self) -> Option<RequestView> {
        match self.phase {
            ArmPhase::Hook => self.call.pending(),
            ArmPhase::ReadBack => Some(
                RequestView::Peek(self.copy.wrapping_add((8 * self.updated.len()) as u64)),
            ),
            ArmPhase::WriteBack => Some(
                RequestView::Poke(
                    Poke {
                        addr: stack_arg_addr(self.entry.arch(), self.entry.stack(), self.index),
                        value: self.updated[self.index as int],
                    },
                ),
            ),
            ArmPhase::Redirect => Some(
                RequestView::Poke(Poke { addr: self.entry.stack(), value: self.trampoline }),
            ),
            ArmPhase::Commit => Some(
                RequestView::SetRegs(armed_regs(self.entry, self.updated, self.trampoline)),
            ),
            ArmPhase::Finished => None,
        }
    }

    /// The state in the given phase, with a fresh count of retries.
    pub open spec fn moved(self, phase: ArmPhase) -> ArmState {
        ArmState { phase, retried: false, ..self }
    }

    /// The state in which the work is over, with the given result.
    pub open spec fn finished(self, result: Result<(), ErrorView>) -> ArmState {
        ArmState { phase: ArmPhase::Finished, result: Some(result), retried: false, ..self }
    }

    /// The copy of the arguments is read back, where there are any.
    pub open spec fn enter_read_back(self) -> ArmState {
        if self.args.len() > 0 {
            self.moved(ArmPhase::ReadBack)
        } else {
            self.enter_write_back()
        }
    }

    /// The arguments go back to where the specialization function finds
    /// them: those that travel in registers with the registers, those on
    /// the stack one store after the other.
    pub open spec fn enter_write_back(self) -> ArmState {
        if self.updated.len() > self.on_regs() {
            ArmState { index: self.on_regs(), ..self }.moved(ArmPhase::WriteBack)
        } else {
            self.enter_redirect()
        }
    }

    /// The return of the specialization function is redirected to the
    /// trampoline: through the stack on x86-64, with the registers on
    /// AArch64.
    pub open spec fn enter_redirect(self) -> ArmState {
        match self.entry.arch() {
            Arch::X86_64 => self.moved(ArmPhase::Redirect),
            Arch::Aarch64 => self.moved(ArmPhase::Commit),
        }
    }

    /// The state after the pending request was answered with `reply`. The
    /// copy of the arguments lies where the hook's call placed it: below
    /// the stack pointer that the target had when the call began.
    #[verifier::opaque]
    pub open spec fn after(self, reply: ReplyView) -> ArmState {
        if self.phase == ArmPhase::Finished {
            self
        } else if self.phase == ArmPhase::Hook {
            let call = self.call.after(reply);
            let stepped = ArmState { call, ..self };
            if call.phase == CallPhase::Finished {
                match call.result {
                    Some(Err(error)) => stepped.finished(Err(error)),
                    _ => ArmState {
                        copy: alloc_addr(call.backup->0.stack(), (8 * self.args.len()) as u64),
                        ..stepped
                    }.enter_read_back(),
                }
            } else {
                stepped
            }
        } else if reply == ReplyView::Failed(Failure::Interrupted) && !self.retried {
            ArmState { retried: true, ..self }
        } else {
            match (self.phase, reply) {
                (ArmPhase::ReadBack, ReplyView::Word(word)) => {
                    let read = ArmState { updated: self.updated.push(word), ..self };
                    if read.updated.len() < self.args.len() {
                        read.moved(ArmPhase::ReadBack)
                    } else {
                        read.enter_write_back()
                    }
                },
                (ArmPhase::WriteBack, ReplyView::Done) => if self.index + 1
                    < self.updated.len() {
                    ArmState { index: self.index + 1, ..self }.moved(ArmPhase::WriteBack)
                } else {
                    self.enter_redirect()
                },
                (ArmPhase::Redirect, ReplyView::Done) => self.moved(ArmPhase::Commit),
                (ArmPhase::Commit, ReplyView::Done) => self.finished(Ok(())),
                _ => self.finished(Err(ErrorView::RemotePtraceFailed)),
            }
        }
    }
}

/// The copy of the arguments is read back from where the hook was shown
/// it: the address that the hook's call passes for the copy is the address
/// below the stack pointer at which the stage looks for it afterwards.
pub proof fn lemma_copy_is_where_the_hook_saw_it(
    entry: Registers,
    args: Seq<u64>,
    callback: u64,
    trampoline: u64,
    return_addr: u64,
    sp: u64,
)
    requires
        8 * args.len() <= u64::MAX,
    ensures
        marshal_values(
            sp,
            ArmState::start(entry, args, callback, trampoline, return_addr).call.args,
        )[0] == alloc_addr(sp, (8 * args.len()) as u64),
{
    let passed = ArmState::start(entry, args, callback, trampoline, return_addr).call.args;
    let first = passed.drop_last();
    let none = first.drop_last();
    lemma_words_bytes_len(args);
    assert(first =~= seq![ArgView::Slice(words_bytes(args))]);
    assert(none =~= Seq::<ArgView>::empty());
    assert(first.last() == ArgView::Slice(words_bytes(args)));
    assert(marshal_sp(sp, none) == sp);
    assert(marshal_sp(sp, first) == alloc_addr(sp, (8 * args.len()) as u64));
    assert(marshal_values(sp, none) =~= Seq::<u64>::empty());
    assert(marshal_values(sp, first) =~= seq![marshal_sp(sp, first)]);
    assert(marshal_values(sp, passed) =~= marshal_values(sp, first).push(args.len() as u64));
}

/// The last stage of an injection, in progress.
#[derive(Debug)]
pub struct Arming {
    phase: ArmPhase,
    entry: Registers,
    args: Vec<u64>,
    updated: Vec<u64>,
    index: usize,
    callback: u64,
    trampoline: u64,
    return_addr: u64,
    copy: u64,
    call: RemoteCall,
    result: Option<Result<(), Error>>,
    retried: bool,
}

impl View for Arming {
    type V = ArmState;

    closed spec fn view(&self) -> ArmState {
        ArmState {
            phase: self.phase,
            entry: self.entry,
            args: self.args@,
            updated: self.updated@,
            index: self.index as nat,
            callback: self.callback,
            trampoline: self.trampoline,
            return_addr: self.return_addr,
            copy: self.copy,
            call: self.call@,
            result: unit_view(self.result),
            retried: self.retried,
        }
    }
}

impl Arming {
    /// The machine is in a state that it can be in, and so are the machines
    /// that it drives.
    pub closed spec fn wf(&self) -> bool {
        self@.wf() && self.call.wf()
    }

    /// The arming of a target whose registers at the entry of the
    /// specialization function are `entry` and whose arguments there are
    /// `args`. `callback` and `trampoline` are the addresses of the bridge's
    /// hook and trampoline; `return_addr` is where the remote call is made
    /// to return.
    pub fn new(
        entry: Registers,
        args: Vec<u64>,
        callback: u64,
        trampoline: u64,
        return_addr: u64,
    ) -> (stage: Self)
        requires
            8 * args@.len() <= u64::MAX,
        ensures
            stage.wf(),
            stage@.wf(),
            stage@ == ArmState::start(entry, args@, callback, trampoline, return_addr),
    {
        let mut passed: Vec<Arg> = Vec::new();
        passed.push(Arg::Slice(words_to_bytes(args.as_slice())));
        passed.push(Arg::Numeric(args.len() as u64));
        assert(args_view(passed@) =~= seq![
            ArgView::Slice(words_bytes(args@)),
            ArgView::Numeric(args@.len() as u64),
        ]);
        Arming {
            phase: ArmPhase::Hook,
            entry,
            args,
            updated: Vec::new(),
            index: 0,
            callback,
            trampoline,
            return_addr,
            copy: 0,
            call: RemoteCall::new(callback, passed, return_addr),
            result: None,
            retried: false,
        }
    }

    fn armed(&self) -> (regs: Registers)
        requires
            self@.updated.len() == self@.args.len(),
        ensures
            regs == armed_regs(self@.entry, self@.updated, self@.trampoline),
    {
        let on_regs: usize = self.entry.architecture().args_on_regs();
        let taken: usize = if self.updated.len() < on_regs {
            self.updated.len()
        } else {
            on_regs
        };
        let passed = vstd::slice::slice_subrange(self.updated.as_slice(), 0, taken);
        assert(passed@ =~= in_registers(self.entry.arch(), self.updated@));
        let mut regs = self.entry;
        regs.set_args(passed);
        proof {
            crate::regs::lemma_with_args_keeps_rest(self.entry, passed@);
        }
        regs.set_link(self.trampoline);
        regs
    }

    /// The request that waits to be answered; `None` when the stage is over.
    pub fn request(&self) -> (pending: Option<Request>)
        requires
            self.wf(),
        ensures
            match pending {
                Some(request) => self@.pending() == Some(request@),
                None => self@.pending() is None,
            },
    {
        match self.phase {
            ArmPhase::Hook => self.call.request(),
            ArmPhase::ReadBack => Some(
                Request::Peek(self.copy.wrapping_add(8 * (self.updated.len() as u64))),
            ),
            ArmPhase::WriteBack => match locate_arg(&self.entry, self.index) {
                ArgPlace::Stack(addr) => Some(
                    Request::Poke(Poke { addr, value: self.updated[self.index] }),
                ),
                ArgPlace::Register(_) => None,
            },
            ArmPhase::Redirect => Some(
                Request::Poke(Poke { addr: self.entry.sp(), value: self.trampoline }),
            ),
            ArmPhase::Commit => Some(Request::SetRegs(self.armed())),
            ArmPhase::Finished => None,
        }
    }

    fn report(&self) -> (step: Step<Result<(), Error>>)
        requires
            self.wf(),
        ensures
            match step {
                Step::Ask(request) => self@.pending() == Some(request@),
                Step::Done(result) => self@.result == unit_view(Some(result)),
            },
    {
        match self.request() {
            Some(request) => Step::Ask(request),
            None => match &self.result {
                Some(Err(error)) => Step::Done(Err(error.duplicate())),
                _ => Step::Done(Ok(())),
            },
        }
    }

    fn move_to(&mut self, phase: ArmPhase)
        ensures
            final(self)@ == old(self)@.moved(phase),
            final(self).call == old(self).call,
    {
        self.phase = phase;
        self.retried = false;
    }

    fn finish(&mut self, result: Result<(), Error>)
        requires
            old(self).call.wf(),
            old(self)@.call.wf(),
            8 * old(self)@.args.len() <= u64::MAX,
        ensures
            final(self)@ == old(self)@.finished(unit_view(Some(result))->0),
            final(self).wf(),
    {
        self.phase = ArmPhase::Finished;
        self.result = Some(result);
        self.retried = false;
    }

    fn enter_redirect(&mut self)
        requires
            old(self).call.wf(),
            old(self)@.call.wf(),
            8 * old(self)@.args.len() <= u64::MAX,
            old(self)@.result is None,
            old(self)@.updated.len() == old(self)@.args.len(),
        ensures
            final(self)@ == old(self)@.enter_redirect(),
            final(self).wf(),
    {
        match self.entry.architecture() {
            Arch::X86_64 => {
                self.move_to(ArmPhase::Redirect);
            },
            Arch::Aarch64 => {
                self.move_to(ArmPhase::Commit);
            },
        }
    }

    fn enter_write_back(&mut self)
        requires
            old(self).call.wf(),
            old(self)@.call.wf(),
            8 * old(self)@.args.len() <= u64::MAX,
            old(self)@.result is None,
            old(self)@.updated.len() == old(self)@.args.len(),
        ensures
            final(self)@ == old(self)@.enter_write_back(),
            final(self).wf(),
    {
        let on_regs: usize = self.entry.architecture().args_on_regs();
        if self.updated.len() > on_regs {
            self.index = on_regs;
            self.move_to(ArmPhase::WriteBack);
        } else {
            self.enter_redirect();
        }
    }

    fn enter_read_back(&mut self)
        requires
            old(self).call.wf(),
            old(self)@.call.wf(),
            8 * old(self)@.args.len() <= u64::MAX,
            old(self)@.result is None,
            old(self)@.updated.len() == 0,
        ensures
            final(self)@ == old(self)@.enter_read_back(),
            final(self).wf(),
    {
        if self.args.len() > 0 {
            self.move_to(ArmPhase::ReadBack);
        } else {
            self.enter_write_back();
        }
    }

    fn step_call(&mut self, reply: Reply)
        requires
            old(self).wf(),
            old(self)@.phase == ArmPhase::Hook,
        ensures
            final(self).wf(),
            final(self)@ == old(self)@.after(reply@),
    {
        proof {
            reveal(ArmState::after);
        }
        match self.call.step(reply) {
            Step::Ask(_) => {},
            Step::Done(Err(error)) => {
                self.finish(Err(error));
            },
            Step::Done(Ok(_)) => {
                let size: u64 = 8 * (self.args.len() as u64);
                let mut scratch = match self.call.backup() {
                    Some(backup) => backup,
                    None => self.entry,
                };
                self.copy = alloc_on_stack(&mut scratch, size);
                self.enter_read_back();
            },
        }
    }

    fn step_own(&mut self, reply: Reply)
        requires
            old(self).wf(),
            old(self)@.phase != ArmPhase::Hook,
            old(self)@.phase != ArmPhase::Finished,
            !(reply@ == ReplyView::Failed(Failure::Interrupted) && !old(self)@.retried),
        ensures
            final(self).wf(),
            final(self)@ == old(self)@.after(reply@),
    {
        proof {
            reveal(ArmState::after);
        }
        match (self.phase, reply) {
            (ArmPhase::ReadBack, Reply::Word(word)) => {
                self.updated.push(word);
                if self.updated.len() < self.args.len() {
                    self.move_to(ArmPhase::ReadBack);
                } else {
                    self.enter_write_back();
                }
            },
            (ArmPhase::WriteBack, Reply::Done) => {
                let length: usize = self.updated.len();
                if self.index + 1 < length {
                    self.index = self.index + 1;
                    self.move_to(ArmPhase::WriteBack);
                } else {
                    self.enter_redirect();
                }
            },
            (ArmPhase::Redirect, Reply::Done) => {
                self.move_to(ArmPhase::Commit);
            },
            (ArmPhase::Commit, Reply::Done) => {
                self.finish(Ok(()));
            },
            _ => {
                self.finish(Err(Error::RemotePtraceFailed));
            },
        }
    }

    /// Takes the answer to the pending request and hands back what comes
    /// next.
    pub fn step(&mut self, reply: Reply) -> (step: Step<Result<(), Error>>)
        requires
            old(self).wf(),
        ensures
            final(self).wf(),
            final(self)@.wf(),
            final(self)@ == old(self)@.after(reply@),
            final(self)@.entry == old(self)@.entry,
            final(self)@.args == old(self)@.args,
            final(self)@.trampoline == old(self)@.trampoline,
            match step {
                Step::Ask(request) => final(self)@.pending() == Some(request@),
                Step::Done(result) => final(self)@.result == unit_view(Some(result)),
            },
    {
        proof {
            reveal(ArmState::after);
        }
        let interrupted = match &reply {
            Reply::Failed(Failure::Interrupted) => true,
            _ => false,
        };
        match self.phase {
            ArmPhase::Finished => {},
            ArmPhase::Hook => {
                self.step_call(reply);
            },
            _ => {
                if interrupted && !self.retried {
                    self.retried = true;
                } else {
                    self.step_own(reply);
                }
            },
        }
        self.report()
    }
}

} // verus!
