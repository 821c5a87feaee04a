//! Third stage of an injection: the target is made to load the bridge.

use crate::call::{CallPhase, CallState, RemoteCall};
use crate::error::{Error, ErrorView};
use crate::prepare::{unit_view, Module, ModuleView};
use crate::protocol::{Failure, Reply, ReplyView, Request, RequestView, Step};
use crate::regs::{Arch, Registers};
use crate::remote::{
    args_view, c_string, first_insn_of, low_insn, pac_compat, revert_pac, to_c_string, Arg,
    ArgView,
};
use crate::strings::{StringReader, TextState};
use vstd::prelude::*;

verus! {

/// File name of the library that holds the dynamic loader's functions.
pub const LIBDL: &'static str = "libdl.so";

/// Function of the loader that loads a library.
pub const DLOPEN: &'static str = "dlopen";

/// Function of the loader that says why a library could not be loaded.
pub const DLERROR: &'static str = "dlerror";

/// Flag with which the bridge is loaded: symbols are bound when first used.
pub const RTLD_LAZY: u64 = 1;

/// How far the third stage has come.
#[derive(Clone, Copy, Debug, PartialEq, Eq, Structural)]
pub enum LoadPhase {
    /// The first instruction of the probed function is read.
    Probe,
    /// The registers are set in front of that instruction.
    Adjust,
    /// The address of `dlopen` is looked up.
    ResolveOpen,
    /// The address of `dlerror` is looked up.
    ResolveError,
    /// The target is made to load the bridge.
    Load,
    /// The target is made to say why the bridge could not be loaded.
    Complain,
    /// What it said is read.
    Message,
    Finished,
}

/// The state of the third stage.
pub struct LoadState {
    pub phase: LoadPhase,
    /// The registers with which the target was put back to the probed
    /// function.
    pub entry: Registers,
    /// Path of the bridge.
    pub library: Seq<char>,
    /// Where the remote calls are made to return.
    pub return_addr: u64,
    /// The library that holds the loader's functions.
    pub libdl: ModuleView,
    /// The first instruction of the probed function, once read.
    pub first_insn: u32,
    pub dlopen: u64,
    pub dlerror: u64,
    pub call: CallState,
    pub reader: TextState,
    pub result: Option<Result<(), ErrorView>>,
    pub retried: bool,
}

impl LoadState {
    /// The state in which the loading starts. Only an AArch64 target has
    /// its first instruction looked at.
    pub open spec fn start(
        entry: Registers,
        library: Seq<char>,
        return_addr: u64,
        libdl: ModuleView,
    ) -> LoadState {
        LoadState {
            phase: match entry.arch() {
                Arch::Aarch64 => LoadPhase::Probe,
                Arch::X86_64 => LoadPhase::ResolveOpen,
            },
            entry,
            library,
            return_addr,
            libdl,
            first_insn: 0,
            dlopen: 0,
            dlerror: 0,
            call: CallState::start(0, Seq::empty(), return_addr),
            reader: TextState::start(0),
            result: None,
            retried: false,
        }
    }

    /// The state is one that the machine can be in.
    pub open spec fn wf(self) -> bool {
        &&& self.call.wf()
        &&& self.phase == LoadPhase::Finished <==> self.result is Some
        &&& self.phase == LoadPhase::Load || self.phase == LoadPhase::Complain ==> self.call.phase
            != CallPhase::Finished
        &&& self.phase == LoadPhase::Message ==> self.reader.result is None
    }

    /// The registers with which the target goes on from the entry of the
    /// probed function.
    pub open spec fn adjusted(self) -> Registers {
        pac_compat(self.entry, self.first_insn)
    }

    /// The request that waits to be answered; `None` when the work is over.
    pub open spec fn pending(self) -> Option<RequestView> {
        match self.phase {
            LoadPhase::Probe => Some(RequestView::Peek(self.entry.counter().wrapping_sub(4))),
            LoadPhase::Adjust => Some(RequestView::SetRegs(self.adjusted())),
            LoadPhase::ResolveOpen => Some(
                RequestView::Resolve { library: self.libdl.path, symbol: DLOPEN@ },
            ),
            LoadPhase::ResolveError => Some(
                RequestView::Resolve { library: self.libdl.path, symbol: DLERROR@ },
            ),
            LoadPhase::Load => self.call.pending(),
            LoadPhase::Complain => self.call.pending(),
            LoadPhase::Message => self.reader.pending(),
            LoadPhase::Finished => None,
        }
    }

    /// The state in the given phase, with a fresh count of retries.
    pub open spec fn moved(self, phase: LoadPhase) -> LoadState {
        LoadState { phase, retried: false, ..self }
    }

    /// The state in which the work is over, with the given result.
    pub open spec fn finished(self, result: Result<(), ErrorView>) -> LoadState {
        LoadState { phase: LoadPhase::Finished, result: Some(result), retried: false, ..self }
    }

    /// The state after a remote call of this stage has ended. A handle of
    /// zero means that the bridge was not loaded: the target is asked why.
    pub open spec fn called(self, result: Result<u64, ErrorView>) -> LoadState {
        match result {
            Err(error) => self.finished(Err(error)),
            Ok(value) => if self.phase == LoadPhase::Load {
                if value != 0 {
                    self.finished(Ok(()))
                } else {
                    LoadState {
                        call: CallState::start(self.dlerror, Seq::empty(), self.return_addr),
                        ..self
                    }.moved(LoadPhase::Complain)
                }
            } else {
                LoadState { reader: TextState::start(value), ..self }.moved(LoadPhase::Message)
            },
        }
    }

    /// The state after the pending request was answered with `reply`.
    #[verifier::opaque]
    pub open spec fn after(self, reply: ReplyView) -> LoadState {
        match self.phase {
            LoadPhase::Finished => self,
            LoadPhase::Load | LoadPhase::Complain => {
                let call = self.call.after(reply);
                let stepped = LoadState { call, ..self };
                if call.phase == CallPhase::Finished {
                    stepped.called(call.result->0)
                } else {
                    stepped
                }
            },
            LoadPhase::Message => {
                let reader = self.reader.after(reply);
                let stepped = LoadState { reader, ..self };
                match reader.result {
                    Some(Ok(message)) => stepped.finished(
                        Err(ErrorView::RemoteDlopenFailed { message }),
                    ),
                    Some(Err(error)) => stepped.finished(Err(error)),
                    None => stepped,
                }
            },
            _ => if reply == ReplyView::Failed(Failure::Interrupted) && !self.retried {
                LoadState { retried: true, ..self }
            } else {
                match (self.phase, reply) {
                    (LoadPhase::Probe, ReplyView::Word(word)) => LoadState {
                        first_insn: low_insn(word),
                        ..self
                    }.moved(LoadPhase::Adjust),
                    (LoadPhase::Adjust, ReplyView::Done) => self.moved(LoadPhase::ResolveOpen),
                    (LoadPhase::ResolveOpen, ReplyView::Offset(at)) => LoadState {
                        dlopen: self.libdl.base.wrapping_add(at),
                        ..self
                    }.moved(LoadPhase::ResolveError),
                    (LoadPhase::ResolveError, ReplyView::Offset(at)) => LoadState {
                        dlerror: self.libdl.base.wrapping_add(at),
                        call: CallState::start(
                            self.dlopen,
                            seq![
                                ArgView::Slice(c_string(self.library)),
                                ArgView::Numeric(RTLD_LAZY),
                            ],
                            self.return_addr,
                        ),
                        ..self
                    }.moved(LoadPhase::Load),
                    (LoadPhase::ResolveOpen, _) => self.finished(Err(ErrorView::SymbolNotFound)),
                    (LoadPhase::ResolveError, _) => self.finished(Err(ErrorView::SymbolNotFound)),
                    _ => self.finished(Err(ErrorView::RemotePtraceFailed)),
                }
            },
        }
    }
}

/// The third stage of an injection, in progress.
#[derive(Debug)]
pub struct Loading {
    phase: LoadPhase,
    entry: Registers,
    library: String,
    return_addr: u64,
    libdl: Module,
    first_insn: u32,
    dlopen: u64,
    dlerror: u64,
    call: RemoteCall,
    reader: StringReader,
    result: Option<Result<(), Error>>,
    retried: bool,
}

impl View for Loading {
    type V = LoadState;

    closed spec fn view(&self) -> LoadState {
        LoadState {
            phase: self.phase,
            entry: self.entry,
            library: self.library@,
            return_addr: self.return_addr,
            libdl: self.libdl@,
            first_insn: self.first_insn,
            dlopen: self.dlopen,
            dlerror: self.dlerror,
            call: self.call@,
            reader: self.reader@,
            result: unit_view(self.result),
            retried: self.retried,
        }
    }
}

impl Loading {
    /// The machine is in a state that it can be in, and so are the machines
    /// that it drives.
    pub closed spec fn wf(&self) -> bool {
        self@.wf() && self.call.wf()
    }

    /// The loading of the bridge at `library` into a target that was put
    /// back to the probed function with the registers `entry`. `libdl` is
    /// the library with the loader's functions; `return_addr` is where the
    /// remote calls are made to return.
    pub fn new(entry: Registers, library: String, return_addr: u64, libdl: Module) -> (stage: Self)
        ensures
            stage.wf(),
            stage@.wf(),
            stage@ == LoadState::start(entry, library@, return_addr, libdl@),
    {
        let none: Vec<Arg> = Vec::new();
        assert(args_view(none@) =~= Seq::<ArgView>::empty());
        Loading {
            phase: match entry.architecture() {
                Arch::Aarch64 => LoadPhase::Probe,
                Arch::X86_64 => LoadPhase::ResolveOpen,
            },
            entry,
            library,
            return_addr,
            libdl,
            first_insn: 0,
            dlopen: 0,
            dlerror: 0,
            call: RemoteCall::new(0, none, return_addr),
            reader: StringReader::new(0),
            result: None,
            retried: false,
        }
    }

    /// The first instruction of the probed function, as far as it was
    /// looked at.
    pub fn first_insn(&self) -> (insn: u32)
        ensures
            insn == self@.first_insn,
    {
        self.first_insn
    }

    /// The request that waits to be answered; `None` when the stage is over.
    pub fn request(&self) -> (pending: Option<Request>)
        requires
            self.wf(),
        ensures
            match pending {
                Some(request) => self@.pending() == Some(request@),
                None => self@.pending() is None,
            },
    {
        match self.phase {
            LoadPhase::Probe => Some(Request::Peek(self.entry.pc().wrapping_sub(4))),
            LoadPhase::Adjust => {
                let mut regs = self.entry;
                revert_pac(&mut regs, self.first_insn);
                Some(Request::SetRegs(regs))
            },
            LoadPhase::ResolveOpen => Some(self.libdl.resolve(DLOPEN)),
            LoadPhase::ResolveError => Some(self.libdl.resolve(DLERROR)),
            LoadPhase::Load | LoadPhase::Complain => self.call.request(),
            LoadPhase::Message => self.reader.request(),
            LoadPhase::Finished => None,
        }
    }

    fn report(&self) -> (step: Step<Result<(), Error>>)
        requires
            self.wf(),
        ensures
            match step {
                Step::Ask(request) => self@.pending() == Some(request@),
                Step::Done(result) => self@.result == unit_view(Some(result)),
            },
    {
        match self.request() {
            Some(request) => Step::Ask(request),
            None => match &self.result {
                Some(Err(error)) => Step::Done(Err(error.duplicate())),
                _ => Step::Done(Ok(())),
            },
        }
    }

    fn move_to(&mut self, phase: LoadPhase)
        ensures
            final(self)@ == old(self)@.moved(phase),
            final(self).call == old(self).call,
    {
        self.phase = phase;
        self.retried = false;
    }

    fn finish(&mut self, result: Result<(), Error>)
        requires
            old(self).call.wf(),
            old(self)@.call.wf(),
        ensures
            final(self)@ == old(self)@.finished(unit_view(Some(result))->0),
            final(self).wf(),
    {
        self.phase = LoadPhase::Finished;
        self.result = Some(result);
        self.retried = false;
    }

    fn called(&mut self, result: Result<u64, Error>)
        requires
            old(self).call.wf(),
            old(self)@.call.wf(),
            old(self)@.result is None,
            old(self)@.phase == LoadPhase::Load || old(self)@.phase == LoadPhase::Complain,
        ensures
            final(self)@ == old(self)@.called(crate::call::result_view(result)),
            final(self).wf(),
    {
        match result {
            Err(error) => {
                self.finish(Err(error));
            },
            Ok(value) => {
                if self.phase == LoadPhase::Load {
                    if value != 0 {
                        self.finish(Ok(()));
                    } else {
                        let none: Vec<Arg> = Vec::new();
                        assert(args_view(none@) =~= Seq::<ArgView>::empty());
                        self.call = RemoteCall::new(self.dlerror, none, self.return_addr);
                        self.move_to(LoadPhase::Complain);
                    }
                } else {
                    self.reader = StringReader::new(value);
                    self.move_to(LoadPhase::Message);
                }
            },
        }
    }

    fn step_own(&mut self, reply: Reply)
        requires
            old(self).wf(),
            old(self)@.phase == LoadPhase::Probe || old(self)@.phase == LoadPhase::Adjust || old(
                self,
            )@.phase == LoadPhase::ResolveOpen || old(self)@.phase == LoadPhase::ResolveError,
            !(reply@ == ReplyView::Failed(Failure::Interrupted) && !old(self)@.retried),
        ensures
            final(self).wf(),
            final(self)@ == old(self)@.after(reply@),
    {
        proof {
            reveal(LoadState::after);
        }
        match (self.phase, reply) {
            (LoadPhase::Probe, Reply::Word(word)) => {
                self.first_insn = first_insn_of(word);
                self.move_to(LoadPhase::Adjust);
            },
            (LoadPhase::Adjust, Reply::Done) => {
                self.move_to(LoadPhase::ResolveOpen);
            },
            (LoadPhase::ResolveOpen, Reply::Offset(at)) => {
                self.dlopen = self.libdl.base.wrapping_add(at);
                self.move_to(LoadPhase::ResolveError);
            },
            (LoadPhase::ResolveError, Reply::Offset(at)) => {
                self.dlerror = self.libdl.base.wrapping_add(at);
                let mut args: Vec<Arg> = Vec::new();
                args.push(Arg::Slice(to_c_string(self.library.as_str())));
                args.push(Arg::Numeric(RTLD_LAZY));
                assert(args_view(args@) =~= seq![
                    ArgView::Slice(c_string(self.library@)),
                    ArgView::Numeric(RTLD_LAZY),
                ]);
                self.call = RemoteCall::new(self.dlopen, args, self.return_addr);
                self.move_to(LoadPhase::Load);
            },
            (LoadPhase::ResolveOpen, _) => {
                self.finish(Err(Error::SymbolNotFound));
            },
            (LoadPhase::ResolveError, _) => {
                self.finish(Err(Error::SymbolNotFound));
            },
            _ => {
                self.finish(Err(Error::RemotePtraceFailed));
            },
        }
    }

    /// Takes the answer to the pending request and hands back what comes
    /// next.
    pub fn step(&mut self, reply: Reply) -> (step: Step<Result<(), Error>>)
        requires
            old(self).wf(),
        ensures
            final(self).wf(),
            final(self)@.wf(),
            final(self)@ == old(self)@.after(reply@),
            match step {
                Step::Ask(request) => final(self)@.pending() == Some(request@),
                Step::Done(result) => final(self)@.result == unit_view(Some(result)),
            },
    {
        proof {
            reveal(LoadState::after);
        }
        let interrupted = match &reply {
            Reply::Failed(Failure::Interrupted) => true,
            _ => false,
        };
        match self.phase {
            LoadPhase::Finished => {},
            LoadPhase::Load | LoadPhase::Complain => match self.call.step(reply) {
                Step::Ask(_) => {},
                Step::Done(result) => {
                    self.called(result);
                },
            },
            LoadPhase::Message => match self.reader.step(reply) {
                Step::Ask(_) => {},
                Step::Done(Ok(message)) => {
                    self.finish(Err(Error::RemoteDlopenFailed { message }));
                },
                Step::Done(Err(error)) => {
                    self.finish(Err(error));
                },
            },
            _ => {
                if interrupted && !self.retried {
                    self.retried = true;
                } else {
                    self.step_own(reply);
                }
            },
        }
        self.report()
    }
}

} // verus!
