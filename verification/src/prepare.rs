//! First stage of an injection: the target is put back to the entry of the
//! probed function, its mappings are read, the probe page is unmapped, and
//! the arguments of the function are collected.

use crate::call::{CallPhase, CallState, RemoteCall};
use crate::error::{Error, ErrorView};
use crate::maps::{accepted, module_of, parsed_maps, uprobes_of, MapEntryView, ProcessMaps};
use crate::protocol::{Failure, Reply, ReplyView, Request, RequestView, Step};
use crate::regs::{args_on_regs, Registers};
use crate::remote::{args_view, locate_arg, stack_arg_addr, Arg, ArgPlace, ArgView};
use vstd::prelude::*;

verus! {

/// File name of the C library, whose first mapping is where remote calls are
/// made to return: the target cannot execute there.
pub const LIBC: &'static str = "libc.so";

/// Function of the C library that unmaps memory.
pub const MUNMAP: &'static str = "munmap";

/// A module of the target.
#[derive(Debug)]
pub struct Module {
    /// Path of the module's file.
    pub path: String,
    /// Address at which the module is mapped.
    pub base: u64,
}

/// A module of the target, with its path as a text.
pub struct ModuleView {
    pub path: Seq<char>,
    pub base: u64,
}

impl View for Module {
    type V = ModuleView;

    open spec fn view(&self) -> ModuleView {
        ModuleView { path: self.path@, base: self.base }
    }
}

/// The module with a given file name among mappings.
pub open spec fn found_module(maps: Seq<MapEntryView>, name: Seq<char>) -> Option<ModuleView> {
    match module_of(maps, name) {
        Some(m) => Some(ModuleView { path: m.0, base: m.1 }),
        None => None,
    }
}

impl Module {
    /// No module.
    pub fn none() -> (module: Module)
        ensures
            module@ == (ModuleView { path: Seq::empty(), base: 0 }),
    {
        Module { path: String::new(), base: 0 }
    }

    /// The module with the given file name among the mappings of a target.
    pub fn find(maps: &ProcessMaps, name: &str) -> (found: Option<Module>)
        ensures
            match found_module(maps@, name@) {
                Some(module) => found is Some && found->0@ == module,
                None => found is None,
            },
    {
        match maps.find_module(name) {
            Some(entry) => Some(Module { path: entry.0, base: entry.1 }),
            None => None,
        }
    }

    /// The request that looks up a symbol of this module.
    pub fn resolve(&self, symbol: &str) -> (request: Request)
        ensures
            request@ == (RequestView::Resolve { library: self@.path, symbol: symbol@ }),
    {
        Request::Resolve { library: self.path.clone(), symbol: symbol.to_owned() }
    }
}

/// How far the first stage has come.
#[derive(Clone, Copy, Debug, PartialEq, Eq, Structural)]
pub enum PreparePhase {
    /// The registers of the entry of the probed function are set.
    Correct,
    /// The target's mappings are read.
    Survey,
    /// The address of `munmap` is looked up.
    Resolve,
    /// The target is made to unmap the probe page.
    Unmap,
    /// The arguments that lie on the stack are read.
    Collect,
    Finished,
}

/// The result of a stage that hands nothing back, with its error as a plain
/// value.
pub open spec fn unit_view(result: Option<Result<(), Error>>) -> Option<Result<(), ErrorView>> {
    match result {
        Some(Ok(_)) => Some(Ok(())),
        Some(Err(error)) => Some(Err(error@)),
        None => None,
    }
}

/// The arguments that a target passes in registers, out of `count`.
pub open spec fn register_args(entry: Registers, count: nat) -> Seq<u64> {
    Seq::new(
        if count < args_on_regs(entry.arch()) {
            count
        } else {
            args_on_regs(entry.arch())
        },
        |i: int| entry.arg_reg(i),
    )
}

/// The state of the first stage.
pub struct PrepareState {
    pub phase: PreparePhase,
    /// The registers at the entry of the probed function.
    pub entry: Registers,
    /// Number of arguments of the probed function.
    pub args_count: nat,
    pub maps: Seq<MapEntryView>,
    pub libc: ModuleView,
    /// Address range of the probe page.
    pub uprobes: (u64, u64),
    /// The arguments read so far.
    pub args: Seq<u64>,
    pub call: CallState,
    pub result: Option<Result<(), ErrorView>>,
    pub retried: bool,
}

impl PrepareState {
    /// The state in which the work starts.
    pub open spec fn start(entry: Registers, args_count: nat) -> PrepareState {
        PrepareState {
            phase: PreparePhase::Correct,
            entry,
            args_count,
            maps: Seq::empty(),
            libc: ModuleView { path: Seq::empty(), base: 0 },
            uprobes: (0, 0),
            args: Seq::empty(),
            call: CallState::start(0, Seq::empty(), 0),
            result: None,
            retried: false,
        }
    }

    /// The state is one that the machine can be in.
    pub open spec fn wf(self) -> bool {
        &&& 8 * self.args_count <= u64::MAX
        &&& self.call.wf()
        &&& self.phase == PreparePhase::Finished <==> self.result is Some
        &&& self.phase == PreparePhase::Unmap ==> self.call.phase != CallPhase::Finished
        &&& self.phase == PreparePhase::Collect ==> args_on_regs(self.entry.arch())
            <= self.args.len() < self.args_count
        &&& self.result == Some(Ok::<(), ErrorView>(())) ==> self.args.len() == self.args_count
    }

    /// The request that waits to be answered; `None` when the work is over.
    pub open spec fn pending(self) -> Option<RequestView> {
        match self.phase {
            PreparePhase::Correct => Some(RequestView::SetRegs(self.entry)),
            PreparePhase::Survey => Some(RequestView::ReadMaps),
            PreparePhase::Resolve => Some(
                RequestView::Resolve { library: self.libc.path, symbol: MUNMAP@ },
            ),
            PreparePhase::Unmap => self.call.pending(),
            PreparePhase::Collect => Some(
                RequestView::Peek(
                    stack_arg_addr(self.entry.arch(), self.entry.stack(), self.args.len()),
                ),
            ),
            PreparePhase::Finished => None,
        }
    }

    /// The state in the given phase, with a fresh count of retries.
    pub open spec fn moved(self, phase: PreparePhase) -> PrepareState {
        PrepareState { phase, retried: false, ..self }
    }

    /// The state in which the work is over, with the given result.
    pub open spec fn finished(self, result: Result<(), ErrorView>) -> PrepareState {
        PrepareState {
            phase: PreparePhase::Finished,
            result: Some(result),
            retried: false,
            ..self
        }
    }

    /// With the mappings known: the probe page is unmapped where there is
    /// one, which takes the C library of the target.
    pub open spec fn enter_unmap(self) -> PrepareState {
        match uprobes_of(self.maps) {
            Some(range) => match found_module(self.maps, LIBC@) {
                Some(libc) => PrepareState { uprobes: range, libc, ..self }.moved(
                    PreparePhase::Resolve,
                ),
                None => self.finished(Err(ErrorView::SymbolNotFound)),
            },
            None => self.enter_collect(),
        }
    }

    /// The arguments are collected: those in registers at once, those on the
    /// stack one read after the other.
    pub open spec fn enter_collect(self) -> PrepareState {
        let taken = PrepareState { args: register_args(self.entry, self.args_count), ..self };
        if self.args_count > taken.args.len() {
            taken.moved(PreparePhase::Collect)
        } else {
            taken.finished(Ok(()))
        }
    }

    /// The state after the pending request was answered with `reply`.
    #[verifier::opaque]
    pub open spec fn after(self, reply: ReplyView) -> PrepareState {
        if self.phase == PreparePhase::Finished {
            self
        } else if self.phase == PreparePhase::Unmap {
            let call = self.call.after(reply);
            let stepped = PrepareState { call, ..self };
            if call.phase == CallPhase::Finished {
                match call.result {
                    Some(Err(error)) => stepped.finished(Err(error)),
                    _ => stepped.enter_collect(),
                }
            } else {
                stepped
            }
        } else if reply == ReplyView::Failed(Failure::Interrupted) && !self.retried {
            PrepareState { retried: true, ..self }
        } else {
            match (self.phase, reply) {
                (PreparePhase::Correct, ReplyView::Done) => self.moved(PreparePhase::Survey),
                (PreparePhase::Survey, ReplyView::Maps(text)) => PrepareState {
                    maps: accepted(parsed_maps(text)),
                    ..self
                }.enter_unmap(),
                (PreparePhase::Resolve, ReplyView::Offset(at)) => PrepareState {
                    call: CallState::start(
                        self.libc.base.wrapping_add(at),
                        seq![
                            ArgView::Numeric(self.uprobes.0),
                            ArgView::Numeric(self.uprobes.1.wrapping_sub(self.uprobes.0)),
                        ],
                        self.libc.base,
                    ),
                    ..self
                }.moved(PreparePhase::Unmap),
                (PreparePhase::Resolve, _) => self.finished(Err(ErrorView::SymbolNotFound)),
                (PreparePhase::Collect, ReplyView::Word(word)) => {
                    let read = PrepareState { args: self.args.push(word), ..self };
                    if read.args.len() < self.args_count {
                        read.moved(PreparePhase::Collect)
                    } else {
                        read.finished(Ok(()))
                    }
                },
                _ => self.finished(Err(ErrorView::RemotePtraceFailed)),
            }
        }
    }
}

/// The first stage of an injection, in progress.
#[derive(Debug)]
pub struct Prepare {
    phase: PreparePhase,
    entry: Registers,
    args_count: usize,
    maps: ProcessMaps,
    libc: Module,
    uprobes: (u64, u64),
    args: Vec<u64>,
    call: RemoteCall,
    result: Option<Result<(), Error>>,
    retried: bool,
}

impl View for Prepare {
    type V = PrepareState;

    closed spec fn view(&self) -> PrepareState {
        PrepareState {
            phase: self.phase,
            entry: self.entry,
            args_count: self.args_count as nat,
            maps: self.maps@,
            libc: self.libc@,
            uprobes: self.uprobes,
            args: self.args@,
            call: self.call@,
            result: unit_view(self.result),
            retried: self.retried,
        }
    }
}

impl Prepare {
    /// The machine is in a state that it can be in, and so are the machines
    /// that it drives.
    pub closed spec fn wf(&self) -> bool {
        self@.wf() && self.call.wf()
    }

    /// The first stage for a target whose registers at the entry of the
    /// probed function are `entry`. The function takes `args_count`
    /// arguments, a number whose words the target must be able to address.
    pub fn new(entry: Registers, args_count: usize) -> (stage: Self)
        requires
            8 * args_count <= u64::MAX,
        ensures
            stage.wf(),
            stage@.wf(),
            stage@ == PrepareState::start(entry, args_count as nat),
    {
        let none: Vec<Arg> = Vec::new();
        assert(args_view(none@) =~= Seq::<ArgView>::empty());
        Prepare {
            phase: PreparePhase::Correct,
            entry,
            args_count,
            maps: ProcessMaps::empty(),
            libc: Module::none(),
            uprobes: (0, 0),
            args: Vec::new(),
            call: RemoteCall::new(0, none, 0),
            result: None,
            retried: false,
        }
    }

    /// The mappings that were read.
    pub fn maps(&self) -> (maps: &ProcessMaps)
        ensures
            maps@ == self@.maps,
    {
        &self.maps
    }

    /// The arguments that were collected.
    pub fn args(&self) -> (args: &Vec<u64>)
        ensures
            args@ == self@.args,
    {
        &self.args
    }

    /// The request that waits to be answered; `None` when the stage is over.
    pub fn request(&self) -> (pending: Option<Request>)
        requires
            self.wf(),
        ensures
            match pending {
                Some(request) => self@.pending() == Some(request@),
                None => self@.pending() is None,
            },
    {
        match self.phase {
            PreparePhase::Correct => Some(Request::SetRegs(self.entry)),
            PreparePhase::Survey => Some(Request::ReadMaps),
            PreparePhase::Resolve => Some(self.libc.resolve(MUNMAP)),
            PreparePhase::Unmap => self.call.request(),
            PreparePhase::Collect => match locate_arg(&self.entry, self.args.len()) {
                ArgPlace::Stack(addr) => Some(Request::Peek(addr)),
                ArgPlace::Register(_) => None,
            },
            PreparePhase::Finished => None,
        }
    }

    fn report(&self) -> (step: Step<Result<(), Error>>)
        requires
            self.wf(),
        ensures
            match step {
                Step::Ask(request) => self@.pending() == Some(request@),
                Step::Done(result) => self@.result == unit_view(Some(result)),
            },
    {
        match self.request() {
            Some(request) => Step::Ask(request),
            None => match &self.result {
                Some(Err(error)) => Step::Done(Err(error.duplicate())),
                _ => Step::Done(Ok(())),
            },
        }
    }

    fn move_to(&mut self, phase: PreparePhase)
        ensures
            final(self)@ == old(self)@.moved(phase),
            final(self).call == old(self).call,
    {
        self.phase = phase;
        self.retried = false;
    }

    fn finish(&mut self, result: Result<(), Error>)
        requires
            old(self).call.wf(),
            old(self)@.call.wf(),
            8 * old(self)@.args_count <= u64::MAX,
            result is Ok ==> old(self)@.args.len() == old(self)@.args_count,
        ensures
            final(self)@ == old(self)@.finished(unit_view(Some(result))->0),
            final(self).wf(),
    {
        self.phase = PreparePhase::Finished;
        self.result = Some(result);
        self.retried = false;
    }

    fn enter_collect(&mut self)
        requires
            old(self).call.wf(),
            old(self)@.call.wf(),
            8 * old(self)@.args_count <= u64::MAX,
            old(self)@.result is None,
        ensures
            final(self)@ == old(self)@.enter_collect(),
            final(self).wf(),
    {
        let on_regs: usize = self.entry.architecture().args_on_regs();
        let taken: usize = if self.args_count < on_regs {
            self.args_count
        } else {
            on_regs
        };
        let mut args: Vec<u64> = Vec::new();
        let mut i: usize = 0;
        while i < taken
            invariant
                i <= taken,
                taken <= args_on_regs(self.entry.arch()),
                args@.len() == i,
                forall|k: int| 0 <= k < i ==> args@[k] == self.entry.arg_reg(k),
            decreases taken - i,
        {
            args.push(self.entry.arg(i));
            i += 1;
        }
        assert(args@ =~= register_args(self.entry, self.args_count as nat));
        self.args = args;
        if self.args_count > taken {
            self.move_to(PreparePhase::Collect);
        } else {
            self.finish(Ok(()));
        }
    }

    fn enter_unmap(&mut self)
        requires
            old(self).call.wf(),
            old(self)@.call.wf(),
            8 * old(self)@.args_count <= u64::MAX,
            old(self)@.result is None,
        ensures
            final(self)@ == old(self)@.enter_unmap(),
            final(self).wf(),
    {
        match self.maps.uprobes_range() {
            Some(range) => match Module::find(&self.maps, LIBC) {
                Some(libc) => {
                    self.uprobes = range;
                    self.libc = libc;
                    self.move_to(PreparePhase::Resolve);
                },
                None => {
                    self.finish(Err(Error::SymbolNotFound));
                },
            },
            None => {
                self.enter_collect();
            },
        }
    }

    fn step_call(&mut self, reply: Reply)
        requires
            old(self).wf(),
            old(self)@.phase == PreparePhase::Unmap,
        ensures
            final(self).wf(),
            final(self)@ == old(self)@.after(reply@),
    {
        proof {
            reveal(PrepareState::after);
        }
        match self.call.step(reply) {
            Step::Ask(_) => {},
            Step::Done(Err(error)) => {
                self.finish(Err(error));
            },
            Step::Done(Ok(_)) => {
                self.enter_collect();
            },
        }
    }

    fn step_own(&mut self, reply: Reply)
        requires
            old(self).wf(),
            old(self)@.phase != PreparePhase::Unmap,
            old(self)@.phase != PreparePhase::Finished,
            !(reply@ == ReplyView::Failed(Failure::Interrupted) && !old(self)@.retried),
        ensures
            final(self).wf(),
            final(self)@ == old(self)@.after(reply@),
    {
        proof {
            reveal(PrepareState::after);
        }
        match (self.phase, reply) {
            (PreparePhase::Correct, Reply::Done) => {
                self.move_to(PreparePhase::Survey);
            },
            (PreparePhase::Survey, Reply::Maps(text)) => {
                self.maps = ProcessMaps::parse(text.as_str());
                self.enter_unmap();
            },
            (PreparePhase::Resolve, Reply::Offset(at)) => {
                let mut args: Vec<Arg> = Vec::new();
                args.push(Arg::Numeric(self.uprobes.0));
                args.push(Arg::Numeric(self.uprobes.1.wrapping_sub(self.uprobes.0)));
                assert(args_view(args@) =~= seq![
                    ArgView::Numeric(self.uprobes.0),
                    ArgView::Numeric(self.uprobes.1.wrapping_sub(self.uprobes.0)),
                ]);
                self.call = RemoteCall::new(self.libc.base.wrapping_add(at), args, self.libc.base);
                self.move_to(PreparePhase::Unmap);
            },
            (PreparePhase::Resolve, _) => {
                self.finish(Err(Error::SymbolNotFound));
            },
            (PreparePhase::Collect, Reply::Word(word)) => {
                self.args.push(word);
                if self.args.len() < self.args_count {
                    self.move_to(PreparePhase::Collect);
                } else {
                    self.finish(Ok(()));
                }
            },
            _ => {
                self.finish(Err(Error::RemotePtraceFailed));
            },
        }
    }

    /// Takes the answer to the pending request and hands back what comes
    /// next.
    pub fn step(&mut self, reply: Reply) -> (step: Step<Result<(), Error>>)
        requires
            old(self).wf(),
        ensures
            final(self).wf(),
            final(self)@.wf(),
            final(self)@ == old(self)@.after(reply@),
            final(self)@.entry == old(self)@.entry,
            final(self)@.args_count == old(self)@.args_count,
            match step {
                Step::Ask(request) => final(self)@.pending() == Some(request@),
                Step::Done(result) => final(self)@.result == unit_view(Some(result)),
            },
    {
        proof {
            reveal(PrepareState::after);
        }
        let interrupted = match &reply {
            Reply::Failed(Failure::Interrupted) => true,
            _ => false,
        };
        match self.phase {
            PreparePhase::Finished => {},
            PreparePhase::Unmap => {
                self.step_call(reply);
            },
            _ => {
                if interrupted && !self.retried {
                    self.retried = true;
                } else {
                    self.step_own(reply);
                }
            },
        }
        self.report()
    }
}

} // verus!
