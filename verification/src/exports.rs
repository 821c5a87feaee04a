//! Fourth stage of an injection: the variables that the bridge exports are
//! found, the addresses of its hook and its trampoline are read from them,
//! and the captured return address is stored in the bridge.

use crate::error::{Error, ErrorView};
use crate::maps::{accepted, file_name, file_name_of, parsed_maps, ProcessMaps};
use crate::prepare::{found_module, unit_view, Module, ModuleView};
use crate::protocol::{Failure, Reply, ReplyView, Request, RequestView, Step};
use crate::remote::Poke;
use vstd::prelude::*;

verus! {

/// Variable of the bridge that holds the address of its hook.
pub const CALLBACK_PRE: &'static str = "ZLB_CALLBACK_PRE";

/// Variable of the bridge that holds the address of its trampoline.
pub const TRAMPOLINE: &'static str = "ZLB_TRAMPOLINE";

/// Variable of the bridge that takes the address to which the
/// specialization function was to return.
pub const RETURN_ADDRESS: &'static str = "ZLB_RETURN_ADDRESS";

/// How far the fourth stage has come.
#[derive(Clone, Copy, Debug, PartialEq, Eq, Structural)]
pub enum ExportPhase {
    /// The mappings are read again: the bridge is now among them.
    Refresh,
    ResolveCallback,
    PeekCallback,
    ResolveTrampoline,
    PeekTrampoline,
    ResolveReturn,
    /// The captured return address is stored in the bridge.
    PokeReturn,
    Finished,
}

/// The state of the fourth stage.
pub struct ExportState {
    pub phase: ExportPhase,
    /// Path of the bridge.
    pub library: Seq<char>,
    /// The address to which the specialization function was to return.
    pub return_addr: u64,
    /// The bridge among the target's modules, once found.
    pub bridge: ModuleView,
    pub callback_var: u64,
    pub trampoline_var: u64,
    pub return_var: u64,
    /// Address of the bridge's hook, once read.
    pub callback: u64,
    /// Address of the bridge's trampoline, once read.
    pub trampoline: u64,
    pub result: Option<Result<(), ErrorView>>,
    pub retried: bool,
}

impl ExportState {
    /// The state in which the work starts.
    pub open spec fn start(library: Seq<char>, return_addr: u64) -> ExportState {
        ExportState {
            phase: ExportPhase::Refresh,
            library,
            return_addr,
            bridge: ModuleView { path: Seq::empty(), base: 0 },
            callback_var: 0,
            trampoline_var: 0,
            return_var: 0,
            callback: 0,
            trampoline: 0,
            result: None,
            retried: false,
        }
    }

    /// The state is one that the machine can be in.
    pub open spec fn wf(self) -> bool {
        self.phase == ExportPhase::Finished <==> self.result is Some
    }

    /// The request that waits to be answered; `None` when the work is over.
    pub open spec fn pending(self) -> Option<RequestView> {
        match self.phase {
            ExportPhase::Refresh => Some(RequestView::ReadMaps),
            ExportPhase::ResolveCallback => Some(
                RequestView::Resolve { library: self.bridge.path, symbol: CALLBACK_PRE@ },
            ),
            ExportPhase::PeekCallback => Some(RequestView::Peek(self.callback_var)),
            ExportPhase::ResolveTrampoline => Some(
                RequestView::Resolve { library: self.bridge.path, symbol: TRAMPOLINE@ },
            ),
            ExportPhase::PeekTrampoline => Some(RequestView::Peek(self.trampoline_var)),
            ExportPhase::ResolveReturn => Some(
                RequestView::Resolve { library: self.bridge.path, symbol: RETURN_ADDRESS@ },
            ),
            ExportPhase::PokeReturn => Some(
                RequestView::Poke(Poke { addr: self.return_var, value: self.return_addr }),
            ),
            ExportPhase::Finished => None,
        }
    }

    /// The state in the given phase, with a fresh count of retries.
    pub open spec fn moved(self, phase: ExportPhase) -> ExportState {
        ExportState { phase, retried: false, ..self }
    }

    /// The state in which the work is over, with the given result.
    pub open spec fn finished(self, result: Result<(), ErrorView>) -> ExportState {
        ExportState { phase: ExportPhase::Finished, result: Some(result), retried: false, ..self }
    }

    /// The bridge among the mappings `text`: the module that has the file
    /// name of the bridge's path.
    pub open spec fn bridge_in(self, text: Seq<char>) -> Option<ModuleView> {
        match file_name_of(self.library) {
            Some(name) => found_module(accepted(parsed_maps(text)), name),
            None => None,
        }
    }

    /// The state after the pending request was answered with `reply`. A
    /// bridge that is not among the mappings, or that lacks one of the
    /// variables, fails the stage.
    #[verifier::opaque]
    pub open spec fn after(self, reply: ReplyView) -> ExportState {
        if self.phase == ExportPhase::Finished {
            self
        } else if reply == ReplyView::Failed(Failure::Interrupted) && !self.retried {
            ExportState { retried: true, ..self }
        } else {
            match (self.phase, reply) {
                (ExportPhase::Refresh, ReplyView::Maps(text)) => match self.bridge_in(text) {
                    Some(bridge) => ExportState { bridge, ..self }.moved(
                        ExportPhase::ResolveCallback,
                    ),
                    None => self.finished(Err(ErrorView::BridgeExportMissing)),
                },
                (ExportPhase::ResolveCallback, ReplyView::Offset(at)) => ExportState {
                    callback_var: self.bridge.base.wrapping_add(at),
                    ..self
                }.moved(ExportPhase::PeekCallback),
                (ExportPhase::PeekCallback, ReplyView::Word(word)) => ExportState {
                    callback: word,
                    ..self
                }.moved(ExportPhase::ResolveTrampoline),
                (ExportPhase::ResolveTrampoline, ReplyView::Offset(at)) => ExportState {
                    trampoline_var: self.bridge.base.wrapping_add(at),
                    ..self
                }.moved(ExportPhase::PeekTrampoline),
                (ExportPhase::PeekTrampoline, ReplyView::Word(word)) => ExportState {
                    trampoline: word,
                    ..self
                }.moved(ExportPhase::ResolveReturn),
                (ExportPhase::ResolveReturn, ReplyView::Offset(at)) => ExportState {
                    return_var: self.bridge.base.wrapping_add(at),
                    ..self
                }.moved(ExportPhase::PokeReturn),
                (ExportPhase::PokeReturn, ReplyView::Done) => self.finished(Ok(())),
                (ExportPhase::ResolveCallback, _) => self.finished(
                    Err(ErrorView::BridgeExportMissing),
                ),
                (ExportPhase::ResolveTrampoline, _) => self.finished(
                    Err(ErrorView::BridgeExportMissing),
                ),
                (ExportPhase::ResolveReturn, _) => self.finished(
                    Err(ErrorView::BridgeExportMissing),
                ),
                _ => self.finished(Err(ErrorView::RemotePtraceFailed)),
            }
        }
    }
}

/// The fourth stage of an injection, in progress.
#[derive(Debug)]
pub struct Exports {
    phase: ExportPhase,
    library: String,
    return_addr: u64,
    bridge: Module,
    callback_var: u64,
    trampoline_var: u64,
    return_var: u64,
    callback: u64,
    trampoline: u64,
    result: Option<Result<(), Error>>,
    retried: bool,
}

impl View for Exports {
    type V = ExportState;

    closed spec fn view(&self) -> ExportState {
        ExportState {
            phase: self.phase,
            library: self.library@,
            return_addr: self.return_addr,
            bridge: self.bridge@,
            callback_var: self.callback_var,
            trampoline_var: self.trampoline_var,
            return_var: self.return_var,
            callback: self.callback,
            trampoline: self.trampoline,
            result: unit_view(self.result),
            retried: self.retried,
        }
    }
}

impl Exports {
    /// The stage for the bridge at `library`, which is to be told that the
    /// specialization function was to return to `return_addr`.
    pub fn new(library: String, return_addr: u64) -> (stage: Self)
        ensures
            stage@.wf(),
            stage@ == ExportState::start(library@, return_addr),
    {
        Exports {
            phase: ExportPhase::Refresh,
            library,
            return_addr,
            bridge: Module::none(),
            callback_var: 0,
            trampoline_var: 0,
            return_var: 0,
            callback: 0,
            trampoline: 0,
            result: None,
            retried: false,
        }
    }

    /// Address of the bridge's hook, once read.
    pub fn callback(&self) -> (addr: u64)
        ensures
            addr == self@.callback,
    {
        self.callback
    }

    /// Address of the bridge's trampoline, once read.
    pub fn trampoline(&self) -> (addr: u64)
        ensures
            addr == self@.trampoline,
    {
        self.trampoline
    }

    /// The request that waits to be answered; `None` when the stage is over.
    pub fn request(&self) -> (pending: Option<Request>)
        ensures
            match pending {
                Some(request) => self@.pending() == Some(request@),
                None => self@.pending() is None,
            },
    {
        match self.phase {
            ExportPhase::Refresh => Some(Request::ReadMaps),
            ExportPhase::ResolveCallback => Some(self.bridge.resolve(CALLBACK_PRE)),
            ExportPhase::PeekCallback => Some(Request::Peek(self.callback_var)),
            ExportPhase::ResolveTrampoline => Some(self.bridge.resolve(TRAMPOLINE)),
            ExportPhase::PeekTrampoline => Some(Request::Peek(self.trampoline_var)),
            ExportPhase::ResolveReturn => Some(self.bridge.resolve(RETURN_ADDRESS)),
            ExportPhase::PokeReturn => Some(
                Request::Poke(Poke { addr: self.return_var, value: self.return_addr }),
            ),
            ExportPhase::Finished => None,
        }
    }

    fn report(&self) -> (step: Step<Result<(), Error>>)
        requires
            self@.wf(),
        ensures
            match step {
                Step::Ask(request) => self@.pending() == Some(request@),
                Step::Done(result) => self@.result == unit_view(Some(result)),
            },
    {
        match self.request() {
            Some(request) => Step::Ask(request),
            None => match &self.result {
                Some(Err(error)) => Step::Done(Err(error.duplicate())),
                _ => Step::Done(Ok(())),
            },
        }
    }

    fn move_to(&mut self, phase: ExportPhase)
        ensures
            final(self)@ == old(self)@.moved(phase),
    {
        self.phase = phase;
        self.retried = false;
    }

    fn finish(&mut self, result: Result<(), Error>)
        ensures
            final(self)@ == old(self)@.finished(unit_view(Some(result))->0),
            final(self)@.wf(),
    {
        self.phase = ExportPhase::Finished;
        self.result = Some(result);
        self.retried = false;
    }

    fn find_bridge(&self, text: &str) -> (found: Option<Module>)
        ensures
            match self@.bridge_in(text@) {
                Some(module) => found is Some && found->0@ == module,
                None => found is None,
            },
    {
        match file_name(self.library.as_str()) {
            Some(name) => {
                let maps = ProcessMaps::parse(text);
                Module::find(&maps, name.as_str())
            },
            None => None,
        }
    }

    /// Takes the answer to the pending request and hands back what comes
    /// next.
    pub fn step(&mut self, reply: Reply) -> (step: Step<Result<(), Error>>)
        requires
            old(self)@.wf(),
        ensures
            final(self)@.wf(),
            final(self)@ == old(self)@.after(reply@),
            match step {
                Step::Ask(request) => final(self)@.pending() == Some(request@),
                Step::Done(result) => final(self)@.result == unit_view(Some(result)),
            },
    {
        proof {
            reveal(ExportState::after);
        }
        if self.phase == ExportPhase::Finished {
            return self.report();
        }
        match (self.phase, reply) {
            (_, Reply::Failed(Failure::Interrupted)) if !self.retried => {
                self.retried = true;
            },
            (ExportPhase::Refresh, Reply::Maps(text)) => match self.find_bridge(text.as_str()) {
                Some(bridge) => {
                    self.bridge = bridge;
                    self.move_to(ExportPhase::ResolveCallback);
                },
                None => {
                    self.finish(Err(Error::BridgeExportMissing));
                },
            },
            (ExportPhase::ResolveCallback, Reply::Offset(at)) => {
                self.callback_var = self.bridge.base.wrapping_add(at);
                self.move_to(ExportPhase::PeekCallback);
            },
            (ExportPhase::PeekCallback, Reply::Word(word)) => {
                self.callback = word;
                self.move_to(ExportPhase::ResolveTrampoline);
            },
            (ExportPhase::ResolveTrampoline, Reply::Offset(at)) => {
                self.trampoline_var = self.bridge.base.wrapping_add(at);
                self.move_to(ExportPhase::PeekTrampoline);
            },
            (ExportPhase::PeekTrampoline, Reply::Word(word)) => {
                self.trampoline = word;
                self.move_to(ExportPhase::ResolveReturn);
            },
            (ExportPhase::ResolveReturn, Reply::Offset(at)) => {
                self.return_var = self.bridge.base.wrapping_add(at);
                self.move_to(ExportPhase::PokeReturn);
            },
            (ExportPhase::PokeReturn, Reply::Done) => {
                self.finish(Ok(()));
            },
            (ExportPhase::ResolveCallback, _) => {
                self.finish(Err(Error::BridgeExportMissing));
            },
            (ExportPhase::ResolveTrampoline, _) => {
                self.finish(Err(Error::BridgeExportMissing));
            },
            (ExportPhase::ResolveReturn, _) => {
                self.finish(Err(Error::BridgeExportMissing));
            },
            _ => {
                self.finish(Err(Error::RemotePtraceFailed));
            },
        }
        self.report()
    }
}

} // verus!
