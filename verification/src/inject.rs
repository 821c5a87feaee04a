//! The injection pipeline: what is done, request by request, to a child that
//! was stopped at the probe on the specialization function, so that it loads
//! the bridge and returns through the bridge's trampoline. Whatever goes
//! wrong on the way, the registers with which the child stopped are put back
//! before the injection ends.

use crate::arm::{armed_regs, in_registers, ArmState, Arming};
use crate::error::{Error, ErrorView};
use crate::exports::{ExportState, Exports};
use crate::load::{LoadState, Loading, LIBDL};
use crate::prepare::{found_module, Module, ModuleView, Prepare, PreparePhase, PrepareState, LIBC};
use crate::protocol::{Failure, Reply, ReplyView, Request, RequestView, Step};
use crate::regs::{
    args_on_regs, lemma_with_args_keeps_rest, lemma_with_args_same_elsewhere, same_elsewhere,
    Arch, Registers,
};
use crate::remote::{pac_compat, revert_pac, revert_prologue, uprobe_compat};
use crate::screen::{ScreenState, Screening};
use crate::zygote::{layout_of, low_word, slot_count, slot_of, Field, Layout};
use vstd::prelude::*;

verus! {

/// What an injection is given.
#[derive(Debug)]
pub struct BridgeConfig {
    /// Path of the bridge in the target's filesystem.
    pub library: String,
    /// Whether a filter decides which processes are injected.
    pub filter: bool,
    /// Number of arguments of the specialization function.
    pub args_count: usize,
    /// The address to which the specialization function was to return, as
    /// captured when the probe fired.
    pub return_addr: u64,
    /// SDK version of the platform.
    pub sdk: i32,
}

/// What an injection is given, with the path as a text.
pub struct ConfigView {
    pub library: Seq<char>,
    pub filter: bool,
    pub args_count: nat,
    pub return_addr: u64,
    pub sdk: i32,
}

impl View for BridgeConfig {
    type V = ConfigView;

    open spec fn view(&self) -> ConfigView {
        ConfigView {
            library: self.library@,
            filter: self.filter,
            args_count: self.args_count as nat,
            return_addr: self.return_addr,
            sdk: self.sdk,
        }
    }
}

/// How an injection ended.
#[derive(Debug)]
pub enum Outcome {
    /// The bridge is loaded and armed; the target goes on from the entry of
    /// the specialization function, with the return redirected.
    Injected,
    /// The filter declined the process; the target's registers are those of
    /// the snapshot.
    Skipped,
    /// The injection failed. `restored` says whether the registers of the
    /// snapshot could be put back.
    Failed { error: Error, restored: bool },
}

/// How an injection ended, with its error as a plain value.
pub enum OutcomeView {
    Injected,
    Skipped,
    Failed { error: ErrorView, restored: bool },
}

impl View for Outcome {
    type V = OutcomeView;

    open spec fn view(&self) -> OutcomeView {
        match self {
            Outcome::Injected => OutcomeView::Injected,
            Outcome::Skipped => OutcomeView::Skipped,
            Outcome::Failed { error, restored } => OutcomeView::Failed {
                error: error@,
                restored: *restored,
            },
        }
    }
}

impl Outcome {
    /// A copy of the outcome.
    pub fn duplicate(&self) -> (copy: Outcome)
        ensures
            copy@ == self@,
    {
        match self {
            Outcome::Injected => Outcome::Injected,
            Outcome::Skipped => Outcome::Skipped,
            Outcome::Failed { error, restored } => Outcome::Failed {
                error: error.duplicate(),
                restored: *restored,
            },
        }
    }
}

/// The stage that an injection is in.
#[derive(Clone, Copy, Debug, PartialEq, Eq, Structural)]
pub enum Stage {
    /// The target is put back to the probed function, the probe page is
    /// unmapped, the arguments are collected.
    Prepare,
    /// The filter is asked.
    Screen,
    /// The bridge is loaded.
    Load,
    /// The bridge's variables are found.
    Export,
    /// The hook is run and the return is redirected.
    Arm,
    /// The registers of the snapshot are put back.
    Restore,
    Finished,
}

/// The registers of the snapshot put back to the entry of the probed
/// function.
pub open spec fn entry_regs(snapshot: Registers, first_insn: u32) -> Registers {
    pac_compat(uprobe_compat(snapshot), first_insn)
}

/// The registers with which an injected target goes on: those of the
/// snapshot, put back to the entry of the specialization function, with the
/// arguments that travel in registers replaced by what the hook left of
/// them, and on AArch64 with the trampoline in the link register.
pub open spec fn injected_regs(
    snapshot: Registers,
    first_insn: u32,
    updated: Seq<u64>,
    trampoline: u64,
) -> Registers {
    armed_regs(entry_regs(snapshot, first_insn), updated, trampoline)
}

/// The layout of arguments on a platform, where its version has one that
/// fits their number.
pub open spec fn fitting_layout(sdk: i32, count: nat) -> Option<Layout> {
    match layout_of(sdk) {
        Some(layout) => if slot_count(layout) == count {
            Some(layout)
        } else {
            None
        },
        None => None,
    }
}

/// The reason for putting the snapshot back, with its error as a plain
/// value.
pub open spec fn planned_view(planned: Option<Result<(), Error>>) -> Option<Result<(), ErrorView>> {
    match planned {
        Some(Ok(_)) => Some(Ok(())),
        Some(Err(error)) => Some(Err(error@)),
        None => None,
    }
}

/// The state of an injection.
pub struct InjectState {
    pub stage: Stage,
    pub config: ConfigView,
    /// The registers with which the target stopped at the probe.
    pub snapshot: Registers,
    pub prepare: PrepareState,
    pub screen: ScreenState,
    pub load: LoadState,
    pub exports: ExportState,
    pub arm: ArmState,
    /// Why the snapshot is put back: `Ok` for a process that the filter
    /// declined, the error for an injection that failed.
    pub planned: Option<Result<(), ErrorView>>,
    pub outcome: Option<OutcomeView>,
    pub retried: bool,
}

impl InjectState {
    /// The state in which the injection into a target starts, whose
    /// registers at the probe were `snapshot`.
    pub open spec fn start(config: ConfigView, snapshot: Registers) -> InjectState {
        let none = ModuleView { path: Seq::empty(), base: 0 };
        InjectState {
            stage: Stage::Prepare,
            config,
            snapshot,
            prepare: PrepareState::start(uprobe_compat(snapshot), config.args_count),
            screen: ScreenState::start(0, 0, 0, 0, 0),
            load: LoadState::start(snapshot, Seq::empty(), 0, none),
            exports: ExportState::start(Seq::empty(), 0),
            arm: ArmState::start(snapshot, Seq::empty(), 0, 0, 0),
            planned: None,
            outcome: None,
            retried: false,
        }
    }

    /// The arguments of the specialization function, once collected.
    pub open spec fn args(self) -> Seq<u64> {
        self.prepare.args
    }

    /// The C library among the target's modules.
    pub open spec fn libc(self) -> Option<ModuleView> {
        found_module(self.prepare.maps, LIBC@)
    }

    /// The state is one that the machine can be in.
    pub open spec fn wf(self) -> bool {
        &&& 8 * self.config.args_count <= u64::MAX
        &&& self.prepare.wf()
        &&& self.prepare.args_count == self.config.args_count
        &&& self.stage == Stage::Finished <==> self.outcome is Some
        &&& self.planned is Some ==> self.stage == Stage::Restore || self.stage == Stage::Finished
        &&& match self.stage {
            Stage::Prepare => self.prepare.phase != PreparePhase::Finished,
            Stage::Screen => self.screen.wf() && self.screen.result is None,
            Stage::Load => self.load.wf() && self.load.result is None,
            Stage::Export => self.exports.wf() && self.exports.result is None,
            Stage::Arm => {
                &&& self.arm.wf()
                &&& self.arm.result is None
                &&& self.arm.entry == entry_regs(self.snapshot, self.load.first_insn)
                &&& self.arm.trampoline == self.exports.trampoline
                &&& self.arm.args == self.args()
            },
            Stage::Restore => self.planned is Some,
            Stage::Finished => true,
        }
        &&& self.stage != Stage::Prepare && self.stage != Stage::Restore && self.stage
            != Stage::Finished ==> self.prepare.result == Some(Ok::<(), ErrorView>(()))
    }

    /// The request that the injection waits to have answered.
    pub open spec fn pending(self) -> Option<RequestView> {
        match self.stage {
            Stage::Prepare => self.prepare.pending(),
            Stage::Screen => self.screen.pending(),
            Stage::Load => self.load.pending(),
            Stage::Export => self.exports.pending(),
            Stage::Arm => self.arm.pending(),
            Stage::Restore => Some(RequestView::SetRegs(self.snapshot)),
            Stage::Finished => None,
        }
    }

    /// The injection fails: the snapshot is put back before it ends.
    pub open spec fn fail(self, error: ErrorView) -> InjectState {
        InjectState { stage: Stage::Restore, planned: Some(Err(error)), retried: false, ..self }
    }

    /// The filter declined: the snapshot is put back before the injection
    /// ends.
    pub open spec fn skip(self) -> InjectState {
        InjectState { stage: Stage::Restore, planned: Some(Ok(())), retried: false, ..self }
    }

    /// The state in which the work is over, with the given result.
    pub open spec fn finished(self, outcome: OutcomeView) -> InjectState {
        InjectState { stage: Stage::Finished, outcome: Some(outcome), retried: false, ..self }
    }

    /// With the arguments collected: where a filter is configured, it is
    /// asked, by the user id, the data directory and the name that the
    /// arguments hold under the platform's layout.
    pub open spec fn enter_screen(self) -> InjectState {
        if !self.config.filter {
            self.enter_load()
        } else {
            match fitting_layout(self.config.sdk, self.args().len()) {
                Some(layout) => match self.libc() {
                    Some(libc) => InjectState {
                        stage: Stage::Screen,
                        screen: ScreenState::start(
                            low_word(self.args()[slot_of(layout, Field::Uid)->0 as int]),
                            self.args()[slot_of(layout, Field::Env)->0 as int],
                            self.args()[slot_of(layout, Field::ManagedAppDataDir)->0 as int],
                            self.args()[slot_of(layout, Field::ManagedNiceName)->0 as int],
                            libc.base,
                        ),
                        ..self
                    },
                    None => self.fail(ErrorView::SymbolNotFound),
                },
                None => self.fail(ErrorView::UnsupportedSdk),
            }
        }
    }

    /// The bridge is loaded, which takes the C library and the loader's
    /// library of the target.
    pub open spec fn enter_load(self) -> InjectState {
        match (self.libc(), found_module(self.prepare.maps, LIBDL@)) {
            (Some(libc), Some(libdl)) => InjectState {
                stage: Stage::Load,
                load: LoadState::start(
                    uprobe_compat(self.snapshot),
                    self.config.library,
                    libc.base,
                    libdl,
                ),
                ..self
            },
            _ => self.fail(ErrorView::SymbolNotFound),
        }
    }

    /// With the bridge loaded: its variables are looked for.
    pub open spec fn enter_export(self) -> InjectState {
        InjectState {
            stage: Stage::Export,
            exports: ExportState::start(self.config.library, self.config.return_addr),
            ..self
        }
    }

    /// With the bridge's addresses known: the target is armed, which takes
    /// the C library once more.
    pub open spec fn enter_arm(self) -> InjectState {
        match self.libc() {
            Some(libc) => InjectState {
                stage: Stage::Arm,
                arm: ArmState::start(
                    entry_regs(self.snapshot, self.load.first_insn),
                    self.args(),
                    self.exports.callback,
                    self.exports.trampoline,
                    libc.base,
                ),
                ..self
            },
            None => self.fail(ErrorView::SymbolNotFound),
        }
    }

    /// The state after the pending request was answered with `reply`. Each
    /// stage takes the answers to its own requests; when it ends well the
    /// next one starts, and when it fails the snapshot is put back. When the
    /// filter declines, the snapshot is put back as well.
    pub open spec fn after(self, reply: ReplyView) -> InjectState {
        match self.stage {
            Stage::Finished => self,
            Stage::Prepare => {
                let prepare = self.prepare.after(reply);
                let stepped = InjectState { prepare, ..self };
                match prepare.result {
                    Some(Ok(_)) => stepped.enter_screen(),
                    Some(Err(error)) => stepped.fail(error),
                    None => stepped,
                }
            },
            Stage::Screen => {
                let screen = self.screen.after(reply);
                let stepped = InjectState { screen, ..self };
                match screen.result {
                    Some(Ok(inject)) => if inject {
                        stepped.enter_load()
                    } else {
                        stepped.skip()
                    },
                    Some(Err(error)) => stepped.fail(error),
                    None => stepped,
                }
            },
            Stage::Load => {
                let load = self.load.after(reply);
                let stepped = InjectState { load, ..self };
                match load.result {
                    Some(Ok(_)) => stepped.enter_export(),
                    Some(Err(error)) => stepped.fail(error),
                    None => stepped,
                }
            },
            Stage::Export => {
                let exports = self.exports.after(reply);
                let stepped = InjectState { exports, ..self };
                match exports.result {
                    Some(Ok(_)) => stepped.enter_arm(),
                    Some(Err(error)) => stepped.fail(error),
                    None => stepped,
                }
            },
            Stage::Arm => {
                let arm = self.arm.after(reply);
                let stepped = InjectState { arm, ..self };
                match arm.result {
                    Some(Ok(_)) => stepped.finished(OutcomeView::Injected),
                    Some(Err(error)) => stepped.fail(error),
                    None => stepped,
                }
            },
            Stage::Restore => if reply == ReplyView::Failed(Failure::Interrupted)
                && !self.retried {
                InjectState { retried: true, ..self }
            } else {
                self.finished(
                    match (reply, self.planned) {
                        (ReplyView::Done, Some(Err(error))) => OutcomeView::Failed {
                            error,
                            restored: true,
                        },
                        (ReplyView::Done, _) => OutcomeView::Skipped,
                        (_, Some(Err(error))) => OutcomeView::Failed { error, restored: false },
                        _ => OutcomeView::Failed {
                            error: ErrorView::RemotePtraceFailed,
                            restored: false,
                        },
                    },
                )
            },
        }
    }
}

/// The registers with which an injected target goes on are those of the
/// snapshot, changed in these places and in no other: the program counter
/// and the stack pointer are those of the entry of the specialization
/// function, each argument register holds what the hook left of its
/// argument, and on AArch64 the link register holds the trampoline.
pub proof fn lemma_injected_regs_differ(
    snapshot: Registers,
    first_insn: u32,
    updated: Seq<u64>,
    trampoline: u64,
)
    ensures
        ({
            let regs = injected_regs(snapshot, first_insn, updated, trampoline);
            let entry = entry_regs(snapshot, first_insn);
            &&& regs.arch() == snapshot.arch()
            &&& same_elsewhere(snapshot, regs)
            &&& regs.counter() == entry.counter()
            &&& regs.stack() == entry.stack()
            &&& forall|n: int|
                0 <= n < args_on_regs(regs.arch()) ==> regs.arg_reg(n) == if n < updated.len() {
                    updated[n]
                } else {
                    snapshot.arg_reg(n)
                }
            &&& regs.link() == match regs.arch() {
                Arch::Aarch64 => trampoline,
                Arch::X86_64 => snapshot.link(),
            }
        }),
{
    let entry = entry_regs(snapshot, first_insn);
    let passed = in_registers(entry.arch(), updated);
    let written = entry.with_args(passed);
    let regs = injected_regs(snapshot, first_insn, updated, trampoline);
    assert(entry.arch() == snapshot.arch());
    assert(same_elsewhere(snapshot, entry));
    assert(forall|n: int| 0 <= n < args_on_regs(entry.arch()) ==> entry.arg_reg(n)
        == snapshot.arg_reg(n));
    lemma_with_args_keeps_rest(entry, passed);
    lemma_with_args_same_elsewhere(entry, passed);
    assert(regs == written.with_link(trampoline));
    assert(same_elsewhere(snapshot, written));
    assert(same_elsewhere(snapshot, regs));
    assert forall|n: int| 0 <= n < args_on_regs(regs.arch()) implies regs.arg_reg(n) == if n
        < updated.len() {
        updated[n]
    } else {
        snapshot.arg_reg(n)
    } by {
        assert(regs.arg_reg(n) == written.arg_reg(n));
        if n < passed.len() {
            assert(passed[n] == updated[n]);
        }
    }
}

/// After a successful injection the target goes on with the registers
/// `injected_regs` of the snapshot: they are what the last request set, and
/// that request was carried out.
pub proof fn lemma_injected_registers(state: InjectState, reply: ReplyView)
    requires
        state.wf(),
        state.stage != Stage::Finished,
        state.after(reply).outcome == Some(OutcomeView::Injected),
    ensures
        reply == ReplyView::Done,
        state.arm.updated.len() == state.config.args_count,
        state.pending() == Some(
            RequestView::SetRegs(
                injected_regs(
                    state.snapshot,
                    state.load.first_insn,
                    state.arm.updated,
                    state.exports.trampoline,
                ),
            ),
        ),
{
    reveal(ArmState::after);
}

/// After a failed injection, and after one that the filter declined, the
/// target's registers are those of the snapshot: the injection ends in
/// failure only from the stage that puts the snapshot back, and it reports
/// the registers as restored exactly when the request that sets them to the
/// snapshot was carried out.
pub proof fn lemma_failure_restores(state: InjectState, reply: ReplyView)
    requires
        state.wf(),
        state.stage != Stage::Finished,
        state.after(reply).outcome is Some,
        state.after(reply).outcome != Some(OutcomeView::Injected),
    ensures
        state.stage == Stage::Restore,
        state.pending() == Some(RequestView::SetRegs(state.snapshot)),
        match state.after(reply).outcome->0 {
            OutcomeView::Failed { error, restored } => restored == (reply == ReplyView::Done),
            _ => reply == ReplyView::Done,
        },
{
}

/// A stage that fails leads to the stage that puts the snapshot back,
/// whatever the stage and whatever the failure.
pub proof fn lemma_failure_leads_to_restore(state: InjectState, reply: ReplyView)
    requires
        state.wf(),
        state.stage != Stage::Finished,
        state.stage != Stage::Restore,
    ensures
        state.after(reply).stage == Stage::Finished ==> state.after(reply).outcome == Some(
            OutcomeView::Injected,
        ),
        state.after(reply).planned is Some <==> state.after(reply).stage == Stage::Restore,
        state.after(reply).snapshot == state.snapshot,
{
}

/// An injection in progress.
#[derive(Debug)]
pub struct Injector {
    stage: Stage,
    config: BridgeConfig,
    snapshot: Registers,
    prepare: Prepare,
    screen: Screening,
    load: Loading,
    exports: Exports,
    arm: Arming,
    planned: Option<Result<(), Error>>,
    outcome: Option<Outcome>,
    retried: bool,
}

impl View for Injector {
    type V = InjectState;

    closed spec fn view(&self) -> InjectState {
        InjectState {
            stage: self.stage,
            config: self.config@,
            snapshot: self.snapshot,
            prepare: self.prepare@,
            screen: self.screen@,
            load: self.load@,
            exports: self.exports@,
            arm: self.arm@,
            planned: planned_view(self.planned),
            outcome: match self.outcome {
                Some(outcome) => Some(outcome@),
                None => None,
            },
            retried: self.retried,
        }
    }
}

impl Injector {
    /// The state is in order, and so is the stage that is at work.
    pub closed spec fn wf(&self) -> bool {
        &&& self@.wf()
        &&& self.prepare.wf()
        &&& self.stage == Stage::Screen ==> self.screen.wf()
        &&& self.stage == Stage::Load ==> self.load.wf()
        &&& self.stage == Stage::Arm ==> self.arm.wf()
    }

    /// What every stage keeps.
    closed spec fn inv(&self) -> bool {
        &&& 8 * self@.config.args_count <= u64::MAX
        &&& self@.prepare.wf()
        &&& self@.prepare.args_count == self@.config.args_count
        &&& self.prepare.wf()
        &&& self@.outcome is None
        &&& self@.planned is None
    }

    /// An injection into a target whose registers at the probe were
    /// `snapshot`. The number of arguments must be one whose words the
    /// target can address.
    pub fn new(config: BridgeConfig, snapshot: Registers) -> (injector: Self)
        requires
            8 * config.args_count <= u64::MAX,
        ensures
            injector.wf(),
            injector@.wf(),
            injector@ == InjectState::start(config@, snapshot),
    {
        let mut entry = snapshot;
        revert_prologue(&mut entry);
        let prepare = Prepare::new(entry, config.args_count);
        Injector {
            stage: Stage::Prepare,
            config,
            snapshot,
            prepare,
            screen: Screening::new(0, 0, 0, 0, 0),
            load: Loading::new(snapshot, String::new(), 0, Module::none()),
            exports: Exports::new(String::new(), 0),
            arm: Arming::new(snapshot, Vec::new(), 0, 0, 0),
            planned: None,
            outcome: None,
            retried: false,
        }
    }

    /// The request that waits to be answered; `None` when the injection is
    /// over.
    pub fn request(&self) -> (pending: Option<Request>)
        requires
            self.wf(),
        ensures
            match pending {
                Some(request) => self@.pending() == Some(request@),
                None => self@.pending() is None,
            },
    {
        match self.stage {
            Stage::Prepare => self.prepare.request(),
            Stage::Screen => self.screen.request(),
            Stage::Load => self.load.request(),
            Stage::Export => self.exports.request(),
            Stage::Arm => self.arm.request(),
            Stage::Restore => Some(Request::SetRegs(self.snapshot)),
            Stage::Finished => None,
        }
    }

    fn report(&self) -> (step: Step<Outcome>)
        requires
            self.wf(),
        ensures
            match step {
                Step::Ask(request) => self@.pending() == Some(request@),
                Step::Done(outcome) => self@.outcome == Some(outcome@),
            },
    {
        match self.request() {
            Some(request) => Step::Ask(request),
            None => match &self.outcome {
                Some(outcome) => Step::Done(outcome.duplicate()),
                None => Step::Done(
                    Outcome::Failed { error: Error::RemotePtraceFailed, restored: false },
                ),
            },
        }
    }

    fn fail(&mut self, error: Error)
        requires
            old(self).inv(),
        ensures
            final(self)@ == old(self)@.fail(error@),
            final(self).wf(),
    {
        self.stage = Stage::Restore;
        self.planned = Some(Err(error));
        self.retried = false;
    }

    fn skip(&mut self)
        requires
            old(self).inv(),
        ensures
            final(self)@ == old(self)@.skip(),
            final(self).wf(),
    {
        self.stage = Stage::Restore;
        self.planned = Some(Ok(()));
        self.retried = false;
    }

    fn libc_base(&self) -> (base: Option<u64>)
        ensures
            match self@.libc() {
                Some(libc) => base == Some(libc.base),
                None => base is None,
            },
    {
        match Module::find(self.prepare.maps(), LIBC) {
            Some(libc) => Some(libc.base),
            None => None,
        }
    }

    fn enter_arm(&mut self)
        requires
            old(self).inv(),
            old(self)@.prepare.result == Some(Ok::<(), ErrorView>(())),
        ensures
            final(self)@ == old(self)@.enter_arm(),
            final(self).wf(),
    {
        match self.libc_base() {
            Some(base) => {
                let mut entry = self.snapshot;
                revert_prologue(&mut entry);
                revert_pac(&mut entry, self.load.first_insn());
                let args = vstd::slice::slice_to_vec(self.prepare.args().as_slice());
                self.arm = Arming::new(
                    entry,
                    args,
                    self.exports.callback(),
                    self.exports.trampoline(),
                    base,
                );
                self.stage = Stage::Arm;
            },
            None => {
                self.fail(Error::SymbolNotFound);
            },
        }
    }

    fn enter_export(&mut self)
        requires
            old(self).inv(),
            old(self)@.prepare.result == Some(Ok::<(), ErrorView>(())),
        ensures
            final(self)@ == old(self)@.enter_export(),
            final(self).wf(),
    {
        self.exports = Exports::new(self.config.library.clone(), self.config.return_addr);
        self.stage = Stage::Export;
    }

    fn enter_load(&mut self)
        requires
            old(self).inv(),
            old(self)@.prepare.result == Some(Ok::<(), ErrorView>(())),
        ensures
            final(self)@ == old(self)@.enter_load(),
            final(self).wf(),
    {
        let libdl = Module::find(self.prepare.maps(), LIBDL);
        match (self.libc_base(), libdl) {
            (Some(base), Some(libdl)) => {
                let mut entry = self.snapshot;
                revert_prologue(&mut entry);
                self.load = Loading::new(entry, self.config.library.clone(), base, libdl);
                self.stage = Stage::Load;
            },
            _ => {
                self.fail(Error::SymbolNotFound);
            },
        }
    }

    fn fitting(&self) -> (layout: Option<Layout>)
        ensures
            layout == fitting_layout(self@.config.sdk, self@.args().len()),
    {
        match Layout::for_sdk(self.config.sdk) {
            Ok(layout) => if layout.len() == self.prepare.args().len() {
                Some(layout)
            } else {
                None
            },
            Err(_) => None,
        }
    }

    fn arg_of(&self, layout: Layout, field: Field) -> (value: u64)
        requires
            slot_of(layout, field) is Some,
            slot_count(layout) == self@.args().len(),
        ensures
            value == self@.args()[slot_of(layout, field)->0 as int],
    {
        match layout.slot(field) {
            Some(i) => self.prepare.args()[i],
            None => 0,
        }
    }

    fn enter_screen(&mut self)
        requires
            old(self).inv(),
            old(self)@.prepare.result == Some(Ok::<(), ErrorView>(())),
        ensures
            final(self)@ == old(self)@.enter_screen(),
            final(self).wf(),
    {
        if !self.config.filter {
            self.enter_load();
            return ;
        }
        match self.fitting() {
            Some(layout) => match self.libc_base() {
                Some(base) => {
                    let uid: u32 = (self.arg_of(layout, Field::Uid) % 0x1_0000_0000) as u32;
                    self.screen = Screening::new(
                        uid,
                        self.arg_of(layout, Field::Env),
                        self.arg_of(layout, Field::ManagedAppDataDir),
                        self.arg_of(layout, Field::ManagedNiceName),
                        base,
                    );
                    self.stage = Stage::Screen;
                },
                None => {
                    self.fail(Error::SymbolNotFound);
                },
            },
            None => {
                self.fail(Error::UnsupportedSdk);
            },
        }
    }

    fn step_prepare(&mut self, reply: Reply)
        requires
            old(self).wf(),
            old(self)@.stage == Stage::Prepare,
        ensures
            final(self)@ == old(self)@.after(reply@),
            final(self).wf(),
    {
        match self.prepare.step(reply) {
            Step::Ask(_) => {},
            Step::Done(Ok(_)) => {
                self.enter_screen();
            },
            Step::Done(Err(error)) => {
                self.fail(error);
            },
        }
    }

    fn step_screen(&mut self, reply: Reply)
        requires
            old(self).wf(),
            old(self)@.stage == Stage::Screen,
        ensures
            final(self)@ == old(self)@.after(reply@),
            final(self).wf(),
    {
        match self.screen.step(reply) {
            Step::Ask(_) => {},
            Step::Done(Ok(inject)) => {
                if inject {
                    self.enter_load();
                } else {
                    self.skip();
                }
            },
            Step::Done(Err(error)) => {
                self.fail(error);
            },
        }
    }

    fn step_load(&mut self, reply: Reply)
        requires
            old(self).wf(),
            old(self)@.stage == Stage::Load,
        ensures
            final(self)@ == old(self)@.after(reply@),
            final(self).wf(),
    {
        match self.load.step(reply) {
            Step::Ask(_) => {},
            Step::Done(Ok(_)) => {
                self.enter_export();
            },
            Step::Done(Err(error)) => {
                self.fail(error);
            },
        }
    }

    fn step_export(&mut self, reply: Reply)
        requires
            old(self).wf(),
            old(self)@.stage == Stage::Export,
        ensures
            final(self)@ == old(self)@.after(reply@),
            final(self).wf(),
    {
        match self.exports.step(reply) {
            Step::Ask(_) => {},
            Step::Done(Ok(_)) => {
                self.enter_arm();
            },
            Step::Done(Err(error)) => {
                self.fail(error);
            },
        }
    }

    fn step_arm(&mut self, reply: Reply)
        requires
            old(self).wf(),
            old(self)@.stage == Stage::Arm,
        ensures
            final(self)@ == old(self)@.after(reply@),
            final(self).wf(),
    {
        match self.arm.step(reply) {
            Step::Ask(_) => {},
            Step::Done(Ok(_)) => {
                self.stage = Stage::Finished;
                self.outcome = Some(Outcome::Injected);
                self.retried = false;
            },
            Step::Done(Err(error)) => {
                self.fail(error);
            },
        }
    }

    fn step_restore(&mut self, reply: Reply)
        requires
            old(self).wf(),
            old(self)@.stage == Stage::Restore,
        ensures
            final(self)@ == old(self)@.after(reply@),
            final(self).wf(),
    {
        let error = match &self.planned {
            Some(Err(error)) => Some(error.duplicate()),
            _ => None,
        };
        let outcome = match (reply, error) {
            (Reply::Failed(Failure::Interrupted), _) if !self.retried => {
                self.retried = true;
                return ;
            },
            (Reply::Done, Some(error)) => Outcome::Failed { error, restored: true },
            (Reply::Done, None) => Outcome::Skipped,
            (_, Some(error)) => Outcome::Failed { error, restored: false },
            (_, None) => Outcome::Failed { error: Error::RemotePtraceFailed, restored: false },
        };
        self.stage = Stage::Finished;
        self.outcome = Some(outcome);
        self.retried = false;
    }

    /// Takes the answer to the pending request and hands back what comes
    /// next: another request, or how the injection ended.
    pub fn step(&mut self, reply: Reply) -> (step: Step<Outcome>)
        requires
            old(self).wf(),
        ensures
            final(self).wf(),
            final(self)@.wf(),
            final(self)@ == old(self)@.after(reply@),
            match step {
                Step::Ask(request) => final(self)@.pending() == Some(request@),
                Step::Done(outcome) => final(self)@.outcome == Some(outcome@),
            },
    {
        match self.stage {
            Stage::Prepare => self.step_prepare(reply),
            Stage::Screen => self.step_screen(reply),
            Stage::Load => self.step_load(reply),
            Stage::Export => self.step_export(reply),
            Stage::Arm => self.step_arm(reply),
            Stage::Restore => self.step_restore(reply),
            Stage::Finished => {},
        }
        self.report()
    }
}

} // verus!
