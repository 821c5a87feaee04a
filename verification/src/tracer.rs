//! Decisions of the kernel-side tracer: which events it emits on which
//! happenings, when it stops a child, and how its two tables change.

use crate::event::EbpfEvent;
use crate::regs::Arch;
use crate::remote::{lemma_cut_at_first_nul, lemma_no_nul_keeps_all, until_nul};
use std::collections::HashMap;
use vstd::prelude::*;

verus! {

broadcast use vstd::std_specs::hash::group_hash_axioms;

/// Flag of a clone that creates a thread, not a process.
pub const CLONE_THREAD: u64 = 0x0001_0000;

/// Way of changing the signal mask that unblocks signals.
pub const SIG_UNBLOCK: u64 = 1;

/// Number of children that the tracer can follow at a time.
pub const MAX_CHILDREN: usize = 512;

/// Length of a task's name.
pub const COMM_LEN: usize = 16;

/// The name that the zygote gives itself: `zygote64`.
pub open spec fn zygote_name() -> Seq<u8> {
    seq![0x7au8, 0x79u8, 0x67u8, 0x6fu8, 0x74u8, 0x65u8, 0x36u8, 0x34u8]
}

/// The system call that changes the signal mask.
pub open spec fn sigprocmask_nr(arch: Arch) -> i64 {
    match arch {
        Arch::X86_64 => 14,
        Arch::Aarch64 => 135,
    }
}

/// The system call that leaves namespaces.
pub open spec fn unshare_nr(arch: Arch) -> i64 {
    match arch {
        Arch::X86_64 => 272,
        Arch::Aarch64 => 97,
    }
}

/// What the tracer waits for in a child of the zygote.
#[derive(Clone, Copy, Debug, PartialEq, Eq, Structural)]
pub enum ProcessState {
    /// The child has not yet been stopped for the probe to be attached.
    WaitForAttach,
    /// The child has not yet left the zygote's mount namespace.
    WaitForUmount,
}

/// The task in whose context a hook runs.
#[derive(Clone, Copy, Debug, PartialEq, Eq, Structural)]
pub struct Task {
    pub pid: i32,
    /// User id.
    pub uid: u32,
    /// Effective user id.
    pub euid: u32,
    /// Whether the task runs 32-bit code.
    pub is_32_bit: bool,
}

/// What a hook does.
#[derive(Clone, Copy, Debug, PartialEq, Eq, Structural)]
pub struct Verdict {
    /// Whether the current task is stopped.
    pub stop: bool,
    /// The event that is put on the channel.
    pub emit: Option<EbpfEvent>,
}

/// Nothing is done.
pub open spec fn ignore() -> Verdict {
    Verdict { stop: false, emit: None }
}

/// Whether two names agree as far as they are compared: on their first
/// sixteen bytes, or on as many as the shorter of them has.
pub open spec fn same_start(a: Seq<u8>, b: Seq<u8>) -> bool {
    forall|k: int| 0 <= k < 16 && k < a.len() && k < b.len() ==> a[k] == b[k]
}

/// Compares two names on their first sixteen bytes, or on as many as the
/// shorter of them has.
pub fn strcmp16(str1: &[u8], str2: &[u8]) -> (same: bool)
    ensures
        same == same_start(str1@, str2@),
{
    let mut length: usize = if str1.len() < str2.len() {
        str1.len()
    } else {
        str2.len()
    };
    if length > COMM_LEN {
        length = COMM_LEN;
    }
    let mut i: usize = 0;
    while i < length
        invariant
            i <= length,
            length <= 16,
            length <= str1@.len(),
            length <= str2@.len(),
            length == 16 || length == str1@.len() || length == str2@.len(),
            forall|k: int| 0 <= k < i ==> str1@[k] == str2@[k],
        decreases length - i,
    {
        if str1[i] != str2[i] {
            return false;
        }
        i += 1;
    }
    true
}

/// The name of a task as a text: its first sixteen bytes, up to the first
/// zero byte.
pub open spec fn comm_text(comm: Seq<u8>) -> Seq<u8> {
    until_nul(
        if comm.len() > 16 {
            comm.take(16)
        } else {
            comm
        },
    )
}

/// Whether a task's name is that of the zygote.
pub fn is_zygote_name(comm: &[u8]) -> (zygote: bool)
    ensures
        zygote == (comm_text(comm@) == zygote_name()),
{
    let name: [u8; 8] = [0x7a, 0x79, 0x67, 0x6f, 0x74, 0x65, 0x36, 0x34];
    assert(name@ =~= zygote_name());
    let ghost field = if comm@.len() > 16 {
        comm@.take(16)
    } else {
        comm@
    };
    let ghost end = lemma_until_nul_shape(field);
    if comm.len() < 8 {
        assert(until_nul(field).len() <= field.len());
        return false;
    }
    if !strcmp16(comm, name.as_slice()) {
        proof {
            let k = choose|k: int|
                0 <= k < 16 && k < comm@.len() && k < name@.len() && comm@[k] != name@[k];
            assert(field[k] == comm@[k]);
            if until_nul(field) == zygote_name() {
                assert(end == 8);
                assert(field.take(8)[k] == field[k]);
            }
        }
        return false;
    }
    assert forall|k: int| 0 <= k < 8 implies field[k] == zygote_name()[k] by {
        assert(field[k] == comm@[k]);
        assert(comm@[k] == name@[k]);
    }
    if comm.len() == 8 {
        proof {
            lemma_no_nul_keeps_all(field);
            assert(field =~= zygote_name());
        }
        return true;
    }
    let ended: bool = comm[8] == 0;
    proof {
        assert(field[8] == comm@[8]);
        if ended {
            lemma_cut_at_first_nul(field, 8);
            assert(field.take(8) =~= zygote_name());
        } else {
            if until_nul(field) == zygote_name() {
                assert(end == 8);
            }
        }
    }
    ended
}

/// Where the text in front of the first zero byte ends.
proof fn lemma_until_nul_shape(bytes: Seq<u8>) -> (end: int)
    ensures
        0 <= end <= bytes.len(),
        until_nul(bytes) == bytes.take(end),
        until_nul(bytes).len() == end,
        forall|k: int| 0 <= k < end ==> bytes[k] != 0,
        end < bytes.len() ==> bytes[end] == 0,
    decreases bytes.len(),
{
    if bytes.len() == 0 || bytes[0] == 0 {
        assert(bytes.take(0) =~= Seq::<u8>::empty());
        0
    } else {
        let rest = bytes.drop_first();
        let inner = lemma_until_nul_shape(rest);
        assert(seq![bytes[0]] + rest.take(inner) =~= bytes.take(inner + 1));
        assert forall|k: int| 0 <= k < inner + 1 implies bytes[k] != 0 by {
            if k > 0 {
                assert(bytes[k] == rest[k - 1]);
            }
        }
        if inner + 1 < bytes.len() {
            assert(bytes[inner + 1] == rest[inner]);
        }
        inner + 1
    }
}

/// The tables of the tracer.
pub struct TracerState {
    pub arch: Arch,
    /// The process that last took the zygote's name.
    pub zygote: Option<i32>,
    /// The children of the zygote that are followed.
    pub children: Map<i32, ProcessState>,
}

impl TracerState {
    /// A hook acts only for tasks of the superuser, and on AArch64 only for
    /// tasks that run 64-bit code.
    pub open spec fn accepts(self, task: Task) -> bool {
        task.euid == 0 && !(self.arch == Arch::Aarch64 && task.is_32_bit)
    }

    /// The table of children after `pid` was entered with `state`. A full
    /// table takes no new child.
    pub open spec fn entered(self, pid: i32, state: ProcessState) -> Map<i32, ProcessState> {
        if self.children.contains_key(pid) || self.children.len() < MAX_CHILDREN {
            self.children.insert(pid, state)
        } else {
            self.children
        }
    }

    /// A task took a new name: where it is the zygote's, the task is the
    /// zygote from now on.
    pub open spec fn renamed(self, task: Task, pid: i32, comm: Seq<u8>) -> (TracerState, Verdict) {
        if self.accepts(task) && comm_text(comm) == zygote_name() {
            (
                TracerState { zygote: Some(pid), ..self },
                Verdict { stop: false, emit: Some(EbpfEvent::ZygoteStarted(pid)) },
            )
        } else {
            (self, ignore())
        }
    }

    /// A task was created: where the zygote made a process, the child is
    /// followed from now on.
    pub open spec fn created(self, task: Task, child: i32, clone_flags: u64) -> (
        TracerState,
        Verdict,
    ) {
        if self.accepts(task) && self.zygote == Some(task.pid) && clone_flags & CLONE_THREAD == 0 {
            (
                TracerState { children: self.entered(child, ProcessState::WaitForAttach), ..self },
                Verdict { stop: false, emit: Some(EbpfEvent::ZygoteForked(child)) },
            )
        } else {
            (self, ignore())
        }
    }

    /// A process exited: it is followed no longer, and where it was the
    /// zygote, the crash is reported.
    pub open spec fn exited(self, task: Task, pid: i32) -> (TracerState, Verdict) {
        (
            TracerState { children: self.children.remove(pid), ..self },
            if self.accepts(task) && self.zygote == Some(pid) {
                Verdict { stop: false, emit: Some(EbpfEvent::ZygoteCrashed(pid)) }
            } else {
                ignore()
            },
        )
    }

    /// A system call was entered: a child that unblocks signals for the
    /// first time has reached its own code and is stopped for the probe to
    /// be attached.
    pub open spec fn entered_syscall(self, task: Task, id: i64, arg: u64) -> (TracerState, Verdict) {
        if id == sigprocmask_nr(self.arch) && arg == SIG_UNBLOCK && self.accepts(task)
            && self.children.contains_key(task.pid) && self.children[task.pid]
            == ProcessState::WaitForAttach {
            (
                TracerState {
                    children: self.children.insert(task.pid, ProcessState::WaitForUmount),
                    ..self
                },
                Verdict { stop: true, emit: Some(EbpfEvent::RequireUprobeAttach(task.pid)) },
            )
        } else {
            (self, ignore())
        }
    }

    /// A system call returned: a child that has left the zygote's
    /// namespaces is stopped for its mounts to be scrubbed, and is followed
    /// no longer.
    pub open spec fn left_syscall(self, task: Task, id: i64, result: u64) -> (TracerState, Verdict) {
        if id == unshare_nr(self.arch) && result == 0 && self.accepts(task)
            && self.children.contains_key(task.pid) && self.children[task.pid]
            == ProcessState::WaitForUmount {
            (
                TracerState { children: self.children.remove(task.pid), ..self },
                Verdict { stop: true, emit: Some(EbpfEvent::RequireUmount(task.pid, task.uid)) },
            )
        } else {
            (self, ignore())
        }
    }

    /// The probe on the specialization function fired: the child is stopped
    /// for the injection, provided that the address to which the function
    /// was to return could be read.
    pub open spec fn probed(self, task: Task, return_addr: Option<u64>) -> Verdict {
        match return_addr {
            Some(addr) => if self.accepts(task) {
                Verdict { stop: true, emit: Some(EbpfEvent::RequireInject(task.pid, addr)) }
            } else {
                ignore()
            },
            None => ignore(),
        }
    }
}

/// What a hook does is in order when it stops the current task exactly for
/// the events that tell of a stop, and when such an event names the current
/// task.
pub open spec fn orderly(verdict: Verdict, task: Task) -> bool {
    match verdict.emit {
        Some(event) => verdict.stop == event.stops() && (event.stops() ==> event.subject()
            == task.pid),
        None => !verdict.stop,
    }
}

/// Every hook stops the current task exactly when it emits an event that
/// tells of the stop, and that event names the task: no task is stopped
/// without the daemon being told, and no stop is announced that did not
/// happen.
pub proof fn lemma_stops_are_announced(
    state: TracerState,
    task: Task,
    pid: i32,
    comm: Seq<u8>,
    flags: u64,
    id: i64,
    value: u64,
    return_addr: Option<u64>,
)
    ensures
        orderly(state.renamed(task, pid, comm).1, task),
        orderly(state.created(task, pid, flags).1, task),
        orderly(state.exited(task, pid).1, task),
        orderly(state.entered_syscall(task, id, value).1, task),
        orderly(state.left_syscall(task, id, value).1, task),
        orderly(state.probed(task, return_addr), task),
{
}

/// A child is stopped once for the probe and once for the scrubbing, in
/// this order: the stop for the probe takes a child that was forked and has
/// not been stopped yet, and leaves it waiting for the scrubbing; the stop
/// for the scrubbing takes a child that waits for it, and leaves it
/// unfollowed.
pub proof fn lemma_child_is_stopped_in_order(
    state: TracerState,
    task: Task,
    id: i64,
    value: u64,
)
    ensures
        state.entered_syscall(task, id, value).1.stop ==> {
            &&& state.children.contains_key(task.pid)
            &&& state.children[task.pid] == ProcessState::WaitForAttach
            &&& state.entered_syscall(task, id, value).0.children[task.pid]
                == ProcessState::WaitForUmount
            &&& !state.entered_syscall(task, id, value).0.entered_syscall(task, id, value).1.stop
        },
        state.left_syscall(task, id, value).1.stop ==> {
            &&& state.children.contains_key(task.pid)
            &&& state.children[task.pid] == ProcessState::WaitForUmount
            &&& !state.left_syscall(task, id, value).0.children.contains_key(task.pid)
            &&& !state.left_syscall(task, id, value).0.left_syscall(task, id, value).1.stop
        },
{
}

/// Whether a task that a hook stopped is continued at once because the
/// event that was to announce the stop could not be put on the channel:
/// nobody would continue it otherwise.
pub open spec fn resumes_after_loss(verdict: Verdict) -> bool {
    verdict.stop && verdict.emit is Some
}

/// The kernel-side tracer.
pub struct Tracer {
    arch: Arch,
    zygote: Option<i32>,
    children: HashMap<i32, ProcessState>,
}

impl View for Tracer {
    type V = TracerState;

    closed spec fn view(&self) -> TracerState {
        TracerState { arch: self.arch, zygote: self.zygote, children: self.children@ }
    }
}

impl Tracer {
    /// A tracer that knows no zygote and follows no child.
    pub fn new(arch: Arch) -> (tracer: Self)
        ensures
            tracer@ == (TracerState { arch, zygote: None, children: Map::empty() }),
    {
        Tracer { arch, zygote: None, children: HashMap::new() }
    }

    /// The process that is taken for the zygote.
    pub fn zygote(&self) -> (pid: Option<i32>)
        ensures
            pid == self@.zygote,
    {
        self.zygote
    }

    /// What the tracer waits for in a process, if it follows it.
    pub fn state_of(&self, pid: i32) -> (state: Option<ProcessState>)
        ensures
            state == if self@.children.contains_key(pid) {
                Some(self@.children[pid])
            } else {
                None
            },
    {
        match self.children.get(&pid) {
            Some(state) => Some(*state),
            None => None,
        }
    }

    fn is_root(&self, task: &Task) -> (accepted: bool)
        ensures
            accepted == self@.accepts(*task),
    {
        task.euid == 0 && !(match self.arch {
            Arch::Aarch64 => task.is_32_bit,
            Arch::X86_64 => false,
        })
    }

    /// Hook on the renaming of a task.
    pub fn handle_task_task_rename(&mut self, task: &Task, pid: i32, new_comm: &[u8]) -> (verdict:
        Verdict)
        ensures
            (final(self)@, verdict) == old(self)@.renamed(*task, pid, new_comm@),
    {
        if self.is_root(task) && is_zygote_name(new_comm) {
            self.zygote = Some(pid);
            Verdict { stop: false, emit: Some(EbpfEvent::ZygoteStarted(pid)) }
        } else {
            Verdict { stop: false, emit: None }
        }
    }

    /// Hook on the creation of a task.
    pub fn handle_task_task_newtask(&mut self, task: &Task, child: i32, clone_flags: u64) -> (verdict:
        Verdict)
        ensures
            (final(self)@, verdict) == old(self)@.created(*task, child, clone_flags),
    {
        let by_zygote = match self.zygote {
            Some(pid) => pid == task.pid,
            None => false,
        };
        if self.is_root(task) && by_zygote && clone_flags & CLONE_THREAD == 0 {
            if self.children.contains_key(&child) || self.children.len() < MAX_CHILDREN {
                self.children.insert(child, ProcessState::WaitForAttach);
            }
            Verdict { stop: false, emit: Some(EbpfEvent::ZygoteForked(child)) }
        } else {
            Verdict { stop: false, emit: None }
        }
    }

    /// Hook on the exit of a process.
    pub fn handle_sched_sched_process_exit(&mut self, task: &Task, pid: i32) -> (verdict: Verdict)
        ensures
            (final(self)@, verdict) == old(self)@.exited(*task, pid),
    {
        let crashed = match self.zygote {
            Some(zygote) => zygote == pid && self.is_root(task),
            None => false,
        };
        self.children.remove(&pid);
        if crashed {
            Verdict { stop: false, emit: Some(EbpfEvent::ZygoteCrashed(pid)) }
        } else {
            Verdict { stop: false, emit: None }
        }
    }

    fn waits_for(&self, pid: i32, state: ProcessState) -> (waits: bool)
        ensures
            waits == (self@.children.contains_key(pid) && self@.children[pid] == state),
    {
        match self.children.get(&pid) {
            Some(found) => *found == state,
            None => false,
        }
    }

    /// Hook on the entry of a system call, given its number and its first
    /// argument.
    pub fn handle_raw_syscalls_sys_enter(&mut self, task: &Task, id: i64, arg: u64) -> (verdict:
        Verdict)
        ensures
            (final(self)@, verdict) == old(self)@.entered_syscall(*task, id, arg),
    {
        let wanted: i64 = match self.arch {
            Arch::X86_64 => 14,
            Arch::Aarch64 => 135,
        };
        if id == wanted && arg == SIG_UNBLOCK && self.is_root(task) && self.waits_for(
            task.pid,
            ProcessState::WaitForAttach,
        ) {
            self.children.insert(task.pid, ProcessState::WaitForUmount);
            Verdict { stop: true, emit: Some(EbpfEvent::RequireUprobeAttach(task.pid)) }
        } else {
            Verdict { stop: false, emit: None }
        }
    }

    /// Hook on the return of a system call, given its number and what it
    /// returned.
    pub fn handle_raw_syscalls_sys_exit(&mut self, task: &Task, id: i64, result: u64) -> (verdict:
        Verdict)
        ensures
            (final(self)@, verdict) == old(self)@.left_syscall(*task, id, result),
    {
        let wanted: i64 = match self.arch {
            Arch::X86_64 => 272,
            Arch::Aarch64 => 97,
        };
        if id == wanted && result == 0 && self.is_root(task) && self.waits_for(
            task.pid,
            ProcessState::WaitForUmount,
        ) {
            self.children.remove(&task.pid);
            Verdict { stop: true, emit: Some(EbpfEvent::RequireUmount(task.pid, task.uid)) }
        } else {
            Verdict { stop: false, emit: None }
        }
    }

    /// Hook of the probe on the specialization function. `return_addr` is
    /// the address to which the function was to return, if it could be
    /// read.
    pub fn handle_specialize_common(&self, task: &Task, return_addr: Option<u64>) -> (verdict:
        Verdict)
        ensures
            verdict == self@.probed(*task, return_addr),
    {
        match return_addr {
            Some(addr) => if self.is_root(task) {
                Verdict { stop: true, emit: Some(EbpfEvent::RequireInject(task.pid, addr)) }
            } else {
                Verdict { stop: false, emit: None }
            },
            None => Verdict { stop: false, emit: None },
        }
    }
}

/// Whether the current task is continued at once after the event of a hook
/// could not be put on the channel.
pub fn must_resume(verdict: &Verdict, delivered: bool) -> (resume: bool)
    ensures
        resume == (!delivered && resumes_after_loss(*verdict)),
{
    !delivered && verdict.stop && verdict.emit.is_some()
}

/// The user id in the word that holds the user and the group of a task: its
/// low half.
pub open spec fn uid_of(uid_gid: u64) -> u32 {
    (uid_gid & 0xFFFF_FFFF) as u32
}

/// Whether the word that holds the flags of a task's thread says that the
/// task runs 32-bit code: bit 22.
pub open spec fn runs_32_bit(flags: u64) -> bool {
    (flags >> 22) & 1 != 0
}

/// The user id of the current task, given the word that holds its user and
/// its group.
pub fn current_uid(uid_gid: u64) -> (uid: u32)
    ensures
        uid == uid_of(uid_gid),
{
    let low: u64 = uid_gid & 0xFFFF_FFFF;
    assert(low <= 0xFFFF_FFFF) by (bit_vector)
        requires
            low == uid_gid & 0xFFFF_FFFF,
    ;
    low as u32
}

/// Whether the current task belongs to the superuser.
pub fn is_root(uid_gid: u64) -> (root: bool)
    ensures
        root == (uid_of(uid_gid) == 0),
{
    current_uid(uid_gid) == 0
}

/// Whether the current task runs 32-bit code, given the flags of its
/// thread.
pub fn is_32_bit(flags: u64) -> (narrow: bool)
    ensures
        narrow == runs_32_bit(flags),
{
    (flags >> 22) & 1 != 0
}

/// The name under which the hook on a tracepoint is found among the
/// tracer's programs.
pub open spec fn hook_name(category: Seq<char>, name: Seq<char>) -> Seq<char> {
    "handle_"@ + category + "_"@ + name
}

/// The name under which the hook on the tracepoint `name` of `category` is
/// found among the tracer's programs.
pub fn attach_tracepoint(category: &str, name: &str) -> (program: String)
    ensures
        program@ == hook_name(category@, name@),
{
    let program = "handle_".to_owned();
    let program = vstd::string::StringExecFns::concat(program, category);
    let program = vstd::string::StringExecFns::concat(program, "_");
    vstd::string::StringExecFns::concat(program, name)
}

} // verus!
