//! Remote-call arithmetic: where arguments live, how the target's stack is
//! laid out for a call, and what a finished call hands back.

use crate::error::Error;
use crate::regs::{args_on_regs, Arch, Registers};
use crate::text::{decode, decoded};
use vstd::prelude::*;
use vstd::string::StringSliceAdditionalSpecFns;
use vstd::utf8::encode_utf8;

verus! {

/// `x` rounded down to a multiple of `to`.
pub open spec fn align_down(x: u64, to: u64) -> u64
    recommends
        to > 0,
{
    (x - x % to) as u64
}

proof fn lemma_mask_aligns(x: u64)
    ensures
        x & !0x7u64 == align_down(x, 8),
        x & !0xFu64 == align_down(x, 16),
{
    assert(x & !0x7u64 == x - x % 8) by (bit_vector);
    assert(x & !0xFu64 == x - x % 16) by (bit_vector);
}

/// The address at which `len` bytes are placed on a stack whose pointer is
/// `sp`: below the pointer, rounded down to a multiple of eight.
pub open spec fn alloc_addr(sp: u64, len: u64) -> u64 {
    align_down(sp.wrapping_sub(len), 8)
}

/// Makes room for `len` bytes on the target's stack and returns the address
/// of the room. The stack pointer moves there; nothing is ever given back,
/// the room goes when the registers are restored.
pub fn alloc_on_stack(regs: &mut Registers, len: u64) -> (addr: u64)
    ensures
        addr == alloc_addr(old(regs).stack(), len),
        *final(regs) == old(regs).with_stack(addr),
{
    let sp: u64 = regs.sp().wrapping_sub(len);
    proof {
        lemma_mask_aligns(sp);
    }
    let addr: u64 = sp & !0x7u64;
    regs.set_sp(addr);
    addr
}

/// An argument of a remote call.
#[derive(Debug)]
pub enum Arg {
    /// A value that is passed as it is.
    Numeric(u64),
    /// Bytes that are placed on the target's stack and passed by address.
    Slice(Vec<u8>),
}

/// An argument of a remote call as a plain value.
pub enum ArgView {
    Numeric(u64),
    Slice(Seq<u8>),
}

impl View for Arg {
    type V = ArgView;

    open spec fn view(&self) -> ArgView {
        match self {
            Arg::Numeric(value) => ArgView::Numeric(*value),
            Arg::Slice(data) => ArgView::Slice(data@),
        }
    }
}

/// The arguments as plain values.
pub open spec fn args_view(args: Seq<Arg>) -> Seq<ArgView> {
    args.map_values(|a: Arg| a@)
}

/// One word to store in the target's memory.
#[derive(Clone, Copy, Debug, PartialEq, Eq, Structural)]
pub struct Poke {
    pub addr: u64,
    pub value: u64,
}

/// Bytes to store in the target's memory.
#[derive(Debug)]
pub struct Write {
    pub addr: u64,
    pub data: Vec<u8>,
}

/// Bytes to store in the target, as a plain value.
pub struct WriteView {
    pub addr: u64,
    pub data: Seq<u8>,
}

impl View for Write {
    type V = WriteView;

    open spec fn view(&self) -> WriteView {
        WriteView { addr: self.addr, data: self.data@ }
    }
}

/// The stores as plain values.
pub open spec fn writes_view(writes: Seq<Write>) -> Seq<WriteView> {
    writes.map_values(|w: Write| w@)
}

/// Where an argument of the function that the target is entering lives.
#[derive(Clone, Copy, Debug, PartialEq, Eq, Structural)]
pub enum ArgPlace {
    /// In the argument register of this number.
    Register(usize),
    /// In the stack word at this address.
    Stack(u64),
}

/// The stack word that holds argument `n` of a function at whose entry the
/// stack pointer is `sp`, for an argument that does not travel in a register.
/// On x86-64 the return address lies at `sp` and the arguments follow it; on
/// AArch64 the arguments start at `sp`.
pub open spec fn stack_arg_addr(arch: Arch, sp: u64, n: nat) -> u64
    recommends
        n >= args_on_regs(arch),
        8 * n <= u64::MAX,
{
    match arch {
        Arch::X86_64 => sp.wrapping_add((8 * (n - 6) + 8) as u64),
        Arch::Aarch64 => sp.wrapping_add((8 * (n - 8)) as u64),
    }
}

/// Where argument `n` lives at the entry of a function.
pub open spec fn arg_place(arch: Arch, sp: u64, n: nat) -> ArgPlace {
    if n < args_on_regs(arch) {
        ArgPlace::Register(n as usize)
    } else {
        ArgPlace::Stack(stack_arg_addr(arch, sp, n))
    }
}

/// Where argument `n` of the function that the target is entering lives,
/// given the registers at its entry.
pub fn locate_arg(regs: &Registers, n: usize) -> (place: ArgPlace)
    requires
        8 * n <= u64::MAX,
    ensures
        place == arg_place(regs.arch(), regs.stack(), n as nat),
{
    let on_regs: usize = regs.architecture().args_on_regs();
    if n < on_regs {
        ArgPlace::Register(n)
    } else {
        let offset: u64 = match regs.architecture() {
            Arch::X86_64 => 8 * ((n - on_regs) as u64) + 8,
            Arch::Aarch64 => 8 * ((n - on_regs) as u64),
        };
        ArgPlace::Stack(regs.sp().wrapping_add(offset))
    }
}

/// Number of arguments of a call with `argc` arguments that go to the stack.
pub open spec fn stack_args(arch: Arch, argc: nat) -> nat {
    if argc > args_on_regs(arch) {
        (argc - args_on_regs(arch)) as nat
    } else {
        0
    }
}

/// The stack pointer with which the callee of a remote call is entered, when
/// the target's stack pointer was `sp`: room is made for the arguments that
/// go to the stack, the pointer is rounded down to a multiple of sixteen, and
/// on x86-64 the return address takes one more word.
pub open spec fn call_entry_sp(arch: Arch, sp: u64, argc: nat) -> u64
    recommends
        8 * argc <= u64::MAX,
{
    let frame = align_down(sp.wrapping_sub((8 * stack_args(arch, argc)) as u64), 16);
    match arch {
        Arch::X86_64 => frame.wrapping_sub(8),
        Arch::Aarch64 => frame,
    }
}

/// The registers with which a remote call starts: the stack pointer of the
/// callee's entry, the arguments that travel in registers, the program
/// counter at the function, and on AArch64 the return address in the link
/// register.
pub open spec fn call_regs(regs: Registers, func: u64, args: Seq<u64>, return_addr: u64) -> Registers {
    let on_regs = if args.len() < args_on_regs(regs.arch()) {
        args.len() as int
    } else {
        args_on_regs(regs.arch()) as int
    };
    regs.with_stack(call_entry_sp(regs.arch(), regs.stack(), args.len())).with_args(
        args.take(on_regs),
    ).with_counter(func).with_link(return_addr)
}

/// The words that a remote call stores on the target's stack before it
/// starts: each argument that does not travel in a register, at its place,
/// in order, and then, on x86-64, the return address at the stack pointer.
pub open spec fn call_pokes(regs: Registers, args: Seq<u64>, return_addr: u64) -> Seq<Poke> {
    let arch = regs.arch();
    let sp = call_entry_sp(arch, regs.stack(), args.len());
    Seq::new(
        stack_args(arch, args.len()),
        |k: int|
            Poke {
                addr: stack_arg_addr(arch, sp, (args_on_regs(arch) + k) as nat),
                value: args[args_on_regs(arch) + k],
            },
    ) + match arch {
        Arch::X86_64 => seq![Poke { addr: sp, value: return_addr }],
        Arch::Aarch64 => Seq::<Poke>::empty(),
    }
}

/// A remote call follows the calling convention: the callee is entered with
/// a stack pointer that is sixteen bytes aligned on AArch64 and, on x86-64,
/// lies one word below such an address, where the return address is stored;
/// it finds each argument that travels in a register in its register, and
/// each other argument in the stack word where the convention has it.
pub proof fn lemma_call_follows_convention(
    regs: Registers,
    func: u64,
    args: Seq<u64>,
    return_addr: u64,
)
    requires
        8 * args.len() <= u64::MAX,
    ensures
        ({
            let arch = regs.arch();
            let start = call_regs(regs, func, args, return_addr);
            let pokes = call_pokes(regs, args, return_addr);
            &&& start.arch() == arch
            &&& start.counter() == func
            &&& start.stack() == call_entry_sp(arch, regs.stack(), args.len())
            &&& match arch {
                Arch::X86_64 => start.stack().wrapping_add(8) % 16 == 0 && pokes.last() == (Poke {
                    addr: start.stack(),
                    value: return_addr,
                }),
                Arch::Aarch64 => start.stack() % 16 == 0 && start.link() == return_addr,
            }
            &&& forall|n: int|
                0 <= n < args.len() && n < args_on_regs(arch) ==> start.arg_reg(n) == args[n]
            &&& forall|n: int|
                args_on_regs(arch) <= n < args.len() ==> pokes[n - args_on_regs(arch)] == (Poke {
                    addr: stack_arg_addr(arch, start.stack(), n as nat),
                    value: args[n],
                })
        }),
{
    let arch = regs.arch();
    let entry = call_entry_sp(arch, regs.stack(), args.len());
    let on_regs = if args.len() < args_on_regs(arch) {
        args.len() as int
    } else {
        args_on_regs(arch) as int
    };
    let moved = regs.with_stack(entry);
    let passed = args.take(on_regs);
    crate::regs::lemma_with_args_keeps_rest(moved, passed);
    let room = regs.stack().wrapping_sub((8 * stack_args(arch, args.len())) as u64);
    let frame = align_down(room, 16);
    assert(frame % 16 == 0) by {
        assert((room - room % 16) % 16 == 0);
    }
    match arch {
        Arch::X86_64 => {
            assert(frame.wrapping_sub(8).wrapping_add(8) == frame);
        },
        Arch::Aarch64 => {},
    }
    let start = call_regs(regs, func, args, return_addr);
    assert forall|n: int| 0 <= n < args.len() && n < args_on_regs(arch) implies start.arg_reg(n)
        == args[n] by {
        assert(passed[n] == args[n]);
    }
}

/// What has to be done to a stopped target so that it runs a function.
#[derive(Debug)]
pub struct CallPlan {
    /// Words to store, in this order, before the registers are set.
    pub pokes: Vec<Poke>,
    /// Registers to set before the target is continued.
    pub regs: Registers,
}

/// Lays out a call of `func` with `args` in a target whose registers are
/// `regs`. The function is to return to `return_addr`, an address at which
/// the target cannot execute, so that the return stops it.
pub fn plan_call(regs: &Registers, func: u64, args: &[u64], return_addr: u64) -> (plan: CallPlan)
    requires
        8 * args@.len() <= u64::MAX,
    ensures
        plan.regs == call_regs(*regs, func, args@, return_addr),
        plan.pokes@ == call_pokes(*regs, args@, return_addr),
{
    let arch = regs.architecture();
    let on_regs: usize = arch.args_on_regs();
    let argc: usize = args.len();
    let remain: usize = if argc > on_regs {
        argc - on_regs
    } else {
        0
    };
    let mut planned = *regs;
    let room: u64 = planned.sp().wrapping_sub(8 * (remain as u64));
    proof {
        lemma_mask_aligns(room);
    }
    let frame: u64 = room & !0xFu64;
    let entry: u64 = match arch {
        Arch::X86_64 => frame.wrapping_sub(8),
        Arch::Aarch64 => frame,
    };
    assert(entry == call_entry_sp(arch, regs.stack(), argc as nat));
    planned.set_sp(entry);
    let in_regs: usize = if argc < on_regs {
        argc
    } else {
        on_regs
    };
    planned.set_args(vstd::slice::slice_subrange(args, 0, in_regs));
    assert(args@.subrange(0, in_regs as int) == args@.take(in_regs as int));
    planned.set_pc(func);
    planned.set_link(return_addr);

    let ghost expected = call_pokes(*regs, args@, return_addr);
    let mut pokes: Vec<Poke> = Vec::new();
    let mut k: usize = 0;
    while k < remain
        invariant
            k <= remain,
            remain == stack_args(arch, argc as nat),
            argc == args@.len(),
            8 * args@.len() <= u64::MAX,
            on_regs == args_on_regs(arch),
            arch == regs.arch(),
            entry == call_entry_sp(arch, regs.stack(), argc as nat),
            expected == call_pokes(*regs, args@, return_addr),
            pokes@.len() == k,
            forall|j: int| 0 <= j < k ==> pokes@[j] == expected[j],
        decreases remain - k,
    {
        let n: usize = on_regs + k;
        let offset: u64 = match arch {
            Arch::X86_64 => 8 * (k as u64) + 8,
            Arch::Aarch64 => 8 * (k as u64),
        };
        pokes.push(Poke { addr: entry.wrapping_add(offset), value: args[n] });
        k += 1;
    }
    match arch {
        Arch::X86_64 => {
            pokes.push(Poke { addr: entry, value: return_addr });
        },
        Arch::Aarch64 => {},
    }
    assert(pokes@ =~= expected);
    CallPlan { pokes, regs: planned }
}

/// What a remote call hands back, given the registers with which the target
/// stopped: the function's result when the target stopped at the return
/// address, an error that names both addresses when it stopped elsewhere.
pub open spec fn call_result(after: Registers, return_addr: u64) -> Result<u64, Error> {
    if after.counter() == return_addr {
        Ok(after.result_reg())
    } else {
        Err(Error::RemoteCallFailed { expected_return: return_addr, observed_pc: after.counter() })
    }
}

/// Judges a remote call by the registers with which the target stopped.
pub fn finish_call(after: &Registers, return_addr: u64) -> (result: Result<u64, Error>)
    ensures
        result == call_result(*after, return_addr),
{
    let pc: u64 = after.pc();
    if pc == return_addr {
        Ok(after.return_value())
    } else {
        Err(Error::RemoteCallFailed { expected_return: return_addr, observed_pc: pc })
    }
}

/// The stack pointer after the arguments `args` have been prepared, one after
/// the other, on a stack whose pointer was `sp`: each argument that is passed
/// by address takes room below the pointer.
pub open spec fn marshal_sp(sp: u64, args: Seq<ArgView>) -> u64
    decreases args.len(),
{
    if args.len() == 0 {
        sp
    } else {
        let below = marshal_sp(sp, args.drop_last());
        match args.last() {
            ArgView::Numeric(_) => below,
            ArgView::Slice(data) => alloc_addr(below, data.len() as u64),
        }
    }
}

/// The values that are passed for `args`: a number as it is, bytes by the
/// address at which they were placed.
pub open spec fn marshal_values(sp: u64, args: Seq<ArgView>) -> Seq<u64>
    decreases args.len(),
{
    if args.len() == 0 {
        Seq::empty()
    } else {
        marshal_values(sp, args.drop_last()).push(
            match args.last() {
                ArgView::Numeric(value) => value,
                ArgView::Slice(_) => marshal_sp(sp, args),
            },
        )
    }
}

/// The bytes that are stored for `args`, in the order of the arguments.
pub open spec fn marshal_writes(sp: u64, args: Seq<ArgView>) -> Seq<WriteView>
    decreases args.len(),
{
    if args.len() == 0 {
        Seq::empty()
    } else {
        let before = marshal_writes(sp, args.drop_last());
        match args.last() {
            ArgView::Numeric(_) => before,
            ArgView::Slice(data) => before.push(WriteView { addr: marshal_sp(sp, args), data }),
        }
    }
}

/// Every argument gets one value.
pub proof fn lemma_marshal_values_len(sp: u64, args: Seq<ArgView>)
    ensures
        marshal_values(sp, args).len() == args.len(),
    decreases args.len(),
{
    if args.len() > 0 {
        lemma_marshal_values_len(sp, args.drop_last());
    }
}

/// Arguments made ready for a call.
#[derive(Debug)]
pub struct Marshalled {
    /// The registers, with the stack pointer below everything that was
    /// placed.
    pub regs: Registers,
    /// One value for each argument.
    pub values: Vec<u64>,
    /// What has to be stored in the target before the call.
    pub writes: Vec<Write>,
}

/// Prepares the arguments of a call: numbers are passed as they are; bytes
/// get room on the target's stack and are passed by the address of that room.
pub fn marshal(regs: &Registers, args: &Vec<Arg>) -> (ready: Marshalled)
    ensures
        ready.regs == regs.with_stack(marshal_sp(regs.stack(), args_view(args@))),
        ready.values@ == marshal_values(regs.stack(), args_view(args@)),
        writes_view(ready.writes@) == marshal_writes(regs.stack(), args_view(args@)),
{
    let ghost all = args_view(args@);
    let ghost sp = regs.stack();
    let mut working = *regs;
    let mut values: Vec<u64> = Vec::new();
    let mut writes: Vec<Write> = Vec::new();
    let mut i: usize = 0;
    assert(all.take(0) =~= Seq::<ArgView>::empty());
    assert(writes_view(writes@) =~= Seq::<WriteView>::empty());
    assert(working == regs.with_stack(sp));
    while i < args.len()
        invariant
            all == args_view(args@),
            sp == regs.stack(),
            i <= args@.len(),
            working == regs.with_stack(marshal_sp(sp, all.take(i as int))),
            values@ == marshal_values(sp, all.take(i as int)),
            writes_view(writes@) == marshal_writes(sp, all.take(i as int)),
        decreases args@.len() - i,
    {
        proof {
            assert(all.take(i + 1).drop_last() == all.take(i as int));
            assert(all.take(i + 1).last() == args@[i as int]@);
        }
        match &args[i] {
            Arg::Numeric(value) => {
                values.push(*value);
            },
            Arg::Slice(data) => {
                let addr: u64 = alloc_on_stack(&mut working, data.len() as u64);
                values.push(addr);
                let ghost before = writes@;
                let write = Write { addr, data: vstd::slice::slice_to_vec(data.as_slice()) };
                writes.push(write);
                assert(writes_view(writes@) =~= writes_view(before).push(write@));
            },
        }
        i += 1;
    }
    assert(all.take(args@.len() as int) == all);
    Marshalled { regs: working, values, writes }
}

/// The byte of `word` at position `i` when the word is stored with its low
/// byte first.
pub open spec fn le_byte(word: u64, i: int) -> u8
    recommends
        0 <= i < 8,
{
    if i == 0 {
        (word % 0x100) as u8
    } else if i == 1 {
        (word / 0x100 % 0x100) as u8
    } else if i == 2 {
        (word / 0x1_0000 % 0x100) as u8
    } else if i == 3 {
        (word / 0x100_0000 % 0x100) as u8
    } else if i == 4 {
        (word / 0x1_0000_0000 % 0x100) as u8
    } else if i == 5 {
        (word / 0x100_0000_0000 % 0x100) as u8
    } else if i == 6 {
        (word / 0x1_0000_0000_0000 % 0x100) as u8
    } else {
        (word / 0x100_0000_0000_0000 % 0x100) as u8
    }
}

/// The eight bytes of a word as they lie in the memory of a little-endian
/// target.
pub open spec fn le_bytes(word: u64) -> Seq<u8> {
    Seq::new(8, |i: int| le_byte(word, i))
}

/// The part of `bytes` in front of its first zero byte; all of it when it
/// holds none.
pub open spec fn until_nul(bytes: Seq<u8>) -> Seq<u8>
    decreases bytes.len(),
{
    if bytes.len() == 0 || bytes[0] == 0 {
        Seq::empty()
    } else {
        seq![bytes[0]] + until_nul(bytes.drop_first())
    }
}

/// Bytes without a zero are kept whole.
pub proof fn lemma_no_nul_keeps_all(bytes: Seq<u8>)
    requires
        forall|k: int| 0 <= k < bytes.len() ==> bytes[k] != 0,
    ensures
        until_nul(bytes) == bytes,
    decreases bytes.len(),
{
    if bytes.len() > 0 {
        let rest = bytes.drop_first();
        assert forall|k: int| 0 <= k < rest.len() implies rest[k] != 0 by {
            assert(rest[k] == bytes[k + 1]);
        }
        lemma_no_nul_keeps_all(rest);
        assert(seq![bytes[0]] + rest =~= bytes);
    } else {
        assert(bytes =~= Seq::<u8>::empty());
    }
}

/// Bytes are cut at their first zero.
pub proof fn lemma_cut_at_first_nul(bytes: Seq<u8>, i: int)
    requires
        0 <= i < bytes.len(),
        bytes[i] == 0,
        forall|k: int| 0 <= k < i ==> bytes[k] != 0,
    ensures
        until_nul(bytes) == bytes.take(i),
    decreases i,
{
    if i == 0 {
        assert(bytes.take(0) =~= Seq::<u8>::empty());
    } else {
        let rest = bytes.drop_first();
        assert(bytes[0] != 0);
        assert(rest[i - 1] == bytes[i]);
        assert forall|k: int| 0 <= k < i - 1 implies rest[k] != 0 by {
            assert(rest[k] == bytes[k + 1]);
        }
        lemma_cut_at_first_nul(rest, i - 1);
        assert(seq![bytes[0]] + rest.take(i - 1) =~= bytes.take(i));
    }
}

/// The bytes of a word as they lie in the memory of a little-endian target.
pub fn word_bytes(word: u64) -> (bytes: [u8; 8])
    ensures
        bytes@ == le_bytes(word),
{
    let bytes: [u8; 8] = [
        (word % 0x100) as u8,
        (word / 0x100 % 0x100) as u8,
        (word / 0x1_0000 % 0x100) as u8,
        (word / 0x100_0000 % 0x100) as u8,
        (word / 0x1_0000_0000 % 0x100) as u8,
        (word / 0x100_0000_0000 % 0x100) as u8,
        (word / 0x1_0000_0000_0000 % 0x100) as u8,
        (word / 0x100_0000_0000_0000 % 0x100) as u8,
    ];
    assert(bytes@ =~= le_bytes(word));
    bytes
}

/// Appends to `buffer` the bytes of a word read from the target, up to the
/// first zero byte, and says whether the word held one: that is where a C
/// string ends.
pub fn append_word(buffer: &mut Vec<u8>, word: u64) -> (end: bool)
    ensures
        final(buffer)@ == old(buffer)@ + until_nul(le_bytes(word)),
        end == le_bytes(word).contains(0u8),
{
    let bytes = word_bytes(word);
    let ghost start = buffer@;
    let mut i: usize = 0;
    assert(bytes@.take(0) =~= Seq::<u8>::empty());
    assert(start + Seq::<u8>::empty() =~= start);
    while i < 8
        invariant
            i <= 8,
            bytes@ == le_bytes(word),
            start == old(buffer)@,
            forall|k: int| 0 <= k < i ==> bytes@[k] != 0,
            buffer@ == start + bytes@.take(i as int),
        decreases 8 - i,
    {
        let byte: u8 = bytes[i];
        if byte == 0 {
            proof {
                lemma_cut_at_first_nul(bytes@, i as int);
            }
            return true;
        }
        buffer.push(byte);
        assert(buffer@ =~= start + bytes@.take(i + 1));
        i += 1;
    }
    proof {
        assert(bytes@.take(8) == bytes@);
        lemma_no_nul_keeps_all(bytes@);
    }
    false
}

/// The instruction that signs the link register at the start of a function
/// built with pointer authentication (`paciasp`).
pub const PACIASP: u32 = 0xd503_233f;

/// The registers of a target that was stopped by the probe on the first
/// instruction of a function, put back to the entry of the function. On
/// x86-64 the probe stops the target after `push %rbp`: the program counter
/// goes back by the one byte of that instruction and the stack pointer up by
/// the word that it pushed. On AArch64 nothing is put back here.
pub open spec fn uprobe_compat(regs: Registers) -> Registers {
    match regs.arch() {
        Arch::X86_64 => regs.with_counter(regs.counter().wrapping_sub(1)).with_stack(
            regs.stack().wrapping_add(8),
        ),
        Arch::Aarch64 => regs,
    }
}

/// The registers of an AArch64 target put back in front of the first
/// instruction of the function, where that instruction is `paciasp`: the
/// target then signs the link register again when it resumes. Any other
/// first instruction, and any x86-64 target, is left alone.
pub open spec fn pac_compat(regs: Registers, first_insn: u32) -> Registers {
    match regs.arch() {
        Arch::Aarch64 => if first_insn == PACIASP {
            regs.with_counter(regs.counter().wrapping_sub(4))
        } else {
            regs
        },
        Arch::X86_64 => regs,
    }
}

/// Puts the registers of a target that the probe stopped back to the entry
/// of the probed function.
pub fn revert_prologue(regs: &mut Registers)
    ensures
        *final(regs) == uprobe_compat(*old(regs)),
{
    match regs.architecture() {
        Arch::X86_64 => {
            let pc: u64 = regs.pc().wrapping_sub(1);
            regs.set_pc(pc);
            let sp: u64 = regs.sp().wrapping_add(8);
            regs.set_sp(sp);
        },
        Arch::Aarch64 => {},
    }
}

/// Steps an AArch64 target back in front of a `paciasp` that it has already
/// executed.
pub fn revert_pac(regs: &mut Registers, first_insn: u32)
    ensures
        *final(regs) == pac_compat(*old(regs), first_insn),
{
    match regs.architecture() {
        Arch::Aarch64 => {
            if first_insn == PACIASP {
                let pc: u64 = regs.pc().wrapping_sub(4);
                regs.set_pc(pc);
            }
        },
        Arch::X86_64 => {},
    }
}

/// The instruction that the low half of a word holds.
pub open spec fn low_insn(word: u64) -> u32 {
    (word % 0x1_0000_0000) as u32
}

/// The instruction at the address from which a word was read.
pub fn first_insn_of(word: u64) -> (insn: u32)
    ensures
        insn == low_insn(word),
{
    (word % 0x1_0000_0000) as u32
}

/// The bytes of words as they lie, one after the other, in the memory of a
/// little-endian target.
pub open spec fn words_bytes(words: Seq<u64>) -> Seq<u8>
    decreases words.len(),
{
    if words.len() == 0 {
        Seq::empty()
    } else {
        words_bytes(words.drop_last()) + le_bytes(words.last())
    }
}

/// Every word takes eight bytes.
pub proof fn lemma_words_bytes_len(words: Seq<u64>)
    ensures
        words_bytes(words).len() == 8 * words.len(),
    decreases words.len(),
{
    if words.len() > 0 {
        lemma_words_bytes_len(words.drop_last());
    }
}

/// The bytes of words as they lie in the memory of a little-endian target.
pub fn words_to_bytes(words: &[u64]) -> (bytes: Vec<u8>)
    ensures
        bytes@ == words_bytes(words@),
{
    let mut bytes: Vec<u8> = Vec::new();
    let mut i: usize = 0;
    assert(words@.take(0) =~= Seq::<u64>::empty());
    while i < words.len()
        invariant
            i <= words@.len(),
            bytes@ == words_bytes(words@.take(i as int)),
        decreases words@.len() - i,
    {
        let word = word_bytes(words[i]);
        let ghost before = bytes@;
        let mut k: usize = 0;
        while k < 8
            invariant
                k <= 8,
                bytes@ == before + word@.take(k as int),
            decreases 8 - k,
        {
            bytes.push(word[k]);
            assert(before + word@.take(k + 1) =~= (before + word@.take(k as int)).push(word@[k as int]));
            k += 1;
        }
        assert(word@.take(8) == word@);
        assert(words@.take(i + 1).drop_last() == words@.take(i as int));
        i += 1;
    }
    assert(words@.take(words@.len() as int) == words@);
    bytes
}

/// The bytes of a path as a C string: the bytes of the text and a zero byte
/// behind them.
pub open spec fn c_string(text: Seq<char>) -> Seq<u8> {
    encode_utf8(text).push(0u8)
}

/// The bytes of a path as a C string.
pub fn to_c_string(text: &str) -> (bytes: Vec<u8>)
    ensures
        bytes@ == c_string(text@),
{
    let mut bytes = vstd::slice::slice_to_vec(text.as_bytes());
    bytes.push(0u8);
    bytes
}

/// `/`
pub const SLASH: u8 = 0x2f;

/// Position of the last `/` in `bytes`.
pub open spec fn last_slash(bytes: Seq<u8>) -> Option<int>
    decreases bytes.len(),
{
    if bytes.len() == 0 {
        None
    } else if bytes.last() == SLASH {
        Some(bytes.len() - 1)
    } else {
        last_slash(bytes.drop_last())
    }
}

/// The name of the package whose data directory is `dir`: what stands behind
/// the last `/`. A directory without `/` names no package.
pub open spec fn package_of(dir: Seq<char>) -> Option<Seq<char>> {
    let bytes = encode_utf8(dir);
    match last_slash(bytes) {
        Some(i) => decoded(bytes.skip(i + 1)),
        None => None,
    }
}

proof fn lemma_last_slash(bytes: Seq<u8>, i: int)
    requires
        0 <= i <= bytes.len(),
        forall|k: int| i <= k < bytes.len() ==> bytes[k] != SLASH,
    ensures
        last_slash(bytes) == last_slash(bytes.take(i)),
    decreases bytes.len() - i,
{
    if i < bytes.len() {
        let shorter = bytes.drop_last();
        assert(bytes.last() != SLASH);
        assert forall|k: int| i <= k < shorter.len() implies shorter[k] != SLASH by {
            assert(shorter[k] == bytes[k]);
        }
        lemma_last_slash(shorter, i);
        assert(shorter.take(i) =~= bytes.take(i));
    } else {
        assert(bytes.take(i) =~= bytes);
    }
}

/// The name of the package whose data directory is `dir`.
pub fn package_name(dir: &str) -> (package: Option<String>)
    ensures
        match package_of(dir@) {
            Some(name) => package is Some && package->0@ == name,
            None => package is None,
        },
{
    let bytes = dir.as_bytes();
    let mut i: usize = bytes.len();
    while i > 0
        invariant
            i <= bytes@.len(),
            bytes@ == encode_utf8(dir@),
            forall|k: int| i <= k < bytes@.len() ==> bytes@[k] != SLASH,
        decreases i,
    {
        if bytes[i - 1] == SLASH {
            proof {
                lemma_last_slash(bytes@, i as int);
                let front = bytes@.take(i as int);
                assert(front.len() == i);
                assert(front.last() == bytes@[i - 1]);
                assert(last_slash(front) == Some(i - 1));
            }
            let tail = vstd::slice::slice_subrange(bytes, i, bytes.len());
            assert(tail@ =~= bytes@.skip(i as int));
            return decode(tail);
        }
        i -= 1;
    }
    proof {
        lemma_last_slash(bytes@, 0);
        assert(bytes@.take(0) =~= Seq::<u8>::empty());
    }
    None
}

} // verus!
