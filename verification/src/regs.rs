//! Register files of a stopped target, with the accessors that the calling
//! conventions of the two supported architectures define.

use vstd::prelude::*;

verus! {

/// Architecture of the target process.
#[derive(Clone, Copy, Debug, PartialEq, Eq, Structural)]
pub enum Arch {
    X86_64,
    Aarch64,
}

/// Number of arguments that a call passes in registers.
pub open spec fn args_on_regs(arch: Arch) -> nat {
    match arch {
        Arch::X86_64 => 6,
        Arch::Aarch64 => 8,
    }
}

impl Arch {
    /// Number of arguments that a call passes in registers; the rest goes to
    /// the stack.
    pub fn args_on_regs(self) -> (n: usize)
        ensures
            n == args_on_regs(self),
    {
        match self {
            Arch::X86_64 => 6,
            Arch::Aarch64 => 8,
        }
    }
}

/// General registers of an x86-64 task, in the kernel's order.
#[derive(Clone, Copy, Debug, PartialEq, Eq, Structural)]
pub struct X86Regs {
    pub r15: u64,
    pub r14: u64,
    pub r13: u64,
    pub r12: u64,
    pub rbp: u64,
    pub rbx: u64,
    pub r11: u64,
    pub r10: u64,
    pub r9: u64,
    pub r8: u64,
    pub rax: u64,
    pub rcx: u64,
    pub rdx: u64,
    pub rsi: u64,
    pub rdi: u64,
    pub orig_rax: u64,
    pub rip: u64,
    pub cs: u64,
    pub eflags: u64,
    pub rsp: u64,
    pub ss: u64,
    pub fs_base: u64,
    pub gs_base: u64,
    pub ds: u64,
    pub es: u64,
    pub fs: u64,
    pub gs: u64,
}

/// General registers of an AArch64 task, in the kernel's order.
#[derive(Clone, Copy, Debug, PartialEq, Eq, Structural)]
pub struct Aarch64Regs {
    pub x0: u64,
    pub x1: u64,
    pub x2: u64,
    pub x3: u64,
    pub x4: u64,
    pub x5: u64,
    pub x6: u64,
    pub x7: u64,
    pub x8: u64,
    pub x9: u64,
    pub x10: u64,
    pub x11: u64,
    pub x12: u64,
    pub x13: u64,
    pub x14: u64,
    pub x15: u64,
    pub x16: u64,
    pub x17: u64,
    pub x18: u64,
    pub x19: u64,
    pub x20: u64,
    pub x21: u64,
    pub x22: u64,
    pub x23: u64,
    pub x24: u64,
    pub x25: u64,
    pub x26: u64,
    pub x27: u64,
    pub x28: u64,
    pub x29: u64,
    pub x30: u64,
    pub sp: u64,
    pub pc: u64,
    pub pstate: u64,
}

impl Default for X86Regs {
    /// A register file in which every register is zero.
    fn default() -> (regs: Self)
        ensures
            regs.r15 == 0,
            regs.r14 == 0,
            regs.r13 == 0,
            regs.r12 == 0,
            regs.rbp == 0,
            regs.rbx == 0,
            regs.r11 == 0,
            regs.r10 == 0,
            regs.r9 == 0,
            regs.r8 == 0,
            regs.rax == 0,
            regs.rcx == 0,
            regs.rdx == 0,
            regs.rsi == 0,
            regs.rdi == 0,
            regs.orig_rax == 0,
            regs.rip == 0,
            regs.cs == 0,
            regs.eflags == 0,
            regs.rsp == 0,
            regs.ss == 0,
            regs.fs_base == 0,
            regs.gs_base == 0,
            regs.ds == 0,
            regs.es == 0,
            regs.fs == 0,
            regs.gs == 0,
    {
        X86Regs {
            r15: 0,
            r14: 0,
            r13: 0,
            r12: 0,
            rbp: 0,
            rbx: 0,
            r11: 0,
            r10: 0,
            r9: 0,
            r8: 0,
            rax: 0,
            rcx: 0,
            rdx: 0,
            rsi: 0,
            rdi: 0,
            orig_rax: 0,
            rip: 0,
            cs: 0,
            eflags: 0,
            rsp: 0,
            ss: 0,
            fs_base: 0,
            gs_base: 0,
            ds: 0,
            es: 0,
            fs: 0,
            gs: 0,
        }
    }
}

impl Default for Aarch64Regs {
    /// A register file in which every register is zero.
    fn default() -> (regs: Self)
        ensures
            regs.x0 == 0,
            regs.x1 == 0,
            regs.x2 == 0,
            regs.x3 == 0,
            regs.x4 == 0,
            regs.x5 == 0,
            regs.x6 == 0,
            regs.x7 == 0,
            regs.x8 == 0,
            regs.x9 == 0,
            regs.x10 == 0,
            regs.x11 == 0,
            regs.x12 == 0,
            regs.x13 == 0,
            regs.x14 == 0,
            regs.x15 == 0,
            regs.x16 == 0,
            regs.x17 == 0,
            regs.x18 == 0,
            regs.x19 == 0,
            regs.x20 == 0,
            regs.x21 == 0,
            regs.x22 == 0,
            regs.x23 == 0,
            regs.x24 == 0,
            regs.x25 == 0,
            regs.x26 == 0,
            regs.x27 == 0,
            regs.x28 == 0,
            regs.x29 == 0,
            regs.x30 == 0,
            regs.sp == 0,
            regs.pc == 0,
            regs.pstate == 0,
    {
        Aarch64Regs {
            x0: 0,
            x1: 0,
            x2: 0,
            x3: 0,
            x4: 0,
            x5: 0,
            x6: 0,
            x7: 0,
            x8: 0,
            x9: 0,
            x10: 0,
            x11: 0,
            x12: 0,
            x13: 0,
            x14: 0,
            x15: 0,
            x16: 0,
            x17: 0,
            x18: 0,
            x19: 0,
            x20: 0,
            x21: 0,
            x22: 0,
            x23: 0,
            x24: 0,
            x25: 0,
            x26: 0,
            x27: 0,
            x28: 0,
            x29: 0,
            x30: 0,
            sp: 0,
            pc: 0,
            pstate: 0,
        }
    }
}

/// A copy of a target's general registers, tagged with its architecture.
#[derive(Clone, Copy, Debug, PartialEq, Eq, Structural)]
pub enum Registers {
    X86_64(X86Regs),
    Aarch64(Aarch64Regs),
}

impl Registers {
    /// The architecture whose register file this is.
    pub open spec fn arch(self) -> Arch {
        match self {
            Registers::X86_64(_) => Arch::X86_64,
            Registers::Aarch64(_) => Arch::Aarch64,
        }
    }

    /// The `n`-th argument register: `rdi, rsi, rdx, rcx, r8, r9` on x86-64,
    /// `x0` to `x7` on AArch64.
    pub open spec fn arg_reg(self, n: int) -> u64
        recommends
            0 <= n < args_on_regs(self.arch()),
    {
        match self {
            Registers::X86_64(r) => {
                if n == 0 {
                    r.rdi
                } else if n == 1 {
                    r.rsi
                } else if n == 2 {
                    r.rdx
                } else if n == 3 {
                    r.rcx
                } else if n == 4 {
                    r.r8
                } else {
                    r.r9
                }
            },
            Registers::Aarch64(r) => {
                if n == 0 {
                    r.x0
                } else if n == 1 {
                    r.x1
                } else if n == 2 {
                    r.x2
                } else if n == 3 {
                    r.x3
                } else if n == 4 {
                    r.x4
                } else if n == 5 {
                    r.x5
                } else if n == 6 {
                    r.x6
                } else {
                    r.x7
                }
            },
        }
    }

    /// These registers with the `n`-th argument register replaced.
    pub open spec fn with_arg(self, n: int, value: u64) -> Registers
        recommends
            0 <= n < args_on_regs(self.arch()),
    {
        match self {
            Registers::X86_64(r) => Registers::X86_64(
                if n == 0 {
                    X86Regs { rdi: value, ..r }
                } else if n == 1 {
                    X86Regs { rsi: value, ..r }
                } else if n == 2 {
                    X86Regs { rdx: value, ..r }
                } else if n == 3 {
                    X86Regs { rcx: value, ..r }
                } else if n == 4 {
                    X86Regs { r8: value, ..r }
                } else {
                    X86Regs { r9: value, ..r }
                }
            ),
            Registers::Aarch64(r) => Registers::Aarch64(
                if n == 0 {
                    Aarch64Regs { x0: value, ..r }
                } else if n == 1 {
                    Aarch64Regs { x1: value, ..r }
                } else if n == 2 {
                    Aarch64Regs { x2: value, ..r }
                } else if n == 3 {
                    Aarch64Regs { x3: value, ..r }
                } else if n == 4 {
                    Aarch64Regs { x4: value, ..r }
                } else if n == 5 {
                    Aarch64Regs { x5: value, ..r }
                } else if n == 6 {
                    Aarch64Regs { x6: value, ..r }
                } else {
                    Aarch64Regs { x7: value, ..r }
                }
            ),
        }
    }

    /// These registers with the first argument registers replaced by `args`,
    /// one by one.
    pub open spec fn with_args(self, args: Seq<u64>) -> Registers
        recommends
            args.len() <= args_on_regs(self.arch()),
        decreases args.len(),
    {
        if args.len() == 0 {
            self
        } else {
            self.with_args(args.drop_last()).with_arg(args.len() - 1, args.last())
        }
    }

    /// The register in which a function hands back its result.
    pub open spec fn result_reg(self) -> u64 {
        match self {
            Registers::X86_64(r) => r.rax,
            Registers::Aarch64(r) => r.x0,
        }
    }

    /// The stack pointer.
    pub open spec fn stack(self) -> u64 {
        match self {
            Registers::X86_64(r) => r.rsp,
            Registers::Aarch64(r) => r.sp,
        }
    }

    /// These registers with the stack pointer replaced.
    pub open spec fn with_stack(self, sp: u64) -> Registers {
        match self {
            Registers::X86_64(r) => Registers::X86_64(X86Regs { rsp: sp, ..r }),
            Registers::Aarch64(r) => Registers::Aarch64(Aarch64Regs { sp: sp, ..r }),
        }
    }

    /// The program counter.
    pub open spec fn counter(self) -> u64 {
        match self {
            Registers::X86_64(r) => r.rip,
            Registers::Aarch64(r) => r.pc,
        }
    }

    /// These registers with the program counter replaced.
    pub open spec fn with_counter(self, pc: u64) -> Registers {
        match self {
            Registers::X86_64(r) => Registers::X86_64(X86Regs { rip: pc, ..r }),
            Registers::Aarch64(r) => Registers::Aarch64(Aarch64Regs { pc: pc, ..r }),
        }
    }

    /// The link register, where the architecture has one; zero elsewhere.
    pub open spec fn link(self) -> u64 {
        match self {
            Registers::X86_64(_) => 0,
            Registers::Aarch64(r) => r.x30,
        }
    }

    /// These registers with the link register replaced. Only AArch64 keeps
    /// the return address in a register; on x86-64 nothing changes.
    pub open spec fn with_link(self, addr: u64) -> Registers {
        match self {
            Registers::X86_64(r) => self,
            Registers::Aarch64(r) => Registers::Aarch64(Aarch64Regs { x30: addr, ..r }),
        }
    }

    /// Wraps a register file read from an x86-64 task.
    pub fn new(regs: X86Regs) -> (wrapped: Self)
        ensures
            wrapped == Registers::X86_64(regs),
    {
        Registers::X86_64(regs)
    }

    /// The architecture whose register file this is.
    pub fn architecture(&self) -> (arch: Arch)
        ensures
            arch == self.arch(),
    {
        match self {
            Registers::X86_64(_) => Arch::X86_64,
            Registers::Aarch64(_) => Arch::Aarch64,
        }
    }

    /// The `n`-th argument, for an argument that travels in a register.
    pub fn arg(&self, n: usize) -> (value: u64)
        requires
            n < args_on_regs(self.arch()),
        ensures
            value == self.arg_reg(n as int),
    {
        match self {
            Registers::X86_64(r) => match n {
                0 => r.rdi,
                1 => r.rsi,
                2 => r.rdx,
                3 => r.rcx,
                4 => r.r8,
                _ => r.r9,
            },
            Registers::Aarch64(r) => match n {
                0 => r.x0,
                1 => r.x1,
                2 => r.x2,
                3 => r.x3,
                4 => r.x4,
                5 => r.x5,
                6 => r.x6,
                _ => r.x7,
            },
        }
    }

    /// Replaces the `n`-th argument, for an argument that travels in a
    /// register.
    pub fn set_arg(&mut self, n: usize, value: u64)
        requires
            n < args_on_regs(old(self).arch()),
        ensures
            *final(self) == old(self).with_arg(n as int, value),
    {
        match self {
            Registers::X86_64(r) => match n {
                0 => {
                    r.rdi = value;
                },
                1 => {
                    r.rsi = value;
                },
                2 => {
                    r.rdx = value;
                },
                3 => {
                    r.rcx = value;
                },
                4 => {
                    r.r8 = value;
                },
                _ => {
                    r.r9 = value;
                },
            },
            Registers::Aarch64(r) => match n {
                0 => {
                    r.x0 = value;
                },
                1 => {
                    r.x1 = value;
                },
                2 => {
                    r.x2 = value;
                },
                3 => {
                    r.x3 = value;
                },
                4 => {
                    r.x4 = value;
                },
                5 => {
                    r.x5 = value;
                },
                6 => {
                    r.x6 = value;
                },
                _ => {
                    r.x7 = value;
                },
            },
        }
    }

    /// Replaces the first `args.len()` argument registers by `args`.
    pub fn set_args(&mut self, args: &[u64])
        requires
            args@.len() <= args_on_regs(old(self).arch()),
        ensures
            *final(self) == old(self).with_args(args@),
    {
        let mut i: usize = 0;
        assert(args@.take(0) == Seq::<u64>::empty());
        while i < args.len()
            invariant
                i <= args@.len(),
                args@.len() <= args_on_regs(old(self).arch()),
                self.arch() == old(self).arch(),
                *self == old(self).with_args(args@.take(i as int)),
            decreases args@.len() - i,
        {
            assert(args@.take(i + 1).drop_last() == args@.take(i as int));
            self.set_arg(i, args[i]);
            i += 1;
        }
        assert(args@.take(args@.len() as int) == args@);
    }

    /// The value that the function that just returned hands back.
    pub fn return_value(&self) -> (value: u64)
        ensures
            value == self.result_reg(),
    {
        match self {
            Registers::X86_64(r) => r.rax,
            Registers::Aarch64(r) => r.x0,
        }
    }

    /// The stack pointer.
    pub fn sp(&self) -> (sp: u64)
        ensures
            sp == self.stack(),
    {
        match self {
            Registers::X86_64(r) => r.rsp,
            Registers::Aarch64(r) => r.sp,
        }
    }

    /// Replaces the stack pointer.
    pub fn set_sp(&mut self, sp: u64)
        ensures
            *final(self) == old(self).with_stack(sp),
    {
        match self {
            Registers::X86_64(r) => {
                r.rsp = sp;
            },
            Registers::Aarch64(r) => {
                r.sp = sp;
            },
        }
    }

    /// The program counter.
    pub fn pc(&self) -> (pc: u64)
        ensures
            pc == self.counter(),
    {
        match self {
            Registers::X86_64(r) => r.rip,
            Registers::Aarch64(r) => r.pc,
        }
    }

    /// Replaces the program counter.
    pub fn set_pc(&mut self, pc: u64)
        ensures
            *final(self) == old(self).with_counter(pc),
    {
        match self {
            Registers::X86_64(r) => {
                r.rip = pc;
            },
            Registers::Aarch64(r) => {
                r.pc = pc;
            },
        }
    }

    /// Stores a return address in the link register, where the architecture
    /// has one.
    pub fn set_link(&mut self, addr: u64)
        ensures
            *final(self) == old(self).with_link(addr),
    {
        match self {
            Registers::X86_64(_) => {},
            Registers::Aarch64(r) => {
                r.x30 = addr;
            },
        }
    }
}

/// Replacing one argument register changes that register and no other.
pub proof fn lemma_with_arg(regs: Registers, m: int, value: u64, n: int)
    requires
        0 <= m < args_on_regs(regs.arch()),
        0 <= n < args_on_regs(regs.arch()),
    ensures
        regs.with_arg(m, value).arch() == regs.arch(),
        regs.with_arg(m, value).stack() == regs.stack(),
        regs.with_arg(m, value).counter() == regs.counter(),
        regs.with_arg(m, value).arg_reg(n) == if n == m {
            value
        } else {
            regs.arg_reg(n)
        },
{
}

/// Replacing arguments sets the registers of those arguments and leaves
/// every other register alone: the architecture, the stack pointer, the
/// program counter and the remaining argument registers stay.
pub proof fn lemma_with_args_keeps_rest(regs: Registers, args: Seq<u64>)
    requires
        args.len() <= args_on_regs(regs.arch()),
    ensures
        regs.with_args(args).arch() == regs.arch(),
        regs.with_args(args).stack() == regs.stack(),
        regs.with_args(args).counter() == regs.counter(),
        forall|n: int|
            args.len() <= n < args_on_regs(regs.arch()) ==> regs.with_args(args).arg_reg(n)
                == regs.arg_reg(n),
        forall|n: int| 0 <= n < args.len() ==> regs.with_args(args).arg_reg(n) == args[n],
    decreases args.len(),
{
    if args.len() > 0 {
        let before = regs.with_args(args.drop_last());
        let m = args.len() - 1;
        lemma_with_args_keeps_rest(regs, args.drop_last());
        lemma_with_arg(before, m, args.last(), 0);
        assert forall|n: int| args.len() <= n < args_on_regs(regs.arch()) implies regs.with_args(
            args,
        ).arg_reg(n) == regs.arg_reg(n) by {
            lemma_with_arg(before, m, args.last(), n);
        }
        assert forall|n: int| 0 <= n < args.len() implies regs.with_args(args).arg_reg(n)
            == args[n] by {
            lemma_with_arg(before, m, args.last(), n);
            if n < m {
                assert(args.drop_last()[n] == args[n]);
            }
        }
    }
}

/// The two register files agree in every register that an injection leaves
/// alone: all but the argument registers, the stack pointer, the program
/// counter and, on AArch64, the link register.
pub open spec fn same_elsewhere(a: Registers, b: Registers) -> bool {
    match (a, b) {
        (Registers::X86_64(a), Registers::X86_64(b)) => {
                &&& a.r15 == b.r15
                &&& a.r14 == b.r14
                &&& a.r13 == b.r13
                &&& a.r12 == b.r12
                &&& a.rbp == b.rbp
                &&& a.rbx == b.rbx
                &&& a.r11 == b.r11
                &&& a.r10 == b.r10
                &&& a.rax == b.rax
                &&& a.orig_rax == b.orig_rax
                &&& a.cs == b.cs
                &&& a.eflags == b.eflags
                &&& a.ss == b.ss
                &&& a.fs_base == b.fs_base
                &&& a.gs_base == b.gs_base
                &&& a.ds == b.ds
                &&& a.es == b.es
                &&& a.fs == b.fs
                &&& a.gs == b.gs
        },
        (Registers::Aarch64(a), Registers::Aarch64(b)) => {
                &&& a.x8 == b.x8
                &&& a.x9 == b.x9
                &&& a.x10 == b.x10
                &&& a.x11 == b.x11
                &&& a.x12 == b.x12
                &&& a.x13 == b.x13
                &&& a.x14 == b.x14
                &&& a.x15 == b.x15
                &&& a.x16 == b.x16
                &&& a.x17 == b.x17
                &&& a.x18 == b.x18
                &&& a.x19 == b.x19
                &&& a.x20 == b.x20
                &&& a.x21 == b.x21
                &&& a.x22 == b.x22
                &&& a.x23 == b.x23
                &&& a.x24 == b.x24
                &&& a.x25 == b.x25
                &&& a.x26 == b.x26
                &&& a.x27 == b.x27
                &&& a.x28 == b.x28
                &&& a.x29 == b.x29
                &&& a.pstate == b.pstate
        },
        _ => false,
    }
}

/// Replacing arguments changes no register but argument registers.
pub proof fn lemma_with_args_same_elsewhere(regs: Registers, args: Seq<u64>)
    requires
        args.len() <= args_on_regs(regs.arch()),
    ensures
        same_elsewhere(regs, regs.with_args(args)),
        regs.with_args(args).link() == regs.link(),
    decreases args.len(),
{
    if args.len() > 0 {
        lemma_with_args_same_elsewhere(regs, args.drop_last());
        lemma_with_args_keeps_rest(regs, args.drop_last());
    }
}

} // verus!
