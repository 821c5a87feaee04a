use std::collections::HashMap;

use zloader::attach::Tracee;
use zloader::call::RemoteCall;
use zloader::error::Error;
use zloader::inject::{BridgeConfig, Injector, Outcome};
use zloader::protocol::{Failure, Reply, Request, Step, WaitStatus, SIGSEGV};
use zloader::regs::{Aarch64Regs, Arch, Registers, X86Regs};
use zloader::remote::{Arg, Poke, PACIASP};
use zloader::strings::{JavaStringReader, StringReader};

const LIBC_BASE: u64 = 0x7000_0000;
const LIBDL_BASE: u64 = 0x7100_0000;
const BRIDGE_BASE: u64 = 0x7300_0000;
const MUNMAP: u64 = LIBC_BASE + 0x100;
const DLOPEN: u64 = LIBDL_BASE + 0x200;
const DLERROR: u64 = LIBDL_BASE + 0x300;
const CALLBACK_VAR: u64 = BRIDGE_BASE + 0x10;
const TRAMPOLINE_VAR: u64 = BRIDGE_BASE + 0x18;
const RETURN_VAR: u64 = BRIDGE_BASE + 0x20;
const CALLBACK: u64 = BRIDGE_BASE + 0x1000;
const TRAMPOLINE: u64 = BRIDGE_BASE + 0x2000;
const ENV: u64 = 0x6000_0000;
const TABLE: u64 = 0x6000_1000;
const GET_CHARS: u64 = 0x6100_0000;
const RELEASE_CHARS: u64 = 0x6100_0100;
const FUNC: u64 = 0x5000_0000;
const STACK: u64 = 0x7ffd_0000_8000;
const RETURN: u64 = 0x7ff1_2345_6789;
const NAME: u64 = 0x111;
const DIR: u64 = 0x222;
const BRIDGE: &str = "/debug_ramdisk/zloader/libbridge.so";
const LIBC: &str = "/apex/com.android.runtime/lib64/bionic/libc.so";
const LIBDL: &str = "/apex/com.android.runtime/lib64/bionic/libdl.so";

/// A target that lives in this process: registers, memory, and the few
/// functions that an injection calls.
struct Target {
    arch: Arch,
    regs: Registers,
    memory: HashMap<u64, u8>,
    maps: Vec<String>,
    running: bool,
    handle: u64,
    verdict: bool,
    change: Vec<(usize, u64)>,
    fail_at: Option<(usize, Failure)>,
    served: usize,
    unmapped: Vec<(u64, u64)>,
    loaded: Vec<String>,
    hooked: Vec<(u64, u64)>,
    asked: Vec<(u32, Option<String>, Option<String>)>,
    released: u64,
    set: Vec<Registers>,
}

impl Target {
    fn write(&mut self, addr: u64, bytes: &[u8]) {
        for (i, byte) in bytes.iter().enumerate() {
            self.memory.insert(addr.wrapping_add(i as u64), *byte);
        }
    }

    fn poke(&mut self, addr: u64, word: u64) {
        self.write(addr, &word.to_le_bytes());
    }

    fn peek(&self, addr: u64) -> u64 {
        let mut bytes = [0u8; 8];
        for (i, byte) in bytes.iter_mut().enumerate() {
            *byte = *self.memory.get(&addr.wrapping_add(i as u64)).unwrap_or(&0);
        }
        u64::from_le_bytes(bytes)
    }

    fn c_string(&self, addr: u64) -> String {
        let mut bytes = Vec::new();
        let mut at = addr;
        while let Some(byte) = self.memory.get(&at) {
            if *byte == 0 {
                break;
            }
            bytes.push(*byte);
            at += 1;
        }
        String::from_utf8(bytes).unwrap()
    }

    fn arg(&self, n: usize) -> u64 {
        self.regs.arg(n)
    }

    /// Runs the function at the program counter and returns from it.
    fn run(&mut self) {
        let pc = self.regs.pc();
        let result = if pc == MUNMAP {
            self.unmapped.push((self.arg(0), self.arg(1)));
            self.maps.retain(|line| !line.ends_with("[uprobes]"));
            0
        } else if pc == DLOPEN {
            let path = self.c_string(self.arg(0));
            assert_eq!(self.arg(1), 1);
            self.loaded.push(path.clone());
            if self.handle != 0 {
                self.maps.push(format!("73000000-73010000 r-xp 00000000 fd:00 3000 {}", path));
            }
            self.handle
        } else if pc == DLERROR {
            0x6200_0000
        } else if pc == GET_CHARS {
            assert_eq!(self.arg(0), ENV);
            match self.arg(1) {
                NAME => 0x6300_0000,
                DIR => 0x6300_0100,
                _ => 0,
            }
        } else if pc == RELEASE_CHARS {
            self.released += 1;
            0
        } else if pc == CALLBACK {
            let (buffer, len) = (self.arg(0), self.arg(1));
            self.hooked.push((buffer, len));
            for (slot, value) in self.change.clone() {
                self.poke(buffer + 8 * slot as u64, value);
            }
            0
        } else {
            // Not a function: the target faults where it stands.
            return;
        };
        match &mut self.regs {
            Registers::X86_64(r) => {
                r.rax = result;
                let sp = r.rsp;
                r.rsp = sp + 8;
            }
            Registers::Aarch64(r) => {
                r.x0 = result;
            }
        }
        let back = match self.regs {
            Registers::X86_64(r) => self.peek(r.rsp - 8),
            Registers::Aarch64(r) => r.x30,
        };
        self.regs.set_pc(back);
    }

    fn perform(&mut self, request: Request) -> Reply {
        self.served += 1;
        if let Some((at, why)) = self.fail_at {
            if at == self.served {
                return Reply::Failed(why);
            }
        }
        match request {
            Request::Seize | Request::SendCont => Reply::Done,
            Request::SigInfo => Reply::Done,
            Request::Cont => {
                self.running = true;
                Reply::Done
            }
            Request::Wait => {
                if self.running {
                    self.running = false;
                    self.run();
                }
                Reply::Status(WaitStatus::Stopped(SIGSEGV))
            }
            Request::GetRegs => Reply::Regs(self.regs),
            Request::SetRegs(regs) => {
                self.regs = regs;
                self.set.push(regs);
                Reply::Done
            }
            Request::Peek(addr) => Reply::Word(self.peek(addr)),
            Request::Poke(Poke { addr, value }) => {
                self.poke(addr, value);
                Reply::Done
            }
            Request::Write(write) => {
                self.write(write.addr, &write.data);
                Reply::Done
            }
            Request::ReadMaps => Reply::Maps(self.maps.join("\n") + "\n"),
            Request::Resolve { library, symbol } => {
                let offset = match (library.as_str(), symbol.as_str()) {
                    (LIBC, "munmap") => Some(0x100),
                    (LIBDL, "dlopen") => Some(0x200),
                    (LIBDL, "dlerror") => Some(0x300),
                    (BRIDGE, "ZLB_CALLBACK_PRE") => Some(0x10),
                    (BRIDGE, "ZLB_TRAMPOLINE") => Some(0x18),
                    (BRIDGE, "ZLB_RETURN_ADDRESS") => Some(0x20),
                    _ => None,
                };
                match offset {
                    Some(at) => Reply::Offset(at),
                    None => Reply::Failed(Failure::Other),
                }
            }
            Request::Filter { uid, package, process } => {
                self.asked.push((uid, package, process));
                Reply::Verdict(self.verdict)
            }
        }
    }
}

fn arguments(count: usize) -> Vec<u64> {
    let mut args: Vec<u64> = (0..count as u64).map(|n| 0x1000 + n).collect();
    args[0] = ENV;
    args[1] = 10123;
    if count == 22 {
        args[11] = NAME;
        args[15] = DIR;
    } else {
        args[10] = NAME;
        args[14] = DIR;
    }
    args
}

/// A target as the probe leaves it at the start of the specialization
/// function.
fn target(arch: Arch, count: usize) -> Target {
    let args = arguments(count);
    let mut target = Target {
        arch,
        regs: Registers::X86_64(X86Regs::default()),
        memory: HashMap::new(),
        maps: vec![
            format!("70000000-70010000 r--p 00000000 fd:00 2000 {}", LIBC),
            format!("70010000-70020000 r-xp 00010000 fd:00 2000 {}", LIBC),
            format!("71000000-71001000 r-xp 00000000 fd:00 2001 {}", LIBDL),
            "72000000-72001000 r-xp 00000000 00:00 0 [uprobes]".to_string(),
        ],
        running: false,
        handle: 0xb1d6e,
        verdict: true,
        change: Vec::new(),
        fail_at: None,
        served: 0,
        unmapped: Vec::new(),
        loaded: Vec::new(),
        hooked: Vec::new(),
        asked: Vec::new(),
        released: 0,
        set: Vec::new(),
    };
    match arch {
        Arch::X86_64 => {
            // The probe stops the target after `push %rbp`.
            target.regs = Registers::X86_64(X86Regs {
                rdi: args[0],
                rsi: args[1],
                rdx: args[2],
                rcx: args[3],
                r8: args[4],
                r9: args[5],
                rip: FUNC + 1,
                rsp: STACK - 8,
                rbp: 0xbbbb,
                rbx: 0xcccc,
                r12: 0x1212,
                eflags: 0x246,
                ..Default::default()
            });
            target.poke(STACK, RETURN);
            for (n, value) in args.iter().enumerate().skip(6) {
                target.poke(STACK + 8 + 8 * (n as u64 - 6), *value);
            }
        }
        Arch::Aarch64 => {
            target.regs = Registers::Aarch64(Aarch64Regs {
                x0: args[0],
                x1: args[1],
                x2: args[2],
                x3: args[3],
                x4: args[4],
                x5: args[5],
                x6: args[6],
                x7: args[7],
                x19: 0x1919,
                x29: 0x2929,
                x30: RETURN,
                sp: STACK,
                pc: FUNC + 4,
                pstate: 0x6000_0000,
                ..Default::default()
            });
            for (n, value) in args.iter().enumerate().skip(8) {
                target.poke(STACK + 8 * (n as u64 - 8), *value);
            }
            target.write(FUNC, &PACIASP.to_le_bytes());
            target.write(FUNC + 4, &0xa9bf_7bfdu32.to_le_bytes());
        }
    }
    target.poke(ENV, TABLE);
    target.poke(TABLE + 1352, GET_CHARS);
    target.poke(TABLE + 1360, RELEASE_CHARS);
    target.write(0x6300_0000, b"com.example.app:remote\0");
    target.write(0x6300_0100, b"/data/user/0/com.example.app\0");
    target.write(0x6200_0000, b"library 'bridge.so' not found\0");
    target.poke(CALLBACK_VAR, CALLBACK);
    target.poke(TRAMPOLINE_VAR, TRAMPOLINE);
    target
}

fn config(count: usize, filter: bool) -> BridgeConfig {
    BridgeConfig {
        library: BRIDGE.to_string(),
        filter,
        args_count: count,
        return_addr: RETURN,
        sdk: if count == 22 { 35 } else { 31 },
    }
}

fn inject(target: &mut Target, config: BridgeConfig) -> Outcome {
    let mut injector = Injector::new(config, target.regs);
    let mut request = injector.request().expect("an injection starts with a request");
    for _ in 0..100_000 {
        let reply = target.perform(request);
        match injector.step(reply) {
            Step::Ask(next) => request = next,
            Step::Done(outcome) => {
                assert!(injector.request().is_none());
                return outcome;
            }
        }
    }
    panic!("the injection does not end");
}

#[test]
fn injection_with_filter_on_x86() {
    let mut target = target(Arch::X86_64, 22);
    let snapshot = target.regs;
    let outcome = inject(&mut target, config(22, true));
    assert!(matches!(outcome, Outcome::Injected), "{:?}", outcome);
    assert_eq!(target.unmapped, vec![(0x7200_0000, 0x1000)]);
    assert_eq!(
        target.asked,
        vec![(
            10123,
            Some("com.example.app".to_string()),
            Some("com.example.app:remote".to_string())
        )]
    );
    assert_eq!(target.released, 2);
    assert_eq!(target.loaded, vec![BRIDGE.to_string()]);
    assert_eq!(target.peek(RETURN_VAR), RETURN);
    assert_eq!(target.hooked.len(), 1);
    assert_eq!(target.hooked[0].1, 22);
    // The target goes on from the entry of the function, and returns to the
    // trampoline.
    let Registers::X86_64(before) = snapshot else { panic!() };
    let expected = Registers::X86_64(X86Regs { rip: FUNC, rsp: STACK, ..before });
    assert_eq!(target.regs, expected);
    assert_eq!(target.peek(STACK), TRAMPOLINE);
    let args = arguments(22);
    for n in 6..22u64 {
        assert_eq!(target.peek(STACK + 8 + 8 * (n - 6)), args[n as usize]);
    }
}

#[test]
fn injection_without_filter_asks_nobody() {
    let mut target = target(Arch::X86_64, 20);
    let outcome = inject(&mut target, config(20, false));
    assert!(matches!(outcome, Outcome::Injected), "{:?}", outcome);
    assert!(target.asked.is_empty());
    assert_eq!(target.released, 0);
    assert_eq!(target.peek(STACK), TRAMPOLINE);
}

#[test]
fn arguments_that_the_hook_changes_are_written_back() {
    let mut target = target(Arch::X86_64, 22);
    target.change = vec![(1, 99_999), (7, 0x7777), (21, 0x2121)];
    let snapshot = target.regs;
    let outcome = inject(&mut target, config(22, false));
    assert!(matches!(outcome, Outcome::Injected), "{:?}", outcome);
    let Registers::X86_64(before) = snapshot else { panic!() };
    let expected = Registers::X86_64(X86Regs { rip: FUNC, rsp: STACK, rsi: 99_999, ..before });
    assert_eq!(target.regs, expected);
    let mut args = arguments(22);
    args[7] = 0x7777;
    args[21] = 0x2121;
    for n in 6..22u64 {
        assert_eq!(target.peek(STACK + 8 + 8 * (n - 6)), args[n as usize], "argument {}", n);
    }
    assert_eq!(target.peek(STACK), TRAMPOLINE);
}

#[test]
fn declined_process_goes_on_with_its_snapshot() {
    let mut target = target(Arch::X86_64, 22);
    target.verdict = false;
    let snapshot = target.regs;
    let outcome = inject(&mut target, config(22, true));
    assert!(matches!(outcome, Outcome::Skipped), "{:?}", outcome);
    assert_eq!(target.regs, snapshot);
    assert_eq!(target.peek(STACK), RETURN);
    assert!(target.loaded.is_empty());
    assert!(target.hooked.is_empty());
}

#[test]
fn failed_load_reports_what_the_loader_said() {
    let mut target = target(Arch::X86_64, 22);
    target.handle = 0;
    let snapshot = target.regs;
    let outcome = inject(&mut target, config(22, true));
    match outcome {
        Outcome::Failed { error: Error::RemoteDlopenFailed { message }, restored } => {
            assert_eq!(message, "library 'bridge.so' not found");
            assert!(restored);
        }
        other => panic!("{:?}", other),
    }
    assert_eq!(target.regs, snapshot);
    assert_eq!(target.peek(STACK), RETURN);
    assert!(target.hooked.is_empty());
}

#[test]
fn injection_on_aarch64_steps_back_over_pointer_authentication() {
    let mut target = target(Arch::Aarch64, 22);
    let snapshot = target.regs;
    let outcome = inject(&mut target, config(22, true));
    assert!(matches!(outcome, Outcome::Injected), "{:?}", outcome);
    let Registers::Aarch64(before) = snapshot else { panic!() };
    let expected = Registers::Aarch64(Aarch64Regs { pc: FUNC, x30: TRAMPOLINE, ..before });
    assert_eq!(target.regs, expected);
    assert_eq!(target.peek(RETURN_VAR), RETURN);
    assert_eq!(target.asked.len(), 1);
    let args = arguments(22);
    for n in 8..22u64 {
        assert_eq!(target.peek(STACK + 8 * (n - 8)), args[n as usize]);
    }
}

#[test]
fn other_first_instruction_on_aarch64_is_left_alone() {
    let mut target = target(Arch::Aarch64, 20);
    target.write(FUNC, &0xd100_83ffu32.to_le_bytes());
    let snapshot = target.regs;
    let mut changed = target.change.clone();
    changed.push((3, 0x3333));
    target.change = changed;
    let outcome = inject(&mut target, config(20, false));
    assert!(matches!(outcome, Outcome::Injected), "{:?}", outcome);
    let Registers::Aarch64(before) = snapshot else { panic!() };
    let expected = Registers::Aarch64(Aarch64Regs { x3: 0x3333, x30: TRAMPOLINE, ..before });
    assert_eq!(target.regs, expected);
}

#[test]
fn target_without_probe_page_is_not_unmapped() {
    let mut target = target(Arch::X86_64, 20);
    target.maps.retain(|line| !line.ends_with("[uprobes]"));
    let outcome = inject(&mut target, config(20, false));
    assert!(matches!(outcome, Outcome::Injected), "{:?}", outcome);
    assert!(target.unmapped.is_empty());
}

#[test]
fn every_failure_on_the_way_puts_the_snapshot_back() {
    let mut total = target(Arch::X86_64, 22);
    assert!(matches!(inject(&mut total, config(22, true)), Outcome::Injected));
    let requests = total.served;
    assert!(requests > 60);
    for at in 1..=requests {
        let mut target = target(Arch::X86_64, 22);
        target.fail_at = Some((at, Failure::Other));
        let snapshot = target.regs;
        match inject(&mut target, config(22, true)) {
            Outcome::Failed { restored, .. } => {
                assert!(restored, "request {}", at);
                assert_eq!(target.regs, snapshot, "request {}", at);
                assert_eq!(target.set.last(), Some(&snapshot), "request {}", at);
            }
            other => panic!("request {}: {:?}", at, other),
        }
    }
}

#[test]
fn interruption_is_survived_once() {
    let mut total = target(Arch::Aarch64, 20);
    assert!(matches!(inject(&mut total, config(20, true)), Outcome::Injected));
    for at in 1..=total.served {
        let mut target = target(Arch::Aarch64, 20);
        target.fail_at = Some((at, Failure::Interrupted));
        let outcome = inject(&mut target, config(20, true));
        assert!(matches!(outcome, Outcome::Injected), "request {}: {:?}", at, outcome);
        assert_eq!(target.regs, total.regs, "request {}", at);
    }
}

#[test]
fn snapshot_that_cannot_be_put_back_is_reported() {
    let mut target = target(Arch::X86_64, 22);
    target.handle = 0;
    let mut probe = Target { fail_at: None, ..target_copy(&target) };
    let _ = inject(&mut probe, config(22, true));
    // The last request of a failed injection is the one that restores.
    target.fail_at = Some((probe.served, Failure::NoSuchProcess));
    match inject(&mut target, config(22, true)) {
        Outcome::Failed { error: Error::RemoteDlopenFailed { .. }, restored } => assert!(!restored),
        other => panic!("{:?}", other),
    }
}

fn target_copy(other: &Target) -> Target {
    Target {
        arch: other.arch,
        regs: other.regs,
        memory: other.memory.clone(),
        maps: other.maps.clone(),
        running: other.running,
        handle: other.handle,
        verdict: other.verdict,
        change: other.change.clone(),
        fail_at: other.fail_at,
        served: other.served,
        unmapped: Vec::new(),
        loaded: Vec::new(),
        hooked: Vec::new(),
        asked: Vec::new(),
        released: 0,
        set: Vec::new(),
    }
}

#[test]
fn unknown_platform_fails_the_screening() {
    let mut target = target(Arch::X86_64, 22);
    let snapshot = target.regs;
    let mut config = config(22, true);
    config.sdk = 30;
    match inject(&mut target, config) {
        Outcome::Failed { error: Error::UnsupportedSdk, restored: true } => {}
        other => panic!("{:?}", other),
    }
    assert_eq!(target.regs, snapshot);
    assert!(target.asked.is_empty());
}

#[test]
fn arguments_that_do_not_fit_the_platform_fail_the_screening() {
    let mut target = target(Arch::X86_64, 20);
    let mut config = config(20, true);
    config.sdk = 35;
    match inject(&mut target, config) {
        Outcome::Failed { error: Error::UnsupportedSdk, restored: true } => {}
        other => panic!("{:?}", other),
    }
}

#[test]
fn bridge_without_its_variables_fails() {
    let mut target = target(Arch::X86_64, 20);
    let snapshot = target.regs;
    let mut config = config(20, false);
    config.library = "/debug_ramdisk/zloader/libother.so".to_string();
    match inject(&mut target, config) {
        Outcome::Failed { error: Error::BridgeExportMissing, restored: true } => {}
        other => panic!("{:?}", other),
    }
    assert_eq!(target.regs, snapshot);
}

#[test]
fn target_without_c_library_fails() {
    let mut target = target(Arch::X86_64, 20);
    target.maps.retain(|line| !line.ends_with("libc.so"));
    match inject(&mut target, config(20, false)) {
        Outcome::Failed { error: Error::SymbolNotFound, restored: true } => {}
        other => panic!("{:?}", other),
    }
}

#[test]
fn filter_that_does_not_answer_fails_the_injection() {
    let mut probe = target(Arch::X86_64, 22);
    probe.verdict = false;
    assert!(matches!(inject(&mut probe, config(22, true)), Outcome::Skipped));
    // The filter is asked by the request in front of the one that restores.
    let mut target = target(Arch::X86_64, 22);
    let snapshot = target.regs;
    target.fail_at = Some((probe.served - 1, Failure::Other));
    match inject(&mut target, config(22, true)) {
        Outcome::Failed { error: Error::FilterLibraryLoadFailed, restored: true } => {}
        other => panic!("{:?}", other),
    }
    assert_eq!(target.regs, snapshot);
}

#[test]
fn process_without_names_is_judged_by_its_user_alone() {
    let mut target = target(Arch::X86_64, 22);
    for slot in [11u64, 15] {
        target.poke(STACK + 8 + 8 * (slot - 6), 0);
    }
    let outcome = inject(&mut target, config(22, true));
    assert!(matches!(outcome, Outcome::Injected), "{:?}", outcome);
    assert_eq!(target.asked, vec![(10123, None, None)]);
    assert_eq!(target.released, 0);
}

#[test]
fn data_directory_without_separator_names_no_package() {
    let mut target = target(Arch::Aarch64, 20);
    target.write(0x6300_0100, b"com.example.app\0");
    let outcome = inject(&mut target, config(20, true));
    assert!(matches!(outcome, Outcome::Injected), "{:?}", outcome);
    assert_eq!(
        target.asked,
        vec![(10123, None, Some("com.example.app:remote".to_string()))]
    );
}

fn call(target: &mut Target, func: u64, args: Vec<Arg>) -> Result<u64, Error> {
    let mut call = RemoteCall::new(func, args, LIBC_BASE);
    let mut request = call.request().unwrap();
    loop {
        let reply = target.perform(request);
        match call.step(reply) {
            Step::Ask(next) => request = next,
            Step::Done(result) => return result,
        }
    }
}

#[test]
fn remote_call_returns_the_result_and_restores_the_registers() {
    let mut target = target(Arch::X86_64, 20);
    let before = target.regs;
    let result = call(
        &mut target,
        DLOPEN,
        vec![Arg::Slice(b"/some/lib.so\0".to_vec()), Arg::Numeric(1)],
    );
    assert!(matches!(result, Ok(0xb1d6e)));
    assert_eq!(target.loaded, vec!["/some/lib.so".to_string()]);
    assert_eq!(target.regs, before);
    assert_eq!(target.set.len(), 2);
    assert_eq!(target.set[1], before);
    assert_eq!(target.set[0].pc(), DLOPEN);
    assert_eq!(target.set[0].sp() % 16, 8);
}

#[test]
fn remote_call_on_aarch64_keeps_the_stack_aligned() {
    let mut target = target(Arch::Aarch64, 20);
    let before = target.regs;
    let result = call(&mut target, MUNMAP, vec![Arg::Numeric(0x1000), Arg::Numeric(0x2000)]);
    assert!(matches!(result, Ok(0)));
    assert_eq!(target.unmapped, vec![(0x1000, 0x2000)]);
    assert_eq!(target.regs, before);
    assert_eq!(target.set[0].sp() % 16, 0);
}

#[test]
fn remote_call_that_stops_elsewhere_fails_and_restores() {
    let mut target = target(Arch::X86_64, 20);
    let before = target.regs;
    let result = call(&mut target, 0x4444_0000, Vec::new());
    assert!(matches!(
        result,
        Err(Error::RemoteCallFailed { expected_return: LIBC_BASE, observed_pc: 0x4444_0000 })
    ));
    assert_eq!(target.regs, before);
}

#[test]
fn remote_call_goes_through_its_phases() {
    let mut call = RemoteCall::new(0x10, Vec::new(), 0x20);
    let regs = Registers::Aarch64(Aarch64Regs { sp: 0x8000, ..Default::default() });
    assert!(matches!(call.request(), Some(Request::GetRegs)));
    assert!(matches!(call.step(Reply::Regs(regs)), Step::Ask(Request::SetRegs(_))));
    assert!(matches!(call.step(Reply::Done), Step::Ask(Request::Cont)));
    assert!(matches!(call.step(Reply::Done), Step::Ask(Request::Wait)));
    assert!(matches!(
        call.step(Reply::Status(WaitStatus::Stopped(SIGSEGV))),
        Step::Ask(Request::GetRegs)
    ));
    let after = Registers::Aarch64(Aarch64Regs { x0: 5, pc: 0x20, ..Default::default() });
    assert!(matches!(call.step(Reply::Regs(after)), Step::Ask(Request::SetRegs(r)) if r == regs));
    assert!(matches!(call.step(Reply::Done), Step::Done(Ok(5))));
    assert_eq!(call.backup(), Some(regs));
}

#[test]
fn remote_call_fails_on_any_other_stop() {
    let mut call = RemoteCall::new(0x10, Vec::new(), 0x20);
    let regs = Registers::Aarch64(Aarch64Regs { sp: 0x8000, ..Default::default() });
    call.step(Reply::Regs(regs));
    call.step(Reply::Done);
    call.step(Reply::Done);
    assert!(matches!(
        call.step(Reply::Status(WaitStatus::Stopped(19))),
        Step::Ask(Request::SetRegs(r)) if r == regs
    ));
    assert!(matches!(call.step(Reply::Done), Step::Done(Err(Error::RemotePtraceFailed))));
    for status in [WaitStatus::Stopped(5), WaitStatus::Other] {
        let mut call = RemoteCall::new(0x10, Vec::new(), 0x20);
        call.step(Reply::Regs(regs));
        call.step(Reply::Done);
        call.step(Reply::Done);
        assert!(matches!(call.step(Reply::Status(status)), Step::Ask(Request::SetRegs(_))));
    }
}

#[test]
fn remote_call_without_registers_has_nothing_to_restore() {
    let mut call = RemoteCall::new(0x10, Vec::new(), 0x20);
    assert!(matches!(
        call.step(Reply::Failed(Failure::NoSuchProcess)),
        Step::Done(Err(Error::RemotePtraceFailed))
    ));
    assert!(call.request().is_none());
}

#[test]
fn c_string_is_read_word_by_word() {
    let mut reader = StringReader::new(0x1000);
    assert!(matches!(reader.request(), Some(Request::Peek(0x1000))));
    let step = reader.step(Reply::Word(u64::from_le_bytes(*b"zygote64")));
    assert!(matches!(step, Step::Ask(Request::Peek(0x1008))));
    let step = reader.step(Reply::Word(u64::from_le_bytes(*b"!\0ignore")));
    assert!(matches!(step, Step::Done(Ok(text)) if text == "zygote64!"));
    assert!(reader.request().is_none());
}

#[test]
fn c_string_that_is_no_text_is_refused() {
    let mut reader = StringReader::new(0x1000);
    let step = reader.step(Reply::Word(u64::from_le_bytes([0xff, 0xfe, 0, 0, 0, 0, 0, 0])));
    assert!(matches!(step, Step::Done(Err(Error::InvalidText))));
}

#[test]
fn c_string_that_cannot_be_read_fails() {
    let mut reader = StringReader::new(0x1000);
    assert!(matches!(
        reader.step(Reply::Failed(Failure::Interrupted)),
        Step::Ask(Request::Peek(0x1000))
    ));
    assert!(matches!(
        reader.step(Reply::Failed(Failure::Interrupted)),
        Step::Done(Err(Error::RemotePtraceFailed))
    ));
}

#[test]
fn java_string_is_read_through_the_target() {
    let mut target = target(Arch::Aarch64, 20);
    let before = target.regs;
    let mut reader = JavaStringReader::new(ENV, NAME, LIBC_BASE);
    let mut request = reader.request().unwrap();
    let text = loop {
        let reply = target.perform(request);
        match reader.step(reply) {
            Step::Ask(next) => request = next,
            Step::Done(result) => break result,
        }
    };
    assert!(matches!(text, Ok(name) if name == "com.example.app:remote"));
    assert_eq!(target.released, 1);
    assert_eq!(target.regs, before);
}

#[test]
fn attachment_waits_out_the_stops_without_signal() {
    let mut tracee = Tracee::new();
    assert!(matches!(tracee.request(), Some(Request::Seize)));
    assert!(matches!(tracee.attach(Reply::Done), Step::Ask(Request::Wait)));
    let stopped = Reply::Status(WaitStatus::Stopped(19));
    assert!(matches!(tracee.attach(stopped), Step::Ask(Request::SigInfo)));
    assert!(matches!(
        tracee.attach(Reply::Failed(Failure::InvalidArgument)),
        Step::Ask(Request::Cont)
    ));
    assert!(matches!(tracee.attach(Reply::Done), Step::Ask(Request::Wait)));
    assert!(matches!(
        tracee.attach(Reply::Failed(Failure::Interrupted)),
        Step::Ask(Request::Wait)
    ));
    let stopped = Reply::Status(WaitStatus::Stopped(18));
    assert!(matches!(tracee.attach(stopped), Step::Ask(Request::SigInfo)));
    assert!(matches!(tracee.attach(Reply::Done), Step::Ask(Request::SendCont)));
    assert!(matches!(tracee.attach(Reply::Done), Step::Ask(Request::Cont)));
    assert!(matches!(tracee.attach(Reply::Done), Step::Ask(Request::Wait)));
    let stopped = Reply::Status(WaitStatus::Stopped(19));
    assert!(matches!(tracee.attach(stopped), Step::Ask(Request::GetRegs)));
    let regs = Registers::X86_64(X86Regs { rip: 5, ..Default::default() });
    assert!(matches!(tracee.attach(Reply::Regs(regs)), Step::Done(Ok(r)) if r == regs));
    assert!(tracee.request().is_none());
}

#[test]
fn attachment_that_fails_continues_the_child() {
    let mut tracee = Tracee::new();
    assert!(matches!(
        tracee.attach(Reply::Failed(Failure::NoSuchProcess)),
        Step::Ask(Request::SendCont)
    ));
    assert!(matches!(tracee.attach(Reply::Done), Step::Done(Err(Error::RemotePtraceFailed))));
    let mut tracee = Tracee::new();
    tracee.attach(Reply::Done);
    assert!(matches!(
        tracee.attach(Reply::Failed(Failure::Interrupted)),
        Step::Ask(Request::Wait)
    ));
    assert!(matches!(
        tracee.attach(Reply::Failed(Failure::Interrupted)),
        Step::Ask(Request::SendCont)
    ));
    assert!(matches!(
        tracee.attach(Reply::Failed(Failure::NoSuchProcess)),
        Step::Done(Err(Error::RemotePtraceFailed))
    ));
    assert!(tracee.request().is_none());
}
