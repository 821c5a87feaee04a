//! What the engine asks of the process that traces the target, and what it
//! is told in return. The engine decides; the tracing itself is done by
//! whoever drives it, one request at a time.

use crate::regs::Registers;
use crate::remote::{Poke, Write, WriteView};
use vstd::prelude::*;

verus! {

/// Signal that stops a target when it jumps to an address at which it cannot
/// execute: this is how a remote call ends.
pub const SIGSEGV: i32 = 11;

/// Why a request failed, as far as the engine tells failures apart.
#[derive(Clone, Copy, Debug, PartialEq, Eq, Structural)]
pub enum Failure {
    /// The call was interrupted (`EINTR`).
    Interrupted,
    /// The process is gone (`ESRCH`).
    NoSuchProcess,
    /// The request does not apply (`EINVAL`).
    InvalidArgument,
    /// Any other error.
    Other,
}

/// How a wait for the target ended.
#[derive(Clone, Copy, Debug, PartialEq, Eq, Structural)]
pub enum WaitStatus {
    /// The target was stopped by this signal.
    Stopped(i32),
    /// Anything else: the target exited, was killed, or continued.
    Other,
}

/// A request of the engine.
#[derive(Debug)]
pub enum Request {
    /// Seize the target for tracing.
    Seize,
    /// Wait for the target to change state.
    Wait,
    /// Ask for the signal that stopped the target.
    SigInfo,
    /// Let the stopped target run.
    Cont,
    /// Send the target the signal that continues a stopped process.
    SendCont,
    /// Read the target's registers.
    GetRegs,
    /// Set the target's registers.
    SetRegs(Registers),
    /// Read the word at an address of the target.
    Peek(u64),
    /// Store a word in the target.
    Poke(Poke),
    /// Store bytes in the target.
    Write(Write),
    /// Read the target's mappings.
    ReadMaps,
    /// Look up the address of a symbol in the file of a library.
    Resolve { library: String, symbol: String },
    /// Ask the filter whether the process is to be injected.
    Filter { uid: u32, package: Option<String>, process: Option<String> },
}

/// A request as a plain value.
pub enum RequestView {
    Seize,
    Wait,
    SigInfo,
    Cont,
    SendCont,
    GetRegs,
    SetRegs(Registers),
    Peek(u64),
    Poke(Poke),
    Write(WriteView),
    ReadMaps,
    Resolve { library: Seq<char>, symbol: Seq<char> },
    Filter { uid: u32, package: Option<Seq<char>>, process: Option<Seq<char>> },
}

/// The text of an optional string.
pub open spec fn text_of(s: Option<String>) -> Option<Seq<char>> {
    match s {
        Some(t) => Some(t@),
        None => None,
    }
}

impl View for Request {
    type V = RequestView;

    open spec fn view(&self) -> RequestView {
        match self {
            Request::Seize => RequestView::Seize,
            Request::Wait => RequestView::Wait,
            Request::SigInfo => RequestView::SigInfo,
            Request::Cont => RequestView::Cont,
            Request::SendCont => RequestView::SendCont,
            Request::GetRegs => RequestView::GetRegs,
            Request::SetRegs(regs) => RequestView::SetRegs(*regs),
            Request::Peek(addr) => RequestView::Peek(*addr),
            Request::Poke(poke) => RequestView::Poke(*poke),
            Request::Write(write) => RequestView::Write(write@),
            Request::ReadMaps => RequestView::ReadMaps,
            Request::Resolve { library, symbol } => RequestView::Resolve {
                library: library@,
                symbol: symbol@,
            },
            Request::Filter { uid, package, process } => RequestView::Filter {
                uid: *uid,
                package: text_of(*package),
                process: text_of(*process),
            },
        }
    }
}

/// The answer to a request.
#[derive(Debug)]
pub enum Reply {
    /// The request was carried out and has nothing to tell.
    Done,
    /// The wait ended.
    Status(WaitStatus),
    /// The registers that were read.
    Regs(Registers),
    /// The word that was read.
    Word(u64),
    /// The text of the mapping file.
    Maps(String),
    /// The address of the symbol in its library.
    Offset(u64),
    /// What the filter said: `true` to inject.
    Verdict(bool),
    /// The request failed.
    Failed(Failure),
}

/// An answer as a plain value.
pub enum ReplyView {
    Done,
    Status(WaitStatus),
    Regs(Registers),
    Word(u64),
    Maps(Seq<char>),
    Offset(u64),
    Verdict(bool),
    Failed(Failure),
}

impl View for Reply {
    type V = ReplyView;

    open spec fn view(&self) -> ReplyView {
        match self {
            Reply::Done => ReplyView::Done,
            Reply::Status(status) => ReplyView::Status(*status),
            Reply::Regs(regs) => ReplyView::Regs(*regs),
            Reply::Word(word) => ReplyView::Word(*word),
            Reply::Maps(text) => ReplyView::Maps(text@),
            Reply::Offset(at) => ReplyView::Offset(*at),
            Reply::Verdict(inject) => ReplyView::Verdict(*inject),
            Reply::Failed(why) => ReplyView::Failed(*why),
        }
    }
}

impl Request {
    /// A copy of the request.
    pub fn duplicate(&self) -> (copy: Request)
        ensures
            copy@ == self@,
    {
        match self {
            Request::Seize => Request::Seize,
            Request::Wait => Request::Wait,
            Request::SigInfo => Request::SigInfo,
            Request::Cont => Request::Cont,
            Request::SendCont => Request::SendCont,
            Request::GetRegs => Request::GetRegs,
            Request::SetRegs(regs) => Request::SetRegs(*regs),
            Request::Peek(addr) => Request::Peek(*addr),
            Request::Poke(poke) => Request::Poke(*poke),
            Request::Write(write) => Request::Write(
                Write { addr: write.addr, data: vstd::slice::slice_to_vec(write.data.as_slice()) },
            ),
            Request::ReadMaps => Request::ReadMaps,
            Request::Resolve { library, symbol } => Request::Resolve {
                library: library.clone(),
                symbol: symbol.clone(),
            },
            Request::Filter { uid, package, process } => Request::Filter {
                uid: *uid,
                package: match package {
                    Some(p) => Some(p.clone()),
                    None => None,
                },
                process: match process {
                    Some(p) => Some(p.clone()),
                    None => None,
                },
            },
        }
    }
}

/// The stop is one with which a remote call ends: the fault at the return
/// address.
pub open spec fn ends_call(status: WaitStatus) -> bool {
    status == WaitStatus::Stopped(SIGSEGV)
}

/// What a step of an engine hands back.
#[derive(Debug)]
pub enum Step<T> {
    /// The next request to carry out.
    Ask(Request),
    /// The work is over, with this result.
    Done(T),
}

} // verus!
