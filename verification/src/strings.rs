//! Reading strings out of the target: a C string word by word, and a Java
//! string through the target's own JNI functions.

use crate::call::{CallPhase, CallState, RemoteCall};
use crate::error::{Error, ErrorView};
use crate::protocol::{Failure, Reply, ReplyView, Request, RequestView, Step};
use crate::remote::{append_word, args_view, le_bytes, until_nul, Arg, ArgView};
use crate::text::{decode, decoded};
use vstd::prelude::*;

verus! {

/// Offset of `GetStringUTFChars` in the table of JNI functions.
pub const GET_STRING_UTF_CHARS: u64 = 1352;

/// Offset of `ReleaseStringUTFChars` in the table of JNI functions.
pub const RELEASE_STRING_UTF_CHARS: u64 = 1360;

/// The result of reading a string, as plain values.
pub open spec fn text_result(result: Result<String, Error>) -> Result<Seq<char>, ErrorView> {
    match result {
        Ok(text) => Ok(text@),
        Err(error) => Err(error@),
    }
}

/// The text that the bytes of a C string stand for.
pub open spec fn as_text(bytes: Seq<u8>) -> Result<Seq<char>, ErrorView> {
    match decoded(bytes) {
        Some(text) => Ok(text),
        None => Err(ErrorView::InvalidText),
    }
}

/// The state of reading a C string.
pub struct TextState {
    /// Address of the next word to read.
    pub addr: u64,
    /// The bytes read so far.
    pub bytes: Seq<u8>,
    /// The outcome, once the string has ended or a read has failed.
    pub result: Option<Result<Seq<char>, ErrorView>>,
    pub retried: bool,
}

impl TextState {
    /// The state in which a string at `addr` starts to be read.
    pub open spec fn start(addr: u64) -> TextState {
        TextState { addr, bytes: Seq::empty(), result: None, retried: false }
    }

    /// The request that waits to be answered; `None` when the work is over.
    pub open spec fn pending(self) -> Option<RequestView> {
        if self.result is Some {
            None
        } else {
            Some(RequestView::Peek(self.addr))
        }
    }

    /// The state after the pending read was answered. The bytes of the word
    /// in front of its first zero byte are kept; with a zero byte the string
    /// is complete and is decoded, without one the next word is read.
    #[verifier::opaque]
    pub open spec fn after(self, reply: ReplyView) -> TextState {
        if self.result is Some {
            self
        } else if reply == ReplyView::Failed(Failure::Interrupted) && !self.retried {
            TextState { retried: true, ..self }
        } else {
            match reply {
                ReplyView::Word(word) => {
                    let bytes = self.bytes + until_nul(le_bytes(word));
                    if le_bytes(word).contains(0u8) {
                        TextState { bytes, result: Some(as_text(bytes)), retried: false, ..self }
                    } else {
                        TextState {
                            bytes,
                            addr: self.addr.wrapping_add(8),
                            retried: false,
                            ..self
                        }
                    }
                },
                _ => TextState {
                    result: Some(Err(ErrorView::RemotePtraceFailed)),
                    retried: false,
                    ..self
                },
            }
        }
    }
}

/// Reads a C string out of the target.
#[derive(Debug)]
pub struct StringReader {
    addr: u64,
    buffer: Vec<u8>,
    result: Option<Result<String, Error>>,
    retried: bool,
}

impl View for StringReader {
    type V = TextState;

    closed spec fn view(&self) -> TextState {
        TextState {
            addr: self.addr,
            bytes: self.buffer@,
            result: match self.result {
                Some(result) => Some(text_result(result)),
                None => None,
            },
            retried: self.retried,
        }
    }
}

impl StringReader {
    /// A reader of the string that starts at `addr`.
    pub fn new(addr: u64) -> (reader: Self)
        ensures
            reader@ == TextState::start(addr),
    {
        StringReader { addr, buffer: Vec::new(), result: None, retried: false }
    }

    fn outcome(&self) -> (step: Step<Result<String, Error>>)
        ensures
            match step {
                Step::Ask(request) => self@.pending() == Some(request@),
                Step::Done(result) => self@.result == Some(text_result(result)),
            },
    {
        match &self.result {
            None => Step::Ask(Request::Peek(self.addr)),
            Some(Ok(text)) => Step::Done(Ok(text.clone())),
            Some(Err(error)) => Step::Done(Err(error.duplicate())),
        }
    }

    /// The request that waits to be answered; `None` when the string has
    /// been read.
    pub fn request(&self) -> (pending: Option<Request>)
        ensures
            match pending {
                Some(request) => self@.pending() == Some(request@),
                None => self@.pending() is None,
            },
    {
        match &self.result {
            None => Some(Request::Peek(self.addr)),
            Some(_) => None,
        }
    }

    /// Takes the answer to the pending request and hands back what comes
    /// next.
    pub fn step(&mut self, reply: Reply) -> (step: Step<Result<String, Error>>)
        ensures
            final(self)@ == old(self)@.after(reply@),
            match step {
                Step::Ask(request) => final(self)@.pending() == Some(request@),
                Step::Done(result) => final(self)@.result == Some(text_result(result)),
            },
    {
        proof {
            reveal(TextState::after);
        }
        if self.result.is_some() {
            return self.outcome();
        }
        match reply {
            Reply::Failed(Failure::Interrupted) if !self.retried => {
                self.retried = true;
            },
            Reply::Word(word) => {
                let end = append_word(&mut self.buffer, word);
                self.retried = false;
                if end {
                    self.result = Some(
                        match decode(self.buffer.as_slice()) {
                            Some(text) => Ok(text),
                            None => Err(Error::InvalidText),
                        },
                    );
                } else {
                    self.addr = self.addr.wrapping_add(8);
                }
            },
            _ => {
                self.result = Some(Err(Error::RemotePtraceFailed));
                self.retried = false;
            },
        }
        self.outcome()
    }
}

/// How far the reading of a Java string has come.
#[derive(Clone, Copy, Debug, PartialEq, Eq, Structural)]
pub enum JavaPhase {
    /// The address of the function table is read from the environment.
    Table,
    /// The address of `GetStringUTFChars` is read from the table.
    Getter,
    /// The address of `ReleaseStringUTFChars` is read from the table.
    Releaser,
    /// The target is made to hand out the characters of the string.
    Acquire,
    /// The characters are read.
    Read,
    /// The target is made to take the characters back.
    Free,
    Finished,
}

/// The arguments with which the target hands out the characters of a string.
pub open spec fn acquire_args(env: u64, string: u64) -> Seq<ArgView> {
    seq![ArgView::Numeric(env), ArgView::Numeric(string), ArgView::Numeric(0)]
}

/// The arguments with which the target takes back the characters at `chars`.
pub open spec fn free_args(env: u64, string: u64, chars: u64) -> Seq<ArgView> {
    seq![ArgView::Numeric(env), ArgView::Numeric(string), ArgView::Numeric(chars)]
}

/// The state of reading a Java string.
pub struct JavaState {
    pub phase: JavaPhase,
    /// The JNI environment of the target.
    pub env: u64,
    /// The reference to the string.
    pub string: u64,
    /// Where the remote calls are made to return.
    pub return_addr: u64,
    /// Address of the function table, once read.
    pub table: u64,
    /// Address of `GetStringUTFChars`, once read.
    pub get: u64,
    /// Address of `ReleaseStringUTFChars`, once read.
    pub release: u64,
    /// Address of the characters, once handed out.
    pub chars: u64,
    /// The remote call in progress, in the phases that make one.
    pub call: CallState,
    /// The reading in progress, in the phase that reads.
    pub reader: TextState,
    /// What was read, once the reading is over.
    pub text: Option<Result<Seq<char>, ErrorView>>,
    /// The outcome.
    pub result: Option<Result<Seq<char>, ErrorView>>,
    pub retried: bool,
}

impl JavaState {
    /// The state in which the Java string `string` starts to be read.
    pub open spec fn start(env: u64, string: u64, return_addr: u64) -> JavaState {
        JavaState {
            phase: JavaPhase::Table,
            env,
            string,
            return_addr,
            table: 0,
            get: 0,
            release: 0,
            chars: 0,
            call: CallState::start(0, Seq::empty(), return_addr),
            reader: TextState::start(0),
            text: None,
            result: None,
            retried: false,
        }
    }

    /// The state is one that the machine can be in.
    pub open spec fn wf(self) -> bool {
        &&& self.call.wf()
        &&& self.phase == JavaPhase::Finished <==> self.result is Some
        &&& self.phase == JavaPhase::Acquire || self.phase == JavaPhase::Free ==> self.call.phase
            != CallPhase::Finished
        &&& self.phase == JavaPhase::Read ==> self.reader.result is None
        &&& self.phase == JavaPhase::Free ==> self.text is Some
    }

    /// The request that waits to be answered; `None` when the work is over.
    pub open spec fn pending(self) -> Option<RequestView> {
        match self.phase {
            JavaPhase::Table => Some(RequestView::Peek(self.env)),
            JavaPhase::Getter => Some(
                RequestView::Peek(self.table.wrapping_add(GET_STRING_UTF_CHARS)),
            ),
            JavaPhase::Releaser => Some(
                RequestView::Peek(self.table.wrapping_add(RELEASE_STRING_UTF_CHARS)),
            ),
            JavaPhase::Acquire => self.call.pending(),
            JavaPhase::Read => self.reader.pending(),
            JavaPhase::Free => self.call.pending(),
            JavaPhase::Finished => None,
        }
    }

    /// The state in which the work is over, with the given result.
    pub open spec fn finished(self, result: Result<Seq<char>, ErrorView>) -> JavaState {
        JavaState { phase: JavaPhase::Finished, result: Some(result), retried: false, ..self }
    }

    /// The state after the pending request was answered. The three
    /// addresses are read one after the other; then the target is made to
    /// hand out the characters, the characters are read as a C string, and
    /// the target is made to take them back, whether or not they could be
    /// read. Any failure ends the reading.
    #[verifier::opaque]
    pub open spec fn after(self, reply: ReplyView) -> JavaState {
        match self.phase {
            JavaPhase::Finished => self,
            JavaPhase::Acquire => {
                let call = self.call.after(reply);
                if call.phase == CallPhase::Finished {
                    match call.result {
                        Some(Ok(chars)) => JavaState {
                            phase: JavaPhase::Read,
                            chars,
                            call,
                            reader: TextState::start(chars),
                            ..self
                        },
                        Some(Err(error)) => JavaState { call, ..self }.finished(Err(error)),
                        None => JavaState { call, ..self }.finished(
                            Err(ErrorView::RemotePtraceFailed),
                        ),
                    }
                } else {
                    JavaState { call, ..self }
                }
            },
            JavaPhase::Read => {
                let reader = self.reader.after(reply);
                if reader.result is Some {
                    JavaState {
                        phase: JavaPhase::Free,
                        reader,
                        text: reader.result,
                        call: CallState::start(
                            self.release,
                            free_args(self.env, self.string, self.chars),
                            self.return_addr,
                        ),
                        ..self
                    }
                } else {
                    JavaState { reader, ..self }
                }
            },
            JavaPhase::Free => {
                let call = self.call.after(reply);
                if call.phase == CallPhase::Finished {
                    match call.result {
                        Some(Ok(_)) => JavaState { call, ..self }.finished(self.text->0),
                        Some(Err(error)) => JavaState { call, ..self }.finished(Err(error)),
                        None => JavaState { call, ..self }.finished(
                            Err(ErrorView::RemotePtraceFailed),
                        ),
                    }
                } else {
                    JavaState { call, ..self }
                }
            },
            _ => if reply == ReplyView::Failed(Failure::Interrupted) && !self.retried {
                JavaState { retried: true, ..self }
            } else {
                match reply {
                    ReplyView::Word(word) => match self.phase {
                        JavaPhase::Table => JavaState {
                            phase: JavaPhase::Getter,
                            table: word,
                            retried: false,
                            ..self
                        },
                        JavaPhase::Getter => JavaState {
                            phase: JavaPhase::Releaser,
                            get: word,
                            retried: false,
                            ..self
                        },
                        _ => JavaState {
                            phase: JavaPhase::Acquire,
                            release: word,
                            call: CallState::start(
                                self.get,
                                acquire_args(self.env, self.string),
                                self.return_addr,
                            ),
                            retried: false,
                            ..self
                        },
                    },
                    _ => self.finished(Err(ErrorView::RemotePtraceFailed)),
                }
            },
        }
    }
}

/// Reads a Java string out of the target, through the JNI functions of the
/// target itself.
#[derive(Debug)]
pub struct JavaStringReader {
    phase: JavaPhase,
    env: u64,
    string: u64,
    return_addr: u64,
    table: u64,
    get: u64,
    release: u64,
    chars: u64,
    call: RemoteCall,
    reader: StringReader,
    text: Option<Result<String, Error>>,
    result: Option<Result<String, Error>>,
    retried: bool,
}

/// The result of reading a string, once there is one, as plain values.
pub open spec fn optional_text_result(result: Option<Result<String, Error>>) -> Option<
    Result<Seq<char>, ErrorView>,
> {
    match result {
        Some(r) => Some(text_result(r)),
        None => None,
    }
}

impl View for JavaStringReader {
    type V = JavaState;

    closed spec fn view(&self) -> JavaState {
        JavaState {
            phase: self.phase,
            env: self.env,
            string: self.string,
            return_addr: self.return_addr,
            table: self.table,
            get: self.get,
            release: self.release,
            chars: self.chars,
            call: self.call@,
            reader: self.reader@,
            text: optional_text_result(self.text),
            result: optional_text_result(self.result),
            retried: self.retried,
        }
    }
}

fn copy_text_result(result: &Result<String, Error>) -> (copy: Result<String, Error>)
    ensures
        text_result(copy) == text_result(*result),
{
    match result {
        Ok(text) => Ok(text.clone()),
        Err(error) => Err(error.duplicate()),
    }
}

fn three(a: u64, b: u64, c: u64) -> (args: Vec<Arg>)
    ensures
        args@.len() == 3,
        args_view(args@) == seq![ArgView::Numeric(a), ArgView::Numeric(b), ArgView::Numeric(c)],
{
    let mut args: Vec<Arg> = Vec::new();
    args.push(Arg::Numeric(a));
    args.push(Arg::Numeric(b));
    args.push(Arg::Numeric(c));
    assert(args_view(args@) =~= seq![
        ArgView::Numeric(a),
        ArgView::Numeric(b),
        ArgView::Numeric(c),
    ]);
    args
}

impl JavaStringReader {
    /// The machine is in a state that it can be in, and so are the machines
    /// that it drives.
    pub closed spec fn wf(&self) -> bool {
        self@.wf() && self.call.wf()
    }

    /// A reader of the Java string `string` in the environment `env`. The
    /// remote calls that it makes return to `return_addr`.
    pub fn new(env: u64, string: u64, return_addr: u64) -> (reader: Self)
        ensures
            reader.wf(),
            reader@.wf(),
            reader@ == JavaState::start(env, string, return_addr),
    {
        let none: Vec<Arg> = Vec::new();
        assert(args_view(none@) =~= Seq::<ArgView>::empty());
        JavaStringReader {
            phase: JavaPhase::Table,
            env,
            string,
            return_addr,
            table: 0,
            get: 0,
            release: 0,
            chars: 0,
            call: RemoteCall::new(0, none, return_addr),
            reader: StringReader::new(0),
            text: None,
            result: None,
            retried: false,
        }
    }

    /// The request that waits to be answered; `None` when the string has
    /// been read.
    pub fn request(&self) -> (pending: Option<Request>)
        requires
            self.wf(),
        ensures
            match pending {
                Some(request) => self@.pending() == Some(request@),
                None => self@.pending() is None,
            },
    {
        match self.phase {
            JavaPhase::Table => Some(Request::Peek(self.env)),
            JavaPhase::Getter => Some(Request::Peek(self.table.wrapping_add(GET_STRING_UTF_CHARS))),
            JavaPhase::Releaser => Some(
                Request::Peek(self.table.wrapping_add(RELEASE_STRING_UTF_CHARS)),
            ),
            JavaPhase::Acquire => self.call.request(),
            JavaPhase::Read => self.reader.request(),
            JavaPhase::Free => self.call.request(),
            JavaPhase::Finished => None,
        }
    }

    fn outcome(&self) -> (step: Step<Result<String, Error>>)
        requires
            self.wf(),
        ensures
            match step {
                Step::Ask(request) => self@.pending() == Some(request@),
                Step::Done(result) => self@.result == Some(text_result(result)),
            },
    {
        match self.request() {
            Some(request) => Step::Ask(request),
            None => match &self.result {
                Some(result) => Step::Done(copy_text_result(result)),
                None => Step::Done(Err(Error::RemotePtraceFailed)),
            },
        }
    }

    fn finish(&mut self, result: Result<String, Error>)
        requires
            old(self).call.wf(),
            old(self)@.call.wf(),
        ensures
            final(self).wf(),
            final(self)@ == old(self)@.finished(text_result(result)),
    {
        self.phase = JavaPhase::Finished;
        self.result = Some(result);
        self.retried = false;
    }

    /// Takes the answer to the pending request and hands back what comes
    /// next.
    pub fn step(&mut self, reply: Reply) -> (step: Step<Result<String, Error>>)
        requires
            old(self).wf(),
        ensures
            final(self).wf(),
            final(self)@.wf(),
            final(self)@ == old(self)@.after(reply@),
            match step {
                Step::Ask(request) => final(self)@.pending() == Some(request@),
                Step::Done(result) => final(self)@.result == Some(text_result(result)),
            },
    {
        proof {
            reveal(JavaState::after);
        }
        match self.phase {
            JavaPhase::Finished => {},
            JavaPhase::Acquire => {
                match self.call.step(reply) {
                    Step::Ask(_) => {},
                    Step::Done(Ok(chars)) => {
                        self.phase = JavaPhase::Read;
                        self.chars = chars;
                        self.reader = StringReader::new(chars);
                    },
                    Step::Done(Err(error)) => {
                        self.finish(Err(error));
                    },
                }
            },
            JavaPhase::Read => {
                match self.reader.step(reply) {
                    Step::Ask(_) => {},
                    Step::Done(text) => {
                        self.phase = JavaPhase::Free;
                        self.text = Some(text);
                        self.call = RemoteCall::new(
                            self.release,
                            three(self.env, self.string, self.chars),
                            self.return_addr,
                        );
                    },
                }
            },
            JavaPhase::Free => {
                match self.call.step(reply) {
                    Step::Ask(_) => {},
                    Step::Done(Ok(_)) => {
                        let text = match &self.text {
                            Some(text) => copy_text_result(text),
                            None => Err(Error::RemotePtraceFailed),
                        };
                        self.finish(text);
                    },
                    Step::Done(Err(error)) => {
                        self.finish(Err(error));
                    },
                }
            },
            _ => {
                match reply {
                    Reply::Failed(Failure::Interrupted) if !self.retried => {
                        self.retried = true;
                    },
                    Reply::Word(word) => {
                        match self.phase {
                            JavaPhase::Table => {
                                self.phase = JavaPhase::Getter;
                                self.table = word;
                            },
                            JavaPhase::Getter => {
                                self.phase = JavaPhase::Releaser;
                                self.get = word;
                            },
                            _ => {
                                self.phase = JavaPhase::Acquire;
                                self.release = word;
                                self.call = RemoteCall::new(
                                    self.get,
                                    three(self.env, self.string, 0),
                                    self.return_addr,
                                );
                            },
                        }
                        self.retried = false;
                    },
                    _ => {
                        self.finish(Err(Error::RemotePtraceFailed));
                    },
                }
            },
        }
        self.outcome()
    }
}

} // verus!
