//! Second stage of an injection, for a loader with a filter: the names by
//! which the filter judges are read from the target, and the filter is
//! asked.

use crate::error::{Error, ErrorView};
use crate::protocol::{text_of, Failure, Reply, ReplyView, Request, RequestView, Step};
use crate::remote::{package_name, package_of};
use crate::strings::{JavaPhase, JavaState, JavaStringReader};
use vstd::prelude::*;

verus! {

/// How far the second stage has come.
#[derive(Clone, Copy, Debug, PartialEq, Eq, Structural)]
pub enum ScreenPhase {
    /// The data directory of the application is read, for the package name.
    Package,
    /// The name of the process is read.
    Process,
    /// The filter is asked.
    Ask,
    Finished,
}

/// The verdict of the filter, with its error as a plain value.
pub open spec fn verdict_view(result: Option<Result<bool, Error>>) -> Option<
    Result<bool, ErrorView>,
> {
    match result {
        Some(Ok(inject)) => Some(Ok(inject)),
        Some(Err(error)) => Some(Err(error@)),
        None => None,
    }
}

/// The state of the second stage.
pub struct ScreenState {
    pub phase: ScreenPhase,
    /// The user id that the child is about to take.
    pub uid: u32,
    /// The JNI environment of the target.
    pub env: u64,
    /// The Java string that names the data directory, or zero.
    pub dir: u64,
    /// The Java string that names the process, or zero.
    pub name: u64,
    /// Where the remote calls are made to return.
    pub return_addr: u64,
    pub package: Option<Seq<char>>,
    pub process: Option<Seq<char>>,
    pub java: JavaState,
    /// The verdict of the filter: `true` to inject.
    pub result: Option<Result<bool, ErrorView>>,
    pub retried: bool,
}

impl ScreenState {
    /// The state in which the screening starts. A string that the
    /// specialization function was not given is not read.
    pub open spec fn start(uid: u32, env: u64, dir: u64, name: u64, return_addr: u64) -> ScreenState {
        let state = ScreenState {
            phase: ScreenPhase::Ask,
            uid,
            env,
            dir,
            name,
            return_addr,
            package: None,
            process: None,
            java: JavaState::start(env, dir, return_addr),
            result: None,
            retried: false,
        };
        if dir != 0 {
            state.moved(ScreenPhase::Package)
        } else {
            state.enter_process()
        }
    }

    /// The state is one that the machine can be in.
    pub open spec fn wf(self) -> bool {
        &&& self.java.wf()
        &&& self.phase == ScreenPhase::Finished <==> self.result is Some
        &&& self.phase == ScreenPhase::Package || self.phase == ScreenPhase::Process
            ==> self.java.phase != JavaPhase::Finished
    }

    /// The request that waits to be answered; `None` when the work is over.
    pub open spec fn pending(self) -> Option<RequestView> {
        match self.phase {
            ScreenPhase::Package => self.java.pending(),
            ScreenPhase::Process => self.java.pending(),
            ScreenPhase::Ask => Some(
                RequestView::Filter {
                    uid: self.uid,
                    package: self.package,
                    process: self.process,
                },
            ),
            ScreenPhase::Finished => None,
        }
    }

    /// The state in the given phase, with a fresh count of retries.
    pub open spec fn moved(self, phase: ScreenPhase) -> ScreenState {
        ScreenState { phase, retried: false, ..self }
    }

    /// The state in which the work is over, with the given result.
    pub open spec fn finished(self, result: Result<bool, ErrorView>) -> ScreenState {
        ScreenState { phase: ScreenPhase::Finished, result: Some(result), retried: false, ..self }
    }

    /// With the package known: the name of the process is read, where the
    /// specialization function was given one.
    pub open spec fn enter_process(self) -> ScreenState {
        if self.name != 0 {
            ScreenState {
                java: JavaState::start(self.env, self.name, self.return_addr),
                ..self
            }.moved(ScreenPhase::Process)
        } else {
            self.moved(ScreenPhase::Ask)
        }
    }

    /// The state after a string has been read.
    pub open spec fn named(self, result: Result<Seq<char>, ErrorView>) -> ScreenState {
        match result {
            Err(error) => self.finished(Err(error)),
            Ok(text) => if self.phase == ScreenPhase::Package {
                ScreenState { package: package_of(text), ..self }.enter_process()
            } else {
                ScreenState { process: Some(text), ..self }.moved(ScreenPhase::Ask)
            },
        }
    }

    /// The state after the pending request was answered with `reply`. The
    /// package is named by what stands behind the last `/` of the data
    /// directory. A filter that does not answer fails the stage.
    #[verifier::opaque]
    pub open spec fn after(self, reply: ReplyView) -> ScreenState {
        match self.phase {
            ScreenPhase::Finished => self,
            ScreenPhase::Ask => if reply == ReplyView::Failed(Failure::Interrupted)
                && !self.retried {
                ScreenState { retried: true, ..self }
            } else {
                match reply {
                    ReplyView::Verdict(inject) => self.finished(Ok(inject)),
                    _ => self.finished(Err(ErrorView::FilterLibraryLoadFailed)),
                }
            },
            _ => {
                let java = self.java.after(reply);
                let stepped = ScreenState { java, ..self };
                if java.phase == JavaPhase::Finished {
                    stepped.named(java.result->0)
                } else {
                    stepped
                }
            },
        }
    }
}

/// The second stage of an injection, in progress.
#[derive(Debug)]
pub struct Screening {
    phase: ScreenPhase,
    uid: u32,
    env: u64,
    dir: u64,
    name: u64,
    return_addr: u64,
    package: Option<String>,
    process: Option<String>,
    java: JavaStringReader,
    result: Option<Result<bool, Error>>,
    retried: bool,
}

impl View for Screening {
    type V = ScreenState;

    closed spec fn view(&self) -> ScreenState {
        ScreenState {
            phase: self.phase,
            uid: self.uid,
            env: self.env,
            dir: self.dir,
            name: self.name,
            return_addr: self.return_addr,
            package: text_of(self.package),
            process: text_of(self.process),
            java: self.java@,
            result: verdict_view(self.result),
            retried: self.retried,
        }
    }
}

fn copy_text(text: &Option<String>) -> (copy: Option<String>)
    ensures
        text_of(copy) == text_of(*text),
{
    match text {
        Some(t) => Some(t.clone()),
        None => None,
    }
}

impl Screening {
    /// The machine is in a state that it can be in, and so are the machines
    /// that it drives.
    pub closed spec fn wf(&self) -> bool {
        self@.wf() && self.java.wf()
    }

    /// The screening of a process that takes the user id `uid`. `dir` and
    /// `name` are the Java strings that name its data directory and
    /// itself, zero where there is none; `return_addr` is where the remote
    /// calls are made to return.
    pub fn new(uid: u32, env: u64, dir: u64, name: u64, return_addr: u64) -> (stage: Self)
        ensures
            stage.wf(),
            stage@.wf(),
            stage@ == ScreenState::start(uid, env, dir, name, return_addr),
    {
        let mut stage = Screening {
            phase: ScreenPhase::Ask,
            uid,
            env,
            dir,
            name,
            return_addr,
            package: None,
            process: None,
            java: JavaStringReader::new(env, dir, return_addr),
            result: None,
            retried: false,
        };
        if dir != 0 {
            stage.phase = ScreenPhase::Package;
        } else {
            stage.enter_process();
        }
        stage
    }

    /// The request that waits to be answered; `None` when the stage is over.
    pub fn request(&self) -> (pending: Option<Request>)
        requires
            self.wf(),
        ensures
            match pending {
                Some(request) => self@.pending() == Some(request@),
                None => self@.pending() is None,
            },
    {
        match self.phase {
            ScreenPhase::Package | ScreenPhase::Process => self.java.request(),
            ScreenPhase::Ask => Some(
                Request::Filter {
                    uid: self.uid,
                    package: copy_text(&self.package),
                    process: copy_text(&self.process),
                },
            ),
            ScreenPhase::Finished => None,
        }
    }

    fn report(&self) -> (step: Step<Result<bool, Error>>)
        requires
            self.wf(),
        ensures
            match step {
                Step::Ask(request) => self@.pending() == Some(request@),
                Step::Done(result) => self@.result == verdict_view(Some(result)),
            },
    {
        match self.request() {
            Some(request) => Step::Ask(request),
            None => match &self.result {
                Some(Ok(inject)) => Step::Done(Ok(*inject)),
                Some(Err(error)) => Step::Done(Err(error.duplicate())),
                None => Step::Done(Err(Error::RemotePtraceFailed)),
            },
        }
    }

    fn finish(&mut self, result: Result<bool, Error>)
        requires
            old(self).java.wf(),
            old(self)@.java.wf(),
        ensures
            final(self)@ == old(self)@.finished(verdict_view(Some(result))->0),
            final(self).wf(),
    {
        self.phase = ScreenPhase::Finished;
        self.result = Some(result);
        self.retried = false;
    }

    fn enter_process(&mut self)
        requires
            old(self).java.wf(),
            old(self)@.java.wf(),
            old(self)@.result is None,
        ensures
            final(self)@ == old(self)@.enter_process(),
            final(self).wf(),
    {
        if self.name != 0 {
            self.java = JavaStringReader::new(self.env, self.name, self.return_addr);
            self.phase = ScreenPhase::Process;
        } else {
            self.phase = ScreenPhase::Ask;
        }
        self.retried = false;
    }

    fn named(&mut self, result: Result<String, Error>)
        requires
            old(self).java.wf(),
            old(self)@.java.wf(),
            old(self)@.result is None,
            old(self)@.phase == ScreenPhase::Package || old(self)@.phase == ScreenPhase::Process,
        ensures
            final(self)@ == old(self)@.named(crate::strings::text_result(result)),
            final(self).wf(),
    {
        match result {
            Err(error) => {
                self.finish(Err(error));
            },
            Ok(text) => {
                if self.phase == ScreenPhase::Package {
                    self.package = package_name(text.as_str());
                    self.enter_process();
                } else {
                    self.process = Some(text);
                    self.phase = ScreenPhase::Ask;
                    self.retried = false;
                }
            },
        }
    }

    /// Takes the answer to the pending request and hands back what comes
    /// next: another request, or the verdict of the filter.
    pub fn step(&mut self, reply: Reply) -> (step: Step<Result<bool, Error>>)
        requires
            old(self).wf(),
        ensures
            final(self).wf(),
            final(self)@.wf(),
            final(self)@ == old(self)@.after(reply@),
            match step {
                Step::Ask(request) => final(self)@.pending() == Some(request@),
                Step::Done(result) => final(self)@.result == verdict_view(Some(result)),
            },
    {
        proof {
            reveal(ScreenState::after);
        }
        match self.phase {
            ScreenPhase::Finished => {},
            ScreenPhase::Ask => match reply {
                Reply::Failed(Failure::Interrupted) if !self.retried => {
                    self.retried = true;
                },
                Reply::Verdict(inject) => {
                    self.finish(Ok(inject));
                },
                _ => {
                    self.finish(Err(Error::FilterLibraryLoadFailed));
                },
            },
            _ => match self.java.step(reply) {
                Step::Ask(_) => {},
                Step::Done(result) => {
                    self.named(result);
                },
            },
        }
        self.report()
    }
}

} // verus!
