//! One call as a machine. The machine asks for one thing at a time (whether a
//! file exists, the launch of the child), is told the answer, and ends with
//! the reply for the caller. It never touches the disk or a process itself.

use crate::failure::{Failure, Fault};
use crate::layout::{
    interpreter_below, interpreter_path, path_bytes, path_from, script_below, script_path,
};
use crate::text::{decode, decoded, text_of, trim, trimmed};
use std::path::PathBuf;
use vstd::prelude::*;
use vstd::utf8::encode_utf8;

verus! {

/// How the child is launched: the program, then its two arguments in order.
#[derive(Debug, PartialEq, Eq)]
pub struct Invocation {
    pub program: PathBuf,
    pub script: PathBuf,
    pub video: String,
}

/// An invocation as a mathematical value.
pub struct Call {
    pub program: Seq<u8>,
    pub script: Seq<u8>,
    pub video: Seq<char>,
}

impl View for Invocation {
    type V = Call;

    open spec fn view(&self) -> Call {
        Call {
            program: path_bytes(self.program),
            script: path_bytes(self.script),
            video: self.video@,
        }
    }
}

/// How the launch of the child ended.
#[derive(Debug, PartialEq, Eq)]
pub enum Completion {
    /// The child could not be launched.
    SpawnFailed { cause: String },
    /// The child ran and exited; `success` is its exit status, the rest is
    /// what it wrote to its two streams.
    Exited { success: bool, stdout: Vec<u8>, stderr: Vec<u8> },
}

/// A completion as a mathematical value.
pub enum Ending {
    SpawnFailed { cause: Seq<char> },
    Exited { success: bool, stdout: Seq<u8>, stderr: Seq<u8> },
}

impl View for Completion {
    type V = Ending;

    open spec fn view(&self) -> Ending {
        match *self {
            Completion::SpawnFailed { cause } => Ending::SpawnFailed { cause: cause@ },
            Completion::Exited { success, stdout, stderr } => Ending::Exited {
                success,
                stdout: stdout@,
                stderr: stderr@,
            },
        }
    }
}

/// What the machine is told.
#[derive(Debug, PartialEq, Eq)]
pub enum Event {
    /// Whether the file asked about exists.
    Probed(bool),
    /// How the launch asked for ended.
    Completed(Completion),
}

/// An event as a mathematical value.
pub enum Signal {
    Probed(bool),
    Completed(Ending),
}

impl View for Event {
    type V = Signal;

    open spec fn view(&self) -> Signal {
        match *self {
            Event::Probed(found) => Signal::Probed(found),
            Event::Completed(completion) => Signal::Completed(completion@),
        }
    }
}

/// What the machine asks for next.
#[derive(Debug, PartialEq, Eq)]
pub enum Action<'a> {
    /// Say whether this file exists.
    Probe(&'a PathBuf),
    /// Launch the child so, wait for it, and say how it ended.
    Spawn(&'a Invocation),
    /// Nothing more: hand this to the caller.
    Return(&'a Result<String, Failure>),
}

/// An action as a mathematical value.
pub enum Request {
    Probe(Seq<u8>),
    Spawn(Call),
    Return(Result<Seq<char>, Fault>),
}

/// The view of a call's outcome.
pub open spec fn outcome_view(outcome: Result<String, Failure>) -> Result<Seq<char>, Fault> {
    match outcome {
        Ok(text) => Ok(text@),
        Err(failure) => Err(failure@),
    }
}

impl<'a> View for Action<'a> {
    type V = Request;

    open spec fn view(&self) -> Request {
        match *self {
            Action::Probe(path) => Request::Probe(path_bytes(*path)),
            Action::Spawn(invocation) => Request::Spawn(invocation@),
            Action::Return(outcome) => Request::Return(outcome_view(*outcome)),
        }
    }
}

/// What a completion means for the caller. A launch that failed is reported
/// with its cause. After a successful exit the reply is what the child wrote
/// to standard output, decoded and trimmed; after any other exit it is a
/// failure that carries what the child wrote to standard error. Bytes that
/// are not UTF-8 are reported as such.
pub open spec fn concluded(ending: Ending) -> Result<Seq<char>, Fault> {
    match ending {
        Ending::SpawnFailed { cause } => Err(Fault::SpawnFailed { cause }),
        Ending::Exited { success, stdout, stderr } => if success {
            match decoded(stdout) {
                Ok(text) => Ok(trimmed(text)),
                Err(reason) => Err(Fault::OutputNotText { reason }),
            }
        } else {
            match decoded(stderr) {
                Ok(text) => Err(Fault::ChildFailed { stderr: text }),
                Err(reason) => Err(Fault::OutputNotText { reason }),
            }
        },
    }
}

/// Turns the way the launch ended into the outcome of the call.
pub fn conclude(completion: Completion) -> (outcome: Result<String, Failure>)
    ensures
        outcome_view(outcome) == concluded(completion@),
{
    match completion {
        Completion::SpawnFailed { cause } => Err(Failure::SpawnFailed { cause }),
        Completion::Exited { success, stdout, stderr } => {
            if success {
                match decode(stdout) {
                    Ok(text) => Ok(trim(text.as_str())),
                    Err(reason) => Err(Failure::OutputNotText { reason }),
                }
            } else {
                match decode(stderr) {
                    Ok(text) => Err(Failure::ChildFailed { stderr: text }),
                    Err(reason) => Err(Failure::OutputNotText { reason }),
                }
            }
        },
    }
}

/// What the caller receives for an outcome: the output, or the failure's
/// message.
pub open spec fn replied(outcome: Result<Seq<char>, Fault>) -> Result<Seq<char>, Seq<char>> {
    match outcome {
        Ok(text) => Ok(text),
        Err(fault) => Err(fault.message()),
    }
}

/// The outcome in the form the caller receives it.
pub fn reply(outcome: &Result<String, Failure>) -> (answer: Result<String, String>)
    ensures
        text_of(answer) == replied(outcome_view(*outcome)),
{
    match outcome {
        Ok(text) => Ok(text.clone()),
        Err(failure) => Err(failure.message()),
    }
}

/// Where a call stands.
#[derive(Debug, PartialEq, Eq)]
pub enum Bridge {
    /// Waiting to hear whether the interpreter exists.
    CheckingInterpreter { call: Invocation, video_file: PathBuf },
    /// Waiting to hear whether the script exists.
    CheckingScript { call: Invocation, video_file: PathBuf },
    /// Waiting to hear whether the video exists.
    CheckingVideo { call: Invocation, video_file: PathBuf },
    /// Waiting for the child to end.
    Running { call: Invocation },
    /// Done, with this outcome.
    Finished { outcome: Result<String, Failure> },
}

/// A call's state as a mathematical value.
pub enum Machine {
    CheckingInterpreter { call: Call, video_file: Seq<u8> },
    CheckingScript { call: Call, video_file: Seq<u8> },
    CheckingVideo { call: Call, video_file: Seq<u8> },
    Running { call: Call },
    Finished { outcome: Result<Seq<char>, Fault> },
}

impl View for Bridge {
    type V = Machine;

    open spec fn view(&self) -> Machine {
        match *self {
            Bridge::CheckingInterpreter { call, video_file } => Machine::CheckingInterpreter {
                call: call@,
                video_file: path_bytes(video_file),
            },
            Bridge::CheckingScript { call, video_file } => Machine::CheckingScript {
                call: call@,
                video_file: path_bytes(video_file),
            },
            Bridge::CheckingVideo { call, video_file } => Machine::CheckingVideo {
                call: call@,
                video_file: path_bytes(video_file),
            },
            Bridge::Running { call } => Machine::Running { call: call@ },
            Bridge::Finished { outcome } => Machine::Finished { outcome: outcome_view(outcome) },
        }
    }
}

impl Machine {
    /// The state in which a call begins. Without a resource root the call is
    /// over at once. With one, the interpreter and the script are placed below
    /// it, and the first question is whether the interpreter exists.
    pub open spec fn begin(root: Result<Seq<u8>, Seq<char>>, video: Seq<char>) -> Machine {
        match root {
            Err(cause) => Machine::Finished {
                outcome: Err(Fault::ResourceDirUnavailable { cause }),
            },
            Ok(root) => Machine::CheckingInterpreter {
                call: Call {
                    program: interpreter_below(root),
                    script: script_below(root),
                    video,
                },
                video_file: encode_utf8(video),
            },
        }
    }

    /// What the machine asks for in this state.
    pub open spec fn pending(self) -> Request {
        match self {
            Machine::CheckingInterpreter { call, .. } => Request::Probe(call.program),
            Machine::CheckingScript { call, .. } => Request::Probe(call.script),
            Machine::CheckingVideo { video_file, .. } => Request::Probe(video_file),
            Machine::Running { call } => Request::Spawn(call),
            Machine::Finished { outcome } => Request::Return(outcome),
        }
    }

    /// The state after an event. The answer to the pending request moves the
    /// machine on: a file that exists leads to the next question, one that
    /// does not ends the call, and so does the end of the child. Any other
    /// event changes nothing.
    pub open spec fn after(self, signal: Signal) -> Machine {
        match (self, signal) {
            (Machine::CheckingInterpreter { call, video_file }, Signal::Probed(found)) => if found {
                Machine::CheckingScript { call, video_file }
            } else {
                Machine::Finished { outcome: Err(Fault::InterpreterMissing { path: call.program }) }
            },
            (Machine::CheckingScript { call, video_file }, Signal::Probed(found)) => if found {
                Machine::CheckingVideo { call, video_file }
            } else {
                Machine::Finished { outcome: Err(Fault::ScriptMissing { path: call.script }) }
            },
            (Machine::CheckingVideo { call, .. }, Signal::Probed(found)) => if found {
                Machine::Running { call }
            } else {
                Machine::Finished { outcome: Err(Fault::VideoMissing { video: call.video }) }
            },
            (Machine::Running { .. }, Signal::Completed(ending)) => Machine::Finished {
                outcome: concluded(ending),
            },
            _ => self,
        }
    }
}

/// The view of what the host said about the resource root.
pub open spec fn root_view(root: Result<PathBuf, String>) -> Result<Seq<u8>, Seq<char>> {
    match root {
        Ok(path) => Ok(path_bytes(path)),
        Err(cause) => Err(cause@),
    }
}

impl Bridge {
    /// Begins a call for `video`, given the resource root or the reason why
    /// the host could not name it.
    pub fn start(root: Result<PathBuf, String>, video: String) -> (bridge: Bridge)
        ensures
            bridge@ == Machine::begin(root_view(root), video@),
    {
        match root {
            Err(cause) => Bridge::Finished {
                outcome: Err(Failure::ResourceDirUnavailable { cause }),
            },
            Ok(root) => {
                let program = interpreter_path(&root);
                let script = script_path(&root);
                let video_file = path_from(video.as_str());
                Bridge::CheckingInterpreter {
                    call: Invocation { program, script, video },
                    video_file,
                }
            },
        }
    }

    /// What is to be done next on the machine's behalf.
    pub fn pending(&self) -> (action: Action<'_>)
        ensures
            action@ == self@.pending(),
    {
        match self {
            Bridge::CheckingInterpreter { call, .. } => Action::Probe(&call.program),
            Bridge::CheckingScript { call, .. } => Action::Probe(&call.script),
            Bridge::CheckingVideo { video_file, .. } => Action::Probe(video_file),
            Bridge::Running { call } => Action::Spawn(call),
            Bridge::Finished { outcome } => Action::Return(outcome),
        }
    }

    /// Takes in an event and moves on.
    pub fn advance(self, event: Event) -> (next: Bridge)
        ensures
            next@ == self@.after(event@),
    {
        match self {
            Bridge::CheckingInterpreter { call, video_file } => match event {
                Event::Probed(true) => Bridge::CheckingScript { call, video_file },
                Event::Probed(false) => Bridge::Finished {
                    outcome: Err(Failure::InterpreterMissing { path: call.program }),
                },
                Event::Completed(_) => Bridge::CheckingInterpreter { call, video_file },
            },
            Bridge::CheckingScript { call, video_file } => match event {
                Event::Probed(true) => Bridge::CheckingVideo { call, video_file },
                Event::Probed(false) => Bridge::Finished {
                    outcome: Err(Failure::ScriptMissing { path: call.script }),
                },
                Event::Completed(_) => Bridge::CheckingScript { call, video_file },
            },
            Bridge::CheckingVideo { call, video_file } => match event {
                Event::Probed(true) => Bridge::Running { call },
                Event::Probed(false) => Bridge::Finished {
                    outcome: Err(Failure::VideoMissing { video: call.video }),
                },
                Event::Completed(_) => Bridge::CheckingVideo { call, video_file },
            },
            Bridge::Running { call } => match event {
                Event::Completed(completion) => Bridge::Finished { outcome: conclude(completion) },
                Event::Probed(_) => Bridge::Running { call },
            },
            Bridge::Finished { outcome } => Bridge::Finished { outcome },
        }
    }
}

} // verus!
