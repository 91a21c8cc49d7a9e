//! The ways a call can fail, and the message each one carries to the caller.

use crate::layout::{path_bytes, quoted, quoted_text};
use crate::text::ends_with;
use std::path::PathBuf;
use vstd::prelude::*;

verus! {

/// Why a call did not return the script's output.
#[derive(Debug, PartialEq, Eq)]
pub enum Failure {
    /// The host could not say where the bundled resources are.
    ResourceDirUnavailable { cause: String },
    /// No interpreter at its place below the resource root.
    InterpreterMissing { path: PathBuf },
    /// No script at its place below the resource root.
    ScriptMissing { path: PathBuf },
    /// No file at the path that the caller named for the video.
    VideoMissing { video: String },
    /// The interpreter could not be launched.
    SpawnFailed { cause: String },
    /// What the child wrote is not UTF-8 text.
    OutputNotText { reason: String },
    /// The child exited unsuccessfully; this is what it wrote to standard error.
    ChildFailed { stderr: String },
}

/// A failure as a mathematical value: paths by their bytes, texts by their
/// characters.
pub enum Fault {
    ResourceDirUnavailable { cause: Seq<char> },
    InterpreterMissing { path: Seq<u8> },
    ScriptMissing { path: Seq<u8> },
    VideoMissing { video: Seq<char> },
    SpawnFailed { cause: Seq<char> },
    OutputNotText { reason: Seq<char> },
    ChildFailed { stderr: Seq<char> },
}

impl Fault {
    /// The message that the caller reads. Each missing file is named with
    /// its path: the interpreter and the script by the quoted form of their
    /// path, the video by the path as the caller wrote it.
    pub open spec fn message(self) -> Seq<char> {
        match self {
            Fault::ResourceDirUnavailable { cause } => "Failed to get resource dir: "@ + cause,
            Fault::InterpreterMissing { path } => "Python executable not found: "@ + quoted_text(
                path,
            ),
            Fault::ScriptMissing { path } => "Script not found: "@ + quoted_text(path),
            Fault::VideoMissing { video } => "Selected video file does not exist: "@ + video,
            Fault::SpawnFailed { cause } => cause,
            Fault::OutputNotText { reason } => reason,
            Fault::ChildFailed { stderr } => "Python script failed: "@ + stderr,
        }
    }
}

/// The message for a missing video ends with the video's path, as the caller
/// gave it.
pub proof fn video_message_ends_with_the_path(video: Seq<char>)
    ensures
        (Fault::VideoMissing { video }).message() == "Selected video file does not exist: "@
            + video,
        ends_with((Fault::VideoMissing { video }).message(), video),
{
    let message = (Fault::VideoMissing { video }).message();
    assert(message.subrange(message.len() - video.len(), message.len() as int) =~= video);
}

/// The message for a child that failed ends with what the child wrote to
/// standard error, as it was written.
pub proof fn child_message_ends_with_stderr(stderr: Seq<char>)
    ensures
        (Fault::ChildFailed { stderr }).message() == "Python script failed: "@ + stderr,
        ends_with((Fault::ChildFailed { stderr }).message(), stderr),
{
    let message = (Fault::ChildFailed { stderr }).message();
    assert(message.subrange(message.len() - stderr.len(), message.len() as int) =~= stderr);
}

/// The messages for the three files that can be missing differ from one
/// another, whatever the paths: the caller can tell which file it was.
pub proof fn missing_file_messages_differ(
    interpreter: Seq<u8>,
    script: Seq<u8>,
    video: Seq<char>,
)
    ensures
        (Fault::InterpreterMissing { path: interpreter }).message() != (Fault::ScriptMissing {
            path: script,
        }).message(),
        (Fault::InterpreterMissing { path: interpreter }).message() != (Fault::VideoMissing {
            video,
        }).message(),
        (Fault::ScriptMissing { path: script }).message() != (Fault::VideoMissing {
            video,
        }).message(),
{
    reveal_strlit("Python executable not found: ");
    reveal_strlit("Script not found: ");
    reveal_strlit("Selected video file does not exist: ");
    let first = (Fault::InterpreterMissing { path: interpreter }).message();
    let second = (Fault::ScriptMissing { path: script }).message();
    let third = (Fault::VideoMissing { video }).message();
    assert(first[0] == 'P');
    assert(second[0] == 'S' && second[1] == 'c');
    assert(third[0] == 'S' && third[1] == 'e');
}

impl View for Failure {
    type V = Fault;

    open spec fn view(&self) -> Fault {
        match *self {
            Failure::ResourceDirUnavailable { cause } => Fault::ResourceDirUnavailable {
                cause: cause@,
            },
            Failure::InterpreterMissing { path } => Fault::InterpreterMissing {
                path: path_bytes(path),
            },
            Failure::ScriptMissing { path } => Fault::ScriptMissing { path: path_bytes(path) },
            Failure::VideoMissing { video } => Fault::VideoMissing { video: video@ },
            Failure::SpawnFailed { cause } => Fault::SpawnFailed { cause: cause@ },
            Failure::OutputNotText { reason } => Fault::OutputNotText { reason: reason@ },
            Failure::ChildFailed { stderr } => Fault::ChildFailed { stderr: stderr@ },
        }
    }
}

impl Failure {
    /// The message that the caller reads.
    pub fn message(&self) -> (text: String)
        ensures
            text@ == self@.message(),
    {
        match self {
            Failure::ResourceDirUnavailable { cause } => {
                String::from_str("Failed to get resource dir: ").concat(cause.as_str())
            },
            Failure::InterpreterMissing { path } => {
                String::from_str("Python executable not found: ").concat(quoted(path).as_str())
            },
            Failure::ScriptMissing { path } => {
                String::from_str("Script not found: ").concat(quoted(path).as_str())
            },
            Failure::VideoMissing { video } => {
                String::from_str("Selected video file does not exist: ").concat(video.as_str())
            },
            Failure::SpawnFailed { cause } => cause.clone(),
            Failure::OutputNotText { reason } => reason.clone(),
            Failure::ChildFailed { stderr } => {
                String::from_str("Python script failed: ").concat(stderr.as_str())
            },
        }
    }
}

} // verus!
