//! A call played against a world: which files exist and how a launched child
//! ends. What is proved here holds of every world.

use crate::bridge::{concluded, replied, Call, Ending, Machine, Request, Signal};
use crate::failure::{child_message_ends_with_stderr, video_message_ends_with_the_path, Fault};
use crate::layout::{interpreter_below, quoted_text, script_below};
use crate::text::{ends_with, trimmed};
use vstd::prelude::*;
use vstd::utf8::{decode_utf8, encode_utf8, valid_utf8};

verus! {

/// What a call can observe: the files that exist, each by the bytes of its
/// path, and the way the launch of each invocation ends.
pub struct World {
    pub present: Set<Seq<u8>>,
    pub child: spec_fn(Call) -> Ending,
}

impl World {
    /// The event with which this world answers a request. A request to hand
    /// the outcome to the caller has no answer.
    pub open spec fn answer(self, request: Request) -> Option<Signal> {
        match request {
            Request::Probe(path) => Some(Signal::Probed(self.present.contains(path))),
            Request::Spawn(call) => Some(Signal::Completed((self.child)(call))),
            Request::Return(_) => None,
        }
    }

    /// What a call for `video` below `root` comes to in this world, said at
    /// once: the first of the three files that is missing ends the call;
    /// with all three there, the end of the child decides.
    pub open spec fn outcome(self, root: Result<Seq<u8>, Seq<char>>, video: Seq<char>) -> Result<
        Seq<char>,
        Fault,
    > {
        match root {
            Err(cause) => Err(Fault::ResourceDirUnavailable { cause }),
            Ok(root) => {
                let call = invocation(root, video);
                if !self.present.contains(call.program) {
                    Err(Fault::InterpreterMissing { path: call.program })
                } else if !self.present.contains(call.script) {
                    Err(Fault::ScriptMissing { path: call.script })
                } else if !self.present.contains(encode_utf8(video)) {
                    Err(Fault::VideoMissing { video })
                } else {
                    concluded((self.child)(call))
                }
            },
        }
    }

    /// The requests that a call for `video` below `root` makes in this world
    /// before it hands over its outcome, in order.
    pub open spec fn requests(self, root: Result<Seq<u8>, Seq<char>>, video: Seq<char>) -> Seq<
        Request,
    > {
        match root {
            Err(_) => seq![],
            Ok(root) => {
                let call = invocation(root, video);
                let first = seq![Request::Probe(call.program)];
                let second = first.push(Request::Probe(call.script));
                let third = second.push(Request::Probe(encode_utf8(video)));
                if !self.present.contains(call.program) {
                    first
                } else if !self.present.contains(call.script) {
                    second
                } else if !self.present.contains(encode_utf8(video)) {
                    third
                } else {
                    third.push(Request::Spawn(call))
                }
            },
        }
    }

    /// Whether two worlds show a call for `video` below `root` the same: the
    /// same three files exist or not, and its child ends the same way.
    pub open spec fn looks_like(self, other: World, root: Seq<u8>, video: Seq<char>) -> bool {
        let call = invocation(root, video);
        &&& self.present.contains(call.program) == other.present.contains(call.program)
        &&& self.present.contains(call.script) == other.present.contains(call.script)
        &&& self.present.contains(encode_utf8(video)) == other.present.contains(
            encode_utf8(video),
        )
        &&& (self.child)(call) == (other.child)(call)
    }
}

/// The invocation for `video` with the files below `root`.
pub open spec fn invocation(root: Seq<u8>, video: Seq<char>) -> Call {
    Call { program: interpreter_below(root), script: script_below(root), video }
}

/// The machine after at most `rounds` rounds of asking the world and taking
/// in its answer.
pub open spec fn run(world: World, machine: Machine, rounds: nat) -> Machine
    decreases rounds,
{
    if rounds == 0 {
        machine
    } else {
        match world.answer(machine.pending()) {
            None => machine,
            Some(signal) => run(world, machine.after(signal), (rounds - 1) as nat),
        }
    }
}

/// The requests that the world answers during at most `rounds` rounds, in
/// order.
pub open spec fn asked(world: World, machine: Machine, rounds: nat) -> Seq<Request>
    decreases rounds,
{
    if rounds == 0 {
        seq![]
    } else {
        match world.answer(machine.pending()) {
            None => seq![],
            Some(signal) => seq![machine.pending()] + asked(
                world,
                machine.after(signal),
                (rounds - 1) as nat,
            ),
        }
    }
}

/// The number of rounds after which every call is over.
pub open spec fn enough() -> nat {
    4
}

/// Every call is over after four rounds at most. It has then made the
/// requests that `World::requests` lists, in that order and no others, and
/// its outcome is the one that `World::outcome` gives.
pub proof fn call_runs_to_its_outcome(
    world: World,
    root: Result<Seq<u8>, Seq<char>>,
    video: Seq<char>,
    rounds: nat,
)
    requires
        rounds >= enough(),
    ensures
        run(world, Machine::begin(root, video), rounds) == (Machine::Finished {
            outcome: world.outcome(root, video),
        }),
        asked(world, Machine::begin(root, video), rounds) == world.requests(root, video),
{
    reveal_with_fuel(run, 6);
    reveal_with_fuel(asked, 6);
    let start = Machine::begin(root, video);
    assert(asked(world, start, rounds) =~= world.requests(root, video));
}

/// Whatever the world and however long the call is followed, it launches a
/// child only as its fourth request: after it has asked about the
/// interpreter, the script and the video, in this order, and heard that each
/// exists. So it launches at most one.
pub proof fn launch_follows_the_three_checks(
    world: World,
    root: Result<Seq<u8>, Seq<char>>,
    video: Seq<char>,
    rounds: nat,
    at: int,
)
    requires
        0 <= at < asked(world, Machine::begin(root, video), rounds).len(),
        asked(world, Machine::begin(root, video), rounds)[at] is Spawn,
    ensures
        root is Ok,
        at == 3,
        asked(world, Machine::begin(root, video), rounds) == seq![
            Request::Probe(interpreter_below(root->Ok_0)),
            Request::Probe(script_below(root->Ok_0)),
            Request::Probe(encode_utf8(video)),
            Request::Spawn(invocation(root->Ok_0, video)),
        ],
        world.present.contains(interpreter_below(root->Ok_0)),
        world.present.contains(script_below(root->Ok_0)),
        world.present.contains(encode_utf8(video)),
{
    reveal_with_fuel(asked, 6);
    let trace = asked(world, Machine::begin(root, video), rounds);
    assert(trace =~= seq![
        Request::Probe(interpreter_below(root->Ok_0)),
        Request::Probe(script_below(root->Ok_0)),
        Request::Probe(encode_utf8(video)),
        Request::Spawn(invocation(root->Ok_0, video)),
    ]);
}

/// Without the interpreter below the resource root, the call ends with the
/// failure that names its path, the caller reads that path in the message,
/// and nothing is launched.
pub proof fn missing_interpreter_is_reported(world: World, root: Seq<u8>, video: Seq<char>)
    requires
        !world.present.contains(interpreter_below(root)),
    ensures
        run(world, Machine::begin(Ok(root), video), enough()) == (Machine::Finished {
            outcome: Err(Fault::InterpreterMissing { path: interpreter_below(root) }),
        }),
        replied(world.outcome(Ok(root), video)) == Err::<Seq<char>, Seq<char>>(
            "Python executable not found: "@ + quoted_text(interpreter_below(root)),
        ),
        forall|at: int|
            0 <= at < asked(world, Machine::begin(Ok(root), video), enough()).len() ==> !(
            #[trigger] asked(world, Machine::begin(Ok(root), video), enough())[at] is Spawn),
{
    call_runs_to_its_outcome(world, Ok(root), video, enough());
}

/// With the interpreter there but without the script, the call ends with the
/// failure that names the script's path, the caller reads that path in the
/// message, and nothing is launched.
pub proof fn missing_script_is_reported(world: World, root: Seq<u8>, video: Seq<char>)
    requires
        world.present.contains(interpreter_below(root)),
        !world.present.contains(script_below(root)),
    ensures
        run(world, Machine::begin(Ok(root), video), enough()) == (Machine::Finished {
            outcome: Err(Fault::ScriptMissing { path: script_below(root) }),
        }),
        replied(world.outcome(Ok(root), video)) == Err::<Seq<char>, Seq<char>>(
            "Script not found: "@ + quoted_text(script_below(root)),
        ),
        forall|at: int|
            0 <= at < asked(world, Machine::begin(Ok(root), video), enough()).len() ==> !(
            #[trigger] asked(world, Machine::begin(Ok(root), video), enough())[at] is Spawn),
{
    call_runs_to_its_outcome(world, Ok(root), video, enough());
}

/// With the interpreter and the script there but without the video, the call
/// ends with the failure that names the video's path, the caller reads a
/// message that ends with that path as it was given, and nothing is launched.
pub proof fn missing_video_is_reported(world: World, root: Seq<u8>, video: Seq<char>)
    requires
        world.present.contains(interpreter_below(root)),
        world.present.contains(script_below(root)),
        !world.present.contains(encode_utf8(video)),
    ensures
        run(world, Machine::begin(Ok(root), video), enough()) == (Machine::Finished {
            outcome: Err(Fault::VideoMissing { video }),
        }),
        replied(world.outcome(Ok(root), video)) == Err::<Seq<char>, Seq<char>>(
            "Selected video file does not exist: "@ + video,
        ),
        ends_with("Selected video file does not exist: "@ + video, video),
        forall|at: int|
            0 <= at < asked(world, Machine::begin(Ok(root), video), enough()).len() ==> !(
            #[trigger] asked(world, Machine::begin(Ok(root), video), enough())[at] is Spawn),
{
    call_runs_to_its_outcome(world, Ok(root), video, enough());
    video_message_ends_with_the_path(video);
}

/// With every file there and a child that exits successfully, the caller
/// receives what the child wrote to standard output, without the white space
/// around it. What the child wrote to standard error plays no part.
pub proof fn successful_child_gives_its_trimmed_output(
    world: World,
    root: Seq<u8>,
    video: Seq<char>,
    stdout: Seq<u8>,
    stderr: Seq<u8>,
)
    requires
        world.present.contains(interpreter_below(root)),
        world.present.contains(script_below(root)),
        world.present.contains(encode_utf8(video)),
        (world.child)(invocation(root, video)) == (Ending::Exited {
            success: true,
            stdout,
            stderr,
        }),
        valid_utf8(stdout),
    ensures
        run(world, Machine::begin(Ok(root), video), enough()) == (Machine::Finished {
            outcome: world.outcome(Ok(root), video),
        }),
        replied(world.outcome(Ok(root), video)) == Ok::<Seq<char>, Seq<char>>(
            trimmed(decode_utf8(stdout)),
        ),
{
    call_runs_to_its_outcome(world, Ok(root), video, enough());
}

/// With every file there and a child that exits unsuccessfully, the caller
/// receives a message that ends with what the child wrote to standard error,
/// as it was written. What the child wrote to standard output plays no part.
pub proof fn failed_child_gives_its_stderr(
    world: World,
    root: Seq<u8>,
    video: Seq<char>,
    stdout: Seq<u8>,
    stderr: Seq<u8>,
)
    requires
        world.present.contains(interpreter_below(root)),
        world.present.contains(script_below(root)),
        world.present.contains(encode_utf8(video)),
        (world.child)(invocation(root, video)) == (Ending::Exited {
            success: false,
            stdout,
            stderr,
        }),
        valid_utf8(stderr),
    ensures
        run(world, Machine::begin(Ok(root), video), enough()) == (Machine::Finished {
            outcome: world.outcome(Ok(root), video),
        }),
        replied(world.outcome(Ok(root), video)) == Err::<Seq<char>, Seq<char>>(
            "Python script failed: "@ + decode_utf8(stderr),
        ),
        ends_with("Python script failed: "@ + decode_utf8(stderr), decode_utf8(stderr)),
{
    call_runs_to_its_outcome(world, Ok(root), video, enough());
    child_message_ends_with_stderr(decode_utf8(stderr));
}

/// Two calls for different videos in one world, with every file there: each
/// ends as its own child's end says, whatever the other's child does.
pub proof fn each_call_follows_its_own_child(
    world: World,
    root: Seq<u8>,
    video: Seq<char>,
    other_video: Seq<char>,
)
    requires
        video != other_video,
        world.present.contains(interpreter_below(root)),
        world.present.contains(script_below(root)),
        world.present.contains(encode_utf8(video)),
        world.present.contains(encode_utf8(other_video)),
    ensures
        run(world, Machine::begin(Ok(root), video), enough()) == (Machine::Finished {
            outcome: concluded((world.child)(invocation(root, video))),
        }),
        run(world, Machine::begin(Ok(root), other_video), enough()) == (Machine::Finished {
            outcome: concluded((world.child)(invocation(root, other_video))),
        }),
{
    call_runs_to_its_outcome(world, Ok(root), video, enough());
    call_runs_to_its_outcome(world, Ok(root), other_video, enough());
}

/// A call sees of the world only its own three files and the end of its own
/// child: in two worlds that agree on these, it makes the same requests and
/// ends the same way, whatever else differs between them.
pub proof fn call_depends_on_what_it_observes(
    world: World,
    other: World,
    root: Seq<u8>,
    video: Seq<char>,
)
    requires
        world.looks_like(other, root, video),
    ensures
        run(world, Machine::begin(Ok(root), video), enough()) == run(
            other,
            Machine::begin(Ok(root), video),
            enough(),
        ),
        asked(world, Machine::begin(Ok(root), video), enough()) == asked(
            other,
            Machine::begin(Ok(root), video),
            enough(),
        ),
{
    call_runs_to_its_outcome(world, Ok(root), video, enough());
    call_runs_to_its_outcome(other, Ok(root), video, enough());
}

/// Repeating a call repeats its outcome: with the same root and video, and a
/// child that ends the second time as it did the first, the second call ends
/// as the first did.
pub proof fn repeated_call_repeats_its_outcome(
    first: World,
    second: World,
    root: Seq<u8>,
    video: Seq<char>,
)
    requires
        first.looks_like(second, root, video),
    ensures
        second.outcome(Ok(root), video) == first.outcome(Ok(root), video),
        run(second, Machine::begin(Ok(root), video), enough()) == run(
            first,
            Machine::begin(Ok(root), video),
            enough(),
        ),
{
    call_depends_on_what_it_observes(first, second, root, video);
}

} // verus!
