//! Streams and control of an embedded process.

use crate::error::{IoErrorKind, IoFailure, IoFailureModel};
use crate::native::NativePath;
use crate::text::{concat2, concat3, concat4, concat5, decimal_string, signed_decimal_string};
use vstd::prelude::*;
use vstd::string::*;

verus! {

pub const GENERIC_READ: u32 = 0x8000_0000;

pub const GENERIC_WRITE: u32 = 0x4000_0000;

/// The exit code of a process whose own code was lost.
pub const LOST_EXIT_CODE: i32 = -1;

/// How a standard stream of the process is connected.
#[derive(Clone, Copy, Debug, PartialEq, Eq, Structural)]
pub enum WindowsSandboxEmbeddingStdioMode {
    Inherit,
    Pipe,
    Null,
}

/// Independently selected connections of the process's standard streams.
#[derive(Clone, Copy, Debug, PartialEq, Eq, Structural)]
pub struct WindowsSandboxEmbeddingStdio {
    pub stdin: WindowsSandboxEmbeddingStdioMode,
    pub stdout: WindowsSandboxEmbeddingStdioMode,
    pub stderr: WindowsSandboxEmbeddingStdioMode,
}

/// A standard stream.
#[derive(Clone, Copy, Debug, PartialEq, Eq, Structural)]
pub enum StandardStream {
    Stdin,
    Stdout,
    Stderr,
}

impl StandardStream {
    /// The host's number for the stream.
    pub open spec fn number(self) -> u32 {
        match self {
            StandardStream::Stdin => 0xffff_fff6,
            StandardStream::Stdout => 0xffff_fff5,
            StandardStream::Stderr => 0xffff_fff4,
        }
    }

    /// The access right with which the null device is opened for the stream.
    pub open spec fn null_right(self) -> u32 {
        match self {
            StandardStream::Stdin => GENERIC_READ,
            _ => GENERIC_WRITE,
        }
    }

    /// The host's number for the stream.
    pub fn native_id(self) -> (result: u32)
        ensures
            result == self.number(),
    {
        match self {
            StandardStream::Stdin => 0xffff_fff6,
            StandardStream::Stdout => 0xffff_fff5,
            StandardStream::Stderr => 0xffff_fff4,
        }
    }

    /// The access right with which the null device is opened for the stream.
    pub fn null_access(self) -> (result: u32)
        ensures
            result == self.null_right(),
    {
        match self {
            StandardStream::Stdin => GENERIC_READ,
            StandardStream::Stdout => GENERIC_WRITE,
            StandardStream::Stderr => GENERIC_WRITE,
        }
    }
}

/// Whether a handle is one. The host has two values for none.
pub open spec fn is_handle(handle: i64) -> bool {
    handle != 0 && handle != -1
}

/// How a stream is prepared.
#[derive(Clone, Copy, Debug, PartialEq, Eq, Structural)]
pub enum StreamPreparation {
    /// The parent has no such stream, so the child gets none.
    Absent,
    /// Duplicate the parent's handle for the child.
    Duplicate(i64),
    /// Create a pipe. The child gets its reading end, or else its writing end.
    Pipe { child_reads: bool },
    /// Open the null device with this access right.
    OpenNull(u32),
}

/// How a stream is prepared. `source` is the parent's own handle for it.
pub open spec fn preparation(mode: WindowsSandboxEmbeddingStdioMode, stream: StandardStream, source: i64) -> StreamPreparation {
    match mode {
        WindowsSandboxEmbeddingStdioMode::Inherit => if is_handle(source) {
            StreamPreparation::Duplicate(source)
        } else {
            StreamPreparation::Absent
        },
        WindowsSandboxEmbeddingStdioMode::Pipe => StreamPreparation::Pipe {
            child_reads: stream == StandardStream::Stdin,
        },
        WindowsSandboxEmbeddingStdioMode::Null => StreamPreparation::OpenNull(stream.null_right()),
    }
}

/// Decides how a stream is prepared. `source` is the parent's own handle for it.
pub fn prepare_stream(mode: WindowsSandboxEmbeddingStdioMode, stream: StandardStream, source: i64) -> (result: StreamPreparation)
    ensures
        result == preparation(mode, stream, source),
{
    match mode {
        WindowsSandboxEmbeddingStdioMode::Inherit => {
            if source == 0 || source == -1 {
                StreamPreparation::Absent
            } else {
                StreamPreparation::Duplicate(source)
            }
        },
        WindowsSandboxEmbeddingStdioMode::Pipe => StreamPreparation::Pipe {
            child_reads: stream == StandardStream::Stdin,
        },
        WindowsSandboxEmbeddingStdioMode::Null => StreamPreparation::OpenNull(stream.null_access()),
    }
}

/// Whether the parent gets an end of the stream.
pub fn exposes_transport(mode: WindowsSandboxEmbeddingStdioMode) -> (result: bool)
    ensures
        result == (mode == WindowsSandboxEmbeddingStdioMode::Pipe),
{
    mode == WindowsSandboxEmbeddingStdioMode::Pipe
}

/// Only a piped stream has an end for the parent, and each stream's preparation depends
/// on its own mode alone.
pub proof fn only_pipes_reach_the_parent(mode: WindowsSandboxEmbeddingStdioMode, stream: StandardStream, source: i64)
    ensures
        preparation(mode, stream, source) is Pipe <==> mode == WindowsSandboxEmbeddingStdioMode::Pipe,
{
}

/// Whether the handles are strictly increasing.
pub open spec fn strictly_increasing(handles: Seq<i64>) -> bool {
    forall|first: int, second: int|
        0 <= first < second < handles.len() ==> #[trigger] handles[first] < #[trigger] handles[second]
}

/// Whether this is the list of handles that the process inherits: its standard handles,
/// those that are none aside, in order and each once.
pub open spec fn is_inherited_list(handles: Seq<i64>, stdin: i64, stdout: i64, stderr: i64) -> bool {
    &&& strictly_increasing(handles)
    &&& forall|handle: i64| #[trigger]
        handles.contains(handle) <==> is_handle(handle) && (handle == stdin || handle == stdout || handle == stderr)
}

fn insert_handle(handles: &mut Vec<i64>, handle: i64)
    requires
        strictly_increasing(old(handles)@),
    ensures
        strictly_increasing(final(handles)@),
        forall|other: i64| #[trigger]
            final(handles)@.contains(other) <==> old(handles)@.contains(other) || (other == handle && is_handle(
                handle,
            )),
{
    if handle == 0 || handle == -1 {
        return;
    }
    let ghost before = handles@;
    let mut place: usize = 0;
    while place < handles.len() && handles[place] < handle
        invariant
            handles@ == before,
            place <= handles@.len(),
            forall|i: int| 0 <= i < place ==> before[i] < handle,
        decreases handles@.len() - place,
    {
        place = place + 1;
    }
    if place < handles.len() && handles[place] == handle {
        assert(before[place as int] == handle);
        return;
    }
    handles.insert(place, handle);
    proof {
        let after = handles@;
        assert forall|first: int, second: int| 0 <= first < second < after.len() implies #[trigger] after[first]
            < #[trigger] after[second] by {
            if second < place {
                assert(after[first] == before[first] && after[second] == before[second]);
            } else if second == place {
                assert(after[first] == before[first]);
            } else if first < place {
                assert(after[first] == before[first] && after[second] == before[second - 1]);
            } else if first == place {
                assert(after[second] == before[second - 1]);
                assert(handle < before[place as int]);
            } else {
                assert(after[first] == before[first - 1] && after[second] == before[second - 1]);
            }
        }
        assert forall|other: i64| #[trigger]
            after.contains(other) <==> before.contains(other) || other == handle by {
            if before.contains(other) {
                let index = choose|index: int| 0 <= index < before.len() && before[index] == other;
                if index < place {
                    assert(after[index] == other);
                } else {
                    assert(after[index + 1] == other);
                }
            }
            if after.contains(other) {
                let index = choose|index: int| 0 <= index < after.len() && after[index] == other;
                if index < place {
                    assert(before[index] == other);
                } else if index > place {
                    assert(before[index - 1] == other);
                }
            }
            assert(after[place as int] == handle);
        }
    }
}

/// The list of handles that the process inherits.
pub fn inherited_handles(stdin: i64, stdout: i64, stderr: i64) -> (result: Vec<i64>)
    ensures
        is_inherited_list(result@, stdin, stdout, stderr),
{
    let mut handles: Vec<i64> = Vec::new();
    insert_handle(&mut handles, stdin);
    insert_handle(&mut handles, stdout);
    insert_handle(&mut handles, stderr);
    handles
}

/// The message of a process that could not be created.
pub open spec fn creation_message(
    error_code: i32,
    reason: Seq<char>,
    cwd: Seq<char>,
    environment_units: nat,
    startup_flags: nat,
    creation_flags: nat,
) -> Seq<char> {
    "CreateProcessAsUserW failed: "@ + crate::text::signed_decimal(error_code as int) + " ("@ + reason + ") | cwd="@
        + cwd + " | env_u16_len="@ + crate::text::decimal(environment_units) + " | si_flags="@
        + crate::text::decimal(startup_flags) + " | creation_flags="@ + crate::text::decimal(creation_flags)
}

/// What a process is created with.
#[derive(Debug)]
pub struct CreationRequest {
    /// The program, then its arguments.
    pub command: Vec<String>,
    pub cwd: NativePath,
    pub environment_block: Vec<u16>,
    pub startup_flags: u32,
    pub creation_flags: u32,
}

impl CreationRequest {
    /// The message of a failure to create the process.
    pub open spec fn failure_text(self, error_code: i32, reason: Seq<char>) -> Seq<char> {
        creation_message(
            error_code,
            reason,
            self.cwd@.text.display(),
            self.environment_block@.len(),
            self.startup_flags as nat,
            self.creation_flags as nat,
        )
    }
}

/// The message of a process that could not be created. It says nothing of the command
/// or of the environment's values.
pub fn creation_failure_message(request: &CreationRequest, error_code: i32, reason: &str) -> (result: String)
    ensures
        result@ == request.failure_text(error_code, reason@),
{
    let code = signed_decimal_string(error_code);
    let shown = request.cwd.text.display();
    let units = decimal_string(request.environment_block.len() as u64);
    let startup = decimal_string(request.startup_flags as u64);
    let creation = decimal_string(request.creation_flags as u64);
    let first = concat5("CreateProcessAsUserW failed: ", code.as_str(), " (", reason, ") | cwd=");
    let second = concat5(first.as_str(), shown.as_str(), " | env_u16_len=", units.as_str(), " | si_flags=");
    concat4(second.as_str(), startup.as_str(), " | creation_flags=", creation.as_str())
}

/// A failure to create a process discloses neither its command nor the contents of its
/// environment: requests that differ in nothing else have the same message.
pub proof fn creation_failures_disclose_no_command(
    one: CreationRequest,
    other: CreationRequest,
    error_code: i32,
    reason: Seq<char>,
)
    requires
        one.cwd == other.cwd,
        one.environment_block@.len() == other.environment_block@.len(),
        one.startup_flags == other.startup_flags,
        one.creation_flags == other.creation_flags,
    ensures
        one.failure_text(error_code, reason) == other.failure_text(error_code, reason),
{
}

/// A failure of a closed pipe.
pub open spec fn broken_pipe(message: Seq<char>) -> IoFailureModel {
    IoFailureModel { kind: IoErrorKind::BrokenPipe, message }
}

/// Controller for a restricted-token process launched through the embedding path.
#[derive(Debug)]
pub struct WindowsSandboxEmbeddingProcessHandle {
    /// Whether input is accepted.
    pub stdin_open: bool,
    /// Whether the process job is still to be terminated.
    pub terminator: bool,
    /// The root's exit code, once its completion was reported.
    pub exit_code: Option<i32>,
}

impl WindowsSandboxEmbeddingProcessHandle {
    /// A process that runs, with input where its stream is piped.
    pub fn new(stdin: WindowsSandboxEmbeddingStdioMode) -> (result: Self)
        ensures
            result == (WindowsSandboxEmbeddingProcessHandle {
                stdin_open: stdin == WindowsSandboxEmbeddingStdioMode::Pipe,
                terminator: true,
                exit_code: None,
            }),
    {
        WindowsSandboxEmbeddingProcessHandle {
            stdin_open: exposes_transport(stdin),
            terminator: true,
            exit_code: None,
        }
    }

    /// Whether bytes can be written. They are handed to the writer, and the write is
    /// done once it acknowledged them.
    pub fn write_all(&self) -> (result: Result<(), IoFailure>)
        ensures
            if self.stdin_open {
                result is Ok
            } else {
                result matches Err(failure) && failure@ == broken_pipe("process stdin closed"@)
            },
    {
        if !self.stdin_open {
            return Err(IoFailure::new(IoErrorKind::BrokenPipe, "process stdin closed"));
        }
        Ok(())
    }

    /// Closes the child stdin. The result is whether the writer is to be told, which
    /// closes the pipe after all preceding acknowledged writes.
    pub fn close_stdin(&mut self) -> (result: bool)
        ensures
            result == old(self).stdin_open,
            *final(self) == (WindowsSandboxEmbeddingProcessHandle { stdin_open: false, ..*old(self) }),
    {
        let open = self.stdin_open;
        self.stdin_open = false;
        open
    }

    /// Stops accepting input without waiting for the writer task to close the pipe.
    pub fn close_stdin_without_waiting(&mut self)
        ensures
            *final(self) == (WindowsSandboxEmbeddingProcessHandle { stdin_open: false, ..*old(self) }),
    {
        self.stdin_open = false;
    }

    /// Returns whether process completion has been reported.
    pub fn has_exited(&self) -> (result: bool)
        ensures
            result == self.exit_code is Some,
    {
        self.exit_code.is_some()
    }

    /// Returns the root process exit code when known.
    pub fn exit_code(&self) -> (result: Option<i32>)
        ensures
            result == self.exit_code,
    {
        self.exit_code
    }

    /// The process once its completion was reported.
    pub open spec fn completed_with(self, code: Option<i32>) -> WindowsSandboxEmbeddingProcessHandle {
        WindowsSandboxEmbeddingProcessHandle {
            exit_code: Some(
                match code {
                    Some(code) => code,
                    None => LOST_EXIT_CODE,
                },
            ),
            ..self
        }
    }

    /// Records the completion of the process. Where its code was lost, it is -1.
    pub fn completed(&mut self, code: Option<i32>)
        ensures
            *final(self) == old(self).completed_with(code),
    {
        let code: i32 = match code {
            Some(code) => code,
            None => LOST_EXIT_CODE,
        };
        self.exit_code = Some(code);
    }

    /// Whether the termination of the job gives a result, after which the process is
    /// another.
    pub open spec fn is_terminated(
        self,
        outcome: Result<(), IoFailure>,
        result: Result<(), IoFailure>,
        after: WindowsSandboxEmbeddingProcessHandle,
    ) -> bool {
        if self.terminator {
            &&& result == outcome
            &&& after == (WindowsSandboxEmbeddingProcessHandle { terminator: outcome is Err, ..self })
        } else {
            result is Ok && after == self
        }
    }

    /// Terminates the retained process job, including descendants after the root exits.
    /// `outcome` is what the host answered, where the job was still to be terminated;
    /// one that failed is tried again the next time.
    pub fn terminate(&mut self, outcome: Result<(), IoFailure>) -> (result: Result<(), IoFailure>)
        ensures
            old(self).is_terminated(outcome, result, *final(self)),
    {
        if !self.terminator {
            return Ok(());
        }
        if outcome.is_ok() {
            self.terminator = false;
        }
        outcome
    }

    /// Whether the process is known to be over, so that its entries can be revoked.
    pub open spec fn gives_entries_up(self, terminated: Result<(), IoFailure>) -> bool {
        !self.terminator || terminated is Ok
    }

    /// Whether the access-control entries of the process are revoked when it is dropped.
    /// They stay where its job could not be terminated: the process may live on, and
    /// nothing may widen what it can reach.
    pub fn revokes_entries_on_drop(&self, terminated: &Result<(), IoFailure>) -> (result: bool)
        ensures
            result == self.gives_entries_up(*terminated),
    {
        if !self.terminator {
            return true;
        }
        match terminated {
            Ok(_) => true,
            Err(_) => false,
        }
    }
}

/// The outcome of a write, by the writer's acknowledgement, if there was one.
pub fn write_acknowledged(acknowledgement: Option<Result<(), IoFailure>>) -> (result: Result<(), IoFailure>)
    ensures
        match acknowledgement {
            Some(outcome) => result == outcome,
            None => result matches Err(failure) && failure@ == broken_pipe(
                "process stdin writer stopped before acknowledging the write"@,
            ),
        },
{
    match acknowledgement {
        Some(outcome) => outcome,
        None => Err(
            IoFailure::new(
                IoErrorKind::BrokenPipe,
                "process stdin writer stopped before acknowledging the write",
            ),
        ),
    }
}

/// The outcome of a close, by the writer's acknowledgement, if there was one.
pub fn close_acknowledged(acknowledgement: Option<Result<(), IoFailure>>) -> (result: Result<(), IoFailure>)
    ensures
        match acknowledgement {
            Some(outcome) => result == outcome,
            None => result matches Err(failure) && failure@ == broken_pipe(
                "process stdin writer stopped before acknowledging close"@,
            ),
        },
{
    match acknowledgement {
        Some(outcome) => outcome,
        None => Err(
            IoFailure::new(IoErrorKind::BrokenPipe, "process stdin writer stopped before acknowledging close"),
        ),
    }
}

/// How many bytes are left to write after one write of the host.
pub open spec fn bytes_left(remaining: nat, written: Result<u32, IoFailure>) -> Result<nat, IoFailureModel> {
    match written {
        Err(failure) => Err(failure@),
        Ok(count) => if count == 0 {
            Err(
                IoFailureModel {
                    kind: IoErrorKind::WriteZero,
                    message: "WriteFile returned success but wrote 0 bytes"@,
                },
            )
        } else {
            Ok((remaining - count) as nat)
        },
    }
}

/// How many bytes are left to write after one write of the host, which writes no more
/// than it is given.
pub fn write_all_handle(remaining: usize, written: Result<u32, IoFailure>) -> (result: Result<usize, IoFailure>)
    requires
        written matches Ok(count) ==> count <= remaining,
    ensures
        match bytes_left(remaining as nat, written) {
            Ok(left) => result matches Ok(count) && count == left,
            Err(expected) => result matches Err(failure) && failure@ == expected,
        },
{
    match written {
        Err(failure) => Err(failure),
        Ok(count) => {
            if count == 0 {
                return Err(
                    IoFailure::new(IoErrorKind::WriteZero, "WriteFile returned success but wrote 0 bytes"),
                );
            }
            Ok(remaining - count as usize)
        },
    }
}

/// Every write that succeeds brings the end nearer.
pub proof fn writes_make_progress(remaining: nat, written: Result<u32, IoFailure>)
    requires
        written matches Ok(count) ==> count <= remaining,
    ensures
        bytes_left(remaining, written) matches Ok(left) ==> left < remaining,
{
}

/// What became of the root process after its job could not be terminated.
#[derive(Debug)]
pub enum RootTermination {
    /// It was terminated, or was gone already.
    Done,
    Failed(String),
}

/// The failure of a termination, where the job could not be terminated.
pub open spec fn termination_message(job_error: Seq<char>, root: RootTermination) -> Seq<char> {
    "failed to terminate process job: "@ + job_error + (match root {
        RootTermination::Failed(error) => "; failed to terminate root process: "@ + error@,
        RootTermination::Done => "; the root process was terminated but descendants may remain"@,
    })
}

/// The outcome of terminating the job, or else its root process: only an empty job is a
/// success.
pub fn terminate_job_or_process(job: Result<(), String>, root: &RootTermination) -> (result: Result<(), IoFailure>)
    ensures
        match job {
            Ok(_) => result is Ok,
            Err(job_error) => result matches Err(failure) && failure@ == (IoFailureModel {
                kind: IoErrorKind::Other,
                message: termination_message(job_error@, *root),
            }),
        },
{
    match job {
        Ok(_) => Ok(()),
        Err(job_error) => {
            let detail = match root {
                RootTermination::Failed(error) => concat2("; failed to terminate root process: ", error.as_str()),
                RootTermination::Done => "; the root process was terminated but descendants may remain".to_owned(),
            };
            let message = concat3("failed to terminate process job: ", job_error.as_str(), detail.as_str());
            Err(IoFailure { kind: IoErrorKind::Other, message })
        },
    }
}

/// The null device is opened for the direction of its stream, a pipe gives the child the
/// end of its direction, and an inherited stream is the parent's own handle, where it has
/// one.
pub proof fn streams_keep_their_direction(mode: WindowsSandboxEmbeddingStdioMode, stream: StandardStream, source: i64)
    ensures
        ({
            let prepared = preparation(mode, stream, source);
            match mode {
                WindowsSandboxEmbeddingStdioMode::Inherit => {
                    &&& prepared is Absent <==> source == 0 || source == -1
                    &&& prepared is Duplicate <==> source != 0 && source != -1
                    &&& prepared matches StreamPreparation::Duplicate(handle) ==> handle == source
                },
                WindowsSandboxEmbeddingStdioMode::Pipe => prepared matches StreamPreparation::Pipe { child_reads }
                    && (child_reads <==> stream is Stdin),
                WindowsSandboxEmbeddingStdioMode::Null => prepared matches StreamPreparation::OpenNull(right)
                    && right == (if stream is Stdin {
                    0x8000_0000u32
                } else {
                    0x4000_0000u32
                }),
            }
        }),
        stream is Stdin ==> stream.number() == 0xffff_fff6,
        stream is Stdout ==> stream.number() == 0xffff_fff5,
        stream is Stderr ==> stream.number() == 0xffff_fff4,
{
}

/// A job is terminated until that succeeded once, and never again; the outcome is the
/// host's own. Entries are given up exactly where the process is known to be over, and
/// nothing else of it changes.
pub proof fn jobs_are_terminated_until_it_succeeds(
    process: WindowsSandboxEmbeddingProcessHandle,
    outcome: Result<(), IoFailure>,
    result: Result<(), IoFailure>,
    after: WindowsSandboxEmbeddingProcessHandle,
)
    requires
        process.is_terminated(outcome, result, after),
    ensures
        result is Ok <==> !after.terminator,
        process.terminator ==> result == outcome,
        !process.terminator ==> !after.terminator,
        after.stdin_open == process.stdin_open && after.exit_code == process.exit_code,
        process.gives_entries_up(outcome) <==> result is Ok,
{
}

/// A write goes on with exactly the bytes that the host did not take, and fails where it
/// took none.
pub proof fn writes_lose_no_byte(remaining: nat, written: Result<u32, IoFailure>)
    requires
        written matches Ok(count) ==> count <= remaining,
    ensures
        bytes_left(remaining, written) is Ok <==> (written matches Ok(count) && count > 0),
        bytes_left(remaining, written) matches Ok(left) ==> left + written->Ok_0 == remaining,
        written matches Ok(0) ==> bytes_left(remaining, written)->Err_0.kind is WriteZero,
{
}

/// The message of a process that could not be created says in order the host's error, the
/// directory, the size of the environment, and both kinds of flags.
pub proof fn creation_failures_say_what_was_asked(request: CreationRequest, error_code: i32, reason: Seq<char>)
    ensures
        request.failure_text(error_code, reason) == "CreateProcessAsUserW failed: "@ + crate::text::signed_decimal(
            error_code as int,
        ) + " ("@ + reason + ") | cwd="@ + request.cwd@.text.display() + " | env_u16_len="@ + crate::text::decimal(
            request.environment_block@.len(),
        ) + " | si_flags="@ + crate::text::decimal(request.startup_flags as nat) + " | creation_flags="@
            + crate::text::decimal(request.creation_flags as nat),
{
}

/// A completed process has its own exit code, or -1 where that was lost; its input and its
/// job stay as they were.
pub proof fn completions_keep_the_exit_code(process: WindowsSandboxEmbeddingProcessHandle, code: Option<i32>)
    ensures
        code matches Some(exit) ==> process.completed_with(code).exit_code == Some(exit),
        code is None ==> process.completed_with(code).exit_code is Some && process.completed_with(
            code,
        ).exit_code->Some_0 == -1,
        process.completed_with(code).stdin_open == process.stdin_open,
        process.completed_with(code).terminator == process.terminator,
{
}

} // verus!
