//! How an embedded process is created and its streams are served.

use crate::error::{IoErrorKind, IoFailure};
use crate::windows::embedding::process::{
    exposes_transport, inherited_handles, WindowsSandboxEmbeddingProcessHandle, WindowsSandboxEmbeddingStdio,
};
use vstd::prelude::*;

verus! {

pub const CREATE_UNICODE_ENVIRONMENT: u32 = 0x400;

pub const EXTENDED_STARTUPINFO_PRESENT: u32 = 0x8_0000;

/// Both creation flags: the environment is in Unicode and the attributes are extended.
pub const CREATION_FLAGS: u32 = 0x8_0400;

pub const STARTF_USESTDHANDLES: u32 = 0x100;

/// How a process is created.
#[derive(Debug)]
pub struct ProcessCreation {
    /// The handles that it inherits, in order and each once.
    pub inherited: Vec<i64>,
    /// Whether it inherits any.
    pub inherit_handles: bool,
    /// The number of its attributes: the job, and the list of handles where there is one.
    pub attributes: u32,
    pub startup_flags: u32,
    pub creation_flags: u32,
}

/// Whether a process is created with these standard handles.
pub open spec fn is_creation_with(creation: ProcessCreation, stdin: i64, stdout: i64, stderr: i64) -> bool {
    &&& crate::windows::embedding::process::is_inherited_list(creation.inherited@, stdin, stdout, stderr)
    &&& creation.inherit_handles == (creation.inherited@.len() > 0)
    &&& creation.attributes == if creation.inherit_handles {
        2u32
    } else {
        1u32
    }
    &&& creation.startup_flags == if creation.inherit_handles {
        STARTF_USESTDHANDLES
    } else {
        0u32
    }
    &&& creation.creation_flags == CREATE_UNICODE_ENVIRONMENT | EXTENDED_STARTUPINFO_PRESENT
}

/// Decides how a process is created. It starts in its job, and it inherits its standard
/// handles only.
pub fn create_embedding_process(stdin: i64, stdout: i64, stderr: i64) -> (result: ProcessCreation)
    ensures
        is_creation_with(result, stdin, stdout, stderr),
{
    let inherited = inherited_handles(stdin, stdout, stderr);
    let inherit_handles = inherited.len() > 0;
    assert(0x8_0400u32 == 0x400u32 | 0x8_0000u32) by (bit_vector);
    ProcessCreation {
        inherited,
        inherit_handles,
        attributes: if inherit_handles {
            2
        } else {
            1
        },
        startup_flags: if inherit_handles {
            STARTF_USESTDHANDLES
        } else {
            0
        },
        creation_flags: CREATION_FLAGS,
    }
}

/// A process inherits nothing exactly where it has no standard handle at all, and then
/// its startup names none.
pub proof fn processes_inherit_their_streams_only(
    inherited: Seq<i64>,
    stdin: i64,
    stdout: i64,
    stderr: i64,
)
    requires
        crate::windows::embedding::process::is_inherited_list(inherited, stdin, stdout, stderr),
    ensures
        inherited.len() == 0 <==> !crate::windows::embedding::process::is_handle(stdin)
            && !crate::windows::embedding::process::is_handle(stdout)
            && !crate::windows::embedding::process::is_handle(stderr),
        inherited.len() <= 3,
{
    if inherited.len() > 0 {
        assert(inherited.contains(inherited[0]));
    } else {
        assert(!inherited.contains(stdin));
        assert(!inherited.contains(stdout));
        assert(!inherited.contains(stderr));
    }
    if inherited.len() > 3 {
        assert(inherited.contains(inherited[0]));
        assert(inherited.contains(inherited[1]));
        assert(inherited.contains(inherited[2]));
        assert(inherited.contains(inherited[3]));
        assert(inherited[0] < inherited[1] < inherited[2] < inherited[3]);
    }
}

/// The parent's side of a process that was just created.
#[derive(Debug)]
pub struct EmbeddingTransports {
    pub session: WindowsSandboxEmbeddingProcessHandle,
    /// Whether there is a channel with the process's output.
    pub stdout: bool,
    /// Whether there is a channel with the process's errors.
    pub stderr: bool,
}

/// Whether this is the parent's side of a process with these streams.
pub open spec fn are_transports_of(transports: EmbeddingTransports, stdio: WindowsSandboxEmbeddingStdio) -> bool {
    &&& transports.session == (WindowsSandboxEmbeddingProcessHandle {
        stdin_open: stdio.stdin is Pipe,
        terminator: true,
        exit_code: None,
    })
    &&& transports.stdout == stdio.stdout is Pipe
    &&& transports.stderr == stdio.stderr is Pipe
}

/// The parent's side of a process that was just created: each piped stream has a
/// transport, and no other stream has.
pub fn finish_embedding_spawn(stdio: WindowsSandboxEmbeddingStdio) -> (result: EmbeddingTransports)
    ensures
        are_transports_of(result, stdio),
{
    EmbeddingTransports {
        session: WindowsSandboxEmbeddingProcessHandle::new(stdio.stdin),
        stdout: exposes_transport(stdio.stdout),
        stderr: exposes_transport(stdio.stderr),
    }
}

/// Those of the handles that are one, in order.
pub open spec fn real_handles(handles: Seq<i64>) -> Seq<i64> {
    handles.filter(|handle: i64| crate::windows::embedding::process::is_handle(handle))
}

/// The handles to close once the process is over and its output was read: its thread, the
/// process itself unless it was closed before, and the token.
pub open spec fn retired_handles(thread: i64, process: Option<i64>, token: i64) -> Seq<i64> {
    let own = match process {
        Some(process) => seq![process],
        None => Seq::<i64>::empty(),
    };
    real_handles(seq![thread]) + own + real_handles(seq![token])
}

/// The handles to close once the process is over and its output was read.
pub fn handles_to_close(thread: i64, process: Option<i64>, token: i64) -> (result: Vec<i64>)
    ensures
        result@ == retired_handles(thread, process, token),
{
    proof {
        reveal_with_fuel(Seq::filter, 2);
    }
    let mut handles: Vec<i64> = Vec::new();
    assert(seq![thread].drop_last() =~= Seq::<i64>::empty());
    assert(seq![token].drop_last() =~= Seq::<i64>::empty());
    if thread != 0 && thread != -1 {
        handles.push(thread);
    }
    assert(handles@ =~= real_handles(seq![thread]));
    match process {
        Some(process) => {
            handles.push(process);
        },
        None => {},
    }
    if token != 0 && token != -1 {
        handles.push(token);
    }
    assert(handles@ =~= retired_handles(thread, process, token));
    handles
}

/// A request to the writer of a process's input.
#[derive(Clone, Copy, Debug, PartialEq, Eq, Structural)]
pub enum InputRequest {
    Write,
    Close,
    /// No further request can come.
    Dropped,
}

/// What the writer does about a request.
#[derive(Debug)]
pub enum InputStep {
    /// Write the bytes, and acknowledge what came of it.
    WriteBytes,
    /// Acknowledge that the input is closed.
    Reject(IoFailure),
    /// Close the input, acknowledge it where it was asked for, and end.
    CloseAndEnd,
}

/// The writer of a process's input. It serves requests as long as the input is open.
#[derive(Clone, Copy, Debug, PartialEq, Eq, Structural)]
pub struct InputWriter {
    pub open: bool,
}

impl InputWriter {
    /// The writer of an open input.
    pub fn new() -> (result: Self)
        ensures
            result.open,
    {
        InputWriter { open: true }
    }

    /// Whether a request is served by a step, after which the writer is another.
    pub open spec fn is_served(self, request: InputRequest, step: InputStep, after: InputWriter) -> bool {
        match request {
            InputRequest::Write => after == self && if self.open {
                step is WriteBytes
            } else {
                step matches InputStep::Reject(failure) && failure@
                    == crate::windows::embedding::process::broken_pipe("process stdin closed"@)
            },
            _ => step is CloseAndEnd && !after.open,
        }
    }

    /// Takes the next request.
    pub fn serve(&mut self, request: InputRequest) -> (result: InputStep)
        ensures
            old(self).is_served(request, result, *final(self)),
    {
        match request {
            InputRequest::Write => {
                if self.open {
                    InputStep::WriteBytes
                } else {
                    InputStep::Reject(IoFailure::new(IoErrorKind::BrokenPipe, "process stdin closed"))
                }
            },
            _ => {
                self.open = false;
                InputStep::CloseAndEnd
            },
        }
    }

    /// Notes what came of a write. A failed write ends the writer, and its input is
    /// closed.
    pub fn wrote(&mut self, failed: bool)
        ensures
            final(self).open == (old(self).open && !failed),
    {
        if failed {
            self.open = false;
        }
    }
}

/// A process starts in its job, inherits exactly its standard handles that are one, and
/// names them at its startup where there is any.
pub proof fn processes_are_created_in_their_job(
    creation: ProcessCreation,
    stdin: i64,
    stdout: i64,
    stderr: i64,
    handle: i64,
)
    requires
        is_creation_with(creation, stdin, stdout, stderr),
    ensures
        creation.inherited@.contains(handle) <==> handle != 0 && handle != -1 && (handle == stdin || handle == stdout
            || handle == stderr),
        creation.inherit_handles <==> creation.inherited@.len() > 0,
        creation.attributes == (if creation.inherited@.len() > 0 {
            2u32
        } else {
            1u32
        }),
        creation.startup_flags == (if creation.inherited@.len() > 0 {
            0x100u32
        } else {
            0u32
        }),
        creation.creation_flags == 0x8_0400,
{
    assert(0x400u32 | 0x8_0000u32 == 0x8_0400u32) by (bit_vector);
}

/// Input is written while it is open, and never after it was closed.
pub proof fn closed_inputs_take_no_bytes(writer: InputWriter, request: InputRequest, step: InputStep, after: InputWriter)
    requires
        writer.is_served(request, step, after),
    ensures
        step is WriteBytes <==> request is Write && writer.open,
        step is Reject <==> request is Write && !writer.open,
        step is CloseAndEnd <==> !(request is Write),
        after.open ==> writer.open && request is Write,
        step is CloseAndEnd ==> !after.open,
{
}

/// What is closed once a process is over is its thread, itself and its token, where there
/// are such, and nothing else.
pub proof fn retired_handles_are_the_process_own(thread: i64, process: Option<i64>, token: i64, handle: i64)
    ensures
        retired_handles(thread, process, token).contains(handle) <==> {
            ||| handle == thread && thread != 0 && thread != -1
            ||| process == Some(handle)
            ||| handle == token && token != 0 && token != -1
        },
{
    let first = real_handles(seq![thread]);
    let own = match process {
        Some(process) => seq![process],
        None => Seq::<i64>::empty(),
    };
    let last = real_handles(seq![token]);
    let whole = first + own + last;
    lemma_single_handle(thread);
    lemma_single_handle(token);
    if first.contains(handle) {
        assert(whole[0] == handle);
    }
    if process == Some(handle) {
        assert(own[0] == handle);
        assert(whole[first.len() as int] == handle);
    }
    if last.contains(handle) {
        assert(whole[(first.len() + own.len()) as int] == handle);
    }
    if handle == thread && thread != 0 && thread != -1 {
        assert(first[0] == handle);
    }
    if handle == token && token != 0 && token != -1 {
        assert(last[0] == handle);
    }
}

proof fn lemma_single_handle(handle: i64)
    ensures
        real_handles(seq![handle]) == if handle != 0 && handle != -1 {
            seq![handle]
        } else {
            Seq::<i64>::empty()
        },
{
    let single = seq![handle];
    reveal(Seq::filter);
    assert(single.drop_last() =~= Seq::<i64>::empty());
    assert(single.last() == handle);
    let keep = |handle: i64| crate::windows::embedding::process::is_handle(handle);
    assert(Seq::<i64>::empty().filter(keep) =~= Seq::<i64>::empty());
    assert(Seq::<i64>::empty().push(handle) =~= single);
}

/// The parent writes, and reads either output, exactly where that stream is piped; a new
/// process has no exit code and a job to terminate.
pub proof fn transports_are_those_of_the_pipes(transports: EmbeddingTransports, stdio: WindowsSandboxEmbeddingStdio)
    requires
        are_transports_of(transports, stdio),
    ensures
        transports.session.stdin_open <==> stdio.stdin is Pipe,
        transports.stdout <==> stdio.stdout is Pipe,
        transports.stderr <==> stdio.stderr is Pipe,
        transports.session.terminator,
        transports.session.exit_code is None,
{
}

} // verus!
