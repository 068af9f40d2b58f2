//! Whether the packaged helpers speak the private companion protocol.

use crate::native::{NativePath, NativeString, NativeText};
use crate::native::same_text;
use crate::text::{concat2, concat3, concat4, decimal_string};
use crate::windows::failure::{Failure, FailureModel};
use crate::windows::standalone::setup::{validate_resource_layout, ResourceProbe, WindowsSandboxStandaloneResources};
use vstd::prelude::*;
use vstd::string::*;
use vstd::utf8::encode_utf8;

verus! {

pub const MAX_COMPATIBILITY_OUTPUT_BYTES: usize = 1024;

/// The most bytes that are taken from a pipe at once.
pub const READ_BUFFER_BYTES: u32 = 256;

/// The host's error for a pipe whose other end is closed.
pub const ERROR_BROKEN_PIPE: u32 = 109;

/// Identifies one private standalone Windows companion executable.
#[derive(Clone, Copy, Debug, PartialEq, Eq, Structural)]
pub enum WindowsSandboxStandaloneHelperKind {
    Setup,
    CommandRunner,
}

impl WindowsSandboxStandaloneHelperKind {
    /// The one argument of a compatibility query.
    pub open spec fn query_text(self) -> Seq<char> {
        match self {
            WindowsSandboxStandaloneHelperKind::Setup => "--codex-mcp-console-sandbox-windows-setup-compatibility-v1"@,
            WindowsSandboxStandaloneHelperKind::CommandRunner => "--codex-mcp-console-sandbox-windows-command-runner-compatibility-v1"@,
        }
    }

    /// What a compatible helper of a release answers.
    pub open spec fn response_text(self, release: Seq<char>) -> Seq<char> {
        match self {
            WindowsSandboxStandaloneHelperKind::Setup => "mcp-console-sandbox-windows-setup/1 codex/"@ + release
                + "\n"@,
            WindowsSandboxStandaloneHelperKind::CommandRunner => "mcp-console-sandbox-windows-command-runner/1 codex/"@
                + release + "\n"@,
        }
    }

    /// The helper's name in diagnostics.
    pub open spec fn label_text(self) -> Seq<char> {
        match self {
            WindowsSandboxStandaloneHelperKind::Setup => "setup"@,
            WindowsSandboxStandaloneHelperKind::CommandRunner => "command-runner"@,
        }
    }

    /// The one argument of a compatibility query.
    pub fn query(self) -> (result: &'static str)
        ensures
            result@ == self.query_text(),
    {
        match self {
            WindowsSandboxStandaloneHelperKind::Setup => "--codex-mcp-console-sandbox-windows-setup-compatibility-v1",
            WindowsSandboxStandaloneHelperKind::CommandRunner => "--codex-mcp-console-sandbox-windows-command-runner-compatibility-v1",
        }
    }

    /// What a compatible helper of a release answers.
    pub fn response(self, release: &str) -> (result: String)
        ensures
            result@ == self.response_text(release@),
    {
        match self {
            WindowsSandboxStandaloneHelperKind::Setup => concat3(
                "mcp-console-sandbox-windows-setup/1 codex/",
                release,
                "\n",
            ),
            WindowsSandboxStandaloneHelperKind::CommandRunner => concat3(
                "mcp-console-sandbox-windows-command-runner/1 codex/",
                release,
                "\n",
            ),
        }
    }

    /// The helper's name in diagnostics.
    pub fn label(self) -> (result: &'static str)
        ensures
            result@ == self.label_text(),
    {
        match self {
            WindowsSandboxStandaloneHelperKind::Setup => "setup",
            WindowsSandboxStandaloneHelperKind::CommandRunner => "command-runner",
        }
    }
}

/// The exact response for a side-effect-free private compatibility query, where the
/// arguments are one.
pub fn windows_sandbox_standalone_helper_compatibility_response(
    helper: WindowsSandboxStandaloneHelperKind,
    arguments: &Vec<NativeString>,
    release: &str,
) -> (result: Option<String>)
    ensures
        result.deep_view() == if arguments.deep_view() == seq![NativeText::Unicode(helper.query_text())] {
            Some(helper.response_text(release@))
        } else {
            None
        },
{
    if arguments.len() != 1 {
        assert(arguments.deep_view().len() != 1);
        return None;
    }
    assert(arguments.deep_view() =~= seq![arguments@[0]@]);
    assert(arguments.deep_view()[0] == arguments@[0]@);
    match &arguments[0] {
        NativeString::Unicode(text) => {
            if same_text(text.as_str(), helper.query()) {
                Some(helper.response(release))
            } else {
                None
            }
        },
        _ => None,
    }
}

/// What a query of a helper gave.
#[derive(Debug)]
pub struct QueryOutput {
    pub success: bool,
    pub stdout: Vec<u8>,
    pub stderr: Vec<u8>,
}

/// Whether the output is exactly that of a compatible helper.
pub open spec fn is_compatible(output: QueryOutput, helper: WindowsSandboxStandaloneHelperKind, release: Seq<char>) -> bool {
    output.success && output.stdout@ == encode_utf8(helper.response_text(release)) && output.stderr@.len() == 0
}

/// The failure of a helper that is not compatible.
pub open spec fn incompatible(
    path: NativeText,
    helper: WindowsSandboxStandaloneHelperKind,
    release: Seq<char>,
) -> FailureModel {
    FailureModel::plain(
        "packaged Windows "@ + helper.label_text() + " helper is incompatible with private companion ABI 1 for Codex "@
            + release + ": "@ + path.display(),
    )
}

fn same_bytes(left: &Vec<u8>, right: &Vec<u8>) -> (result: bool)
    ensures
        result == (left@ == right@),
{
    if left.len() != right.len() {
        return false;
    }
    for index in 0..left.len()
        invariant
            left.len() == right.len(),
            forall|i: int| 0 <= i < index ==> left@[i] == right@[i],
    {
        if left[index] != right[index] {
            return false;
        }
    }
    assert(left@ =~= right@);
    true
}

/// Checks that a helper answered a query as a compatible one does.
pub fn require_compatible_output(
    path: &NativePath,
    helper: WindowsSandboxStandaloneHelperKind,
    release: &str,
    output: &QueryOutput,
) -> (result: Result<(), Failure>)
    ensures
        if is_compatible(*output, helper, release@) {
            result is Ok
        } else {
            result matches Err(failure) && failure@ == incompatible(path@.text, helper, release@)
        },
{
    let response = helper.response(release);
    let expected = bytes_of(response.as_str());
    if !output.success || !same_bytes(&output.stdout, &expected) || output.stderr.len() != 0 {
        let subject = concat3(
            "packaged Windows ",
            helper.label(),
            " helper is incompatible with private companion ABI 1 for Codex ",
        );
        let shown = path.text.display();
        let message = concat4(subject.as_str(), release, ": ", shown.as_str());
        return Err(Failure::new(message.as_str()));
    }
    Ok(())
}

fn bytes_of(text: &str) -> (result: Vec<u8>)
    ensures
        result@ == encode_utf8(text@),
{
    let bytes = text.as_bytes();
    let mut copy: Vec<u8> = Vec::new();
    for index in 0..bytes.len()
        invariant
            bytes@ == encode_utf8(text@),
            copy@ == bytes@.take(index as int),
    {
        copy.push(bytes[index]);
        assert(copy@ =~= bytes@.take(index + 1));
    }
    assert(bytes@.take(bytes.len() as int) =~= bytes@);
    copy
}

/// The failure of a helper's verification, in its wider context.
pub open spec fn helper_failure(failure: FailureModel, helper: WindowsSandboxStandaloneHelperKind) -> FailureModel {
    failure.within("verify packaged Windows "@ + helper.label_text() + " helper compatibility"@)
}

/// Judges the query of one helper, which failed or gave some output.
pub fn verify_helper(
    path: &NativePath,
    helper: WindowsSandboxStandaloneHelperKind,
    release: &str,
    query: Result<QueryOutput, Failure>,
) -> (result: Result<(), Failure>)
    ensures
        match query {
            Err(cause) => result matches Err(failure) && failure@ == helper_failure(cause@, helper),
            Ok(output) => if is_compatible(output, helper, release@) {
                result is Ok
            } else {
                result matches Err(failure) && failure@ == helper_failure(
                    incompatible(path@.text, helper, release@),
                    helper,
                )
            },
        },
{
    let verdict = match query {
        Ok(output) => require_compatible_output(path, helper, release, &output),
        Err(failure) => Err(failure),
    };
    match verdict {
        Ok(_) => Ok(()),
        Err(failure) => {
            let context = concat3("verify packaged Windows ", helper.label(), " helper compatibility");
            Err(failure.within(context.as_str()))
        },
    }
}

/// What is known of a helper's query: nothing yet, or what came of it.
#[derive(Debug)]
pub enum HelperQuery {
    Unasked,
    Asked(Result<QueryOutput, Failure>),
}

/// How the verification of the helpers goes on.
#[derive(Debug)]
pub enum ResourceStep {
    /// Query this helper.
    Query(WindowsSandboxStandaloneHelperKind),
    Verified,
    Refused(Failure),
}

/// What a [`ResourceStep`] holds.
pub enum ResourceStepModel {
    Query(WindowsSandboxStandaloneHelperKind),
    Verified,
    Refused(FailureModel),
}

impl DeepView for ResourceStep {
    type V = ResourceStepModel;

    open spec fn deep_view(&self) -> ResourceStepModel {
        match self {
            ResourceStep::Query(helper) => ResourceStepModel::Query(*helper),
            ResourceStep::Verified => ResourceStepModel::Verified,
            ResourceStep::Refused(failure) => ResourceStepModel::Refused(failure@),
        }
    }
}

/// What a helper's query comes to, if it was asked and did not verify.
pub open spec fn query_refusal(
    path: NativeText,
    helper: WindowsSandboxStandaloneHelperKind,
    release: Seq<char>,
    query: HelperQuery,
) -> Option<FailureModel> {
    match query {
        HelperQuery::Unasked => None,
        HelperQuery::Asked(Err(cause)) => Some(helper_failure(cause@, helper)),
        HelperQuery::Asked(Ok(output)) => if is_compatible(output, helper, release) {
            None
        } else {
            Some(helper_failure(incompatible(path, helper, release), helper))
        },
    }
}

/// How the verification of the helpers goes on: no helper is started unless the layout
/// is right, and the command runner only after the setup helper verified.
pub open spec fn resource_progress(
    layout: Option<FailureModel>,
    setup_path: NativeText,
    runner_path: NativeText,
    release: Seq<char>,
    setup: HelperQuery,
    runner: HelperQuery,
) -> ResourceStepModel {
    let setup_refusal = query_refusal(setup_path, WindowsSandboxStandaloneHelperKind::Setup, release, setup);
    let runner_refusal = query_refusal(
        runner_path,
        WindowsSandboxStandaloneHelperKind::CommandRunner,
        release,
        runner,
    );
    if layout is Some {
        ResourceStepModel::Refused(layout->Some_0)
    } else if setup is Unasked {
        ResourceStepModel::Query(WindowsSandboxStandaloneHelperKind::Setup)
    } else if setup_refusal is Some {
        ResourceStepModel::Refused(setup_refusal->Some_0)
    } else if runner is Unasked {
        ResourceStepModel::Query(WindowsSandboxStandaloneHelperKind::CommandRunner)
    } else if runner_refusal is Some {
        ResourceStepModel::Refused(runner_refusal->Some_0)
    } else {
        ResourceStepModel::Verified
    }
}

/// Verifies the exact helper layout and both closed private companion ABIs: decides how
/// the verification goes on with what is known so far.
pub fn verify_windows_sandbox_standalone_resources(
    resources: &WindowsSandboxStandaloneResources,
    probe: &ResourceProbe,
    release: &str,
    setup: HelperQuery,
    runner: HelperQuery,
) -> (result: ResourceStep)
    ensures
        result.deep_view() == resource_progress(
            crate::windows::standalone::setup::layout_failure(
                resources.setup_executable@,
                resources.command_runner_executable@,
                *probe,
            ),
            resources.setup_executable@.text,
            resources.command_runner_executable@.text,
            release@,
            setup,
            runner,
        ),
{
    match validate_resource_layout(resources, probe) {
        Ok(_) => {},
        Err(failure) => {
            return ResourceStep::Refused(failure);
        },
    }
    match setup {
        HelperQuery::Unasked => {
            return ResourceStep::Query(WindowsSandboxStandaloneHelperKind::Setup);
        },
        HelperQuery::Asked(query) => {
            match verify_helper(
                &resources.setup_executable,
                WindowsSandboxStandaloneHelperKind::Setup,
                release,
                query,
            ) {
                Ok(_) => {},
                Err(failure) => {
                    return ResourceStep::Refused(failure);
                },
            }
        },
    }
    match runner {
        HelperQuery::Unasked => ResourceStep::Query(WindowsSandboxStandaloneHelperKind::CommandRunner),
        HelperQuery::Asked(query) => {
            match verify_helper(
                &resources.command_runner_executable,
                WindowsSandboxStandaloneHelperKind::CommandRunner,
                release,
                query,
            ) {
                Ok(_) => ResourceStep::Verified,
                Err(failure) => ResourceStep::Refused(failure),
            }
        },
    }
}

/// The failure to start a helper's query.
pub fn query_start_failure(path: &NativePath, helper: WindowsSandboxStandaloneHelperKind, error: &str) -> (result: Failure)
    ensures
        result@ == FailureModel::plain(error@).within(
            "start packaged Windows "@ + helper.label_text() + " helper compatibility query at "@
                + path@.text.display(),
        ),
{
    let shown = path.text.display();
    let context = concat4(
        "start packaged Windows ",
        helper.label(),
        " helper compatibility query at ",
        shown.as_str(),
    );
    Failure::new(error).within(context.as_str())
}

/// What the host says of a pipe before it is read.
#[derive(Clone, Copy, Debug, PartialEq, Eq, Structural)]
pub enum PipePeek {
    /// The peek failed with this error.
    Failed(u32),
    /// So many bytes can be read at once.
    Available(u32),
}

/// What to do with a pipe.
#[derive(Debug)]
pub enum PipeStep {
    /// There is nothing to do now.
    Idle,
    /// Read at most so many bytes.
    Read(usize),
    /// The query failed.
    Failed(Failure),
}

/// What was taken from one output pipe of a query.
#[derive(Debug)]
pub struct QueryPipe {
    pub bytes: Vec<u8>,
    /// Whether the pipe reached its end.
    pub eof: bool,
}

/// What follows the peek at a pipe: the step, and whether the pipe is at its end.
pub open spec fn after_peek(eof: bool, peek: PipePeek, label: Seq<char>) -> (Option<FailureModel>, nat, bool) {
    if eof {
        (None, 0, true)
    } else {
        match peek {
            PipePeek::Failed(error) => if error == ERROR_BROKEN_PIPE {
                (None, 0, true)
            } else {
                (
                    Some(
                        FailureModel::plain(
                            "inspect packaged Windows helper compatibility "@ + label + ": Windows error "@
                                + crate::text::decimal(error as nat),
                        ),
                    ),
                    0,
                    false,
                )
            },
            PipePeek::Available(count) => (
                None,
                if count < READ_BUFFER_BYTES {
                    count as nat
                } else {
                    READ_BUFFER_BYTES as nat
                },
                false,
            ),
        }
    }
}

impl QueryPipe {
    /// A pipe from which nothing was taken yet.
    pub fn new() -> (result: Self)
        ensures
            result.bytes@.len() == 0,
            !result.eof,
    {
        QueryPipe { bytes: Vec::new(), eof: false }
    }

    /// Decides what to do with the pipe after a peek at it.
    pub fn peeked(&mut self, peek: PipePeek, label: &str) -> (result: PipeStep)
        ensures
            final(self).bytes@ == old(self).bytes@,
            ({
                let (failure, count, eof) = after_peek(old(self).eof, peek, label@);
                &&& final(self).eof == eof
                &&& match failure {
                    Some(expected) => result matches PipeStep::Failed(failure) && failure@ == expected,
                    None => if count == 0 {
                        result is Idle
                    } else {
                        result matches PipeStep::Read(length) && length == count
                    },
                }
            }),
    {
        if self.eof {
            return PipeStep::Idle;
        }
        match peek {
            PipePeek::Failed(error) => {
                if error == ERROR_BROKEN_PIPE {
                    self.eof = true;
                    return PipeStep::Idle;
                }
                let code = decimal_string(error as u64);
                let message = concat4(
                    "inspect packaged Windows helper compatibility ",
                    label,
                    ": Windows error ",
                    code.as_str(),
                );
                PipeStep::Failed(Failure::new(message.as_str()))
            },
            PipePeek::Available(count) => {
                if count == 0 {
                    PipeStep::Idle
                } else if count < READ_BUFFER_BYTES {
                    PipeStep::Read(count as usize)
                } else {
                    PipeStep::Read(READ_BUFFER_BYTES as usize)
                }
            },
        }
    }

    /// Whether what was read is taken, after which the pipe is another.
    pub open spec fn takes(
        self,
        read: Result<Vec<u8>, String>,
        label: Seq<char>,
        taken: Result<(), Failure>,
        after: QueryPipe,
    ) -> bool {
        match read {
            Err(error) => {
                &&& after == self
                &&& taken matches Err(failure) && failure@ == FailureModel::plain(error@).within(
                    "read packaged Windows helper compatibility "@ + label,
                )
            },
            Ok(chunk) => {
                &&& after.bytes@ == self.bytes@ + chunk@
                &&& after.eof == (self.eof || chunk@.len() == 0)
                &&& if after.bytes@.len() > MAX_COMPATIBILITY_OUTPUT_BYTES {
                    taken matches Err(failure) && failure@ == FailureModel::plain(
                        "packaged Windows helper compatibility "@ + label + " exceeded 1024 bytes"@,
                    )
                } else {
                    taken is Ok
                }
            },
        }
    }

    /// Takes what was read. Nothing read is the pipe's end.
    pub fn received(&mut self, read: Result<Vec<u8>, String>, label: &str) -> (result: Result<(), Failure>)
        requires
            old(self).bytes@.len() <= MAX_COMPATIBILITY_OUTPUT_BYTES,
            read matches Ok(chunk) ==> chunk@.len() <= READ_BUFFER_BYTES,
        ensures
            old(self).takes(read, label@, result, *final(self)),
    {
        match read {
            Err(error) => {
                let context = concat2("read packaged Windows helper compatibility ", label);
                Err(Failure::new(error.as_str()).within(context.as_str()))
            },
            Ok(chunk) => {
                if chunk.len() == 0 {
                    self.eof = true;
                    assert(self.bytes@ =~= old(self).bytes@ + chunk@);
                    return Ok(());
                }
                let mut chunk = chunk;
                self.bytes.append(&mut chunk);
                if self.bytes.len() > MAX_COMPATIBILITY_OUTPUT_BYTES {
                    let message = concat3("packaged Windows helper compatibility ", label, " exceeded 1024 bytes");
                    return Err(Failure::new(message.as_str()));
                }
                Ok(())
            },
        }
    }
}

/// How a query goes on.
#[derive(Debug)]
pub enum QueryProgress {
    /// The helper exited and both pipes are at their end.
    Complete,
    /// Wait a little and look again.
    Pending,
    /// Time is up.
    TimedOut(Failure),
}

/// Whether this is how a query goes on.
pub open spec fn is_query_progress(
    helper: WindowsSandboxStandaloneHelperKind,
    finished: bool,
    deadline_passed: bool,
    progress: QueryProgress,
) -> bool {
    if finished {
        progress is Complete
    } else if deadline_passed {
        progress matches QueryProgress::TimedOut(failure) && failure@ == FailureModel::plain(
            "packaged Windows "@ + helper.label_text() + " helper compatibility query timed out"@,
        )
    } else {
        progress is Pending
    }
}

/// Decides how a query goes on. A finished one is not late.
pub fn query_progress(
    helper: WindowsSandboxStandaloneHelperKind,
    exited: bool,
    stdout: &QueryPipe,
    stderr: &QueryPipe,
    deadline_passed: bool,
) -> (result: QueryProgress)
    ensures
        is_query_progress(helper, exited && stdout.eof && stderr.eof, deadline_passed, result),
{
    if exited && stdout.eof && stderr.eof {
        QueryProgress::Complete
    } else if deadline_passed {
        let message = concat3("packaged Windows ", helper.label(), " helper compatibility query timed out");
        QueryProgress::TimedOut(Failure::new(message.as_str()))
    } else {
        QueryProgress::Pending
    }
}

/// No output passes for that of two kinds of helper, or of one kind in two releases.
pub proof fn compatible_output_tells_helpers_apart(
    output: QueryOutput,
    first: WindowsSandboxStandaloneHelperKind,
    first_release: Seq<char>,
    second: WindowsSandboxStandaloneHelperKind,
    second_release: Seq<char>,
)
    requires
        is_compatible(output, first, first_release),
        is_compatible(output, second, second_release),
    ensures
        first == second,
        first_release == second_release,
{
    let left = first.response_text(first_release);
    let right = second.response_text(second_release);
    vstd::utf8::encode_utf8_decode_utf8(left);
    vstd::utf8::encode_utf8_decode_utf8(right);
    assert(left == right);
    reveal_strlit("mcp-console-sandbox-windows-setup/1 codex/");
    reveal_strlit("mcp-console-sandbox-windows-command-runner/1 codex/");
    reveal_strlit("\n");
    if first == WindowsSandboxStandaloneHelperKind::Setup {
        assert(left[28] == 's');
    } else {
        assert(left[28] == 'c');
    }
    if second == WindowsSandboxStandaloneHelperKind::Setup {
        assert(right[28] == 's');
    } else {
        assert(right[28] == 'c');
    }
    let lead: int = if first == WindowsSandboxStandaloneHelperKind::Setup {
        42
    } else {
        51
    };
    assert(left.len() == lead + first_release.len() + 1);
    assert(right.len() == lead + second_release.len() + 1);
    assert(left.subrange(lead, lead + first_release.len()) =~= first_release);
    assert(right.subrange(lead, lead + second_release.len()) =~= second_release);
}

/// A helper is compatible exactly where its query succeeded with the one line of its kind
/// and release, and nothing else.
pub proof fn compatible_helpers_answer_their_line(
    output: QueryOutput,
    helper: WindowsSandboxStandaloneHelperKind,
    release: Seq<char>,
)
    ensures
        is_compatible(output, helper, release) <==> {
            &&& output.success
            &&& output.stderr@.len() == 0
            &&& output.stdout@ == encode_utf8(
                if helper is Setup {
                    "mcp-console-sandbox-windows-setup/1 codex/"@ + release + "\n"@
                } else {
                    "mcp-console-sandbox-windows-command-runner/1 codex/"@ + release + "\n"@
                },
            )
        },
        helper is Setup ==> helper.query_text() == "--codex-mcp-console-sandbox-windows-setup-compatibility-v1"@,
        helper is CommandRunner ==> helper.query_text()
            == "--codex-mcp-console-sandbox-windows-command-runner-compatibility-v1"@,
{
}

/// Both helpers are verified exactly where they are staged right and each answered as a
/// compatible one. The setup helper is asked first, and the runner only once it verified.
pub proof fn helpers_are_verified_one_after_the_other(
    layout: Option<FailureModel>,
    setup_path: NativeText,
    runner_path: NativeText,
    release: Seq<char>,
    setup: HelperQuery,
    runner: HelperQuery,
)
    ensures
        ({
            let step = resource_progress(layout, setup_path, runner_path, release, setup, runner);
            let setup_good = setup matches HelperQuery::Asked(Ok(output)) && is_compatible(
                output,
                WindowsSandboxStandaloneHelperKind::Setup,
                release,
            );
            let runner_good = runner matches HelperQuery::Asked(Ok(output)) && is_compatible(
                output,
                WindowsSandboxStandaloneHelperKind::CommandRunner,
                release,
            );
            &&& step is Verified <==> layout is None && setup_good && runner_good
            &&& step == ResourceStepModel::Query(WindowsSandboxStandaloneHelperKind::Setup) <==> layout is None
                && setup is Unasked
            &&& step == ResourceStepModel::Query(WindowsSandboxStandaloneHelperKind::CommandRunner) <==> layout is None
                && setup_good && runner is Unasked
            &&& layout matches Some(failure) ==> step == ResourceStepModel::Refused(failure)
        }),
{
}

/// A pipe is at its end where it was before or its other end is closed, and is read by no
/// more than what is there or what the buffer takes.
pub proof fn pipes_end_when_they_are_closed(eof: bool, peek: PipePeek, label: Seq<char>)
    ensures
        ({
            let (failure, count, ended) = after_peek(eof, peek, label);
            &&& ended <==> eof || peek == PipePeek::Failed(109)
            &&& failure is Some <==> !eof && (peek matches PipePeek::Failed(error) && error != 109)
            &&& !eof && peek is Available ==> {
                &&& count <= 256
                &&& count <= peek->Available_0
                &&& count == peek->Available_0 || count == 256
            }
            &&& eof || peek is Failed ==> count == 0
        }),
{
}

/// Everything that a helper says is kept, up to the limit of an answer; a query is over
/// once the helper exited and both its pipes ended, and only then never late.
pub proof fn queries_keep_the_whole_answer(
    pipe: QueryPipe,
    read: Result<Vec<u8>, String>,
    label: Seq<char>,
    taken: Result<(), Failure>,
    after: QueryPipe,
    helper: WindowsSandboxStandaloneHelperKind,
    finished: bool,
    deadline_passed: bool,
    progress: QueryProgress,
)
    requires
        pipe.takes(read, label, taken, after),
        is_query_progress(helper, finished, deadline_passed, progress),
    ensures
        read matches Ok(chunk) ==> after.bytes@ == pipe.bytes@ + chunk@,
        read is Err ==> after.bytes@ == pipe.bytes@ && taken is Err,
        taken is Ok ==> after.bytes@.len() <= 1024,
        read is Ok && after.bytes@.len() <= 1024 ==> taken is Ok,
        after.eof <==> pipe.eof || (read matches Ok(chunk) && chunk@.len() == 0),
        progress is Complete <==> finished,
        progress is TimedOut <==> !finished && deadline_passed,
{
}

} // verus!
