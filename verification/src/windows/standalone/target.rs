//! The target that a helper starts.

use crate::model;
use crate::native::{NativePath, NativeString, NativeText, PathModel};
use crate::windows::failure::{Failure, FailureModel};
use crate::windows::standalone::command::StandaloneCommandModel;
use crate::windows::standalone::helper::{
    decode_arguments, decode_environment, decode_wire_path, prepare_helper_stream, require_capabilities, HelperStandardStream,
    StreamPlan,
};
use crate::windows::standalone::wire::{SpawnModel, WireSpawnRequest, WireStream};
use vstd::prelude::*;
use vstd::string::*;

verus! {

/// What the host's path syntax makes of the paths of a request.
#[derive(Debug)]
pub struct TargetPaths {
    pub program: NativePath,
    pub cwd: NativePath,
    pub state_dir: NativePath,
}

/// A target as the helper starts it.
#[derive(Debug)]
pub struct HelperTarget {
    /// The program, then its arguments.
    pub argv: Vec<NativeString>,
    pub program: NativePath,
    pub cwd: NativePath,
    pub state_dir: NativePath,
    pub environment: Vec<(NativeString, NativeString)>,
    pub stdin: StreamPlan,
    pub stdout: StreamPlan,
    pub stderr: StreamPlan,
    /// The capabilities that restrict the target's token.
    pub capability_sids: Vec<String>,
    pub network_proxy_restricting_sid: Option<String>,
    pub use_private_desktop: bool,
}

/// What a [`HelperTarget`] holds.
pub struct TargetModel {
    pub argv: Seq<NativeText>,
    pub program: PathModel,
    pub cwd: PathModel,
    pub state_dir: PathModel,
    pub environment: Seq<(NativeText, NativeText)>,
    pub stdin: StreamPlan,
    pub stdout: StreamPlan,
    pub stderr: StreamPlan,
    pub capability_sids: Seq<Seq<char>>,
    pub network_proxy_restricting_sid: Option<Seq<char>>,
    pub use_private_desktop: bool,
}

impl DeepView for HelperTarget {
    type V = TargetModel;

    open spec fn deep_view(&self) -> TargetModel {
        TargetModel {
            argv: self.argv.deep_view(),
            program: self.program@,
            cwd: self.cwd@,
            state_dir: self.state_dir@,
            environment: self.environment.deep_view(),
            stdin: self.stdin,
            stdout: self.stdout,
            stderr: self.stderr,
            capability_sids: self.capability_sids.deep_view(),
            network_proxy_restricting_sid: self.network_proxy_restricting_sid.deep_view(),
            use_private_desktop: self.use_private_desktop,
        }
    }
}

impl View for HelperTarget {
    type V = TargetModel;

    open spec fn view(&self) -> TargetModel {
        self.deep_view()
    }
}

/// How a stream on the wire is opened.
pub open spec fn stream_plan(stream: WireStream, kind: HelperStandardStream) -> StreamPlan {
    match stream {
        WireStream::Handle(handle) => StreamPlan::Take(handle as i64),
        WireStream::Null => StreamPlan::OpenNull(kind.null_right()),
    }
}

/// The target of a request, or the first reason why the helper does not take it. The
/// paths are what the host's syntax makes of the request's values.
pub open spec fn requested_target(
    request: SpawnModel,
    program: PathModel,
    cwd: PathModel,
    state_dir: PathModel,
) -> Result<TargetModel, FailureModel> {
    match crate::windows::standalone::helper::wire_path_failure(request.program, program, "program"@) {
        Some(failure) => Err(failure),
        None => match crate::windows::standalone::helper::wire_path_failure(request.cwd, cwd, "working directory"@) {
            Some(failure) => Err(failure),
            None => match crate::windows::standalone::helper::wire_path_failure(
                request.state_dir,
                state_dir,
                "state directory"@,
            ) {
                Some(failure) => Err(failure),
                None => match model::collected(crate::windows::standalone::helper::value_steps(request.args)) {
                    Err(failure) => Err(failure),
                    Ok(args) => match model::collected(
                        crate::windows::standalone::helper::variable_steps(request.environment),
                    ) {
                        Err(failure) => Err(failure),
                        Ok(environment) => if request.capability_sids.len() == 0 {
                            Err(
                                FailureModel::plain("standalone helper received no filesystem capability SID"@),
                            )
                        } else {
                            Ok(
                                TargetModel {
                                    argv: seq![program.text] + args,
                                    program,
                                    cwd,
                                    state_dir,
                                    environment,
                                    stdin: stream_plan(request.stdin, HelperStandardStream::Stdin),
                                    stdout: stream_plan(request.stdout, HelperStandardStream::Stdout),
                                    stderr: stream_plan(request.stderr, HelperStandardStream::Stderr),
                                    capability_sids: request.capability_sids,
                                    network_proxy_restricting_sid: request.network_proxy_restricting_sid,
                                    use_private_desktop: request.use_private_desktop,
                                },
                            )
                        },
                    },
                },
            },
        },
    }
}

fn program_and_arguments(program: &NativeString, arguments: &Vec<NativeString>) -> (result: Vec<NativeString>)
    ensures
        result.deep_view() == seq![program@] + arguments.deep_view(),
{
    let ghost models = arguments.deep_view();
    let mut argv: Vec<NativeString> = Vec::new();
    argv.push(program.clone());
    assert(argv.deep_view() =~= seq![program@] + models.take(0));
    for index in 0..arguments.len()
        invariant
            models == arguments.deep_view(),
            argv.deep_view() == seq![program@] + models.take(index as int),
    {
        let ghost before = argv;
        let argument = arguments[index].clone();
        argv.push(argument);
        proof {
            model::lemma_deep_push(before, argv, argument);
            model::lemma_take_push(models, index as int);
            assert(models[index as int] == arguments@[index as int]@);
            assert(argv.deep_view() =~= seq![program@] + models.take(index + 1));
        }
    }
    proof {
        model::lemma_take_all(models);
    }
    argv
}

/// Takes the target of a request. `paths` is what the host's path syntax makes of the
/// request's values.
pub fn spawn_helper_target(request: WireSpawnRequest, paths: TargetPaths) -> (result: Result<HelperTarget, Failure>)
    requires
        paths.program@.text == crate::windows::standalone::wire::windows_value(request@.program),
        paths.cwd@.text == crate::windows::standalone::wire::windows_value(request@.cwd),
        paths.state_dir@.text == crate::windows::standalone::wire::windows_value(request@.state_dir),
    ensures
        match requested_target(request@, paths.program@, paths.cwd@, paths.state_dir@) {
            Ok(expected) => result matches Ok(target) && target@ == expected,
            Err(expected) => result matches Err(failure) && failure@ == expected,
        },
{
    let program = decode_wire_path(request.program, paths.program, "program")?;
    let cwd = decode_wire_path(request.cwd, paths.cwd, "working directory")?;
    let state_dir = decode_wire_path(request.state_dir, paths.state_dir, "state directory")?;
    let args = decode_arguments(&request.args)?;
    let environment = decode_environment(&request.environment)?;
    let stdin = prepare_helper_stream(request.stdin, HelperStandardStream::Stdin);
    let stdout = prepare_helper_stream(request.stdout, HelperStandardStream::Stdout);
    let stderr = prepare_helper_stream(request.stderr, HelperStandardStream::Stderr);
    require_capabilities(request.capability_sids.len())?;
    let argv = program_and_arguments(&program.text, &args);
    Ok(
        HelperTarget {
            argv,
            program,
            cwd,
            state_dir,
            environment,
            stdin,
            stdout,
            stderr,
            capability_sids: request.capability_sids,
            network_proxy_restricting_sid: request.network_proxy_restricting_sid,
            use_private_desktop: request.use_private_desktop,
        },
    )
}

/// The values of a command as a request holds them.
pub open spec fn carries_command(request: SpawnModel, command: StandaloneCommandModel, state_dir: NativeText) -> bool {
    &&& request.program == crate::windows::standalone::wire::wide_units(command.program.text)
    &&& request.args == crate::windows::standalone::client::units_of_all(command.args)
    &&& request.environment == crate::windows::standalone::client::units_of_variables(command.environment)
    &&& request.cwd == crate::windows::standalone::wire::wide_units(command.cwd.text)
    &&& request.state_dir == crate::windows::standalone::wire::wide_units(state_dir)
}

/// Whether every value of a command is one of Windows.
pub open spec fn has_windows_values(command: StandaloneCommandModel) -> bool {
    &&& crate::windows::standalone::wire::is_windows_value(command.program.text)
    &&& crate::windows::standalone::wire::is_windows_value(command.cwd.text)
    &&& forall|index: int|
        0 <= index < command.args.len() ==> crate::windows::standalone::wire::is_windows_value(
            #[trigger] command.args[index],
        )
    &&& forall|index: int|
        0 <= index < command.environment.len() ==> crate::windows::standalone::wire::is_windows_value(
            (#[trigger] command.environment[index]).0,
        ) && crate::windows::standalone::wire::is_windows_value(command.environment[index].1)
}

/// The helper starts exactly the command that the embedding application validated and
/// put on the wire: its program, arguments, environment and working directory, whatever
/// Unicode or unpaired surrogates they hold.
pub proof fn targets_survive_the_wire(
    request: SpawnModel,
    command: StandaloneCommandModel,
    state_dir: PathModel,
    program_is_file: bool,
    cwd_is_directory: bool,
)
    requires
        crate::windows::standalone::command::standalone_command_failure(command, program_is_file, cwd_is_directory)
            is None,
        has_windows_values(command),
        crate::windows::standalone::wire::is_windows_value(state_dir.text),
        !state_dir.text.has_nul(),
        crate::windows::standalone::command::is_local_disk_path(state_dir),
        carries_command(request, command, state_dir.text),
        request.capability_sids.len() > 0,
    ensures
        requested_target(request, command.program, command.cwd, state_dir) matches Ok(target) && {
            &&& target.argv == seq![command.program.text] + command.args
            &&& target.program == command.program
            &&& target.cwd == command.cwd
            &&& target.state_dir == state_dir
            &&& target.environment == command.environment
        },
{
    crate::windows::standalone::wire::native_values_survive_the_wire(command.program.text);
    crate::windows::standalone::wire::native_values_survive_the_wire(command.cwd.text);
    crate::windows::standalone::wire::native_values_survive_the_wire(state_dir.text);
    crate::windows::standalone::helper::arguments_survive_the_wire(command.args);
    assert forall|index: int| 0 <= index < command.environment.len() implies {
        &&& !(#[trigger] command.environment[index]).0.has_nul()
        &&& !command.environment[index].1.has_nul()
    } by {
        crate::windows::standalone::command::accepted_targets_pass_every_value_whole(
            command,
            program_is_file,
            cwd_is_directory,
            index,
            index,
        );
    }
    crate::windows::standalone::helper::environments_survive_the_wire(command.environment);
}

/// A target is restricted by the capabilities of its request, of which there is at least
/// one, runs on the desktop that was asked for, and has each stream where the request puts
/// it: the runner's handle, or the null device in the stream's own direction.
pub proof fn targets_keep_their_restrictions(
    request: SpawnModel,
    program: PathModel,
    cwd: PathModel,
    state_dir: PathModel,
)
    ensures
        requested_target(request, program, cwd, state_dir) matches Ok(target) ==> {
            &&& target.capability_sids == request.capability_sids
            &&& target.capability_sids.len() > 0
            &&& target.network_proxy_restricting_sid == request.network_proxy_restricting_sid
            &&& target.use_private_desktop == request.use_private_desktop
            &&& target.program == program && target.cwd == cwd && target.state_dir == state_dir
            &&& target.argv.len() > 0 && target.argv[0] == program.text
            &&& target.stdin == (match request.stdin {
                WireStream::Handle(handle) => StreamPlan::Take(handle as i64),
                WireStream::Null => StreamPlan::OpenNull(0x8000_0000),
            })
            &&& target.stdout == (match request.stdout {
                WireStream::Handle(handle) => StreamPlan::Take(handle as i64),
                WireStream::Null => StreamPlan::OpenNull(0x4000_0000),
            })
            &&& target.stderr == (match request.stderr {
                WireStream::Handle(handle) => StreamPlan::Take(handle as i64),
                WireStream::Null => StreamPlan::OpenNull(0x4000_0000),
            })
        },
        request.capability_sids.len() == 0 ==> requested_target(request, program, cwd, state_dir) is Err,
{
}

} // verus!
