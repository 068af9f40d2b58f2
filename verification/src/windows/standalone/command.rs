//! The target command of a standalone launch.

use crate::model;
use crate::model::Step;
use crate::native::{chars_of, NativePath, NativeString, NativeText, PathComponent, PathModel, PathPrefix};
use crate::native::{ComponentModel, PrefixModel};
use crate::runtime::command::{comes_again, fold_keys};
use crate::text::concat2;
use crate::windows::failure::{Failure, FailureModel};
use vstd::prelude::*;
use vstd::string::*;

verus! {

pub const STANDALONE_HELPER_SWITCH: &'static str = "--standalone-sandbox-runner";

pub const PIPE_IN_PREFIX: &'static str = "--pipe-in=";

pub const PIPE_OUT_PREFIX: &'static str = "--pipe-out=";

/// What follows a prefix, where something does.
pub open spec fn named_after(argument: NativeText, prefix: Seq<char>) -> Option<Seq<char>> {
    match argument {
        NativeText::Unicode(text) => if prefix.is_prefix_of(text) && text.len() > prefix.len() {
            Some(text.skip(prefix.len() as int))
        } else {
            None
        },
        _ => None,
    }
}

fn name_after(argument: &NativeString, prefix: &str) -> (result: Option<String>)
    ensures
        result.deep_view() == named_after(argument@, prefix@),
{
    let text = match argument {
        NativeString::Unicode(text) => text,
        _ => {
            return None;
        },
    };
    let chars = chars_of(text.as_str());
    let lead = chars_of(prefix);
    if chars.len() <= lead.len() {
        return None;
    }
    for index in 0..lead.len()
        invariant
            chars@ == text@,
            lead@ == prefix@,
            argument@ == NativeText::Unicode(text@),
            lead.len() < chars.len(),
            forall|i: int| 0 <= i < index ==> chars@[i] == lead@[i],
    {
        if chars[index] != lead[index] {
            assert(text@.subrange(0, prefix@.len() as int)[index as int] == text@[index as int]);
            return None;
        }
    }
    assert(prefix@ =~= text@.subrange(0, prefix@.len() as int));
    let mut name = String::new();
    let start: usize = lead.len();
    for index in start..chars.len()
        invariant
            chars@ == text@,
            start == prefix@.len(),
            start < chars.len(),
            name@ == text@.subrange(start as int, index as int),
    {
        name.push(chars[index]);
        assert(name@ =~= text@.subrange(start as int, index + 1));
    }
    assert(name@ =~= text@.skip(prefix@.len() as int));
    Some(name)
}

/// The control pipes that a helper invocation names, in and out, where the arguments
/// are exactly such an invocation.
pub open spec fn invocation_pipes(arguments: Seq<NativeText>) -> Option<(Seq<char>, Seq<char>)> {
    if arguments.len() != 3 || arguments[0] != NativeText::Unicode(STANDALONE_HELPER_SWITCH@) {
        None
    } else {
        match (named_after(arguments[1], PIPE_IN_PREFIX@), named_after(arguments[2], PIPE_OUT_PREFIX@)) {
            (Some(pipe_in), Some(pipe_out)) => Some((pipe_in, pipe_out)),
            _ => None,
        }
    }
}

fn is_text(value: &NativeString, text: &str) -> (result: bool)
    ensures
        result == (value@ == NativeText::Unicode(text@)),
{
    match value {
        NativeString::Unicode(value) => crate::native::same_text(value.as_str(), text),
        _ => false,
    }
}

fn named_pipes(arguments: &Vec<NativeString>) -> (result: Option<(String, String)>)
    ensures
        match invocation_pipes(arguments.deep_view()) {
            Some((pipe_in, pipe_out)) => result matches Some(names) && names.0@ == pipe_in && names.1@ == pipe_out,
            None => result is None,
        },
{
    if arguments.len() != 3 {
        return None;
    }
    assert(arguments.deep_view()[0] == arguments@[0]@);
    assert(arguments.deep_view()[1] == arguments@[1]@);
    assert(arguments.deep_view()[2] == arguments@[2]@);
    if !is_text(&arguments[0], STANDALONE_HELPER_SWITCH) {
        return None;
    }
    let pipe_in = name_after(&arguments[1], PIPE_IN_PREFIX);
    let pipe_out = name_after(&arguments[2], PIPE_OUT_PREFIX);
    match (pipe_in, pipe_out) {
        (Some(pipe_in), Some(pipe_out)) => Some((pipe_in, pipe_out)),
        _ => None,
    }
}

/// Whether the arguments are exactly those of a private helper invocation.
pub fn is_windows_sandbox_standalone_helper_invocation(arguments: &Vec<NativeString>) -> (result: bool)
    ensures
        result == invocation_pipes(arguments.deep_view()) is Some,
{
    named_pipes(arguments).is_some()
}

/// The control pipes that the helper's own arguments name, in and out.
pub fn helper_pipe_names(arguments: &Vec<NativeString>) -> (result: Result<(String, String), Failure>)
    ensures
        match invocation_pipes(arguments.deep_view()) {
            Some((pipe_in, pipe_out)) => result matches Ok(names) && names.0@ == pipe_in && names.1@ == pipe_out,
            None => result matches Err(failure) && failure@ == FailureModel::plain(
                "invalid standalone command-runner invocation"@,
            ),
        },
{
    match named_pipes(arguments) {
        Some(names) => Ok(names),
        None => Err(Failure::new("invalid standalone command-runner invocation")),
    }
}

/// Whether a path is absolute on a local disk.
pub open spec fn is_local_disk_path(path: PathModel) -> bool {
    path.absolute && path.components.len() > 0 && match path.components[0] {
        ComponentModel::Prefix(PrefixModel::Disk(_)) => true,
        ComponentModel::Prefix(PrefixModel::VerbatimDisk(_)) => true,
        _ => false,
    }
}

/// Whether a path is absolute on a local disk.
pub fn is_absolute_local_disk_path(path: &NativePath) -> (result: bool)
    ensures
        result == is_local_disk_path(path@),
{
    if !path.absolute || path.components.len() == 0 {
        return false;
    }
    assert(path@.components[0] == path.components@[0]@);
    match &path.components[0] {
        PathComponent::Prefix(PathPrefix::Disk(_)) => true,
        PathComponent::Prefix(PathPrefix::VerbatimDisk(_)) => true,
        _ => false,
    }
}

/// The failure of a value that holds a NUL.
pub open spec fn nul_failure(label: Seq<char>) -> FailureModel {
    FailureModel::plain(label + " contains an embedded NUL"@)
}

/// Checks that a native value holds no NUL.
pub fn validate_native_os_str(value: &NativeString, label: &str) -> (result: Result<(), Failure>)
    ensures
        if value@.has_nul() {
            result matches Err(failure) && failure@ == nul_failure(label@)
        } else {
            result is Ok
        },
{
    if value.has_nul() {
        let message = concat2(label, " contains an embedded NUL");
        return Err(Failure::new(message.as_str()));
    }
    Ok(())
}

/// Native command and complete target environment for a standalone launch.
#[derive(Clone, Debug, PartialEq, Eq)]
pub struct WindowsSandboxStandaloneCommand {
    pub program: NativePath,
    pub args: Vec<NativeString>,
    pub environment: Vec<(NativeString, NativeString)>,
    pub cwd: NativePath,
}

/// What a [`WindowsSandboxStandaloneCommand`] holds.
pub struct StandaloneCommandModel {
    pub program: PathModel,
    pub args: Seq<NativeText>,
    pub environment: Seq<(NativeText, NativeText)>,
    pub cwd: PathModel,
}

impl DeepView for WindowsSandboxStandaloneCommand {
    type V = StandaloneCommandModel;

    open spec fn deep_view(&self) -> StandaloneCommandModel {
        StandaloneCommandModel {
            program: self.program@,
            args: self.args.deep_view(),
            environment: self.environment.deep_view(),
            cwd: self.cwd@,
        }
    }
}

impl View for WindowsSandboxStandaloneCommand {
    type V = StandaloneCommandModel;

    open spec fn view(&self) -> StandaloneCommandModel {
        self.deep_view()
    }
}

/// What one variable of the target environment contributes: nothing, unless it cannot
/// be passed on or its name came before, by the folds of the names.
pub open spec fn target_variable_step(
    environment: Seq<(NativeText, NativeText)>,
    folded: Seq<Seq<char>>,
    index: int,
) -> Step<(), FailureModel> {
    let key = environment[index].0;
    if key.has_nul() {
        Step::Fail(nul_failure("environment name"@))
    } else if environment[index].1.has_nul() {
        Step::Fail(nul_failure("environment value"@))
    } else {
        match key {
            NativeText::Unicode(text) => if text.len() == 0 || text.drop_first().contains('=') {
                Step::Fail(FailureModel::plain("invalid Windows environment variable name"@))
            } else if crate::runtime::command::repeats_key(folded, index) {
                Step::Fail(FailureModel::plain("duplicate Windows environment variable name"@))
            } else {
                Step::Skip
            },
            _ => Step::Fail(
                FailureModel::plain("environment name is not valid Unicode; protocol version 1 rejects it"@),
            ),
        }
    }
}

/// What the target environment contributes, in order.
pub open spec fn target_variable_steps(environment: Seq<(NativeText, NativeText)>, folded: Seq<Seq<char>>) -> Seq<
    Step<(), FailureModel>,
> {
    Seq::new(environment.len(), |index: int| target_variable_step(environment, folded, index))
}

/// The first reason why a command cannot be launched. The host says whether the program
/// is a file and the working directory a directory.
pub open spec fn standalone_command_failure(
    command: StandaloneCommandModel,
    program_is_file: bool,
    cwd_is_directory: bool,
) -> Option<FailureModel> {
    if !is_local_disk_path(command.program) {
        Some(FailureModel::plain("target program must be an absolute local-disk Windows path"@))
    } else if !program_is_file {
        Some(FailureModel::plain("target program is missing: "@ + command.program.text.display()))
    } else if !is_local_disk_path(command.cwd) || !cwd_is_directory {
        Some(FailureModel::plain("target working directory must be an existing absolute local directory"@))
    } else if command.program.text.has_nul() {
        Some(nul_failure("target program"@))
    } else if command.cwd.text.has_nul() {
        Some(nul_failure("target working directory"@))
    } else if crate::runtime::command::any_nul(command.args) {
        Some(nul_failure("target argument"@))
    } else if let Err(failure) = model::collected(
        target_variable_steps(command.environment, crate::runtime::command::folded_keys(command.environment)),
    ) {
        Some(failure)
    } else {
        None
    }
}

fn validate_arguments(args: &Vec<NativeString>) -> (result: Result<(), Failure>)
    ensures
        if crate::runtime::command::any_nul(args.deep_view()) {
            result matches Err(failure) && failure@ == nul_failure("target argument"@)
        } else {
            result is Ok
        },
{
    let ghost models = args.deep_view();
    for index in 0..args.len()
        invariant
            models == args.deep_view(),
            forall|i: int| 0 <= i < index ==> !(#[trigger] models[i]).has_nul(),
    {
        assert(models[index as int] == args@[index as int].deep_view());
        validate_native_os_str(&args[index], "target argument")?;
    }
    Ok(())
}

fn is_variable_name(text: &str) -> (result: bool)
    ensures
        result == !(text@.len() == 0 || text@.drop_first().contains('=')),
{
    let chars = chars_of(text);
    if chars.len() == 0 {
        return false;
    }
    let ghost rest = text@.drop_first();
    for index in 1..chars.len()
        invariant
            chars@ == text@,
            chars.len() > 0,
            rest == text@.drop_first(),
            forall|i: int| 0 <= i < index - 1 ==> rest[i] != '=',
    {
        if chars[index] == '=' {
            assert(rest[index - 1] == '=');
            return false;
        }
    }
    true
}

/// Checks the variables of the target environment, by the folds of their names.
pub fn validate_target_environment(
    environment: &Vec<(NativeString, NativeString)>,
    folded: &Vec<String>,
) -> (result: Result<(), Failure>)
    requires
        folded@.len() == environment@.len(),
    ensures
        match model::collected(target_variable_steps(environment.deep_view(), folded.deep_view())) {
            Err(expected) => result matches Err(failure) && failure@ == expected,
            Ok(_) => result is Ok,
        },
{
    let ghost models = environment.deep_view();
    let ghost steps = target_variable_steps(models, folded.deep_view());
    proof {
        model::lemma_take_all(steps);
    }
    for index in 0..environment.len()
        invariant
            folded@.len() == environment@.len(),
            models == environment.deep_view(),
            steps == target_variable_steps(models, folded.deep_view()),
            model::collected(steps.take(index as int)) is Ok,
    {
        proof {
            model::lemma_collected_step(steps, index as int);
            assert(models[index as int] == environment@[index as int].deep_view());
            assert(steps[index as int] == target_variable_step(models, folded.deep_view(), index as int));
        }
        validate_native_os_str(&environment[index].0, "environment name")?;
        validate_native_os_str(&environment[index].1, "environment value")?;
        let name = match &environment[index].0 {
            NativeString::Unicode(name) => name,
            _ => {
                return Err(
                    Failure::new("environment name is not valid Unicode; protocol version 1 rejects it"),
                );
            },
        };
        if !is_variable_name(name.as_str()) {
            return Err(Failure::new("invalid Windows environment variable name"));
        }
        if comes_again(folded, index) {
            return Err(Failure::new("duplicate Windows environment variable name"));
        }
    }
    proof {
        model::lemma_take_all(steps);
    }
    Ok(())
}

impl WindowsSandboxStandaloneCommand {
    /// Checks that the command can be launched exactly as it was given.
    pub fn validate(&self, program_is_file: bool, cwd_is_directory: bool) -> (result: Result<(), Failure>)
        ensures
            match standalone_command_failure(self@, program_is_file, cwd_is_directory) {
                Some(expected) => result matches Err(failure) && failure@ == expected,
                None => result is Ok,
            },
    {
        if !is_absolute_local_disk_path(&self.program) {
            return Err(Failure::new("target program must be an absolute local-disk Windows path"));
        }
        if !program_is_file {
            let program = self.program.text.display();
            let message = concat2("target program is missing: ", program.as_str());
            return Err(Failure::new(message.as_str()));
        }
        if !is_absolute_local_disk_path(&self.cwd) || !cwd_is_directory {
            return Err(
                Failure::new("target working directory must be an existing absolute local directory"),
            );
        }
        validate_native_os_str(&self.program.text, "target program")?;
        validate_native_os_str(&self.cwd.text, "target working directory")?;
        validate_arguments(&self.args)?;
        validate_target_environment(&self.environment, &fold_keys(&self.environment))
    }
}

/// Every argument and variable of an accepted command is free of NULs, and the names of
/// its variables are Unicode and differ ignoring case. Values may be any native string.
pub proof fn accepted_targets_pass_every_value_whole(
    command: StandaloneCommandModel,
    program_is_file: bool,
    cwd_is_directory: bool,
    first: int,
    second: int,
)
    requires
        standalone_command_failure(command, program_is_file, cwd_is_directory) is None,
    ensures
        0 <= first < command.args.len() ==> !command.args[first].has_nul(),
        0 <= first < command.environment.len() ==> {
            &&& command.environment[first].0.is_unicode()
            &&& !command.environment[first].0.has_nul()
            &&& !command.environment[first].1.has_nul()
        },
        0 <= first < second < command.environment.len() ==> crate::runtime::command::folded_key(
            command.environment[first].0,
        ) != crate::runtime::command::folded_key(command.environment[second].0),
{
    let folded = crate::runtime::command::folded_keys(command.environment);
    let steps = target_variable_steps(command.environment, folded);
    if 0 <= first < command.environment.len() {
        model::lemma_collected_has_no_failure(steps, first);
        assert(steps[first] == target_variable_step(command.environment, folded, first));
    }
    if 0 <= first < second < command.environment.len() {
        model::lemma_collected_has_no_failure(steps, second);
        assert(steps[second] == target_variable_step(command.environment, folded, second));
        assert(!crate::runtime::command::repeats_key(folded, second));
        assert(folded[first] != folded[second]);
    }
}

/// A helper invocation is the switch and its two pipes, named in this order, and nothing
/// else.
pub proof fn helper_invocations_name_both_pipes(
    arguments: Seq<NativeText>,
    pipe_in: Seq<char>,
    pipe_out: Seq<char>,
)
    ensures
        invocation_pipes(arguments) == Some((pipe_in, pipe_out)) <==> {
            &&& arguments.len() == 3
            &&& arguments[0] == NativeText::Unicode("--standalone-sandbox-runner"@)
            &&& arguments[1] == NativeText::Unicode("--pipe-in="@ + pipe_in)
            &&& arguments[2] == NativeText::Unicode("--pipe-out="@ + pipe_out)
            &&& pipe_in.len() > 0
            &&& pipe_out.len() > 0
        },
{
    lemma_named_after("--pipe-in="@, pipe_in);
    lemma_named_after("--pipe-out="@, pipe_out);
    if invocation_pipes(arguments) == Some((pipe_in, pipe_out)) {
        lemma_named(arguments[1], "--pipe-in="@);
        lemma_named(arguments[2], "--pipe-out="@);
    }
}

proof fn lemma_named_after(prefix: Seq<char>, name: Seq<char>)
    ensures
        name.len() > 0 ==> named_after(NativeText::Unicode(prefix + name), prefix) == Some(name),
{
    let text = prefix + name;
    assert(text.subrange(0, prefix.len() as int) =~= prefix);
    assert(text.skip(prefix.len() as int) =~= name);
}

proof fn lemma_named(argument: NativeText, prefix: Seq<char>)
    ensures
        named_after(argument, prefix) matches Some(name) ==> argument == NativeText::Unicode(prefix + name)
            && name.len() > 0,
{
    if named_after(argument, prefix) is Some {
        let text = argument->Unicode_0;
        let name = text.skip(prefix.len() as int);
        assert(text.subrange(0, prefix.len() as int) == prefix);
        assert(prefix + name =~= text) by {
            assert forall|index: int| 0 <= index < prefix.len() implies text[index] == prefix[index] by {
                assert(text.subrange(0, prefix.len() as int)[index] == prefix[index]);
            }
        }
    }
}

/// A path is on a local disk only where it is absolute and starts with a drive; a share,
/// a device or a path without a prefix never is.
pub proof fn local_disks_have_a_drive(path: PathModel)
    ensures
        is_local_disk_path(path) ==> path.absolute && path.components.len() > 0,
        path.components.len() > 0 && path.absolute && (path.components[0] matches ComponentModel::Prefix(prefix) && (
        prefix is Disk || prefix is VerbatimDisk)) ==> is_local_disk_path(path),
        path.components.len() > 0 && (path.components[0] matches ComponentModel::Prefix(prefix) && (prefix is Unc
            || prefix is VerbatimUnc || prefix is DeviceNs || prefix is Verbatim)) ==> !is_local_disk_path(path),
        path.components.len() > 0 && !(path.components[0] is Prefix) ==> !is_local_disk_path(path),
        !path.absolute ==> !is_local_disk_path(path),
{
}

/// Whether a variable can be handed to the target: its name is Unicode, not empty, and
/// holds an equals sign at most in front; neither it nor its value holds a NUL.
pub open spec fn is_target_variable(variable: (NativeText, NativeText)) -> bool {
    &&& variable.0 matches NativeText::Unicode(name) && name.len() > 0 && !name.drop_first().contains('=')
    &&& !variable.0.has_nul()
    &&& !variable.1.has_nul()
}

/// A command is accepted exactly where its program is a file and its working directory a
/// directory on a local disk, none of its values holds a NUL, and each of its variables
/// can be handed over under a name of its own.
pub proof fn targets_are_accepted_when_they_can_be_started(
    command: StandaloneCommandModel,
    program_is_file: bool,
    cwd_is_directory: bool,
)
    ensures
        standalone_command_failure(command, program_is_file, cwd_is_directory) is None <==> {
            &&& is_local_disk_path(command.program) && program_is_file
            &&& is_local_disk_path(command.cwd) && cwd_is_directory
            &&& !command.program.text.has_nul()
            &&& !command.cwd.text.has_nul()
            &&& forall|index: int| 0 <= index < command.args.len() ==> !(#[trigger] command.args[index]).has_nul()
            &&& forall|index: int|
                0 <= index < command.environment.len() ==> is_target_variable(#[trigger] command.environment[index])
            &&& forall|first: int, second: int|
                0 <= first < second < command.environment.len() ==> crate::runtime::command::folded_key(
                    (#[trigger] command.environment[first]).0,
                ) != crate::runtime::command::folded_key((#[trigger] command.environment[second]).0)
        },
{
    let folded = crate::runtime::command::folded_keys(command.environment);
    let steps = target_variable_steps(command.environment, folded);
    if standalone_command_failure(command, program_is_file, cwd_is_directory) is None {
        assert forall|index: int| 0 <= index < command.args.len() implies !(#[trigger] command.args[index]).has_nul() by {
            accepted_targets_pass_every_value_whole(command, program_is_file, cwd_is_directory, index, index);
        }
        assert forall|index: int| 0 <= index < command.environment.len() implies is_target_variable(
            #[trigger] command.environment[index],
        ) by {
            model::lemma_collected_has_no_failure(steps, index);
            assert(!(steps[index] is Fail));
        }
        assert forall|first: int, second: int|
            0 <= first < second < command.environment.len() implies crate::runtime::command::folded_key(
            (#[trigger] command.environment[first]).0,
        ) != crate::runtime::command::folded_key((#[trigger] command.environment[second]).0) by {
            accepted_targets_pass_every_value_whole(command, program_is_file, cwd_is_directory, first, second);
        }
    } else if (forall|index: int|
        0 <= index < command.environment.len() ==> is_target_variable(#[trigger] command.environment[index])) && (
    forall|first: int, second: int|
        0 <= first < second < command.environment.len() ==> crate::runtime::command::folded_key(
            (#[trigger] command.environment[first]).0,
        ) != crate::runtime::command::folded_key((#[trigger] command.environment[second]).0)) {
        assert forall|index: int| 0 <= index < steps.len() implies !((#[trigger] steps[index]) is Fail) by {
            assert(is_target_variable(command.environment[index]));
            if crate::runtime::command::repeats_key(folded, index) {
                let earlier = choose|earlier: int| 0 <= earlier < index && folded[earlier] == folded[index];
                assert(folded[earlier] == crate::runtime::command::folded_key(command.environment[earlier].0));
                assert(folded[index] == crate::runtime::command::folded_key(command.environment[index].0));
            }
        }
        model::lemma_collected_without_failure(steps);
    }
}

} // verus!
