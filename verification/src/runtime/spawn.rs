//! The native command through which an admitted launch enters its sandbox.

use crate::error::{SandboxError, SandboxErrorModel};
use crate::native::{NativePath, NativeString, NativeText, PathModel};
use crate::policy::prepare::NetworkSandboxPolicy;
use crate::runtime::launch::{text_environment, validate_network_denial};
use crate::runtime::linux::{linux_helper_options, text_target, LinuxRuntimeHelper, LinuxRuntimeHelperModel};
use crate::seatbelt::MACOS_SANDBOX_EXEC_PATH;
use crate::types::{CommandSpec, SandboxBackend, SandboxCapabilities, TerminalPolicy};
use vstd::prelude::*;
use vstd::string::*;

verus! {

/// A command as the host starts it. The environment is the whole one: nothing of the
/// parent's is merged.
pub struct NativeCommand {
    pub program: NativeString,
    pub args: Vec<NativeString>,
    pub cwd: NativePath,
    pub env: Vec<(NativeString, NativeString)>,
}

proof fn lemma_deep_append<T: DeepView>(first: Vec<T>, second: Seq<T>, whole: Vec<T>)
    requires
        whole@ == first@ + second,
    ensures
        whole.deep_view() == first.deep_view() + Seq::new(second.len(), |index: int| second[index].deep_view()),
{
    assert(whole.deep_view() =~= first.deep_view() + Seq::new(second.len(), |index: int| second[index].deep_view()));
}

fn append(first: Vec<NativeString>, second: Vec<NativeString>) -> (result: Vec<NativeString>)
    ensures
        result.deep_view() == first.deep_view() + second.deep_view(),
{
    let mut whole = first;
    let mut second_left = second;
    whole.append(&mut second_left);
    proof {
        lemma_deep_append(first, second@, whole);
        assert(second.deep_view() =~= Seq::new(second@.len(), |index: int| second@[index].deep_view()));
    }
    whole
}

/// The command that the Linux helper gets of a launch: the program and its arguments as
/// text, where networking can be denied as the policy asks.
pub fn linux_target(
    capabilities: SandboxCapabilities,
    network: NetworkSandboxPolicy,
    command: &CommandSpec,
) -> (result: Result<Vec<String>, SandboxError>)
    ensures
        if let Some(expected) = crate::runtime::launch::network_denial_failure(capabilities, network) {
            result matches Err(error) && error@ == expected
        } else if !command@.program.text.is_unicode() {
            result matches Err(error) && error@ == crate::runtime::command::unicode_error("program"@)
        } else if !crate::runtime::command::all_unicode(command@.args) {
            result matches Err(error) && error@ == crate::runtime::command::unicode_error("argument"@)
        } else {
            result matches Ok(target) && target.deep_view() == crate::runtime::linux::target_texts(
                command@.program.text,
                command@.args,
            )
        },
{
    validate_network_denial(capabilities, network)?;
    text_target(command)
}

/// Whether a native command starts the Linux helper for a command.
pub open spec fn is_linux_command(
    helper: LinuxRuntimeHelperModel,
    bwrap: PathModel,
    kind: Seq<char>,
    helper_args: Seq<NativeText>,
    command: CommandSpec,
    native: NativeCommand,
) -> bool {
    &&& native.program@ == helper.executable.text
    &&& native.args.deep_view() == crate::runtime::linux::helper_options(bwrap.text, kind, helper.registry_root.text)
        + helper_args
    &&& native.cwd == command.cwd
    &&& native.env == command.env
}

/// Whether a native command starts the Seatbelt launcher for a command.
pub open spec fn is_macos_command(prefix: Seq<NativeText>, command: CommandSpec, native: NativeCommand) -> bool {
    &&& native.program@ == NativeText::Unicode(MACOS_SANDBOX_EXEC_PATH@)
    &&& native.args.deep_view() == seatbelt_arguments(prefix, command@.program.text, command@.args)
    &&& native.cwd == command.cwd
    &&& native.env == command.env
}

/// The command that starts the Linux helper: its options, then the arguments that
/// describe the sandbox and its target.
pub fn spawn_linux(
    helper: &LinuxRuntimeHelper,
    bwrap: &NativePath,
    kind: &str,
    helper_args: Vec<NativeString>,
    command: CommandSpec,
) -> (result: NativeCommand)
    ensures
        is_linux_command(helper@, bwrap@, kind@, helper_args.deep_view(), command, result),
{
    let options = linux_helper_options(bwrap, kind, &helper.registry_root);
    NativeCommand {
        program: helper.executable.text.clone(),
        args: append(options, helper_args),
        cwd: command.cwd,
        env: command.env,
    }
}

/// Whether terminals that the target did not inherit or create are closed to it.
pub fn denies_preexisting_terminals(terminal: TerminalPolicy) -> (result: bool)
    ensures
        result == (terminal == TerminalPolicy::InheritedAndCreatedOnly),
{
    terminal == TerminalPolicy::InheritedAndCreatedOnly
}

/// The arguments of the Seatbelt launcher: its own, then the program and its arguments.
pub open spec fn seatbelt_arguments(
    prefix: Seq<NativeText>,
    program: NativeText,
    args: Seq<NativeText>,
) -> Seq<NativeText> {
    prefix + seq![program] + args
}

/// The command that starts the Seatbelt launcher, unless its policy could not be built.
pub fn spawn_macos(
    backend: SandboxBackend,
    prefix: Result<Vec<NativeString>, String>,
    command: CommandSpec,
) -> (result: Result<NativeCommand, SandboxError>)
    ensures
        match prefix {
            Err(message) => result matches Err(error) && error@ == (SandboxErrorModel::Preparation {
                backend,
                message: message@,
                source: None,
            }),
            Ok(prefix) => result matches Ok(native) && is_macos_command(prefix.deep_view(), command, native),
        },
{
    match prefix {
        Err(message) => Err(SandboxError::Preparation { backend, message, source: None }),
        Ok(prefix) => {
            let ghost lead = prefix.deep_view();
            let mut target: Vec<NativeString> = Vec::new();
            target.push(command.program.text);
            assert(target.deep_view() =~= seq![command@.program.text]);
            assert(command@.args == command.args.deep_view());
            let args = append(append(prefix, target), command.args);
            assert(args.deep_view() =~= seatbelt_arguments(lead, command@.program.text, command@.args));
            Ok(
                NativeCommand {
                    program: NativeString::from_text(MACOS_SANDBOX_EXEC_PATH),
                    args,
                    cwd: command.cwd,
                    env: command.env,
                },
            )
        },
    }
}

/// The target of a Windows launch: its command line and its environment as text.
pub struct WindowsTarget {
    pub command: Vec<String>,
    pub env: Vec<(String, String)>,
}

/// The target of a Windows launch, or the first value that is no text.
pub fn spawn_windows(command: &CommandSpec) -> (result: Result<WindowsTarget, SandboxError>)
    ensures
        if !command@.program.text.is_unicode() {
            result matches Err(error) && error@ == crate::runtime::command::unicode_error("program"@)
        } else if !crate::runtime::command::all_unicode(command@.args) {
            result matches Err(error) && error@ == crate::runtime::command::unicode_error("argument"@)
        } else {
            match crate::runtime::launch::environment_text_error(command@.env) {
                Some(expected) => result matches Err(error) && error@ == expected,
                None => result matches Ok(target) && {
                    &&& target.command.deep_view() == crate::runtime::linux::target_texts(
                        command@.program.text,
                        command@.args,
                    )
                    &&& target.env.deep_view() == crate::runtime::launch::environment_texts(command@.env)
                },
            }
        },
{
    assert(command@.env == command.env.deep_view());
    let target = text_target(command)?;
    let env = text_environment(&command.env)?;
    Ok(WindowsTarget { command: target, env })
}

/// The Seatbelt launcher gets the program and every argument as they are, behind its own
/// arguments.
pub proof fn seatbelt_targets_stay_whole(prefix: Seq<NativeText>, program: NativeText, args: Seq<NativeText>)
    ensures
        seatbelt_arguments(prefix, program, args).take(prefix.len() as int) == prefix,
        seatbelt_arguments(prefix, program, args)[prefix.len() as int] == program,
        seatbelt_arguments(prefix, program, args).skip((prefix.len() + 1) as int) == args,
{
    let whole = seatbelt_arguments(prefix, program, args);
    assert(whole.take(prefix.len() as int) =~= prefix);
    assert(whole.skip((prefix.len() + 1) as int) =~= args);
}

/// A command enters its sandbox through the helper or the launcher, never directly, and
/// keeps its own directory and its own whole environment. The arguments that describe the
/// sandbox stand last behind the helper's options, in their order.
pub proof fn commands_keep_their_directory_and_environment(
    helper: LinuxRuntimeHelperModel,
    bwrap: PathModel,
    kind: Seq<char>,
    arguments: Seq<NativeText>,
    command: CommandSpec,
    native: NativeCommand,
)
    ensures
        is_linux_command(helper, bwrap, kind, arguments, command, native) ==> {
            &&& native.cwd@ == command.cwd@
            &&& native.env.deep_view() == command.env.deep_view()
            &&& native.program@ == helper.executable.text
            &&& native.args@.len() >= arguments.len()
            &&& native.args.deep_view().skip(native.args@.len() - arguments.len()) == arguments
            &&& native.args.deep_view().contains(bwrap.text)
            &&& native.args.deep_view().contains(helper.registry_root.text)
        },
        is_macos_command(arguments, command, native) ==> {
            &&& native.cwd@ == command.cwd@
            &&& native.env.deep_view() == command.env.deep_view()
            &&& native.program@ == NativeText::Unicode("/usr/bin/sandbox-exec"@)
            &&& native.args.deep_view().take(arguments.len() as int) == arguments
            &&& native.args.deep_view()[arguments.len() as int] == command.program@.text
            &&& native.args.deep_view().skip((arguments.len() + 1) as int) == command.args.deep_view()
        },
{
    let whole = native.args.deep_view();
    if is_linux_command(helper, bwrap, kind, arguments, command, native) {
        let options = crate::runtime::linux::helper_options(bwrap.text, kind, helper.registry_root.text);
        assert(whole.skip(options.len() as int) =~= arguments);
        assert(whole[2] == bwrap.text);
        assert(whole[6] == helper.registry_root.text);
    }
    if is_macos_command(arguments, command, native) {
        assert(whole.take(arguments.len() as int) =~= arguments);
        assert(whole.skip((arguments.len() + 1) as int) =~= command.args.deep_view());
    }
}

} // verus!
