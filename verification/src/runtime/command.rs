//! Which commands a runtime launches.

use crate::error::{SandboxError, SandboxErrorModel};
use crate::model;
use crate::model::Step;
use crate::native::{chars_of, NativePath, NativeString, NativeText, PathModel};
use crate::policy::host::{Resolution, ResolutionModel};
use crate::policy::prepare::{validate_absolute_path, validate_existing_path_encoding};
use crate::text::{concat2, to_uppercase};
use crate::types::{CommandSpec, SandboxBackend};
use vstd::prelude::*;
use vstd::string::*;

verus! {

/// Operating system of the host.
#[derive(Clone, Copy, Debug, PartialEq, Eq, Structural)]
pub enum HostPlatform {
    Macos,
    Linux,
    Windows,
    /// Any other system, for which there is no sandbox.
    Other,
}

/// The backend that a host uses by default, and names in its diagnostics.
pub open spec fn default_backend(platform: HostPlatform) -> SandboxBackend {
    match platform {
        HostPlatform::Macos => SandboxBackend::MacosSeatbelt,
        HostPlatform::Linux => SandboxBackend::LinuxBubblewrap,
        HostPlatform::Windows => SandboxBackend::WindowsRestrictedToken,
        HostPlatform::Other => SandboxBackend::LinuxBubblewrap,
    }
}

/// The backend that a host uses by default.
pub fn host_backend(platform: HostPlatform) -> (result: SandboxBackend)
    ensures
        result == default_backend(platform),
{
    match platform {
        HostPlatform::Macos => SandboxBackend::MacosSeatbelt,
        HostPlatform::Linux => SandboxBackend::LinuxBubblewrap,
        HostPlatform::Windows => SandboxBackend::WindowsRestrictedToken,
        HostPlatform::Other => SandboxBackend::LinuxBubblewrap,
    }
}

/// What a [`CommandSpec`] holds.
pub struct CommandModel {
    pub program: PathModel,
    pub args: Seq<NativeText>,
    pub cwd: PathModel,
    pub env: Seq<(NativeText, NativeText)>,
}

impl DeepView for CommandSpec {
    type V = CommandModel;

    open spec fn deep_view(&self) -> CommandModel {
        CommandModel {
            program: self.program@,
            args: self.args.deep_view(),
            cwd: self.cwd@,
            env: self.env.deep_view(),
        }
    }
}

impl View for CommandSpec {
    type V = CommandModel;

    open spec fn view(&self) -> CommandModel {
        self.deep_view()
    }
}

/// An error about the command.
pub open spec fn command_error(message: Seq<char>) -> SandboxErrorModel {
    SandboxErrorModel::InvalidCommand { message }
}

/// An error about the command.
fn invalid_command(message: &str) -> (result: SandboxError)
    ensures
        result@ == command_error(message@),
{
    SandboxError::InvalidCommand { message: message.to_owned() }
}

/// The error for a value with an interior NUL.
pub open spec fn nul_error(description: Seq<char>) -> SandboxErrorModel {
    command_error(description + " must not contain an interior NUL"@)
}

/// The error for a value that is not valid Unicode.
pub open spec fn unicode_error(description: Seq<char>) -> SandboxErrorModel {
    command_error(description + " must be valid UTF-8 for the selected backend"@)
}

/// Checks that a value holds no NUL.
pub fn require_no_nul(value: &NativeString, description: &str) -> (result: Result<(), SandboxError>)
    ensures
        if value@.has_nul() {
            result matches Err(error) && error@ == nul_error(description@)
        } else {
            result is Ok
        },
{
    if value.has_nul() {
        let message = concat2(description, " must not contain an interior NUL");
        return Err(invalid_command(message.as_str()));
    }
    Ok(())
}

/// The text of a value that must be valid Unicode.
pub fn require_utf8_os<'a>(value: &'a NativeString, description: &str) -> (result: Result<&'a String, SandboxError>)
    ensures
        match value@ {
            NativeText::Unicode(text) => result matches Ok(found) && found@ == text,
            _ => result matches Err(error) && error@ == unicode_error(description@),
        },
{
    match value {
        NativeString::Unicode(text) => Ok(text),
        _ => {
            let message = concat2(description, " must be valid UTF-8 for the selected backend");
            Err(invalid_command(message.as_str()))
        },
    }
}

/// The error for a path that is not valid Unicode.
pub open spec fn path_unicode_error(path: PathModel, description: Seq<char>) -> SandboxErrorModel {
    SandboxErrorModel::InvalidPath {
        path,
        message: description + " must be valid UTF-8 for the selected backend"@,
    }
}

/// Checks that a path is valid Unicode.
pub fn require_utf8_path(path: &NativePath, description: &str) -> (result: Result<(), SandboxError>)
    ensures
        if path@.text.is_unicode() {
            result is Ok
        } else {
            result matches Err(error) && error@ == path_unicode_error(path@, description@)
        },
{
    if path.is_unicode() {
        Ok(())
    } else {
        Err(
            SandboxError::InvalidPath {
                path: path.clone(),
                message: concat2(description, " must be valid UTF-8 for the selected backend"),
            },
        )
    }
}

/// The value's units as numbers, which are the character codes of ASCII characters.
pub open spec fn codes(value: NativeText) -> Seq<u32> {
    match value {
        NativeText::Unicode(text) => text.map_values(|ch: char| ch as u32),
        NativeText::Bytes(bytes) => bytes.map_values(|byte: u8| byte as u32),
        NativeText::Wide(units) => units.map_values(|unit: u16| unit as u32),
    }
}

/// The codes of `=`, and of the reserved prefixes `LD_` and `DYLD_`.
pub open spec fn equals_sign() -> u32 {
    61
}

pub open spec fn loader_prefix(platform: HostPlatform) -> Option<Seq<u32>> {
    match platform {
        HostPlatform::Linux => Some(seq![76u32, 68, 95]),
        HostPlatform::Macos => Some(seq![68u32, 89, 76, 68, 95]),
        _ => None,
    }
}

/// Whether an environment key holds an equals sign that the host does not allow.
/// A Windows drive-current-directory key starts with one.
pub open spec fn has_invalid_equals(platform: HostPlatform, key: Seq<u32>) -> bool {
    if platform == HostPlatform::Windows && key.len() > 0 && key[0] == equals_sign() {
        key.len() == 1 || key.drop_first().contains(equals_sign())
    } else {
        key.contains(equals_sign())
    }
}

/// The error for an environment key, if there is one.
pub open spec fn environment_key_error(platform: HostPlatform, key: NativeText) -> Option<SandboxErrorModel> {
    if key.has_nul() {
        Some(nul_error("environment key"@))
    } else if key.is_empty() {
        Some(command_error("environment keys must not be empty"@))
    } else if has_invalid_equals(platform, codes(key)) {
        Some(
            command_error(
                "environment keys must not contain `=` except for a Windows drive-current-directory prefix"@,
            ),
        )
    } else {
        None
    }
}

fn codes_of(value: &NativeString) -> (result: Vec<u32>)
    ensures
        result@ == codes(value@),
{
    let mut result: Vec<u32> = Vec::new();
    match value {
        NativeString::Unicode(text) => {
            let chars = chars_of(text.as_str());
            for index in 0..chars.len()
                invariant
                    result@.len() == index,
                    forall|i: int| 0 <= i < index ==> result@[i] == chars@[i] as u32,
            {
                result.push(chars[index] as u32);
            }
            assert(result@ =~= codes(value@));
        },
        NativeString::Bytes(bytes) => {
            for index in 0..bytes.len()
                invariant
                    result@.len() == index,
                    forall|i: int| 0 <= i < index ==> result@[i] == bytes@[i] as u32,
            {
                result.push(bytes[index] as u32);
            }
            assert(result@ =~= codes(value@));
        },
        NativeString::Wide(units) => {
            for index in 0..units.len()
                invariant
                    result@.len() == index,
                    forall|i: int| 0 <= i < index ==> result@[i] == units@[i] as u32,
            {
                result.push(units[index] as u32);
            }
            assert(result@ =~= codes(value@));
        },
    }
    result
}

fn contains_equals_from(codes: &Vec<u32>, start: usize) -> (result: bool)
    requires
        start <= codes@.len(),
    ensures
        result == codes@.skip(start as int).contains(equals_sign()),
{
    let ghost rest = codes@.skip(start as int);
    for index in start..codes.len()
        invariant
            rest == codes@.skip(start as int),
            start <= codes@.len(),
            forall|i: int| 0 <= i < index - start ==> rest[i] != equals_sign(),
    {
        if codes[index] == 61 {
            assert(rest[index - start] == equals_sign());
            return true;
        }
    }
    false
}

fn starts_with_codes(codes: &Vec<u32>, prefix: &Vec<u32>) -> (result: bool)
    ensures
        result == prefix@.is_prefix_of(codes@),
{
    if prefix.len() > codes.len() {
        return false;
    }
    for index in 0..prefix.len()
        invariant
            prefix@.len() <= codes@.len(),
            forall|i: int| 0 <= i < index ==> prefix@[i] == codes@[i],
    {
        if prefix[index] != codes[index] {
            assert(codes@.subrange(0, prefix@.len() as int)[index as int] == codes@[index as int]);
            return false;
        }
    }
    assert(prefix@ =~= codes@.subrange(0, prefix@.len() as int));
    true
}

/// Checks an environment key.
pub fn require_valid_environment_key(platform: HostPlatform, key: &NativeString) -> (result: Result<(), SandboxError>)
    ensures
        match environment_key_error(platform, key@) {
            Some(expected) => result matches Err(error) && error@ == expected,
            None => result is Ok,
        },
{
    require_no_nul(key, "environment key")?;
    if key.is_empty() {
        return Err(invalid_command("environment keys must not be empty"));
    }
    let codes = codes_of(key);
    let contains_invalid_equals = if platform == HostPlatform::Windows && codes.len() > 0 && codes[0] == 61 {
        assert(codes@.drop_first() =~= codes@.skip(1));
        codes.len() == 1 || contains_equals_from(&codes, 1)
    } else {
        assert(codes@.skip(0) =~= codes@);
        contains_equals_from(&codes, 0)
    };
    if contains_invalid_equals {
        return Err(
            invalid_command(
                "environment keys must not contain `=` except for a Windows drive-current-directory prefix",
            ),
        );
    }
    Ok(())
}

/// The error for a variable that the host's loader would act on before the sandbox exists.
pub open spec fn loader_error(platform: HostPlatform) -> SandboxErrorModel {
    if platform == HostPlatform::Linux {
        command_error(
            "Linux child environment keys beginning with LD_ are unsupported because they would affect the pre-sandbox helper"@,
        )
    } else {
        command_error(
            "macOS child environment keys beginning with DYLD_ are unsupported because sandbox-exec removes them before target launch"@,
        )
    }
}

/// Whether the host's loader acts on variables with this key.
pub open spec fn is_loader_key(platform: HostPlatform, key: NativeText) -> bool {
    match loader_prefix(platform) {
        Some(prefix) => prefix.is_prefix_of(codes(key)),
        None => false,
    }
}

/// What one environment variable contributes: nothing, unless it cannot be passed on.
pub open spec fn variable_step(platform: HostPlatform, variable: (NativeText, NativeText)) -> Step<
    (),
    SandboxErrorModel,
> {
    match environment_key_error(platform, variable.0) {
        Some(error) => Step::Fail(error),
        None => if variable.1.has_nul() {
            Step::Fail(nul_error("environment value"@))
        } else if is_loader_key(platform, variable.0) {
            Step::Fail(loader_error(platform))
        } else {
            Step::Skip
        },
    }
}

/// What the environment variables contribute, in order.
pub open spec fn variable_steps(platform: HostPlatform, env: Seq<(NativeText, NativeText)>) -> Seq<
    Step<(), SandboxErrorModel>,
> {
    Seq::new(env.len(), |index: int| variable_step(platform, env[index]))
}

fn loader_codes(platform: HostPlatform) -> (result: Option<Vec<u32>>)
    ensures
        match loader_prefix(platform) {
            Some(prefix) => result matches Some(codes) && codes@ == prefix,
            None => result is None,
        },
{
    match platform {
        HostPlatform::Linux => {
            let codes: Vec<u32> = vec![76, 68, 95];
            assert(codes@ =~= seq![76u32, 68, 95]);
            Some(codes)
        },
        HostPlatform::Macos => {
            let codes: Vec<u32> = vec![68, 89, 76, 68, 95];
            assert(codes@ =~= seq![68u32, 89, 76, 68, 95]);
            Some(codes)
        },
        _ => None,
    }
}

fn validate_variable(platform: HostPlatform, key: &NativeString, value: &NativeString) -> (result: Result<
    (),
    SandboxError,
>)
    ensures
        match variable_step(platform, (key@, value@)) {
            Step::Fail(expected) => result matches Err(error) && error@ == expected,
            _ => result is Ok,
        },
{
    require_valid_environment_key(platform, key)?;
    require_no_nul(value, "environment value")?;
    if let Some(prefix) = loader_codes(platform) {
        let codes = codes_of(key);
        if starts_with_codes(&codes, &prefix) {
            if platform == HostPlatform::Linux {
                return Err(
                    invalid_command(
                        "Linux child environment keys beginning with LD_ are unsupported because they would affect the pre-sandbox helper",
                    ),
                );
            } else {
                return Err(
                    invalid_command(
                        "macOS child environment keys beginning with DYLD_ are unsupported because sandbox-exec removes them before target launch",
                    ),
                );
            }
        }
    }
    Ok(())
}

/// The fold under which Windows treats environment keys as one.
pub open spec fn folded_key(key: NativeText) -> Seq<char> {
    match key {
        NativeText::Unicode(text) => crate::text::uppercased(text),
        _ => Seq::empty(),
    }
}

/// The folds of all keys, in order.
pub open spec fn folded_keys(env: Seq<(NativeText, NativeText)>) -> Seq<Seq<char>> {
    env.map_values(|variable: (NativeText, NativeText)| folded_key(variable.0))
}

/// Whether an earlier key has the fold at `index`.
pub open spec fn repeats_key(folded: Seq<Seq<char>>, index: int) -> bool {
    exists|earlier: int| 0 <= earlier < index && #[trigger] folded[earlier] == folded[index]
}

/// What one variable contributes on Windows: nothing, unless it is not Unicode or comes
/// twice by the folds of the keys.
pub open spec fn windows_variable_step(
    env: Seq<(NativeText, NativeText)>,
    folded: Seq<Seq<char>>,
    index: int,
) -> Step<(), SandboxErrorModel> {
    if !env[index].0.is_unicode() {
        Step::Fail(unicode_error("environment key"@))
    } else if !env[index].1.is_unicode() {
        Step::Fail(unicode_error("environment value"@))
    } else if repeats_key(folded, index) {
        Step::Fail(command_error("environment keys must be unique ignoring case on Windows"@))
    } else {
        Step::Skip
    }
}

/// What the variables contribute on Windows, in order.
pub open spec fn windows_variable_steps(env: Seq<(NativeText, NativeText)>, folded: Seq<Seq<char>>) -> Seq<
    Step<(), SandboxErrorModel>,
> {
    Seq::new(env.len(), |index: int| windows_variable_step(env, folded, index))
}

/// The folds of all keys, in order. A key that is not Unicode has none.
pub(crate) fn fold_keys(env: &Vec<(NativeString, NativeString)>) -> (result: Vec<String>)
    ensures
        result@.len() == env@.len(),
        result.deep_view() == folded_keys(env.deep_view()),
{
    let ghost models = folded_keys(env.deep_view());
    let mut folded: Vec<String> = Vec::new();
    assert(folded.deep_view() =~= models.take(0));
    for index in 0..env.len()
        invariant
            models == folded_keys(env.deep_view()),
            folded.deep_view() == models.take(index as int),
    {
        let ghost before = folded;
        let key = match &env[index].0 {
            NativeString::Unicode(key) => to_uppercase(key.as_str()),
            _ => String::new(),
        };
        folded.push(key);
        proof {
            model::lemma_deep_push(before, folded, key);
            assert(env.deep_view()[index as int] == env@[index as int].deep_view());
            assert(models[index as int] =~= key@);
            model::lemma_take_push(models, index as int);
        }
    }
    proof {
        model::lemma_take_all(models);
    }
    folded
}

/// Whether an earlier text is the one at `index`.
pub(crate) fn comes_again(folded: &Vec<String>, index: usize) -> (result: bool)
    requires
        index < folded@.len(),
    ensures
        result == repeats_key(folded.deep_view(), index as int),
{
    let ghost models = folded.deep_view();
    assert(models[index as int] == folded@[index as int]@);
    for earlier in 0..index
        invariant
            models == folded.deep_view(),
            index < folded@.len(),
            models[index as int] == folded@[index as int]@,
            forall|i: int| 0 <= i < earlier ==> #[trigger] models[i] != models[index as int],
    {
        assert(models[earlier as int] == folded@[earlier as int]@);
        if folded[earlier] == folded[index] {
            return true;
        }
    }
    false
}

/// Whether some argument holds a NUL.
pub open spec fn any_nul(values: Seq<NativeText>) -> bool {
    exists|index: int| 0 <= index < values.len() && (#[trigger] values[index]).has_nul()
}

/// Whether every argument is valid Unicode.
pub open spec fn all_unicode(values: Seq<NativeText>) -> bool {
    forall|index: int| 0 <= index < values.len() ==> (#[trigger] values[index]).is_unicode()
}

/// The first reason why a host cannot launch a command.
pub open spec fn command_refusal(platform: HostPlatform, command: CommandModel) -> Option<SandboxErrorModel> {
    let by_text = platform == HostPlatform::Linux || platform == HostPlatform::Windows;
    if command.program.text.is_empty() {
        Some(command_error("program must not be empty"@))
    } else if !command.program.absolute {
        Some(command_error("program must be an absolute path"@))
    } else if command.program.text.has_nul() {
        Some(nul_error("program"@))
    } else if any_nul(command.args) {
        Some(nul_error("argument"@))
    } else if let Err(error) = model::collected(variable_steps(platform, command.env)) {
        Some(error)
    } else if by_text && !command.program.text.is_unicode() {
        Some(unicode_error("program"@))
    } else if by_text && !all_unicode(command.args) {
        Some(unicode_error("argument"@))
    } else {
        let windows_outcome = model::collected(windows_variable_steps(command.env, folded_keys(command.env)));
        if platform == HostPlatform::Windows && windows_outcome is Err {
            Some(windows_outcome->Err_0)
        } else if platform != HostPlatform::Other && !command.cwd.text.is_unicode() {
            Some(path_unicode_error(command.cwd, "command working directory"@))
        } else {
            None
        }
    }
}

fn validate_arguments_without_nul(args: &Vec<NativeString>) -> (result: Result<(), SandboxError>)
    ensures
        if any_nul(args.deep_view()) {
            result matches Err(error) && error@ == nul_error("argument"@)
        } else {
            result is Ok
        },
{
    let ghost models = args.deep_view();
    for index in 0..args.len()
        invariant
            models == args.deep_view(),
            forall|i: int| 0 <= i < index ==> !(#[trigger] models[i]).has_nul(),
    {
        assert(models[index as int] == args@[index as int].deep_view());
        require_no_nul(&args[index], "argument")?;
    }
    Ok(())
}

fn validate_unicode_arguments(args: &Vec<NativeString>) -> (result: Result<(), SandboxError>)
    ensures
        if all_unicode(args.deep_view()) {
            result is Ok
        } else {
            result matches Err(error) && error@ == unicode_error("argument"@)
        },
{
    let ghost models = args.deep_view();
    for index in 0..args.len()
        invariant
            models == args.deep_view(),
            forall|i: int| 0 <= i < index ==> (#[trigger] models[i]).is_unicode(),
    {
        assert(models[index as int] == args@[index as int].deep_view());
        require_utf8_os(&args[index], "argument")?;
    }
    Ok(())
}

fn validate_environment(platform: HostPlatform, env: &Vec<(NativeString, NativeString)>) -> (result: Result<
    (),
    SandboxError,
>)
    ensures
        match model::collected(variable_steps(platform, env.deep_view())) {
            Err(expected) => result matches Err(error) && error@ == expected,
            Ok(_) => result is Ok,
        },
{
    let ghost steps = variable_steps(platform, env.deep_view());
    proof {
        model::lemma_take_all(steps);
    }
    for index in 0..env.len()
        invariant
            steps == variable_steps(platform, env.deep_view()),
            model::collected(steps.take(index as int)) is Ok,
    {
        proof {
            model::lemma_collected_step(steps, index as int);
            assert(env.deep_view()[index as int] == env@[index as int].deep_view());
        }
        validate_variable(platform, &env[index].0, &env[index].1)?;
    }
    proof {
        model::lemma_take_all(steps);
    }
    Ok(())
}

/// Checks the variables of a command for Windows, by the folds of their keys.
pub fn validate_folded_environment(env: &Vec<(NativeString, NativeString)>, folded: &Vec<String>) -> (result: Result<
    (),
    SandboxError,
>)
    requires
        folded@.len() == env@.len(),
    ensures
        match model::collected(windows_variable_steps(env.deep_view(), folded.deep_view())) {
            Err(expected) => result matches Err(error) && error@ == expected,
            Ok(_) => result is Ok,
        },
{
    let ghost models = env.deep_view();
    let ghost steps = windows_variable_steps(models, folded.deep_view());
    proof {
        model::lemma_take_all(steps);
    }
    for index in 0..env.len()
        invariant
            folded@.len() == env@.len(),
            models == env.deep_view(),
            steps == windows_variable_steps(models, folded.deep_view()),
            model::collected(steps.take(index as int)) is Ok,
    {
        proof {
            model::lemma_collected_step(steps, index as int);
            assert(models[index as int] == env@[index as int].deep_view());
            assert(steps[index as int] == windows_variable_step(models, folded.deep_view(), index as int));
        }
        require_utf8_os(&env[index].0, "environment key")?;
        require_utf8_os(&env[index].1, "environment value")?;
        if comes_again(folded, index) {
            return Err(invalid_command("environment keys must be unique ignoring case on Windows"));
        }
    }
    proof {
        model::lemma_take_all(steps);
    }
    Ok(())
}

/// Checks that the host can launch the command exactly as it was given.
pub fn validate_command(platform: HostPlatform, command: &CommandSpec) -> (result: Result<(), SandboxError>)
    ensures
        match command_refusal(platform, command@) {
            Some(expected) => result matches Err(error) && error@ == expected,
            None => result is Ok,
        },
{
    if command.program.text.is_empty() {
        return Err(invalid_command("program must not be empty"));
    }
    if !command.program.absolute {
        return Err(invalid_command("program must be an absolute path"));
    }
    require_no_nul(&command.program.text, "program")?;
    validate_arguments_without_nul(&command.args)?;
    validate_environment(platform, &command.env)?;
    if platform == HostPlatform::Linux || platform == HostPlatform::Windows {
        require_utf8_os(&command.program.text, "program")?;
        validate_unicode_arguments(&command.args)?;
    }
    if platform == HostPlatform::Windows {
        validate_folded_environment(&command.env, &fold_keys(&command.env))?;
    }
    if platform != HostPlatform::Other {
        require_utf8_path(&command.cwd, "command working directory")?;
    }
    Ok(())
}

/// What the host reports about a working directory.
pub struct DirectoryProbe {
    /// Whether the path is a directory, or why the host could not tell.
    pub is_directory: Result<bool, String>,
    pub resolution: Resolution,
}

/// The first reason why a working directory cannot be used.
pub open spec fn cwd_refusal(cwd: PathModel, probe: DirectoryProbe) -> Option<SandboxErrorModel> {
    if !cwd.absolute {
        Some(crate::policy::prepare::relative_path_error(cwd, "the command working directory"@))
    } else {
        match probe.is_directory {
            Err(reason) => Some(
                SandboxErrorModel::InvalidPath {
                    path: cwd,
                    message: "failed to inspect the command working directory: "@ + reason@,
                },
            ),
            Ok(is_directory) => {
                match crate::policy::prepare::encoding_error(
                    cwd,
                    probe.resolution@,
                    "the command working directory"@,
                ) {
                    Some(error) => Some(error),
                    None => if is_directory {
                        None
                    } else {
                        Some(
                            SandboxErrorModel::InvalidPath {
                                path: cwd,
                                message: "the command working directory is not a directory"@,
                            },
                        )
                    },
                }
            },
        }
    }
}

/// Checks that a command's working directory is an existing directory.
pub fn validate_command_cwd(command: &CommandSpec, probe: &DirectoryProbe) -> (result: Result<(), SandboxError>)
    ensures
        match cwd_refusal(command@.cwd, *probe) {
            Some(expected) => result matches Err(error) && error@ == expected,
            None => result is Ok,
        },
{
    validate_absolute_path(&command.cwd, "the command working directory")?;
    let is_directory = match &probe.is_directory {
        Ok(is_directory) => *is_directory,
        Err(reason) => {
            return Err(
                SandboxError::InvalidPath {
                    path: command.cwd.clone(),
                    message: concat2("failed to inspect the command working directory: ", reason.as_str()),
                },
            );
        },
    };
    validate_existing_path_encoding(&command.cwd, &probe.resolution, "the command working directory")?;
    if is_directory {
        Ok(())
    } else {
        Err(
            SandboxError::InvalidPath {
                path: command.cwd.clone(),
                message: "the command working directory is not a directory".to_owned(),
            },
        )
    }
}

/// An accepted command holds no NUL in its program, its arguments, or its environment,
/// so every value reaches the child whole.
pub proof fn accepted_commands_hold_no_nul(platform: HostPlatform, command: CommandModel, index: int)
    requires
        command_refusal(platform, command) is None,
    ensures
        !command.program.text.has_nul(),
        0 <= index < command.args.len() ==> !command.args[index].has_nul(),
        0 <= index < command.env.len() ==> !command.env[index].0.has_nul() && !command.env[index].1.has_nul(),
{
    if 0 <= index < command.env.len() {
        let steps = variable_steps(platform, command.env);
        model::lemma_collected_has_no_failure(steps, index);
        assert(steps[index] == variable_step(platform, command.env[index]));
    }
}

/// On Windows no two keys of an accepted environment are the same ignoring case.
pub proof fn accepted_windows_keys_are_unique(command: CommandModel, first: int, second: int)
    requires
        command_refusal(HostPlatform::Windows, command) is None,
        0 <= first < second < command.env.len(),
    ensures
        command.env[first].0.is_unicode(),
        command.env[second].0.is_unicode(),
        folded_key(command.env[first].0) != folded_key(command.env[second].0),
{
    let folded = folded_keys(command.env);
    let steps = windows_variable_steps(command.env, folded);
    model::lemma_collected_has_no_failure(steps, first);
    model::lemma_collected_has_no_failure(steps, second);
    assert(steps[first] == windows_variable_step(command.env, folded, first));
    assert(steps[second] == windows_variable_step(command.env, folded, second));
    assert(!repeats_key(folded, second));
    assert(folded[first] != folded[second]);
}

/// Whether a value can be passed on to a child of the host: its key is not empty and holds
/// no NUL, an equals sign stands in it at most where Windows marks a drive, its value holds
/// no NUL, and the host's loader does not act on it.
pub open spec fn is_passable(platform: HostPlatform, variable: (NativeText, NativeText)) -> bool {
    let key = codes(variable.0);
    &&& !variable.0.has_nul()
    &&& !variable.1.has_nul()
    &&& !variable.0.is_empty()
    &&& forall|index: int|
        0 <= index < key.len() && #[trigger] key[index] == '=' as u32 ==> platform == HostPlatform::Windows && index
            == 0 && key.len() > 1
    &&& platform == HostPlatform::Linux ==> !(key.len() >= 3 && key[0] == 'L' as u32 && key[1] == 'D' as u32 && key[2]
        == '_' as u32)
    &&& platform == HostPlatform::Macos ==> !(key.len() >= 5 && key[0] == 'D' as u32 && key[1] == 'Y' as u32 && key[2]
        == 'L' as u32 && key[3] == 'D' as u32 && key[4] == '_' as u32)
}

proof fn lemma_passable(platform: HostPlatform, variable: (NativeText, NativeText))
    ensures
        !(variable_step(platform, variable) is Fail) <==> is_passable(platform, variable),
{
    let key = codes(variable.0);
    let sign = '=' as u32;
    let drive = platform == HostPlatform::Windows;
    assert(sign == 61);
    if key.len() > 0 {
        let rest = key.drop_first();
        if has_invalid_equals(platform, key) {
            if drive && key[0] == sign {
                if key.len() > 1 {
                    let place = choose|place: int| 0 <= place < rest.len() && rest[place] == sign;
                    assert(key[place + 1] == sign);
                }
            } else {
                let place = choose|place: int| 0 <= place < key.len() && key[place] == sign;
                assert(key[place] == sign);
            }
        } else {
            assert forall|index: int| 0 <= index < key.len() && #[trigger] key[index] == sign implies drive && index == 0
                && key.len() > 1 by {
                assert(key.contains(sign));
                if index > 0 {
                    assert(rest[index - 1] == sign);
                    assert(rest.contains(sign));
                }
            }
        }
    } else {
        assert(variable.0.is_empty());
    }
    let linux = seq![76u32, 68, 95];
    let macos = seq![68u32, 89, 76, 68, 95];
    assert('L' as u32 == 76 && 'D' as u32 == 68 && '_' as u32 == 95 && 'Y' as u32 == 89);
    if linux.is_prefix_of(key) {
        assert(key.subrange(0, 3)[0] == 76 && key.subrange(0, 3)[1] == 68 && key.subrange(0, 3)[2] == 95);
    }
    if key.len() >= 3 && key[0] == 76 && key[1] == 68 && key[2] == 95 {
        assert(linux =~= key.subrange(0, 3));
    }
    if macos.is_prefix_of(key) {
        assert(key.subrange(0, 5)[0] == 68 && key.subrange(0, 5)[1] == 89 && key.subrange(0, 5)[2] == 76);
        assert(key.subrange(0, 5)[3] == 68 && key.subrange(0, 5)[4] == 95);
    }
    if key.len() >= 5 && key[0] == 68 && key[1] == 89 && key[2] == 76 && key[3] == 68 && key[4] == 95 {
        assert(macos =~= key.subrange(0, 5));
    }
}

proof fn lemma_all_collect(steps: Seq<Step<(), SandboxErrorModel>>)
    ensures
        model::collected(steps) is Ok <==> forall|index: int|
            0 <= index < steps.len() ==> !((#[trigger] steps[index]) is Fail),
    decreases steps.len(),
{
    if steps.len() > 0 {
        let shorter = steps.drop_last();
        lemma_all_collect(shorter);
        if model::collected(steps) is Ok {
            assert forall|index: int| 0 <= index < steps.len() implies !((#[trigger] steps[index]) is Fail) by {
                model::lemma_collected_has_no_failure(steps, index);
            }
        }
        if forall|index: int| 0 <= index < steps.len() ==> !((#[trigger] steps[index]) is Fail) {
            assert forall|index: int| 0 <= index < shorter.len() implies !((#[trigger] shorter[index]) is Fail) by {
                assert(shorter[index] == steps[index]);
            }
        }
    }
}

/// A command is accepted exactly when the host can pass on all of it as it is: an absolute
/// program, arguments without a NUL, variables that can be passed, text where the backend
/// passes text, and on Windows keys that differ in upper case. Nothing else is refused.
pub proof fn commands_are_accepted_when_they_can_be_passed(platform: HostPlatform, command: CommandModel)
    ensures
        command_refusal(platform, command) is None <==> {
            let passes_text = platform == HostPlatform::Linux || platform == HostPlatform::Windows;
            &&& !command.program.text.is_empty()
            &&& command.program.absolute
            &&& !command.program.text.has_nul()
            &&& forall|index: int| 0 <= index < command.args.len() ==> !(#[trigger] command.args[index]).has_nul()
            &&& forall|index: int|
                0 <= index < command.env.len() ==> is_passable(platform, #[trigger] command.env[index])
            &&& passes_text ==> command.program.text.is_unicode() && forall|index: int|
                0 <= index < command.args.len() ==> (#[trigger] command.args[index]).is_unicode()
            &&& platform == HostPlatform::Windows ==> forall|index: int|
                0 <= index < command.env.len() ==> (#[trigger] command.env[index]).0.is_unicode()
                    && command.env[index].1.is_unicode()
            &&& platform == HostPlatform::Windows ==> forall|first: int, second: int|
                0 <= first < second < command.env.len() ==> crate::text::uppercased(
                    (#[trigger] command.env[first]).0->Unicode_0,
                ) != crate::text::uppercased((#[trigger] command.env[second]).0->Unicode_0)
            &&& platform != HostPlatform::Other ==> command.cwd.text.is_unicode()
        },
{
    let steps = variable_steps(platform, command.env);
    let folded = folded_keys(command.env);
    let windows = windows_variable_steps(command.env, folded);
    lemma_all_collect(steps);
    lemma_all_collect(windows);
    assert forall|index: int| 0 <= index < command.env.len() implies (!((#[trigger] steps[index]) is Fail)
        <==> is_passable(platform, command.env[index])) by {
        lemma_passable(platform, command.env[index]);
    }
    assert forall|index: int| 0 <= index < command.env.len() implies windows[index] == windows_variable_step(
        command.env,
        folded,
        index,
    ) by {}
    if platform == HostPlatform::Windows && model::collected(windows) is Ok {
        assert forall|first: int, second: int| 0 <= first < second < command.env.len() implies crate::text::uppercased(
            (#[trigger] command.env[first]).0->Unicode_0,
        ) != crate::text::uppercased((#[trigger] command.env[second]).0->Unicode_0) by {
            assert(!(windows[second] is Fail));
            assert(!(windows[first] is Fail));
            assert(!repeats_key(folded, second));
            assert(folded[first] != folded[second]);
        }
        assert forall|index: int| 0 <= index < command.env.len() implies (#[trigger] command.env[index]).0.is_unicode()
            && command.env[index].1.is_unicode() by {
            assert(!(windows[index] is Fail));
        }
    }
    if platform == HostPlatform::Windows && (forall|index: int|
        0 <= index < command.env.len() ==> (#[trigger] command.env[index]).0.is_unicode()
            && command.env[index].1.is_unicode()) && (forall|first: int, second: int|
        0 <= first < second < command.env.len() ==> crate::text::uppercased(
            (#[trigger] command.env[first]).0->Unicode_0,
        ) != crate::text::uppercased((#[trigger] command.env[second]).0->Unicode_0)) {
        assert forall|index: int| 0 <= index < windows.len() implies !((#[trigger] windows[index]) is Fail) by {
            assert(command.env[index].0.is_unicode());
            if repeats_key(folded, index) {
                let earlier = choose|earlier: int| 0 <= earlier < index && #[trigger] folded[earlier] == folded[index];
                assert(command.env[earlier].0.is_unicode());
            }
        }
    }
    if forall|index: int| 0 <= index < command.env.len() ==> is_passable(platform, #[trigger] command.env[index]) {
        assert forall|index: int| 0 <= index < steps.len() implies !((#[trigger] steps[index]) is Fail) by {
            assert(is_passable(platform, command.env[index]));
        }
    }
    if model::collected(steps) is Ok {
        assert forall|index: int| 0 <= index < command.env.len() implies is_passable(
            platform,
            #[trigger] command.env[index],
        ) by {
            assert(!(steps[index] is Fail));
        }
    }
}

/// A refused command is reported as a command that is not valid, but for a directory that
/// is not text, which is reported as a path.
pub proof fn refused_commands_are_reported_as_such(platform: HostPlatform, command: CommandModel)
    ensures
        command_refusal(platform, command) matches Some(error) ==> {
            ||| error is InvalidCommand
            ||| error is InvalidPath && error->InvalidPath_path == command.cwd && !command.cwd.text.is_unicode()
        },
{
    let steps = variable_steps(platform, command.env);
    let windows = windows_variable_steps(command.env, folded_keys(command.env));
    lemma_command_errors(steps);
    lemma_command_errors(windows);
}

proof fn lemma_command_errors(steps: Seq<Step<(), SandboxErrorModel>>)
    requires
        forall|index: int|
            0 <= index < steps.len() ==> ((#[trigger] steps[index]) matches Step::Fail(error) ==> error
                is InvalidCommand),
    ensures
        model::collected(steps) matches Err(error) ==> error is InvalidCommand,
    decreases steps.len(),
{
    if steps.len() > 0 {
        let shorter = steps.drop_last();
        assert forall|index: int| 0 <= index < shorter.len() implies ((#[trigger] shorter[index]) matches Step::Fail(
            error,
        ) ==> error is InvalidCommand) by {
            assert(shorter[index] == steps[index]);
        }
        lemma_command_errors(shorter);
    }
}

/// A working directory is accepted exactly when it is an absolute path, under a Unicode
/// name at a Unicode location, to an existing directory; and a refusal names it.
pub proof fn working_directories_must_exist(cwd: PathModel, probe: DirectoryProbe)
    ensures
        cwd_refusal(cwd, probe) is None <==> {
            &&& cwd.absolute
            &&& cwd.text.is_unicode()
            &&& probe.is_directory == Ok::<bool, String>(true)
            &&& probe.resolution@ matches ResolutionModel::Resolved(resolved) && resolved.text.is_unicode()
        },
        cwd_refusal(cwd, probe) matches Some(error) ==> error is InvalidPath && error->InvalidPath_path == cwd,
{
}

/// Every host has its own backend.
pub proof fn hosts_use_their_own_backend(platform: HostPlatform)
    ensures
        default_backend(platform) == SandboxBackend::MacosSeatbelt <==> platform == HostPlatform::Macos,
        default_backend(platform) == SandboxBackend::WindowsRestrictedToken <==> platform == HostPlatform::Windows,
        platform == HostPlatform::Linux ==> default_backend(platform) == SandboxBackend::LinuxBubblewrap,
{
}

} // verus!
