use codex_sandbox::error::{SandboxError, SandboxFeature};
use codex_sandbox::native::{NativePath, NativeString, PathComponent};
use codex_sandbox::policy::access::{explicit_access_at, most_restrictive_access, ResolvedRule, RuleScope};
use codex_sandbox::policy::backend::validate_backend_policy;
use codex_sandbox::policy::glob::escape_literal_glob;
use codex_sandbox::policy::host::{InternalRoot, Presence, Resolution, RuleProbe};
use codex_sandbox::policy::linux::{validate_path_stability, writable_paths, PathCrossings, WritableRoot};
use codex_sandbox::policy::prepare::{
    draft_policy, prepare_policy, requires_path_stability, settle_policy, FileSystemAccessMode, FileSystemPath, FileSystemSpecialPath,
    NetworkSandboxPolicy, PreparedPolicy,
};
use codex_sandbox::types::{PathAccess, PathRule, SandboxBackend, SandboxPolicy};

fn path(text: &str) -> NativePath {
    let mut components = Vec::new();
    let absolute = text.starts_with('/');
    if absolute {
        components.push(PathComponent::RootDir);
    }
    for name in text.split('/').filter(|name| !name.is_empty()) {
        components.push(PathComponent::Normal(NativeString::from_text(name)));
    }
    NativePath { text: NativeString::from_text(text), absolute, components }
}

fn probe(resolved: &str) -> RuleProbe {
    RuleProbe {
        presence: Presence::Present,
        resolution: Resolution::Resolved(path(resolved)),
        is_directory: false,
        overlaps_writable_dev: false,
        overlaps_platform_writes: false,
        metadata: Vec::new(),
    }
}

fn missing() -> RuleProbe {
    RuleProbe {
        presence: Presence::Missing,
        resolution: Resolution::Failed("not found".to_string()),
        ..probe("/")
    }
}

fn stable() -> PathCrossings {
    PathCrossings { read_only: vec![None], unreadable: vec![None] }
}

fn prepare(policy: &SandboxPolicy, probes: Vec<RuleProbe>, backend: SandboxBackend) -> Result<PreparedPolicy, SandboxError> {
    prepare_policy(policy, &probes, &path("/workspace"), backend, &Vec::new(), &stable())
}

fn paths_of(prepared: &PreparedPolicy) -> Vec<(String, FileSystemAccessMode)> {
    prepared
        .file_system
        .iter()
        .filter_map(|entry| match &entry.path {
            FileSystemPath::Path { path } => Some((path.text.display(), entry.access)),
            _ => None,
        })
        .collect()
}

#[test]
fn prepared_rules_keep_their_order() {
    let policy = SandboxPolicy::host_read_only().read_write(path("/a")).deny(path("/a/b")).network_denied();
    let prepared = prepare(&policy, vec![probe("/a"), probe("/a/b")], SandboxBackend::LinuxBubblewrap)
        .unwrap_or_else(|error| panic!("{}", error.message()));
    assert!(matches!(
        &prepared.file_system[0].path,
        FileSystemPath::Special { value: FileSystemSpecialPath::Root }
    ));
    assert_eq!(prepared.network, NetworkSandboxPolicy::Restricted);
    assert_eq!(
        paths_of(&prepared),
        [("/a".to_string(), FileSystemAccessMode::Write), ("/a/b".to_string(), FileSystemAccessMode::Deny)]
    );
}

#[test]
fn missing_rules_fail_unless_they_are_ignored() {
    let strict = SandboxPolicy::host_read_only().read_only(path("/gone"));
    assert!(matches!(
        prepare(&strict, vec![missing()], SandboxBackend::LinuxBubblewrap),
        Err(SandboxError::InvalidPath { path: refused, message })
            if refused == path("/gone") && message == "the requested policy path does not exist"
    ));
    let rule = PathRule::new(path("/gone"), PathAccess::Read).ignore_if_missing();
    let lenient = SandboxPolicy::host_read_only().rule(rule);
    let prepared = prepare(&lenient, vec![missing()], SandboxBackend::LinuxBubblewrap)
        .unwrap_or_else(|error| panic!("{}", error.message()));
    assert_eq!(paths_of(&prepared), []);
    let relative = SandboxPolicy::host_read_only().read_only(path("relative"));
    assert!(matches!(
        prepare(&relative, vec![probe("/relative")], SandboxBackend::LinuxBubblewrap),
        Err(SandboxError::InvalidPath { message, .. }) if message == "a filesystem rule must be absolute"
    ));
}

fn refused_feature(result: Result<PreparedPolicy, SandboxError>) -> SandboxFeature {
    match result {
        Err(SandboxError::UnsupportedPolicy { feature, .. }) => feature,
        Err(error) => panic!("{}", error.message()),
        Ok(_) => panic!("the policy must be refused"),
    }
}

#[test]
fn backends_refuse_what_they_cannot_express() {
    let nested = SandboxPolicy::host_read_only().deny(path("/a")).read_only(path("/a/b"));
    let probes = || vec![probe("/a"), probe("/a/b")];
    assert_eq!(
        refused_feature(prepare(&nested, probes(), SandboxBackend::MacosSeatbelt)),
        SandboxFeature::NestedAllowUnderDeny
    );
    assert_eq!(
        refused_feature(prepare(&nested, probes(), SandboxBackend::LinuxBubblewrap)),
        SandboxFeature::NestedAllowUnderDeny
    );
    let aliased = SandboxPolicy::host_read_only().deny(path("/a")).read_only(path("/link/b"));
    assert_eq!(
        refused_feature(prepare(&aliased, vec![probe("/a"), probe("/a/b")], SandboxBackend::MacosSeatbelt)),
        SandboxFeature::NestedAllowUnderDeny
    );
    let minimal = SandboxPolicy::platform_minimal();
    assert_eq!(
        refused_feature(prepare(&minimal, Vec::new(), SandboxBackend::WindowsRestrictedToken)),
        SandboxFeature::MinimalReadPolicy
    );
    let denied = SandboxPolicy::host_read_only().network_unrestricted().deny(path("/a"));
    assert_eq!(
        refused_feature(prepare(&denied, vec![probe("/a")], SandboxBackend::WindowsRestrictedToken)),
        SandboxFeature::DeniedReadPaths
    );
    let offline = SandboxPolicy::host_read_only().network_denied();
    assert_eq!(
        refused_feature(prepare(&offline, Vec::new(), SandboxBackend::WindowsRestrictedToken)),
        SandboxFeature::NetworkDenial
    );
    let process_files = SandboxPolicy::host_read_only().read_only(path("/proc/self"));
    assert!(prepare(&process_files, vec![probe("/proc/self")], SandboxBackend::LinuxBubblewrap).is_err());
    let writable_root = SandboxPolicy::host_read_only().read_write(path("/"));
    assert!(prepare(&writable_root, vec![probe("/")], SandboxBackend::LinuxBubblewrap).is_err());
    let everything = SandboxPolicy::host_read_only().deny(path("/"));
    assert!(prepare(&everything, vec![probe("/")], SandboxBackend::MacosSeatbelt).is_err());
}

#[test]
fn writable_children_of_denied_parents_reopen_on_linux() {
    let policy = SandboxPolicy::host_read_only().deny(path("/a")).read_write(path("/a/b"));
    assert!(prepare(&policy, vec![probe("/a"), probe("/a/b")], SandboxBackend::LinuxBubblewrap).is_ok());
    assert!(requires_path_stability(SandboxBackend::LinuxBubblewrap));
}

#[test]
fn internal_roots_stay_readable_and_protected() {
    let helper = || vec![InternalRoot { path: path("/helper/bin"), resolution: Resolution::Resolved(path("/helper/bin")) }];
    let run = |policy: &SandboxPolicy, at: &str| {
        prepare_policy(policy, &vec![probe(at)], &path("/workspace"), SandboxBackend::LinuxBubblewrap, &helper(), &stable())
    };
    let deny = SandboxPolicy::host_read_only().deny(path("/helper"));
    assert!(matches!(run(&deny, "/helper"), Err(SandboxError::UnsupportedPolicy { .. })));
    let write = SandboxPolicy::host_read_only().read_write(path("/helper"));
    assert!(matches!(run(&write, "/helper"), Err(SandboxError::UnsupportedPolicy { .. })));
    let elsewhere = SandboxPolicy::platform_minimal().read_write(path("/elsewhere"));
    let prepared = run(&elsewhere, "/elsewhere").unwrap_or_else(|error| panic!("{}", error.message()));
    assert!(paths_of(&prepared).contains(&("/helper/bin".to_string(), FileSystemAccessMode::Read)));
}

#[test]
fn the_deepest_rule_governs_and_denials_win_ties() {
    let rules = [
        PathRule::new(path("/a"), PathAccess::Deny),
        PathRule::new(path("/a/b"), PathAccess::Write),
        PathRule::new(path("/a/b"), PathAccess::Deny),
        PathRule::new(path("/c"), PathAccess::Read),
    ];
    let locations: Vec<NativePath> = rules.iter().map(|rule| rule.path.clone()).collect();
    let probes: Vec<RuleProbe> = rules.iter().map(|rule| probe(&rule.path.text.display())).collect();
    let resolved: Vec<ResolvedRule> = rules
        .iter()
        .zip(&locations)
        .zip(&probes)
        .map(|((rule, resolved), probe)| ResolvedRule { rule, resolved, probe })
        .collect();
    let access = |at: &str| explicit_access_at(&resolved, RuleScope::Lexical, &path(at).components);
    assert_eq!(access("/a/x"), Some(PathAccess::Deny));
    assert_eq!(access("/a/b/x"), Some(PathAccess::Deny));
    assert_eq!(access("/c/d"), Some(PathAccess::Read));
    assert_eq!(access("/d"), None);
    assert_eq!(
        most_restrictive_access(Some(PathAccess::Write), Some(PathAccess::Read)),
        Some(PathAccess::Write)
    );
    assert_eq!(
        most_restrictive_access(Some(PathAccess::Deny), None),
        most_restrictive_access(None, Some(PathAccess::Deny))
    );
}

#[test]
fn acceptance_ignores_the_order_of_the_rules() {
    let rules = [
        PathRule::new(path("/a"), PathAccess::Write),
        PathRule::new(path("/a/b"), PathAccess::Read),
        PathRule::new(path("/a/b/c"), PathAccess::Write),
    ];
    let locations: Vec<NativePath> = rules.iter().map(|rule| rule.path.clone()).collect();
    let probes: Vec<RuleProbe> = rules.iter().map(|rule| probe(&rule.path.text.display())).collect();
    let accepted = |order: &[usize], backend| {
        let resolved: Vec<ResolvedRule> = order
            .iter()
            .map(|&index| ResolvedRule { rule: &rules[index], resolved: &locations[index], probe: &probes[index] })
            .collect();
        validate_backend_policy(&SandboxPolicy::host_read_only().network_unrestricted(), &resolved, backend).is_ok()
    };
    for order in [[0, 1, 2], [2, 1, 0], [1, 2, 0], [1, 0, 2]] {
        assert!(!accepted(&order, SandboxBackend::WindowsRestrictedToken));
        assert!(accepted(&order, SandboxBackend::LinuxBubblewrap));
        assert!(accepted(&order[..1], SandboxBackend::WindowsRestrictedToken));
    }
}

#[test]
fn glob_patterns_match_the_literal_path_only() {
    let escaped = escape_literal_glob(&path("/a[b]*?{c}")).unwrap_or_else(|error| panic!("{}", error.message()));
    assert_eq!(escaped, r"/a\[b\]\*\?\{c\}");
    let bytes = NativePath {
        text: NativeString::Bytes(vec![b'/', 0xff]),
        absolute: true,
        components: vec![PathComponent::RootDir],
    };
    assert!(escape_literal_glob(&bytes).is_err());
}

#[test]
fn crossing_a_writable_symlink_refuses_the_policy() {
    let policy = SandboxPolicy::host_read_only().read_write(path("/a"));
    let run = |backend, crossings: &PathCrossings| {
        prepare_policy(&policy, &vec![probe("/a")], &path("/workspace"), backend, &Vec::new(), crossings)
    };
    let read_only = PathCrossings { read_only: vec![None, Some(path("/a/link"))], unreadable: Vec::new() };
    let unreadable = PathCrossings { read_only: vec![None], unreadable: vec![Some(path("/a/link"))] };
    assert!(matches!(
        run(SandboxBackend::LinuxBubblewrap, &read_only),
        Err(SandboxError::UnsupportedPolicy { feature: SandboxFeature::DeniedWritePaths, message, .. })
            if message == "a read-only rule crosses writable symlink /a/link"
    ));
    assert!(matches!(
        run(SandboxBackend::LinuxBubblewrap, &unreadable),
        Err(SandboxError::UnsupportedPolicy { feature: SandboxFeature::DeniedReadPaths, message, .. })
            if message == "a deny rule crosses writable symlink /a/link"
    ));
    assert!(run(SandboxBackend::MacosSeatbelt, &read_only).is_ok());
    let draft = draft_policy(&policy, &vec![probe("/a")], &path("/workspace"), SandboxBackend::LinuxBubblewrap, &Vec::new())
        .unwrap_or_else(|error| panic!("{}", error.message()));
    let drafted = draft.file_system.len();
    let settled = settle_policy(draft, SandboxBackend::LinuxBubblewrap, &stable())
        .unwrap_or_else(|error| panic!("{}", error.message()));
    assert_eq!(settled.file_system.len(), drafted);
}

#[test]
fn rules_must_not_cross_writable_symlinks() {
    let roots = vec![
        WritableRoot { root: path("/link"), resolved: Some(path("/target")) },
        WritableRoot { root: path("/gone"), resolved: None },
    ];
    let paths = writable_paths(&roots);
    assert!(paths.contains(&path("/link")) && paths.contains(&path("/target")) && paths.contains(&path("/gone")));
    let backend = SandboxBackend::LinuxBubblewrap;
    assert!(validate_path_stability(&vec![None], &vec![None], backend).is_ok());
    assert!(matches!(
        validate_path_stability(&vec![Some(path("/link"))], &Vec::new(), backend),
        Err(SandboxError::UnsupportedPolicy { message, .. })
            if message == "a read-only rule crosses writable symlink /link"
    ));
    assert!(matches!(
        validate_path_stability(&Vec::new(), &vec![Some(path("/link"))], backend),
        Err(SandboxError::UnsupportedPolicy { message, .. })
            if message == "a deny rule crosses writable symlink /link"
    ));
}
