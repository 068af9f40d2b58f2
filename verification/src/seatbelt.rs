//! The macOS `sandbox-exec` command prefix.

use crate::model;
use crate::native::{NativePath, NativeString, NativeText, PathModel};
use crate::text::{concat3, decimal_string, join};
use crate::utf16::encode_utf16;
use vstd::prelude::*;
use vstd::string::*;
use vstd::utf8::encode_utf8;

verus! {

pub const MACOS_SANDBOX_EXEC_PATH: &'static str = "/usr/bin/sandbox-exec";

/// What the sandboxed command may do beyond the base policy.
#[derive(Debug)]
pub struct CreateSeatbeltCommandPrefixParams<'a> {
    pub allow_read_all: bool,
    pub writable_roots: &'a Vec<NativePath>,
    pub allow_network: bool,
    pub extra_policy_sections: &'a Vec<String>,
}

/// The rule that opens one writable root for writing.
pub open spec fn writable_rule(index: nat) -> Seq<char> {
    "(allow file-write* (subpath (param \"WRITABLE_ROOT_"@ + crate::text::decimal(index) + "\")))"@
}

/// The rules for all writable roots, one line each.
pub open spec fn writable_policy(count: nat) -> Seq<char> {
    crate::text::separated(Seq::new(count, |index: int| writable_rule(index as nat)), "\n"@)
}

/// The sections of the policy source, in order.
pub open spec fn policy_sections(
    base_policy: Seq<char>,
    allow_read_all: bool,
    writable_count: nat,
    allow_network: bool,
    extra: Seq<Seq<char>>,
) -> Seq<Seq<char>> {
    seq![base_policy] + (if allow_read_all {
        seq!["(allow file-read*)"@]
    } else {
        Seq::empty()
    }) + seq![writable_policy(writable_count)] + (if allow_network {
        seq!["(allow network-outbound)\n(allow network-inbound)"@]
    } else {
        Seq::empty()
    }) + extra
}

/// A native string after a text.
pub open spec fn prefixed(prefix: Seq<char>, value: NativeText) -> NativeText {
    match value {
        NativeText::Unicode(text) => NativeText::Unicode(prefix + text),
        NativeText::Bytes(bytes) => NativeText::Bytes(encode_utf8(prefix) + bytes),
        NativeText::Wide(units) => NativeText::Wide(crate::utf16::encoded(prefix) + units),
    }
}

fn prefix_native(prefix: &str, value: &NativeString) -> (result: NativeString)
    ensures
        result@ == prefixed(prefix@, value@),
{
    match value {
        NativeString::Unicode(text) => {
            NativeString::Unicode(crate::text::concat2(prefix, text.as_str()))
        },
        NativeString::Bytes(bytes) => {
            let mut joined: Vec<u8> = Vec::new();
            joined.extend_from_slice(prefix.as_bytes());
            assert(joined@ =~= encode_utf8(prefix@));
            joined.extend_from_slice(bytes.as_slice());
            assert(joined@ =~= encode_utf8(prefix@) + bytes@);
            NativeString::Bytes(joined)
        },
        NativeString::Wide(units) => {
            let mut joined = encode_utf16(prefix);
            joined.extend_from_slice(units.as_slice());
            assert(joined@ =~= crate::utf16::encoded(prefix@) + units@);
            NativeString::Wide(joined)
        },
    }
}

/// The parameter that names one writable root. The path itself is never part of the source.
pub open spec fn root_definition(index: nat, root: NativeText) -> NativeText {
    prefixed("-DWRITABLE_ROOT_"@ + crate::text::decimal(index) + "="@, root)
}

/// The parameters that name all writable roots.
pub open spec fn root_definitions(roots: Seq<PathModel>) -> Seq<NativeText> {
    Seq::new(roots.len(), |index: int| root_definition(index as nat, roots[index].text))
}

/// The arguments that precede the caller's command.
pub open spec fn command_prefix(
    base_policy: Seq<char>,
    allow_read_all: bool,
    roots: Seq<PathModel>,
    allow_network: bool,
    extra: Seq<Seq<char>>,
) -> Seq<NativeText> {
    seq![
        NativeText::Unicode("-p"@),
        NativeText::Unicode(
            crate::text::separated(
                policy_sections(base_policy, allow_read_all, roots.len(), allow_network, extra),
                "\n"@,
            ),
        ),
    ] + root_definitions(roots) + seq![NativeText::Unicode("--"@)]
}

fn writable_rules(count: usize) -> (result: String)
    ensures
        result@ == writable_policy(count as nat),
{
    let mut rules: Vec<String> = Vec::new();
    let ghost expected = Seq::new(count as nat, |index: int| writable_rule(index as nat));
    for index in 0..count
        invariant
            expected == Seq::new(count as nat, |index: int| writable_rule(index as nat)),
            rules@.len() == index,
            forall|i: int| 0 <= i < index ==> (#[trigger] rules@[i])@ == expected[i],
    {
        let digits = decimal_string(index as u64);
        rules.push(
            concat3("(allow file-write* (subpath (param \"WRITABLE_ROOT_", digits.as_str(), "\")))"),
        );
    }
    assert(rules.deep_view() =~= expected);
    join(&rules, "\n")
}

/// Build the `sandbox-exec` arguments that precede a caller-owned command.
///
/// Paths are passed through `-D` parameters as native strings rather than
/// being interpolated into the Seatbelt source. The returned prefix ends in
/// `--`; callers append their command and arguments without string conversion.
pub fn create_seatbelt_command_prefix(
    base_policy: &str,
    params: CreateSeatbeltCommandPrefixParams<'_>,
) -> (result: Vec<NativeString>)
    ensures
        result.deep_view() == command_prefix(
            base_policy@,
            params.allow_read_all,
            params.writable_roots.deep_view(),
            params.allow_network,
            params.extra_policy_sections.deep_view(),
        ),
{
    let mut sections: Vec<String> = Vec::new();
    sections.push(base_policy.to_owned());
    if params.allow_read_all {
        sections.push("(allow file-read*)".to_owned());
    }
    sections.push(writable_rules(params.writable_roots.len()));
    if params.allow_network {
        sections.push("(allow network-outbound)\n(allow network-inbound)".to_owned());
    }
    let ghost roots = params.writable_roots.deep_view();
    let ghost extra = params.extra_policy_sections.deep_view();
    let ghost own = policy_sections(
        base_policy@,
        params.allow_read_all,
        roots.len(),
        params.allow_network,
        Seq::empty(),
    );
    proof {
        model::lemma_take_all(extra);
        assert(sections.deep_view() =~= own + extra.take(0));
    }
    for index in 0..params.extra_policy_sections.len()
        invariant
            extra == params.extra_policy_sections.deep_view(),
            sections.deep_view() == own + extra.take(index as int),
    {
        let ghost before = sections;
        let section = params.extra_policy_sections[index].clone();
        sections.push(section);
        proof {
            model::lemma_deep_push(before, sections, section);
            model::lemma_take_push(extra, index as int);
            assert(extra[index as int] == params.extra_policy_sections@[index as int]@);
            assert(sections.deep_view() =~= own + extra.take(index + 1));
        }
    }
    proof {
        model::lemma_take_all(extra);
        assert(sections.deep_view() =~= policy_sections(
            base_policy@,
            params.allow_read_all,
            roots.len(),
            params.allow_network,
            extra,
        ));
    }
    let source = join(&sections, "\n");
    let mut arguments: Vec<NativeString> = Vec::new();
    arguments.push(NativeString::from_text("-p"));
    arguments.push(NativeString::Unicode(source));
    let ghost lead = arguments.deep_view();
    let ghost definitions = root_definitions(roots);
    proof {
        model::lemma_take_all(definitions);
        assert(lead =~= lead + definitions.take(0));
    }
    for index in 0..params.writable_roots.len()
        invariant
            roots == params.writable_roots.deep_view(),
            definitions == root_definitions(roots),
            arguments.deep_view() == lead + definitions.take(index as int),
    {
        let digits = decimal_string(index as u64);
        let prefix = concat3("-DWRITABLE_ROOT_", digits.as_str(), "=");
        let definition = prefix_native(prefix.as_str(), &params.writable_roots[index].text);
        let ghost before = arguments;
        arguments.push(definition);
        proof {
            model::lemma_deep_push(before, arguments, definition);
            model::lemma_take_push(definitions, index as int);
            assert(roots[index as int] == params.writable_roots@[index as int].deep_view());
            assert(arguments.deep_view() =~= lead + definitions.take(index + 1));
        }
    }
    proof {
        model::lemma_take_all(definitions);
    }
    let ghost before = arguments;
    let separator = NativeString::from_text("--");
    arguments.push(separator);
    proof {
        model::lemma_deep_push(before, arguments, separator);
        assert(arguments.deep_view() =~= command_prefix(
            base_policy@,
            params.allow_read_all,
            roots,
            params.allow_network,
            extra,
        ));
    }
    arguments
}

/// The policy source depends on how many roots are writable, never on what they are
/// called, and the prefix ends in the separator.
pub proof fn roots_never_reach_the_source(
    base_policy: Seq<char>,
    allow_read_all: bool,
    roots: Seq<PathModel>,
    others: Seq<PathModel>,
    allow_network: bool,
    extra: Seq<Seq<char>>,
)
    requires
        roots.len() == others.len(),
    ensures
        command_prefix(base_policy, allow_read_all, roots, allow_network, extra).take(2) == command_prefix(
            base_policy,
            allow_read_all,
            others,
            allow_network,
            extra,
        ).take(2),
        command_prefix(base_policy, allow_read_all, roots, allow_network, extra).last() == NativeText::Unicode("--"@),
        command_prefix(base_policy, allow_read_all, roots, allow_network, extra).len() == roots.len() + 3,
{
    let left = command_prefix(base_policy, allow_read_all, roots, allow_network, extra);
    let right = command_prefix(base_policy, allow_read_all, others, allow_network, extra);
    assert(left.take(2) =~= right.take(2));
}

/// The name of the parameter of one writable root.
pub open spec fn parameter_name(index: nat) -> Seq<char> {
    "WRITABLE_ROOT_"@ + crate::text::decimal(index)
}

/// The source opens the network exactly where it is allowed and all reads exactly where
/// they are; the base policy leads, and every extra section follows in its place.
pub proof fn sources_open_what_was_allowed(
    base_policy: Seq<char>,
    allow_read_all: bool,
    writable_count: nat,
    allow_network: bool,
    extra: Seq<Seq<char>>,
    index: int,
)
    ensures
        ({
            let sections = policy_sections(base_policy, allow_read_all, writable_count, allow_network, extra);
            let own = sections.take(sections.len() - extra.len());
            &&& sections.len() >= extra.len() + 2
            &&& own[0] == base_policy
            &&& 0 <= index < extra.len() ==> sections[own.len() + index] == extra[index]
            &&& allow_read_all <==> own[1] == "(allow file-read*)"@ && own.len() > 2 && own[2] == writable_policy(
                writable_count,
            )
            &&& own.len() == 2 + (if allow_read_all {
                1int
            } else {
                0
            }) + (if allow_network {
                1int
            } else {
                0
            })
            &&& allow_network ==> own.last() == "(allow network-outbound)\n(allow network-inbound)"@
            &&& !allow_network ==> own.last() == writable_policy(writable_count)
        }),
{
    let sections = policy_sections(base_policy, allow_read_all, writable_count, allow_network, extra);
    let own = sections.take(sections.len() - extra.len());
    reveal_strlit("(allow network-outbound)\n(allow network-inbound)");
    reveal_strlit("(allow file-read*)");
    let network = "(allow network-outbound)\n(allow network-inbound)"@;
    let reads = "(allow file-read*)"@;
    assert(network.len() != reads.len());
    lemma_writable_policy_is_no_section(writable_count);
}

proof fn lemma_writable_policy_is_no_section(count: nat)
    ensures
        writable_policy(count) != "(allow file-read*)"@,
{
    reveal_strlit("(allow file-read*)");
    reveal_strlit("(allow file-write* (subpath (param \"WRITABLE_ROOT_");
    reveal_strlit("\")))");
    let rules = Seq::new(count, |index: int| writable_rule(index as nat));
    assert(writable_policy(count) == crate::text::separated(rules, "\n"@));
    if count > 0 {
        lemma_separated_is_long(rules, "\n"@);
        assert(rules[0].len() > 20);
    }
}

proof fn lemma_separated_is_long(parts: Seq<Seq<char>>, separator: Seq<char>)
    requires
        parts.len() > 0,
    ensures
        crate::text::separated(parts, separator).len() >= parts[0].len(),
    decreases parts.len(),
{
    if parts.len() > 1 {
        lemma_separated_is_long(parts.drop_last(), separator);
    }
}

/// A root is opened by the parameter that its own definition names, and the definition
/// holds the root's own path, whole: the rule and the definition of one root agree, and
/// those of two roots differ in their place.
pub proof fn roots_are_opened_by_their_own_parameter(
    base_policy: Seq<char>,
    allow_read_all: bool,
    roots: Seq<PathModel>,
    allow_network: bool,
    extra: Seq<Seq<char>>,
    index: int,
)
    requires
        0 <= index < roots.len(),
    ensures
        writable_rule(index as nat) == "(allow file-write* (subpath (param \""@ + parameter_name(index as nat)
            + "\")))"@,
        roots[index].text matches NativeText::Unicode(path) ==> command_prefix(
            base_policy,
            allow_read_all,
            roots,
            allow_network,
            extra,
        )[2 + index] == NativeText::Unicode("-D"@ + parameter_name(index as nat) + "="@ + path),
        roots[index].text matches NativeText::Bytes(path) ==> command_prefix(
            base_policy,
            allow_read_all,
            roots,
            allow_network,
            extra,
        )[2 + index] == NativeText::Bytes(encode_utf8("-D"@ + parameter_name(index as nat) + "="@) + path),
        command_prefix(base_policy, allow_read_all, roots, allow_network, extra)[0] == NativeText::Unicode("-p"@),
{
    let digits = crate::text::decimal(index as nat);
    reveal_strlit("(allow file-write* (subpath (param \"WRITABLE_ROOT_");
    reveal_strlit("(allow file-write* (subpath (param \"");
    reveal_strlit("WRITABLE_ROOT_");
    reveal_strlit("-DWRITABLE_ROOT_");
    reveal_strlit("-D");
    assert("(allow file-write* (subpath (param \"WRITABLE_ROOT_"@ =~= "(allow file-write* (subpath (param \""@
        + "WRITABLE_ROOT_"@);
    assert("-DWRITABLE_ROOT_"@ =~= "-D"@ + "WRITABLE_ROOT_"@);
    assert(writable_rule(index as nat) =~= "(allow file-write* (subpath (param \""@ + parameter_name(index as nat)
        + "\")))"@);
    assert("-DWRITABLE_ROOT_"@ + digits + "="@ =~= "-D"@ + parameter_name(index as nat) + "="@);
}

} // verus!
