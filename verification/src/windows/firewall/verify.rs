//! Verifying every property of the installed rules.

use crate::model;
use crate::text::{concat2, concat3, concat4, concat5, join, quote, signed_decimal_string};
use crate::windows::firewall::configure::{RuleProperty, RuleValueModel, NET_FW_ACTION_BLOCK, NET_FW_AUTHENTICATE_NONE, NET_FW_EDGE_TRAVERSAL_TYPE_DENY, NET_FW_PROFILE2_ALL, NET_FW_RULE_DIR_OUT};
use crate::windows::firewall::policy_state::{VARIANT_FALSE, VARIANT_TRUE};
use crate::windows::firewall::rules::{has_ports, network_values, BlockRuleModel, BlockRuleSpec, ALL_INTERFACE_TYPES, ALL_NETWORK_VALUES, EMPTY_RULE_VALUE};
use crate::windows::setup_failure::{SetupErrorCode, SetupFailure, SetupFailureModel};
use vstd::prelude::*;
use vstd::string::*;

verus! {

/// The error of a lookup that found no rule, in the host's result codes.
pub const RULE_NOT_FOUND: i32 = -2147024894;

/// What the firewall makes of a scope: it stores scopes in a form of its own.
pub enum CanonicalScope {
    Stored(String),
    /// No temporary rule could be created to ask it.
    NotCreated(String),
    /// It did not take the scope or did not give it back.
    NotStored(String),
}

/// A scope that is brought into the firewall's own form before it is compared.
#[derive(Clone, Copy, Debug, PartialEq, Eq, Structural)]
pub enum CanonicalRuleScope {
    RemoteAddresses,
    RemotePorts(i32),
    LocalAddresses,
    LocalPorts(i32),
    InterfaceTypes,
}

impl CanonicalRuleScope {
    /// The properties to write to a temporary rule; the last one is then read back.
    pub open spec fn written(self) -> Seq<RuleProperty> {
        match self {
            CanonicalRuleScope::RemoteAddresses => seq![RuleProperty::RemoteAddresses],
            CanonicalRuleScope::RemotePorts(_) => seq![RuleProperty::Protocol, RuleProperty::RemotePorts],
            CanonicalRuleScope::LocalAddresses => seq![RuleProperty::LocalAddresses],
            CanonicalRuleScope::LocalPorts(_) => seq![RuleProperty::Protocol, RuleProperty::LocalPorts],
            CanonicalRuleScope::InterfaceTypes => seq![RuleProperty::InterfaceTypes],
        }
    }

    /// The properties to write to a temporary rule; the last one is then read back.
    pub fn properties(self) -> (result: Vec<RuleProperty>)
        ensures
            result@ == self.written(),
    {
        let mut properties: Vec<RuleProperty> = Vec::new();
        match self {
            CanonicalRuleScope::RemoteAddresses => {
                properties.push(RuleProperty::RemoteAddresses);
            },
            CanonicalRuleScope::RemotePorts(_) => {
                properties.push(RuleProperty::Protocol);
                properties.push(RuleProperty::RemotePorts);
            },
            CanonicalRuleScope::LocalAddresses => {
                properties.push(RuleProperty::LocalAddresses);
            },
            CanonicalRuleScope::LocalPorts(_) => {
                properties.push(RuleProperty::Protocol);
                properties.push(RuleProperty::LocalPorts);
            },
            CanonicalRuleScope::InterfaceTypes => {
                properties.push(RuleProperty::InterfaceTypes);
            },
        }
        assert(properties@ =~= self.written());
        properties
    }
}

/// What was read of a rule. A reading that failed is the host's error.
pub struct RuleReadings {
    pub description: Result<String, String>,
    pub direction: Result<i32, String>,
    pub action: Result<i32, String>,
    pub enabled: Result<i32, String>,
    pub profiles: Result<i32, String>,
    pub protocol: Result<i32, String>,
    pub remote_addresses: Result<String, String>,
    /// Only looked at where the protocol that was read tells ports apart.
    pub remote_ports: Result<String, String>,
    pub local_user_authorized_list: Result<String, String>,
}

/// A rule's interfaces: whether it has any, and the host's text for them.
pub struct InterfacesReading {
    pub empty: bool,
    pub text: String,
}

/// What was read of the properties that an exact rule fixes besides.
pub struct ExactReadings {
    pub name: Result<String, String>,
    pub application_name: Result<String, String>,
    pub service_name: Result<String, String>,
    pub local_addresses: Result<String, String>,
    /// Only looked at where the protocol tells ports apart.
    pub local_ports: Result<String, String>,
    pub interfaces: Result<InterfacesReading, String>,
    pub interface_types: Result<String, String>,
    pub edge_traversal: Result<i32, String>,
    pub edge_traversal_options: Result<i32, String>,
    pub local_app_package_id: Result<String, String>,
    pub local_user_owner: Result<String, String>,
    pub remote_user_authorized_list: Result<String, String>,
    pub remote_machine_authorized_list: Result<String, String>,
    pub secure_flags: Result<i32, String>,
}

/// The demanded scopes in the firewall's own form.
pub struct ScopeReadings {
    pub remote_addresses: CanonicalScope,
    pub remote_ports: CanonicalScope,
    pub local_addresses: CanonicalScope,
    pub local_ports: CanonicalScope,
    pub interface_types: CanonicalScope,
}

/// A failure of the verification.
pub open spec fn verification_failure(message: Seq<char>) -> SetupFailureModel {
    SetupFailureModel::new(SetupErrorCode::HelperFirewallRuleVerifyFailed, message)
}

/// A failure of the verification.
pub fn firewall_verification_error(message: String) -> (result: SetupFailure)
    ensures
        result@ == verification_failure(message@),
{
    SetupFailure::new(SetupErrorCode::HelperFirewallRuleVerifyFailed, message)
}

/// The failure of a reading that failed.
pub open spec fn read_failure<T>(reading: Result<T, String>, rule: Seq<char>, property: Seq<char>) -> Option<
    SetupFailureModel,
> {
    match reading {
        Ok(_) => None,
        Err(error) => Some(
            verification_failure("read firewall rule "@ + rule + " property "@ + property + ": "@ + error@),
        ),
    }
}

/// The failure of a reading that failed, with the host's error.
pub fn rule_read_error(spec: &BlockRuleSpec, property: &str, error: &str) -> (result: SetupFailure)
    ensures
        result@ == verification_failure(
            "read firewall rule "@ + spec@.internal_name + " property "@ + property@ + ": "@ + error@,
        ),
{
    let subject = concat3("read firewall rule ", spec.internal_name.as_str(), " property ");
    firewall_verification_error(concat4(subject.as_str(), property, ": ", error))
}

/// The text that was read.
pub fn read_rule_string<'a>(reading: &'a Result<String, String>, spec: &BlockRuleSpec, property: &str) -> (result: Result<
    &'a str,
    SetupFailure,
>)
    ensures
        match read_failure(*reading, spec@.internal_name, property@) {
            Some(expected) => result matches Err(failure) && failure@ == expected,
            None => result matches Ok(text) && text@ == reading->Ok_0@,
        },
{
    match reading {
        Ok(text) => Ok(text.as_str()),
        Err(error) => Err(rule_read_error(spec, property, error.as_str())),
    }
}

/// The number that was read.
pub fn read_rule_number(reading: &Result<i32, String>, spec: &BlockRuleSpec, property: &str) -> (result: Result<
    i32,
    SetupFailure,
>)
    ensures
        match read_failure(*reading, spec@.internal_name, property@) {
            Some(expected) => result matches Err(failure) && failure@ == expected,
            None => result matches Ok(number) && number == reading->Ok_0,
        },
{
    match reading {
        Ok(number) => Ok(*number),
        Err(error) => Err(rule_read_error(spec, property, error.as_str())),
    }
}

/// The failure of asking the firewall for its form of a scope.
pub open spec fn scope_failure(scope: CanonicalScope, rule: Seq<char>) -> Option<SetupFailureModel> {
    match scope {
        CanonicalScope::Stored(_) => None,
        CanonicalScope::NotCreated(error) => Some(
            verification_failure(
                "create temporary firewall rule to canonicalize "@ + rule + " policy: "@ + error@,
            ),
        ),
        CanonicalScope::NotStored(error) => Some(
            verification_failure("canonicalize firewall rule "@ + rule + " scope: "@ + error@),
        ),
    }
}

/// The firewall's form of a scope.
pub fn canonical_rule_scope<'a>(spec: &BlockRuleSpec, scope: &'a CanonicalScope) -> (result: Result<&'a str, SetupFailure>)
    ensures
        match scope_failure(*scope, spec@.internal_name) {
            Some(expected) => result matches Err(failure) && failure@ == expected,
            None => result matches Ok(text) && text@ == scope->Stored_0@,
        },
{
    match scope {
        CanonicalScope::Stored(text) => Ok(text.as_str()),
        CanonicalScope::NotCreated(error) => Err(
            firewall_verification_error(
                concat4(
                    "create temporary firewall rule to canonicalize ",
                    spec.internal_name.as_str(),
                    " policy: ",
                    error.as_str(),
                ),
            ),
        ),
        CanonicalScope::NotStored(error) => Err(
            firewall_verification_error(
                concat4("canonicalize firewall rule ", spec.internal_name.as_str(), " scope: ", error.as_str()),
            ),
        ),
    }
}

/// How a mismatch is reported.
pub open spec fn mismatch_text(property: Seq<char>, expected: Seq<char>, actual: Seq<char>) -> Seq<char> {
    property + " expected="@ + expected + " actual="@ + actual
}

/// A number in diagnostics, inside its type's name where it has one.
pub open spec fn number_text(kind: Seq<char>, number: i32) -> Seq<char> {
    if kind.len() == 0 {
        crate::text::signed_decimal(number as int)
    } else {
        kind + "("@ + crate::text::signed_decimal(number as int) + ")"@
    }
}

/// The mismatches, with one more where two texts differ.
pub open spec fn with_text(
    mismatches: Seq<Seq<char>>,
    property: Seq<char>,
    expected: Seq<char>,
    actual: Seq<char>,
) -> Seq<Seq<char>> {
    if actual != expected {
        mismatches.push(mismatch_text(property, crate::text::quoted(expected), crate::text::quoted(actual)))
    } else {
        mismatches
    }
}

/// The mismatches, with one more where two numbers differ.
pub open spec fn with_number(
    mismatches: Seq<Seq<char>>,
    property: Seq<char>,
    kind: Seq<char>,
    expected: i32,
    actual: i32,
) -> Seq<Seq<char>> {
    if actual != expected {
        mismatches.push(mismatch_text(property, number_text(kind, expected), number_text(kind, actual)))
    } else {
        mismatches
    }
}

fn push_mismatch(mismatches: &mut Vec<String>, property: &str, expected: &str, actual: &str)
    ensures
        final(mismatches).deep_view() == old(mismatches).deep_view().push(
            mismatch_text(property@, expected@, actual@),
        ),
{
    let ghost before = *mismatches;
    let text = concat5(property, " expected=", expected, " actual=", actual);
    mismatches.push(text);
    proof {
        model::lemma_deep_push(before, *mismatches, text);
    }
}

/// Records a text that differs from the demanded one.
pub fn record_mismatch(mismatches: &mut Vec<String>, property: &str, expected: &str, actual: &str)
    ensures
        final(mismatches).deep_view() == with_text(old(mismatches).deep_view(), property@, expected@, actual@),
{
    if !crate::native::same_text(actual, expected) {
        let expected_text = quote(expected);
        let actual_text = quote(actual);
        push_mismatch(mismatches, property, expected_text.as_str(), actual_text.as_str());
    }
}

fn number_string(kind: &str, number: i32) -> (result: String)
    ensures
        result@ == number_text(kind@, number),
{
    let digits = signed_decimal_string(number);
    if crate::native::same_text(kind, "") {
        proof {
            reveal_strlit("");
        }
        digits
    } else {
        proof {
            reveal_strlit("");
            assert(kind@.len() == 0 ==> kind@ =~= ""@);
        }
        concat4(kind, "(", digits.as_str(), ")")
    }
}

/// Records a number that differs from the demanded one.
pub fn record_number_mismatch(mismatches: &mut Vec<String>, property: &str, kind: &str, expected: i32, actual: i32)
    ensures
        final(mismatches).deep_view() == with_number(
            old(mismatches).deep_view(),
            property@,
            kind@,
            expected,
            actual,
        ),
{
    if actual != expected {
        let expected_text = number_string(kind, expected);
        let actual_text = number_string(kind, actual);
        push_mismatch(mismatches, property, expected_text.as_str(), actual_text.as_str());
    }
}

/// The first failure, if there is one.
pub open spec fn first_of(first: Option<SetupFailureModel>, rest: Option<SetupFailureModel>) -> Option<SetupFailureModel> {
    if first is Some {
        first
    } else {
        rest
    }
}

/// The first reading that failed. The ports are only looked at where the protocol that
/// was read tells ports apart.
pub open spec fn base_read_failure(readings: RuleReadings, spec: BlockRuleModel) -> Option<SetupFailureModel> {
    let rule = spec.internal_name;
    if readings.description is Err {
        read_failure(readings.description, rule, "Description"@)
    } else if readings.direction is Err {
        read_failure(readings.direction, rule, "Direction"@)
    } else if readings.action is Err {
        read_failure(readings.action, rule, "Action"@)
    } else if readings.enabled is Err {
        read_failure(readings.enabled, rule, "Enabled"@)
    } else if readings.profiles is Err {
        read_failure(readings.profiles, rule, "Profiles"@)
    } else if readings.protocol is Err {
        read_failure(readings.protocol, rule, "Protocol"@)
    } else if readings.remote_addresses is Err {
        read_failure(readings.remote_addresses, rule, "RemoteAddresses"@)
    } else if crate::windows::firewall::rules::protocol_has_ports(readings.protocol->Ok_0) && readings.remote_ports is Err {
        read_failure(readings.remote_ports, rule, "RemotePorts"@)
    } else if readings.local_user_authorized_list is Err {
        read_failure(readings.local_user_authorized_list, rule, "LocalUserAuthorizedList"@)
    } else {
        None
    }
}

/// The first failure among the demanded remote scopes.
pub open spec fn base_scope_failure(scopes: ScopeReadings, spec: BlockRuleModel) -> Option<SetupFailureModel> {
    first_of(
        scope_failure(scopes.remote_addresses, spec.internal_name),
        if crate::windows::firewall::rules::protocol_has_ports(spec.protocol) {
            scope_failure(scopes.remote_ports, spec.internal_name)
        } else {
            None
        },
    )
}

/// The first failure among the readings that an exact rule needs besides.
pub open spec fn exact_read_failure(readings: ExactReadings, spec: BlockRuleModel) -> Option<SetupFailureModel> {
    let rule = spec.internal_name;
    if readings.name is Err {
        read_failure(readings.name, rule, "Name"@)
    } else if readings.application_name is Err {
        read_failure(readings.application_name, rule, "ApplicationName"@)
    } else if readings.service_name is Err {
        read_failure(readings.service_name, rule, "ServiceName"@)
    } else if readings.local_addresses is Err {
        read_failure(readings.local_addresses, rule, "LocalAddresses"@)
    } else if crate::windows::firewall::rules::protocol_has_ports(spec.protocol) && readings.local_ports is Err {
        read_failure(readings.local_ports, rule, "LocalPorts"@)
    } else if readings.interfaces is Err {
        read_failure(readings.interfaces, rule, "Interfaces"@)
    } else if readings.interface_types is Err {
        read_failure(readings.interface_types, rule, "InterfaceTypes"@)
    } else if readings.edge_traversal is Err {
        read_failure(readings.edge_traversal, rule, "EdgeTraversal"@)
    } else if readings.edge_traversal_options is Err {
        read_failure(readings.edge_traversal_options, rule, "EdgeTraversalOptions"@)
    } else if readings.local_app_package_id is Err {
        read_failure(readings.local_app_package_id, rule, "LocalAppPackageId"@)
    } else if readings.local_user_owner is Err {
        read_failure(readings.local_user_owner, rule, "LocalUserOwner"@)
    } else if readings.remote_user_authorized_list is Err {
        read_failure(readings.remote_user_authorized_list, rule, "RemoteUserAuthorizedList"@)
    } else if readings.remote_machine_authorized_list is Err {
        read_failure(readings.remote_machine_authorized_list, rule, "RemoteMachineAuthorizedList"@)
    } else if readings.secure_flags is Err {
        read_failure(readings.secure_flags, rule, "SecureFlags"@)
    } else {
        None
    }
}

/// The first failure among the demanded local scopes.
pub open spec fn exact_scope_failure(scopes: ScopeReadings, spec: BlockRuleModel) -> Option<SetupFailureModel> {
    first_of(
        scope_failure(scopes.local_addresses, spec.internal_name),
        first_of(
            if crate::windows::firewall::rules::protocol_has_ports(spec.protocol) {
                scope_failure(scopes.local_ports, spec.internal_name)
            } else {
                None
            },
            scope_failure(scopes.interface_types, spec.internal_name),
        ),
    )
}

/// The ports that were read, where ports are told apart, else all.
pub open spec fn ports_read(reading: Result<String, String>, protocol: i32) -> Seq<char> {
    if crate::windows::firewall::rules::protocol_has_ports(protocol) {
        reading->Ok_0@
    } else {
        ALL_NETWORK_VALUES@
    }
}

/// The ports that are demanded, where ports are told apart, else all.
pub open spec fn ports_demanded(scope: CanonicalScope, protocol: i32) -> Seq<char> {
    if crate::windows::firewall::rules::protocol_has_ports(protocol) {
        scope->Stored_0@
    } else {
        ALL_NETWORK_VALUES@
    }
}

/// The mismatches among the properties of every rule.
pub open spec fn base_mismatches(readings: RuleReadings, scopes: ScopeReadings, spec: BlockRuleModel) -> Seq<Seq<char>> {
    let none: Seq<Seq<char>> = Seq::empty();
    let m = with_text(none, "description"@, spec.friendly_desc, readings.description->Ok_0@);
    let m = with_number(
        m,
        "direction"@,
        "NET_FW_RULE_DIRECTION"@,
        NET_FW_RULE_DIR_OUT,
        readings.direction->Ok_0,
    );
    let m = with_number(m, "action"@, "NET_FW_ACTION"@, NET_FW_ACTION_BLOCK, readings.action->Ok_0);
    let m = with_number(m, "enabled"@, "VARIANT_BOOL"@, VARIANT_TRUE, readings.enabled->Ok_0);
    let m = with_number(m, "profiles"@, ""@, NET_FW_PROFILE2_ALL, readings.profiles->Ok_0);
    let m = with_number(m, "protocol"@, ""@, spec.protocol, readings.protocol->Ok_0);
    let m = with_text(
        m,
        "remote_addresses"@,
        scopes.remote_addresses->Stored_0@,
        readings.remote_addresses->Ok_0@,
    );
    let m = with_text(
        m,
        "remote_ports"@,
        ports_demanded(scopes.remote_ports, spec.protocol),
        ports_read(readings.remote_ports, readings.protocol->Ok_0),
    );
    with_text(
        m,
        "local_user_authorized_list"@,
        spec.local_user_spec,
        readings.local_user_authorized_list->Ok_0@,
    )
}

/// The mismatches with those among the names of a rule.
pub open spec fn named_mismatches(mismatches: Seq<Seq<char>>, readings: ExactReadings, spec: BlockRuleModel) -> Seq<
    Seq<char>,
> {
    let m = with_text(mismatches, "name"@, spec.internal_name, readings.name->Ok_0@);
    let m = with_text(m, "application_name"@, EMPTY_RULE_VALUE@, readings.application_name->Ok_0@);
    with_text(m, "service_name"@, EMPTY_RULE_VALUE@, readings.service_name->Ok_0@)
}

/// The mismatches with those among the names, the local addresses and ports, and the
/// interfaces of a rule.
pub open spec fn local_mismatches(
    mismatches: Seq<Seq<char>>,
    readings: ExactReadings,
    scopes: ScopeReadings,
    spec: BlockRuleModel,
) -> Seq<Seq<char>> {
    let m = named_mismatches(mismatches, readings, spec);
    let m = with_text(
        m,
        "local_addresses"@,
        scopes.local_addresses->Stored_0@,
        readings.local_addresses->Ok_0@,
    );
    let m = with_text(
        m,
        "local_ports"@,
        ports_demanded(scopes.local_ports, spec.protocol),
        ports_read(readings.local_ports, spec.protocol),
    );
    if readings.interfaces->Ok_0.empty {
        m
    } else {
        m.push(mismatch_text("interfaces"@, "VARIANT_EMPTY"@, readings.interfaces->Ok_0.text@))
    }
}

/// The mismatches, with those among the properties that an exact rule fixes besides.
pub open spec fn exact_mismatches(
    mismatches: Seq<Seq<char>>,
    readings: ExactReadings,
    scopes: ScopeReadings,
    spec: BlockRuleModel,
) -> Seq<Seq<char>> {
    let m = local_mismatches(mismatches, readings, scopes, spec);
    let m = with_text(
        m,
        "interface_types"@,
        scopes.interface_types->Stored_0@,
        readings.interface_types->Ok_0@,
    );
    let m = with_number(m, "edge_traversal"@, "VARIANT_BOOL"@, VARIANT_FALSE, readings.edge_traversal->Ok_0);
    let m = with_number(
        m,
        "edge_traversal_options"@,
        ""@,
        NET_FW_EDGE_TRAVERSAL_TYPE_DENY,
        readings.edge_traversal_options->Ok_0,
    );
    let m = with_text(m, "local_app_package_id"@, EMPTY_RULE_VALUE@, readings.local_app_package_id->Ok_0@);
    let m = with_text(m, "local_user_owner"@, EMPTY_RULE_VALUE@, readings.local_user_owner->Ok_0@);
    let m = with_text(
        m,
        "remote_user_authorized_list"@,
        EMPTY_RULE_VALUE@,
        readings.remote_user_authorized_list->Ok_0@,
    );
    let m = with_text(
        m,
        "remote_machine_authorized_list"@,
        EMPTY_RULE_VALUE@,
        readings.remote_machine_authorized_list->Ok_0@,
    );
    with_number(m, "secure_flags"@, ""@, NET_FW_AUTHENTICATE_NONE, readings.secure_flags->Ok_0)
}

/// Why a rule is not the demanded one, if it is not.
pub open spec fn rule_failure(
    readings: RuleReadings,
    exact: ExactReadings,
    scopes: ScopeReadings,
    spec: BlockRuleModel,
) -> Option<SetupFailureModel> {
    let base = base_mismatches(readings, scopes, spec);
    let mismatches = if spec.exact_scope {
        exact_mismatches(base, exact, scopes, spec)
    } else {
        base
    };
    let exact_failure = if spec.exact_scope {
        first_of(exact_read_failure(exact, spec), exact_scope_failure(scopes, spec))
    } else {
        None
    };
    let failure = first_of(
        base_read_failure(readings, spec),
        first_of(base_scope_failure(scopes, spec), exact_failure),
    );
    if failure is Some {
        failure
    } else if mismatches.len() > 0 {
        Some(
            verification_failure(
                "firewall rule "@ + spec.internal_name + " differs from the requested policy: "@
                    + crate::text::separated(mismatches, ", "@),
            ),
        )
    } else {
        None
    }
}

/// The mismatches among the properties of every rule, or the first failure to read one.
fn verify_base_rule_scope(spec: &BlockRuleSpec, readings: &RuleReadings, scopes: &ScopeReadings) -> (result: Result<
    Vec<String>,
    SetupFailure,
>)
    ensures
        match first_of(base_read_failure(*readings, spec@), base_scope_failure(*scopes, spec@)) {
            Some(expected) => result matches Err(failure) && failure@ == expected,
            None => result matches Ok(mismatches) && mismatches.deep_view() == base_mismatches(
                *readings,
                *scopes,
                spec@,
            ),
        },
{
    let description = match read_rule_string(&readings.description, spec, "Description") {
        Ok(value) => value,
        Err(failure) => {
            return Err(failure);
        },
    };
    let direction: i32 = match read_rule_number(&readings.direction, spec, "Direction") {
        Ok(value) => value,
        Err(failure) => {
            return Err(failure);
        },
    };
    let action: i32 = match read_rule_number(&readings.action, spec, "Action") {
        Ok(value) => value,
        Err(failure) => {
            return Err(failure);
        },
    };
    let enabled: i32 = match read_rule_number(&readings.enabled, spec, "Enabled") {
        Ok(value) => value,
        Err(failure) => {
            return Err(failure);
        },
    };
    let profiles: i32 = match read_rule_number(&readings.profiles, spec, "Profiles") {
        Ok(value) => value,
        Err(failure) => {
            return Err(failure);
        },
    };
    let protocol: i32 = match read_rule_number(&readings.protocol, spec, "Protocol") {
        Ok(value) => value,
        Err(failure) => {
            return Err(failure);
        },
    };
    let remote_addresses = match read_rule_string(&readings.remote_addresses, spec, "RemoteAddresses") {
        Ok(value) => value,
        Err(failure) => {
            return Err(failure);
        },
    };
    let remote_ports = if has_ports(protocol) {
        match read_rule_string(&readings.remote_ports, spec, "RemotePorts") {
            Ok(value) => value,
            Err(failure) => {
                return Err(failure);
            },
        }
    } else {
        ALL_NETWORK_VALUES
    };
    let local_user_authorized_list = match read_rule_string(&readings.local_user_authorized_list, spec, "LocalUserAuthorizedList") {
        Ok(value) => value,
        Err(failure) => {
            return Err(failure);
        },
    };
    let mut mismatches: Vec<String> = Vec::new();
    assert(mismatches.deep_view() =~= Seq::<Seq<char>>::empty());
    record_mismatch(&mut mismatches, "description", spec.friendly_desc.as_str(), description);
    record_number_mismatch(&mut mismatches, "direction", "NET_FW_RULE_DIRECTION", NET_FW_RULE_DIR_OUT, direction);
    record_number_mismatch(&mut mismatches, "action", "NET_FW_ACTION", NET_FW_ACTION_BLOCK, action);
    record_number_mismatch(&mut mismatches, "enabled", "VARIANT_BOOL", VARIANT_TRUE, enabled);
    record_number_mismatch(&mut mismatches, "profiles", "", NET_FW_PROFILE2_ALL, profiles);
    record_number_mismatch(&mut mismatches, "protocol", "", spec.protocol, protocol);
    let expected_remote_addresses = match canonical_rule_scope(spec, &scopes.remote_addresses) {
        Ok(text) => text,
        Err(failure) => {
            return Err(failure);
        },
    };
    let expected_remote_ports = if has_ports(spec.protocol) {
        match canonical_rule_scope(spec, &scopes.remote_ports) {
            Ok(text) => text,
            Err(failure) => {
                return Err(failure);
            },
        }
    } else {
        ALL_NETWORK_VALUES
    };
    record_mismatch(&mut mismatches, "remote_addresses", expected_remote_addresses, remote_addresses);
    record_mismatch(&mut mismatches, "remote_ports", expected_remote_ports, remote_ports);
    record_mismatch(
        &mut mismatches,
        "local_user_authorized_list",
        spec.local_user_spec.as_str(),
        local_user_authorized_list,
    );
    Ok(mismatches)
}

/// The mismatches that were recorded when the verification of an exact rule ended: those
/// before the first scope that the host could not bring into its form, else all.
pub open spec fn recorded_mismatches(
    mismatches: Seq<Seq<char>>,
    readings: ExactReadings,
    scopes: ScopeReadings,
    spec: BlockRuleModel,
) -> Seq<Seq<char>> {
    let ports_failure = if crate::windows::firewall::rules::protocol_has_ports(spec.protocol) {
        scope_failure(scopes.local_ports, spec.internal_name)
    } else {
        None
    };
    if exact_read_failure(readings, spec) is Some {
        mismatches
    } else if scope_failure(scopes.local_addresses, spec.internal_name) is Some || ports_failure is Some {
        named_mismatches(mismatches, readings, spec)
    } else if scope_failure(scopes.interface_types, spec.internal_name) is Some {
        local_mismatches(mismatches, readings, scopes, spec)
    } else {
        exact_mismatches(mismatches, readings, scopes, spec)
    }
}

/// Adds the mismatches among the properties that an exact rule fixes besides, or gives
/// the first failure to read one.
pub fn verify_exact_rule_scope(
    spec: &BlockRuleSpec,
    readings: &ExactReadings,
    scopes: &ScopeReadings,
    mismatches: &mut Vec<String>,
) -> (result: Result<(), SetupFailure>)
    ensures
        match first_of(exact_read_failure(*readings, spec@), exact_scope_failure(*scopes, spec@)) {
            Some(expected) => result matches Err(failure) && failure@ == expected,
            None => result is Ok,
        },
        final(mismatches).deep_view() == recorded_mismatches(
            old(mismatches).deep_view(),
            *readings,
            *scopes,
            spec@,
        ),
{
    let name = match read_rule_string(&readings.name, spec, "Name") {
        Ok(value) => value,
        Err(failure) => {
            return Err(failure);
        },
    };
    let application_name = match read_rule_string(&readings.application_name, spec, "ApplicationName") {
        Ok(value) => value,
        Err(failure) => {
            return Err(failure);
        },
    };
    let service_name = match read_rule_string(&readings.service_name, spec, "ServiceName") {
        Ok(value) => value,
        Err(failure) => {
            return Err(failure);
        },
    };
    let local_addresses = match read_rule_string(&readings.local_addresses, spec, "LocalAddresses") {
        Ok(value) => value,
        Err(failure) => {
            return Err(failure);
        },
    };
    let local_ports = if has_ports(spec.protocol) {
        match read_rule_string(&readings.local_ports, spec, "LocalPorts") {
            Ok(value) => value,
            Err(failure) => {
                return Err(failure);
            },
        }
    } else {
        ALL_NETWORK_VALUES
    };
    let interfaces = match &readings.interfaces {
        Ok(interfaces) => interfaces,
        Err(error) => {
            return Err(rule_read_error(spec, "Interfaces", error.as_str()));
        },
    };
    let interface_types = match read_rule_string(&readings.interface_types, spec, "InterfaceTypes") {
        Ok(value) => value,
        Err(failure) => {
            return Err(failure);
        },
    };
    let edge_traversal: i32 = match read_rule_number(&readings.edge_traversal, spec, "EdgeTraversal") {
        Ok(value) => value,
        Err(failure) => {
            return Err(failure);
        },
    };
    let edge_traversal_options: i32 = match read_rule_number(&readings.edge_traversal_options, spec, "EdgeTraversalOptions") {
        Ok(value) => value,
        Err(failure) => {
            return Err(failure);
        },
    };
    let local_app_package_id = match read_rule_string(&readings.local_app_package_id, spec, "LocalAppPackageId") {
        Ok(value) => value,
        Err(failure) => {
            return Err(failure);
        },
    };
    let local_user_owner = match read_rule_string(&readings.local_user_owner, spec, "LocalUserOwner") {
        Ok(value) => value,
        Err(failure) => {
            return Err(failure);
        },
    };
    let remote_user_authorized_list = match read_rule_string(&readings.remote_user_authorized_list, spec, "RemoteUserAuthorizedList") {
        Ok(value) => value,
        Err(failure) => {
            return Err(failure);
        },
    };
    let remote_machine_authorized_list = match read_rule_string(&readings.remote_machine_authorized_list, spec, "RemoteMachineAuthorizedList") {
        Ok(value) => value,
        Err(failure) => {
            return Err(failure);
        },
    };
    let secure_flags: i32 = match read_rule_number(&readings.secure_flags, spec, "SecureFlags") {
        Ok(value) => value,
        Err(failure) => {
            return Err(failure);
        },
    };
    record_mismatch(mismatches, "name", spec.internal_name.as_str(), name);
    record_mismatch(mismatches, "application_name", EMPTY_RULE_VALUE, application_name);
    record_mismatch(mismatches, "service_name", EMPTY_RULE_VALUE, service_name);
    let expected_local_addresses = match canonical_rule_scope(spec, &scopes.local_addresses) {
        Ok(text) => text,
        Err(failure) => {
            return Err(failure);
        },
    };
    let expected_local_ports = if has_ports(spec.protocol) {
        match canonical_rule_scope(spec, &scopes.local_ports) {
            Ok(text) => text,
            Err(failure) => {
                return Err(failure);
            },
        }
    } else {
        ALL_NETWORK_VALUES
    };
    record_mismatch(mismatches, "local_addresses", expected_local_addresses, local_addresses);
    record_mismatch(mismatches, "local_ports", expected_local_ports, local_ports);
    if !interfaces.empty {
        push_mismatch(mismatches, "interfaces", "VARIANT_EMPTY", interfaces.text.as_str());
    }
    let expected_interface_types = match canonical_rule_scope(spec, &scopes.interface_types) {
        Ok(text) => text,
        Err(failure) => {
            return Err(failure);
        },
    };
    record_mismatch(mismatches, "interface_types", expected_interface_types, interface_types);
    record_number_mismatch(mismatches, "edge_traversal", "VARIANT_BOOL", VARIANT_FALSE, edge_traversal);
    record_number_mismatch(
        mismatches,
        "edge_traversal_options",
        "",
        NET_FW_EDGE_TRAVERSAL_TYPE_DENY,
        edge_traversal_options,
    );
    record_mismatch(mismatches, "local_app_package_id", EMPTY_RULE_VALUE, local_app_package_id);
    record_mismatch(mismatches, "local_user_owner", EMPTY_RULE_VALUE, local_user_owner);
    record_mismatch(mismatches, "remote_user_authorized_list", EMPTY_RULE_VALUE, remote_user_authorized_list);
    record_mismatch(mismatches, "remote_machine_authorized_list", EMPTY_RULE_VALUE, remote_machine_authorized_list);
    record_number_mismatch(mismatches, "secure_flags", "", NET_FW_AUTHENTICATE_NONE, secure_flags);
    Ok(())
}

/// Verifies every property that was read of a rule. The exact readings only count for
/// an exact rule.
pub fn verify_configured_rule(
    spec: &BlockRuleSpec,
    readings: &RuleReadings,
    exact: &ExactReadings,
    scopes: &ScopeReadings,
) -> (result: Result<(), SetupFailure>)
    ensures
        match rule_failure(*readings, *exact, *scopes, spec@) {
            Some(expected) => result matches Err(failure) && failure@ == expected,
            None => result is Ok,
        },
{
    let mut mismatches = match verify_base_rule_scope(spec, readings, scopes) {
        Ok(mismatches) => mismatches,
        Err(failure) => {
            return Err(failure);
        },
    };
    if spec.exact_scope {
        match verify_exact_rule_scope(spec, exact, scopes, &mut mismatches) {
            Ok(_) => {},
            Err(failure) => {
                return Err(failure);
            },
        }
    }
    if mismatches.len() > 0 {
        let list = join(&mismatches, ", ");
        return Err(
            firewall_verification_error(
                concat4(
                    "firewall rule ",
                    spec.internal_name.as_str(),
                    " differs from the requested policy: ",
                    list.as_str(),
                ),
            ),
        );
    }
    Ok(())
}

/// What the lookup of a rule gave.
pub enum RuleLookup {
    Found,
    /// It failed with this result code and the host's error.
    Failed(i32, String),
    /// The rule is of a kind that lacks some properties; the host's error.
    NotCast(String),
}

/// Why a rule is not absent, if it is not.
pub open spec fn absence_failure(lookup: RuleLookup, internal_name: Seq<char>) -> Option<SetupFailureModel> {
    match lookup {
        RuleLookup::Failed(code, error) => if code == RULE_NOT_FOUND {
            None
        } else {
            Some(verification_failure("inspect absent firewall rule "@ + internal_name + ": "@ + error@))
        },
        _ => Some(verification_failure("unexpected stale firewall rule is present: "@ + internal_name)),
    }
}

/// Verifies that there is no rule of a name.
pub fn verify_rule_absent(lookup: &RuleLookup, internal_name: &str) -> (result: Result<(), SetupFailure>)
    ensures
        match absence_failure(*lookup, internal_name@) {
            Some(expected) => result matches Err(failure) && failure@ == expected,
            None => result is Ok,
        },
{
    match lookup {
        RuleLookup::Failed(code, error) => {
            if *code == RULE_NOT_FOUND {
                Ok(())
            } else {
                Err(
                    firewall_verification_error(
                        concat4("inspect absent firewall rule ", internal_name, ": ", error.as_str()),
                    ),
                )
            }
        },
        _ => Err(
            firewall_verification_error(concat2("unexpected stale firewall rule is present: ", internal_name)),
        ),
    }
}

/// Why a rule is not there, if it is not.
pub open spec fn presence_failure(lookup: RuleLookup, internal_name: Seq<char>) -> Option<SetupFailureModel> {
    match lookup {
        RuleLookup::Found => None,
        RuleLookup::Failed(_, error) => Some(
            verification_failure("required firewall rule "@ + internal_name + " is unavailable: "@ + error@),
        ),
        RuleLookup::NotCast(error) => Some(
            verification_failure("cast firewall rule "@ + internal_name + " to INetFwRule3: "@ + error@),
        ),
    }
}

/// Verifies that a rule is there, with every property that was read of it.
pub fn verify_block_rule(
    lookup: &RuleLookup,
    spec: &BlockRuleSpec,
    readings: &RuleReadings,
    exact: &ExactReadings,
    scopes: &ScopeReadings,
) -> (result: Result<(), SetupFailure>)
    ensures
        match first_of(
            presence_failure(*lookup, spec@.internal_name),
            rule_failure(*readings, *exact, *scopes, spec@),
        ) {
            Some(expected) => result matches Err(failure) && failure@ == expected,
            None => result is Ok,
        },
{
    match lookup {
        RuleLookup::Found => verify_configured_rule(spec, readings, exact, scopes),
        RuleLookup::Failed(_, error) => Err(
            firewall_verification_error(
                concat4(
                    "required firewall rule ",
                    spec.internal_name.as_str(),
                    " is unavailable: ",
                    error.as_str(),
                ),
            ),
        ),
        RuleLookup::NotCast(error) => Err(
            firewall_verification_error(
                concat4("cast firewall rule ", spec.internal_name.as_str(), " to INetFwRule3: ", error.as_str()),
            ),
        ),
    }
}

/// The scopes that are brought into the firewall's own form for a rule, with their
/// demanded values: the remote ones, then the local ones of an exact rule.
pub open spec fn scope_requests(spec: BlockRuleModel) -> Seq<(CanonicalRuleScope, Seq<char>)> {
    let ports = crate::windows::firewall::rules::protocol_has_ports(spec.protocol);
    let none: Seq<(CanonicalRuleScope, Seq<char>)> = Seq::empty();
    none.push((CanonicalRuleScope::RemoteAddresses, spec.addresses())) + (if ports {
        none.push((CanonicalRuleScope::RemotePorts(spec.protocol), spec.ports()))
    } else {
        none
    }) + (if spec.exact_scope {
        none.push((CanonicalRuleScope::LocalAddresses, ALL_NETWORK_VALUES@)) + (if ports {
            none.push((CanonicalRuleScope::LocalPorts(spec.protocol), ALL_NETWORK_VALUES@))
        } else {
            none
        }) + none.push((CanonicalRuleScope::InterfaceTypes, ALL_INTERFACE_TYPES@))
    } else {
        none
    })
}

/// The scopes that are brought into the firewall's own form for a rule, with their
/// demanded values.
pub fn canonical_requests(spec: &BlockRuleSpec) -> (result: Vec<(CanonicalRuleScope, String)>)
    ensures
        result.len() == scope_requests(spec@).len(),
        forall|index: int|
            0 <= index < result.len() ==> (#[trigger] result@[index]).0 == scope_requests(spec@)[index].0
                && result@[index].1@ == scope_requests(spec@)[index].1,
{
    let mut requests: Vec<(CanonicalRuleScope, String)> = Vec::new();
    requests.push((CanonicalRuleScope::RemoteAddresses, network_values(&spec.remote_addresses).to_owned()));
    if has_ports(spec.protocol) {
        requests.push(
            (CanonicalRuleScope::RemotePorts(spec.protocol), network_values(&spec.remote_ports).to_owned()),
        );
    }
    if spec.exact_scope {
        requests.push((CanonicalRuleScope::LocalAddresses, ALL_NETWORK_VALUES.to_owned()));
        if has_ports(spec.protocol) {
            requests.push((CanonicalRuleScope::LocalPorts(spec.protocol), ALL_NETWORK_VALUES.to_owned()));
        }
        requests.push((CanonicalRuleScope::InterfaceTypes, ALL_INTERFACE_TYPES.to_owned()));
    }
    requests
}

/// Whether a text reading is this text.
pub open spec fn reads_text(reading: Result<String, String>, text: Seq<char>) -> bool {
    reading matches Ok(actual) && actual@ == text
}

/// Whether a number reading is this number.
pub open spec fn reads_number(reading: Result<i32, String>, number: i32) -> bool {
    reading matches Ok(actual) && actual == number
}

/// Whether a text reading is the firewall's form of a demanded scope.
pub open spec fn reads_scope(reading: Result<String, String>, scope: CanonicalScope) -> bool {
    scope matches CanonicalScope::Stored(text) && reads_text(reading, text@)
}

/// The text that a property must have.
pub open spec fn demanded_text(spec: BlockRuleModel, property: RuleProperty) -> Seq<char> {
    crate::windows::firewall::configure::configured_value(spec, property)->Text_0
}

/// The number that a property must have.
pub open spec fn demanded_number(spec: BlockRuleModel, property: RuleProperty) -> i32 {
    match crate::windows::firewall::configure::configured_value(spec, property) {
        RuleValueModel::Number(number) => number,
        RuleValueModel::Boolean(true) => VARIANT_TRUE,
        _ => VARIANT_FALSE,
    }
}

/// Whether everything that was read is what configuring the rule writes.
pub open spec fn reads_as_configured(
    readings: RuleReadings,
    exact: ExactReadings,
    scopes: ScopeReadings,
    spec: BlockRuleModel,
) -> bool {
    let ports = crate::windows::firewall::rules::protocol_has_ports(spec.protocol);
    &&& reads_text(readings.description, demanded_text(spec, RuleProperty::Description))
    &&& reads_number(readings.direction, demanded_number(spec, RuleProperty::Direction))
    &&& reads_number(readings.action, demanded_number(spec, RuleProperty::Action))
    &&& reads_number(readings.enabled, demanded_number(spec, RuleProperty::Enabled))
    &&& reads_number(readings.profiles, demanded_number(spec, RuleProperty::Profiles))
    &&& reads_number(readings.protocol, demanded_number(spec, RuleProperty::Protocol))
    &&& reads_scope(readings.remote_addresses, scopes.remote_addresses)
    &&& ports ==> reads_scope(readings.remote_ports, scopes.remote_ports)
    &&& reads_text(
        readings.local_user_authorized_list,
        demanded_text(spec, RuleProperty::LocalUserAuthorizedList),
    )
    &&& spec.exact_scope ==> {
        &&& reads_text(exact.name, spec.internal_name)
        &&& reads_text(exact.application_name, demanded_text(spec, RuleProperty::ApplicationName))
        &&& reads_text(exact.service_name, demanded_text(spec, RuleProperty::ServiceName))
        &&& reads_scope(exact.local_addresses, scopes.local_addresses)
        &&& ports ==> reads_scope(exact.local_ports, scopes.local_ports)
        &&& exact.interfaces matches Ok(interfaces) && interfaces.empty
        &&& reads_scope(exact.interface_types, scopes.interface_types)
        &&& reads_number(exact.edge_traversal, demanded_number(spec, RuleProperty::EdgeTraversal))
        &&& reads_number(exact.edge_traversal_options, demanded_number(spec, RuleProperty::EdgeTraversalOptions))
        &&& reads_text(exact.local_app_package_id, demanded_text(spec, RuleProperty::LocalAppPackageId))
        &&& reads_text(exact.local_user_owner, demanded_text(spec, RuleProperty::LocalUserOwner))
        &&& reads_text(
            exact.remote_user_authorized_list,
            demanded_text(spec, RuleProperty::RemoteUserAuthorizedList),
        )
        &&& reads_text(
            exact.remote_machine_authorized_list,
            demanded_text(spec, RuleProperty::RemoteMachineAuthorizedList),
        )
        &&& reads_number(exact.secure_flags, demanded_number(spec, RuleProperty::SecureFlags))
    }
}

proof fn lemma_base_accepts(readings: RuleReadings, exact: ExactReadings, scopes: ScopeReadings, spec: BlockRuleModel)
    requires
        base_read_failure(readings, spec) is None,
        base_scope_failure(scopes, spec) is None,
        !spec.exact_scope,
    ensures
        base_mismatches(readings, scopes, spec).len() == 0 <==> reads_as_configured(readings, exact, scopes, spec),
{
}

proof fn lemma_exact_accepts(readings: RuleReadings, exact: ExactReadings, scopes: ScopeReadings, spec: BlockRuleModel)
    requires
        base_read_failure(readings, spec) is None,
        base_scope_failure(scopes, spec) is None,
        exact_read_failure(exact, spec) is None,
        exact_scope_failure(scopes, spec) is None,
        spec.exact_scope,
    ensures
        exact_mismatches(base_mismatches(readings, scopes, spec), exact, scopes, spec).len() == 0
            <==> reads_as_configured(readings, exact, scopes, spec),
{
    let plain = BlockRuleModel { exact_scope: false, ..spec };
    lemma_base_accepts(readings, exact, scopes, plain);
    assert(base_mismatches(readings, scopes, plain) == base_mismatches(readings, scopes, spec));
}

/// Verification accepts a rule if and only if each property reads back as configuring
/// the rule writes it, scopes in the firewall's own form. So a rule that was configured
/// verifies, and any drift of a property is detected.
pub proof fn verification_accepts_exactly_the_configuration(
    readings: RuleReadings,
    exact: ExactReadings,
    scopes: ScopeReadings,
    spec: BlockRuleModel,
)
    ensures
        rule_failure(readings, exact, scopes, spec) is None <==> {
            &&& reads_as_configured(readings, exact, scopes, spec)
        },
{
    if base_read_failure(readings, spec) is None && base_scope_failure(scopes, spec) is None {
        if spec.exact_scope {
            if exact_read_failure(exact, spec) is None && exact_scope_failure(scopes, spec) is None {
                lemma_exact_accepts(readings, exact, scopes, spec);
            }
        } else {
            lemma_base_accepts(readings, exact, scopes, spec);
        }
    }
}

/// A rule passes only as an enabled outbound block in every profile, of its protocol and
/// limited to its account; an exact one bears its own name and no further limit.
pub proof fn accepted_rules_block_the_account_everywhere(
    readings: RuleReadings,
    exact: ExactReadings,
    scopes: ScopeReadings,
    spec: BlockRuleModel,
)
    requires
        rule_failure(readings, exact, scopes, spec) is None,
    ensures
        readings.direction == Ok::<i32, String>(2),
        readings.action == Ok::<i32, String>(0),
        (readings.enabled matches Ok(enabled) && enabled == -1),
        readings.profiles == Ok::<i32, String>(0x7fff_ffff),
        readings.protocol == Ok::<i32, String>(spec.protocol),
        readings.description matches Ok(text) && text@ == spec.friendly_desc,
        readings.local_user_authorized_list matches Ok(text) && text@ == spec.local_user_spec,
        readings.remote_addresses matches Ok(text) && (scopes.remote_addresses matches CanonicalScope::Stored(stored)
            && text@ == stored@),
        spec.protocol == 6 || spec.protocol == 17 ==> (readings.remote_ports matches Ok(text) && (
        scopes.remote_ports matches CanonicalScope::Stored(stored) && text@ == stored@)),
        spec.exact_scope ==> {
            &&& exact.name matches Ok(text) && text@ == spec.internal_name
            &&& exact.application_name matches Ok(text) && text@ == ""@
            &&& exact.service_name matches Ok(text) && text@ == ""@
            &&& exact.interfaces matches Ok(interfaces) && interfaces.empty
            &&& exact.edge_traversal == Ok::<i32, String>(0)
            &&& exact.edge_traversal_options == Ok::<i32, String>(0)
            &&& exact.local_app_package_id matches Ok(text) && text@ == ""@
            &&& exact.local_user_owner matches Ok(text) && text@ == ""@
            &&& exact.remote_user_authorized_list matches Ok(text) && text@ == ""@
            &&& exact.remote_machine_authorized_list matches Ok(text) && text@ == ""@
            &&& exact.secure_flags == Ok::<i32, String>(0)
        },
{
    verification_accepts_exactly_the_configuration(readings, exact, scopes, spec);
}

/// A rule is absent exactly where the host answers that there is none of its name, and
/// present exactly where it was found. No lookup is both.
pub proof fn lookups_tell_presence_from_absence(lookup: RuleLookup, internal_name: Seq<char>)
    ensures
        absence_failure(lookup, internal_name) is None <==> (lookup matches RuleLookup::Failed(code, _) && code
            == -0x7ff8_fffe),
        presence_failure(lookup, internal_name) is None <==> lookup is Found,
        absence_failure(lookup, internal_name) is None ==> presence_failure(lookup, internal_name) is Some,
{
}

/// The firewall is asked for its own form of the scope that the rule demands, under the
/// protocol that the scope depends on.
pub proof fn scopes_are_asked_for_by_their_property(scope: CanonicalRuleScope)
    ensures
        scope.written().last() == match scope {
            CanonicalRuleScope::RemoteAddresses => RuleProperty::RemoteAddresses,
            CanonicalRuleScope::RemotePorts(_) => RuleProperty::RemotePorts,
            CanonicalRuleScope::LocalAddresses => RuleProperty::LocalAddresses,
            CanonicalRuleScope::LocalPorts(_) => RuleProperty::LocalPorts,
            CanonicalRuleScope::InterfaceTypes => RuleProperty::InterfaceTypes,
        },
        scope.written().contains(RuleProperty::Protocol) <==> scope is RemotePorts || scope is LocalPorts,
        scope.written().contains(RuleProperty::Protocol) ==> scope.written()[0] is Protocol,
{
    if scope is RemotePorts || scope is LocalPorts {
        assert(scope.written()[0] == RuleProperty::Protocol);
    }
}

/// The firewall is asked for its own form of each scope that is looked at, with the value
/// that configuring the rule writes.
pub proof fn every_scope_is_asked_for(spec: BlockRuleModel, scope: CanonicalRuleScope, value: Seq<char>)
    ensures
        scope_requests(spec).contains((scope, value)) <==> {
            let ports = spec.protocol == 6 || spec.protocol == 17;
            match scope {
                CanonicalRuleScope::RemoteAddresses => value == demanded_text(spec, RuleProperty::RemoteAddresses),
                CanonicalRuleScope::RemotePorts(protocol) => ports && protocol == spec.protocol && value
                    == demanded_text(spec, RuleProperty::RemotePorts),
                CanonicalRuleScope::LocalAddresses => spec.exact_scope && value == "*"@,
                CanonicalRuleScope::LocalPorts(protocol) => spec.exact_scope && ports && protocol == spec.protocol
                    && value == "*"@,
                CanonicalRuleScope::InterfaceTypes => spec.exact_scope && value == "All"@,
            }
        },
{
    let requests = scope_requests(spec);
    let ports = spec.protocol == 6 || spec.protocol == 17;
    assert(requests[0] == (CanonicalRuleScope::RemoteAddresses, spec.addresses()));
    if ports {
        assert(requests[1] == (CanonicalRuleScope::RemotePorts(spec.protocol), spec.ports()));
    }
    if spec.exact_scope {
        let next: int = if ports {
            2
        } else {
            1
        };
        assert(requests[next] == (CanonicalRuleScope::LocalAddresses, "*"@));
        if ports {
            assert(requests[next + 1] == (CanonicalRuleScope::LocalPorts(spec.protocol), "*"@));
            assert(requests[next + 2] == (CanonicalRuleScope::InterfaceTypes, "All"@));
        } else {
            assert(requests[next + 1] == (CanonicalRuleScope::InterfaceTypes, "All"@));
        }
    }
}

} // verus!
