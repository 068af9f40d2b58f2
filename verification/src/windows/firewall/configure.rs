//! Writing a rule's properties.

use crate::text::{concat2, concat4};
use crate::windows::firewall::rules::{has_ports, network_values, BlockRuleModel, BlockRuleSpec, ALL_INTERFACE_TYPES, ALL_NETWORK_VALUES, EMPTY_RULE_VALUE};
use crate::windows::setup_failure::{SetupErrorCode, SetupFailure, SetupFailureModel};
use crate::text::signed_decimal_string;
use crate::native::chars_of;
use vstd::prelude::*;
use vstd::string::*;

verus! {

pub const NET_FW_RULE_DIR_OUT: i32 = 2;

pub const NET_FW_ACTION_BLOCK: i32 = 0;

pub const NET_FW_PROFILE2_ALL: i32 = 0x7fff_ffff;

pub const NET_FW_EDGE_TRAVERSAL_TYPE_DENY: i32 = 0;

pub const NET_FW_AUTHENTICATE_NONE: i32 = 0;

/// A property of a firewall rule.
#[derive(Clone, Copy, Debug, PartialEq, Eq, Structural)]
pub enum RuleProperty {
    Description,
    Direction,
    Action,
    Enabled,
    Profiles,
    Protocol,
    RemoteAddresses,
    RemotePorts,
    ApplicationName,
    ServiceName,
    LocalAddresses,
    LocalPorts,
    Interfaces,
    InterfaceTypes,
    EdgeTraversal,
    EdgeTraversalOptions,
    LocalAppPackageId,
    LocalUserOwner,
    RemoteUserAuthorizedList,
    RemoteMachineAuthorizedList,
    SecureFlags,
    LocalUserAuthorizedList,
}

impl RuleProperty {
    /// The property's name in diagnostics.
    pub open spec fn label_text(self) -> Seq<char> {
        match self {
            RuleProperty::Description => "Description"@,
            RuleProperty::Direction => "Direction"@,
            RuleProperty::Action => "Action"@,
            RuleProperty::Enabled => "Enabled"@,
            RuleProperty::Profiles => "Profiles"@,
            RuleProperty::Protocol => "Protocol"@,
            RuleProperty::RemoteAddresses => "RemoteAddresses"@,
            RuleProperty::RemotePorts => "RemotePorts"@,
            RuleProperty::ApplicationName => "ApplicationName"@,
            RuleProperty::ServiceName => "ServiceName"@,
            RuleProperty::LocalAddresses => "LocalAddresses"@,
            RuleProperty::LocalPorts => "LocalPorts"@,
            RuleProperty::Interfaces => "Interfaces"@,
            RuleProperty::InterfaceTypes => "InterfaceTypes"@,
            RuleProperty::EdgeTraversal => "EdgeTraversal"@,
            RuleProperty::EdgeTraversalOptions => "EdgeTraversalOptions"@,
            RuleProperty::LocalAppPackageId => "LocalAppPackageId"@,
            RuleProperty::LocalUserOwner => "LocalUserOwner"@,
            RuleProperty::RemoteUserAuthorizedList => "RemoteUserAuthorizedList"@,
            RuleProperty::RemoteMachineAuthorizedList => "RemoteMachineAuthorizedList"@,
            RuleProperty::SecureFlags => "SecureFlags"@,
            RuleProperty::LocalUserAuthorizedList => "LocalUserAuthorizedList"@,
        }
    }

    /// The property's name in diagnostics.
    pub fn label(self) -> (result: &'static str)
        ensures
            result@ == self.label_text(),
    {
        match self {
            RuleProperty::Description => "Description",
            RuleProperty::Direction => "Direction",
            RuleProperty::Action => "Action",
            RuleProperty::Enabled => "Enabled",
            RuleProperty::Profiles => "Profiles",
            RuleProperty::Protocol => "Protocol",
            RuleProperty::RemoteAddresses => "RemoteAddresses",
            RuleProperty::RemotePorts => "RemotePorts",
            RuleProperty::ApplicationName => "ApplicationName",
            RuleProperty::ServiceName => "ServiceName",
            RuleProperty::LocalAddresses => "LocalAddresses",
            RuleProperty::LocalPorts => "LocalPorts",
            RuleProperty::Interfaces => "Interfaces",
            RuleProperty::InterfaceTypes => "InterfaceTypes",
            RuleProperty::EdgeTraversal => "EdgeTraversal",
            RuleProperty::EdgeTraversalOptions => "EdgeTraversalOptions",
            RuleProperty::LocalAppPackageId => "LocalAppPackageId",
            RuleProperty::LocalUserOwner => "LocalUserOwner",
            RuleProperty::RemoteUserAuthorizedList => "RemoteUserAuthorizedList",
            RuleProperty::RemoteMachineAuthorizedList => "RemoteMachineAuthorizedList",
            RuleProperty::SecureFlags => "SecureFlags",
            RuleProperty::LocalUserAuthorizedList => "LocalUserAuthorizedList",
        }
    }
}

/// The value of a property.
#[derive(Debug)]
pub enum RuleValue {
    Text(String),
    Number(i32),
    Boolean(bool),
    /// No restriction to interfaces.
    Unset,
}

/// What a [`RuleValue`] holds.
pub enum RuleValueModel {
    Text(Seq<char>),
    Number(i32),
    Boolean(bool),
    Unset,
}

impl DeepView for RuleValue {
    type V = RuleValueModel;

    open spec fn deep_view(&self) -> RuleValueModel {
        match self {
            RuleValue::Text(text) => RuleValueModel::Text(text@),
            RuleValue::Number(number) => RuleValueModel::Number(*number),
            RuleValue::Boolean(value) => RuleValueModel::Boolean(*value),
            RuleValue::Unset => RuleValueModel::Unset,
        }
    }
}

/// The value that a property of a rule must have.
pub open spec fn configured_value(spec: BlockRuleModel, property: RuleProperty) -> RuleValueModel {
    match property {
        RuleProperty::Description => RuleValueModel::Text(spec.friendly_desc),
        RuleProperty::Direction => RuleValueModel::Number(NET_FW_RULE_DIR_OUT),
        RuleProperty::Action => RuleValueModel::Number(NET_FW_ACTION_BLOCK),
        RuleProperty::Enabled => RuleValueModel::Boolean(true),
        RuleProperty::Profiles => RuleValueModel::Number(NET_FW_PROFILE2_ALL),
        RuleProperty::Protocol => RuleValueModel::Number(spec.protocol),
        RuleProperty::RemoteAddresses => RuleValueModel::Text(spec.addresses()),
        RuleProperty::RemotePorts => RuleValueModel::Text(spec.ports()),
        RuleProperty::ApplicationName => RuleValueModel::Text(EMPTY_RULE_VALUE@),
        RuleProperty::ServiceName => RuleValueModel::Text(EMPTY_RULE_VALUE@),
        RuleProperty::LocalAddresses => RuleValueModel::Text(ALL_NETWORK_VALUES@),
        RuleProperty::LocalPorts => RuleValueModel::Text(ALL_NETWORK_VALUES@),
        RuleProperty::Interfaces => RuleValueModel::Unset,
        RuleProperty::InterfaceTypes => RuleValueModel::Text(ALL_INTERFACE_TYPES@),
        RuleProperty::EdgeTraversal => RuleValueModel::Boolean(false),
        RuleProperty::EdgeTraversalOptions => RuleValueModel::Number(NET_FW_EDGE_TRAVERSAL_TYPE_DENY),
        RuleProperty::LocalAppPackageId => RuleValueModel::Text(EMPTY_RULE_VALUE@),
        RuleProperty::LocalUserOwner => RuleValueModel::Text(EMPTY_RULE_VALUE@),
        RuleProperty::RemoteUserAuthorizedList => RuleValueModel::Text(EMPTY_RULE_VALUE@),
        RuleProperty::RemoteMachineAuthorizedList => RuleValueModel::Text(EMPTY_RULE_VALUE@),
        RuleProperty::SecureFlags => RuleValueModel::Number(NET_FW_AUTHENTICATE_NONE),
        RuleProperty::LocalUserAuthorizedList => RuleValueModel::Text(spec.local_user_spec),
    }
}

/// The value that a property of a rule must have.
pub fn rule_value(spec: &BlockRuleSpec, property: RuleProperty) -> (result: RuleValue)
    ensures
        result.deep_view() == configured_value(spec@, property),
{
    match property {
        RuleProperty::Description => RuleValue::Text(spec.friendly_desc.clone()),
        RuleProperty::Direction => RuleValue::Number(NET_FW_RULE_DIR_OUT),
        RuleProperty::Action => RuleValue::Number(NET_FW_ACTION_BLOCK),
        RuleProperty::Enabled => RuleValue::Boolean(true),
        RuleProperty::Profiles => RuleValue::Number(NET_FW_PROFILE2_ALL),
        RuleProperty::Protocol => RuleValue::Number(spec.protocol),
        RuleProperty::RemoteAddresses => RuleValue::Text(network_values(&spec.remote_addresses).to_owned()),
        RuleProperty::RemotePorts => RuleValue::Text(network_values(&spec.remote_ports).to_owned()),
        RuleProperty::ApplicationName => RuleValue::Text(EMPTY_RULE_VALUE.to_owned()),
        RuleProperty::ServiceName => RuleValue::Text(EMPTY_RULE_VALUE.to_owned()),
        RuleProperty::LocalAddresses => RuleValue::Text(ALL_NETWORK_VALUES.to_owned()),
        RuleProperty::LocalPorts => RuleValue::Text(ALL_NETWORK_VALUES.to_owned()),
        RuleProperty::Interfaces => RuleValue::Unset,
        RuleProperty::InterfaceTypes => RuleValue::Text(ALL_INTERFACE_TYPES.to_owned()),
        RuleProperty::EdgeTraversal => RuleValue::Boolean(false),
        RuleProperty::EdgeTraversalOptions => RuleValue::Number(NET_FW_EDGE_TRAVERSAL_TYPE_DENY),
        RuleProperty::LocalAppPackageId => RuleValue::Text(EMPTY_RULE_VALUE.to_owned()),
        RuleProperty::LocalUserOwner => RuleValue::Text(EMPTY_RULE_VALUE.to_owned()),
        RuleProperty::RemoteUserAuthorizedList => RuleValue::Text(EMPTY_RULE_VALUE.to_owned()),
        RuleProperty::RemoteMachineAuthorizedList => RuleValue::Text(EMPTY_RULE_VALUE.to_owned()),
        RuleProperty::SecureFlags => RuleValue::Number(NET_FW_AUTHENTICATE_NONE),
        RuleProperty::LocalUserAuthorizedList => RuleValue::Text(spec.local_user_spec.clone()),
    }
}

/// One step of writing a rule's properties.
#[derive(Clone, Copy, Debug, PartialEq, Eq, Structural)]
pub enum ConfigureStep {
    /// Write the property's value.
    Write(RuleProperty),
    /// Read the protocol back, and write the local ports if it tells ports apart.
    WriteLocalPorts,
    /// Read the user scope back and confirm it.
    ConfirmUserScope,
}

/// The properties of the network scope.
pub open spec fn network_scope_steps(protocol: i32) -> Seq<ConfigureStep> {
    let common = seq![
        ConfigureStep::Write(RuleProperty::Protocol),
        ConfigureStep::Write(RuleProperty::RemoteAddresses),
    ];
    if crate::windows::firewall::rules::protocol_has_ports(protocol) {
        common.push(ConfigureStep::Write(RuleProperty::RemotePorts))
    } else {
        common
    }
}

/// The properties that an exact rule fixes besides.
pub open spec fn exact_scope_steps() -> Seq<ConfigureStep> {
    seq![
        ConfigureStep::Write(RuleProperty::ApplicationName),
        ConfigureStep::Write(RuleProperty::ServiceName),
        ConfigureStep::Write(RuleProperty::LocalAddresses),
        ConfigureStep::WriteLocalPorts,
        ConfigureStep::Write(RuleProperty::Interfaces),
        ConfigureStep::Write(RuleProperty::InterfaceTypes),
        ConfigureStep::Write(RuleProperty::EdgeTraversal),
        ConfigureStep::Write(RuleProperty::EdgeTraversalOptions),
        ConfigureStep::Write(RuleProperty::LocalAppPackageId),
        ConfigureStep::Write(RuleProperty::LocalUserOwner),
        ConfigureStep::Write(RuleProperty::RemoteUserAuthorizedList),
        ConfigureStep::Write(RuleProperty::RemoteMachineAuthorizedList),
        ConfigureStep::Write(RuleProperty::SecureFlags),
    ]
}

/// The steps of writing a rule's properties, in order.
pub open spec fn configure_steps(spec: BlockRuleModel) -> Seq<ConfigureStep> {
    seq![
        ConfigureStep::Write(RuleProperty::Description),
        ConfigureStep::Write(RuleProperty::Direction),
        ConfigureStep::Write(RuleProperty::Action),
        ConfigureStep::Write(RuleProperty::Enabled),
        ConfigureStep::Write(RuleProperty::Profiles),
    ] + network_scope_steps(spec.protocol) + (if spec.exact_scope {
        exact_scope_steps()
    } else {
        Seq::empty()
    }) + seq![ConfigureStep::Write(RuleProperty::LocalUserAuthorizedList), ConfigureStep::ConfirmUserScope]
}

/// The steps of writing a rule's network scope.
pub fn configure_rule_network_scope(spec: &BlockRuleSpec) -> (result: Vec<ConfigureStep>)
    ensures
        result@ == network_scope_steps(spec.protocol),
{
    let mut steps: Vec<ConfigureStep> = Vec::new();
    steps.push(ConfigureStep::Write(RuleProperty::Protocol));
    steps.push(ConfigureStep::Write(RuleProperty::RemoteAddresses));
    if has_ports(spec.protocol) {
        steps.push(ConfigureStep::Write(RuleProperty::RemotePorts));
    }
    assert(steps@ =~= network_scope_steps(spec.protocol));
    steps
}

/// The steps of writing the properties that an exact rule fixes besides.
pub fn configure_exact_rule_scope() -> (result: Vec<ConfigureStep>)
    ensures
        result@ == exact_scope_steps(),
{
    let steps = vec![
        ConfigureStep::Write(RuleProperty::ApplicationName),
        ConfigureStep::Write(RuleProperty::ServiceName),
        ConfigureStep::Write(RuleProperty::LocalAddresses),
        ConfigureStep::WriteLocalPorts,
        ConfigureStep::Write(RuleProperty::Interfaces),
        ConfigureStep::Write(RuleProperty::InterfaceTypes),
        ConfigureStep::Write(RuleProperty::EdgeTraversal),
        ConfigureStep::Write(RuleProperty::EdgeTraversalOptions),
        ConfigureStep::Write(RuleProperty::LocalAppPackageId),
        ConfigureStep::Write(RuleProperty::LocalUserOwner),
        ConfigureStep::Write(RuleProperty::RemoteUserAuthorizedList),
        ConfigureStep::Write(RuleProperty::RemoteMachineAuthorizedList),
        ConfigureStep::Write(RuleProperty::SecureFlags),
    ];
    assert(steps@ =~= exact_scope_steps());
    steps
}

/// The steps of writing a rule's properties, in order.
pub fn configure_rule(spec: &BlockRuleSpec) -> (result: Vec<ConfigureStep>)
    ensures
        result@ == configure_steps(spec@),
{
    let mut steps = vec![
        ConfigureStep::Write(RuleProperty::Description),
        ConfigureStep::Write(RuleProperty::Direction),
        ConfigureStep::Write(RuleProperty::Action),
        ConfigureStep::Write(RuleProperty::Enabled),
        ConfigureStep::Write(RuleProperty::Profiles),
    ];
    let mut network = configure_rule_network_scope(spec);
    steps.append(&mut network);
    if spec.exact_scope {
        let mut exact = configure_exact_rule_scope();
        steps.append(&mut exact);
    }
    steps.push(ConfigureStep::Write(RuleProperty::LocalUserAuthorizedList));
    steps.push(ConfigureStep::ConfirmUserScope);
    assert(steps@ =~= configure_steps(spec@));
    steps
}

/// The failure of writing a property.
pub open spec fn configuration_failure(property: Seq<char>, error: Seq<char>) -> SetupFailureModel {
    SetupFailureModel::new(
        SetupErrorCode::HelperFirewallRuleCreateOrAddFailed,
        "set firewall rule property "@ + property + ": "@ + error,
    )
}

/// The failure of writing a property, with the host's error.
pub fn rule_configuration_error(property: &str, error: &str) -> (result: SetupFailure)
    ensures
        result@ == configuration_failure(property@, error@),
{
    SetupFailure::new(
        SetupErrorCode::HelperFirewallRuleCreateOrAddFailed,
        concat4("set firewall rule property ", property, ": ", error),
    )
}

/// Whether the local ports of a rule are written, by the protocol that was read back.
pub fn writes_local_ports(read_back: &Result<i32, String>) -> (result: Result<bool, SetupFailure>)
    ensures
        match read_back {
            Ok(protocol) => result == Ok::<bool, SetupFailure>(
                crate::windows::firewall::rules::protocol_has_ports(*protocol),
            ),
            Err(error) => result matches Err(failure) && failure@ == configuration_failure(
                "Protocol read-back"@,
                error@,
            ),
        },
{
    match read_back {
        Ok(protocol) => Ok(has_ports(*protocol)),
        Err(error) => Err(rule_configuration_error("Protocol read-back", error.as_str())),
    }
}

/// Whether a text stands at a place in another one.
pub open spec fn stands_at(text: Seq<char>, part: Seq<char>, place: int) -> bool {
    0 <= place && place + part.len() <= text.len() && text.subrange(place, place + part.len()) == part
}

/// Whether a text holds another one.
pub open spec fn holds_part(text: Seq<char>, part: Seq<char>) -> bool {
    exists|place: int| stands_at(text, part, place)
}

fn part_stands_at(text: &Vec<char>, part: &Vec<char>, place: usize) -> (result: bool)
    requires
        place + part.len() <= text.len(),
    ensures
        result == stands_at(text@, part@, place as int),
{
    for index in 0..part.len()
        invariant
            place + part.len() <= text.len(),
            forall|i: int| 0 <= i < index ==> text@[place + i] == part@[i],
    {
        if text[place + index] != part[index] {
            assert(text@.subrange(place as int, place + part.len())[index as int] == text@[place + index]);
            return false;
        }
    }
    assert(text@.subrange(place as int, place + part.len()) =~= part@);
    true
}

fn has_part(text: &str, part: &str) -> (result: bool)
    ensures
        result == holds_part(text@, part@),
{
    let text_chars = chars_of(text);
    let part_chars = chars_of(part);
    if part_chars.len() > text_chars.len() {
        return false;
    }
    let last: usize = text_chars.len() - part_chars.len();
    let mut place: usize = 0;
    while place <= last
        invariant
            text_chars@ == text@,
            part_chars@ == part@,
            last == text_chars.len() - part_chars.len(),
            place <= last + 1,
            forall|i: int| 0 <= i < place ==> !stands_at(text@, part@, i),
        decreases last + 1 - place,
    {
        if part_stands_at(&text_chars, &part_chars, place) {
            return true;
        }
        if place == last {
            return false;
        }
        place = place + 1;
    }
    false
}

/// Why a rule's user scope is not the account's, if it is not.
pub open spec fn user_scope_failure(spec: BlockRuleModel, read_back: Result<String, String>) -> Option<SetupFailureModel> {
    match read_back {
        Err(error) => Some(
            SetupFailureModel::new(
                SetupErrorCode::HelperFirewallRuleVerifyFailed,
                "LocalUserAuthorizedList (read-back) failed: "@ + error@,
            ),
        ),
        Ok(actual) => if holds_part(actual@, spec.offline_sid) {
            None
        } else {
            Some(
                SetupFailureModel::new(
                    SetupErrorCode::HelperFirewallRuleVerifyFailed,
                    "offline firewall rule user scope mismatch: expected SID "@ + spec.offline_sid + ", got "@
                        + actual@,
                ),
            )
        },
    }
}

/// Confirms from what was read back that a rule's user scope names the account.
pub fn confirm_user_scope(spec: &BlockRuleSpec, read_back: &Result<String, String>) -> (result: Result<(), SetupFailure>)
    ensures
        match user_scope_failure(spec@, *read_back) {
            Some(expected) => result matches Err(failure) && failure@ == expected,
            None => result is Ok,
        },
{
    match read_back {
        Err(error) => Err(
            SetupFailure::new(
                SetupErrorCode::HelperFirewallRuleVerifyFailed,
                concat2("LocalUserAuthorizedList (read-back) failed: ", error.as_str()),
            ),
        ),
        Ok(actual) => {
            if has_part(actual.as_str(), spec.offline_sid.as_str()) {
                Ok(())
            } else {
                Err(
                    SetupFailure::new(
                        SetupErrorCode::HelperFirewallRuleVerifyFailed,
                        concat4(
                            "offline firewall rule user scope mismatch: expected SID ",
                            spec.offline_sid.as_str(),
                            ", got ",
                            actual.as_str(),
                        ),
                    ),
                )
            }
        },
    }
}

/// An operation on a rule as a whole.
#[derive(Clone, Copy, Debug, PartialEq, Eq, Structural)]
pub enum RuleOperation {
    /// Take the rule that is there.
    CastExisting,
    Create,
    SetName,
    Add,
}

/// One step of bringing a rule into line.
#[derive(Clone, Copy, Debug, PartialEq, Eq, Structural)]
pub enum RuleStep {
    Perform(RuleOperation),
    Configure(ConfigureStep),
    /// Report the rule in the setup log.
    Log,
}

/// The steps of configuring a rule.
pub open spec fn configuring(steps: Seq<ConfigureStep>) -> Seq<RuleStep> {
    steps.map_values(|step: ConfigureStep| RuleStep::Configure(step))
}

/// The steps of bringing a rule into line. A new one has all its properties before it
/// is added, so that no half-configured rule stays behind.
pub open spec fn rule_steps(spec: BlockRuleModel, present: bool) -> Seq<RuleStep> {
    let configure = configuring(configure_steps(spec));
    if present {
        seq![RuleStep::Perform(RuleOperation::CastExisting)] + configure + seq![RuleStep::Log]
    } else {
        seq![RuleStep::Perform(RuleOperation::Create), RuleStep::Perform(RuleOperation::SetName)] + configure + seq![RuleStep::Perform(RuleOperation::Add)] + configure + seq![RuleStep::Log]
    }
}

fn append_configuration(steps: &mut Vec<RuleStep>, configure: &Vec<ConfigureStep>)
    ensures
        final(steps)@ == old(steps)@ + configuring(configure@),
{
    let ghost start = steps@;
    for index in 0..configure.len()
        invariant
            steps@ == start + configuring(configure@.take(index as int)),
    {
        steps.push(RuleStep::Configure(configure[index]));
        assert(configuring(configure@.take(index + 1)) =~= configuring(configure@.take(index as int)).push(
            RuleStep::Configure(configure@[index as int]),
        ));
    }
    assert(configure@.take(configure.len() as int) =~= configure@);
}

/// The steps of bringing a rule into line, by whether a rule of its name is there.
pub fn ensure_block_rule(spec: &BlockRuleSpec, present: bool) -> (result: Vec<RuleStep>)
    ensures
        result@ == rule_steps(spec@, present),
{
    let configure = configure_rule(spec);
    let mut steps: Vec<RuleStep> = Vec::new();
    if present {
        steps.push(RuleStep::Perform(RuleOperation::CastExisting));
    } else {
        steps.push(RuleStep::Perform(RuleOperation::Create));
        steps.push(RuleStep::Perform(RuleOperation::SetName));
        append_configuration(&mut steps, &configure);
        steps.push(RuleStep::Perform(RuleOperation::Add));
    }
    // The fields are applied again in any case, which keeps the setup idempotent.
    append_configuration(&mut steps, &configure);
    steps.push(RuleStep::Log);
    assert(steps@ =~= rule_steps(spec@, present));
    steps
}

/// The failure of an operation on a rule.
pub open spec fn operation_failure(operation: RuleOperation, error: Seq<char>) -> SetupFailureModel {
    SetupFailureModel::new(
        SetupErrorCode::HelperFirewallRuleCreateOrAddFailed,
        (match operation {
            RuleOperation::CastExisting => "cast existing firewall rule to INetFwRule3 failed: "@,
            RuleOperation::Create => "CoCreateInstance NetFwRule failed: "@,
            RuleOperation::SetName => "SetName failed: "@,
            RuleOperation::Add => "Rules::Add failed: "@,
        }) + error,
    )
}

/// The failure of an operation on a rule, with the host's error.
pub fn rule_operation_failure(operation: RuleOperation, error: &str) -> (result: SetupFailure)
    ensures
        result@ == operation_failure(operation, error@),
{
    let message = match operation {
        RuleOperation::CastExisting => concat2("cast existing firewall rule to INetFwRule3 failed: ", error),
        RuleOperation::Create => concat2("CoCreateInstance NetFwRule failed: ", error),
        RuleOperation::SetName => concat2("SetName failed: ", error),
        RuleOperation::Add => concat2("Rules::Add failed: ", error),
    };
    SetupFailure::new(SetupErrorCode::HelperFirewallRuleCreateOrAddFailed, message)
}

/// The line that reports a rule in the setup log.
pub open spec fn configured_line(spec: BlockRuleModel) -> Seq<char> {
    "firewall rule configured name="@ + spec.internal_name + " protocol="@ + crate::text::signed_decimal(
        spec.protocol as int,
    ) + " RemoteAddresses="@ + spec.addresses() + " RemotePorts="@ + spec.ports() + " LocalUserAuthorizedList="@
        + spec.local_user_spec
}

/// The line that reports a rule in the setup log.
pub fn rule_configured_line(spec: &BlockRuleSpec) -> (result: String)
    ensures
        result@ == configured_line(spec@),
{
    let protocol = signed_decimal_string(spec.protocol);
    let name = concat4("firewall rule configured name=", spec.internal_name.as_str(), " protocol=", protocol.as_str());
    let addresses = concat4(
        name.as_str(),
        " RemoteAddresses=",
        network_values(&spec.remote_addresses),
        " RemotePorts=",
    );
    concat4(
        addresses.as_str(),
        network_values(&spec.remote_ports),
        " LocalUserAuthorizedList=",
        spec.local_user_spec.as_str(),
    )
}

/// The line that reports the removal of a rule.
pub fn rule_removed_line(internal_name: &str) -> (result: String)
    ensures
        result@ == "firewall rule removed name="@ + internal_name@,
{
    concat2("firewall rule removed name=", internal_name)
}

/// What the removal of a rule comes to: nothing where there is none, a line for the
/// setup log, or the failure.
pub open spec fn removal_outcome(internal_name: Seq<char>, removed: Option<Result<(), String>>) -> Result<
    Option<Seq<char>>,
    SetupFailureModel,
> {
    match removed {
        None => Ok(None),
        Some(Ok(_)) => Ok(Some("firewall rule removed name="@ + internal_name)),
        Some(Err(error)) => Err(
            SetupFailureModel::new(
                SetupErrorCode::HelperFirewallRuleCreateOrAddFailed,
                "Rules::Remove failed for "@ + internal_name + ": "@ + error@,
            ),
        ),
    }
}

/// What the removal of a rule comes to. `removed` is what the host answered, if there
/// was a rule to remove.
pub fn remove_rule_if_present(internal_name: &str, removed: &Option<Result<(), String>>) -> (result: Result<
    Option<String>,
    SetupFailure,
>)
    ensures
        match removal_outcome(internal_name@, *removed) {
            Ok(line) => result matches Ok(text) && text.deep_view() == line,
            Err(expected) => result matches Err(failure) && failure@ == expected,
        },
{
    match removed {
        None => Ok(None),
        Some(Ok(_)) => Ok(Some(rule_removed_line(internal_name))),
        Some(Err(error)) => Err(
            SetupFailure::new(
                SetupErrorCode::HelperFirewallRuleCreateOrAddFailed,
                concat4("Rules::Remove failed for ", internal_name, ": ", error.as_str()),
            ),
        ),
    }
}

/// A new rule has every property before it is added.
pub proof fn rules_are_configured_before_they_are_added(spec: BlockRuleModel, place: int)
    requires
        0 <= place < rule_steps(spec, false).len(),
        rule_steps(spec, false)[place] == RuleStep::Perform(RuleOperation::Add),
    ensures
        place == 2 + configure_steps(spec).len(),
        rule_steps(spec, false).subrange(2, place) == configuring(configure_steps(spec)),
{
    let configure = configuring(configure_steps(spec));
    let steps = rule_steps(spec, false);
    assert(steps.subrange(2, (2 + configure.len()) as int) =~= configure);
    if place > 2 + configure.len() && place < 3 + 2 * configure.len() {
        assert(steps[place] == configure[place - 3 - configure.len()]);
    }
    if 2 <= place < 2 + configure.len() {
        assert(steps[place] == configure[place - 2]);
    }
}

/// Whatever the rule is, it is an enabled outbound block in every profile, limited to its
/// account and to no program, service, interface or peer.
pub proof fn configured_rules_block_the_account_everywhere(spec: BlockRuleModel)
    ensures
        configured_value(spec, RuleProperty::Direction) == RuleValueModel::Number(2),
        configured_value(spec, RuleProperty::Action) == RuleValueModel::Number(0),
        configured_value(spec, RuleProperty::Enabled) == RuleValueModel::Boolean(true),
        configured_value(spec, RuleProperty::Profiles) == RuleValueModel::Number(0x7fff_ffff),
        configured_value(spec, RuleProperty::LocalUserAuthorizedList) == RuleValueModel::Text(spec.local_user_spec),
        configured_value(spec, RuleProperty::Protocol) == RuleValueModel::Number(spec.protocol),
        configured_value(spec, RuleProperty::Description) == RuleValueModel::Text(spec.friendly_desc),
        configured_value(spec, RuleProperty::RemoteAddresses) == RuleValueModel::Text(
            if spec.remote_addresses is Some {
                spec.remote_addresses->Some_0
            } else {
                "*"@
            },
        ),
        configured_value(spec, RuleProperty::RemotePorts) == RuleValueModel::Text(
            if spec.remote_ports is Some {
                spec.remote_ports->Some_0
            } else {
                "*"@
            },
        ),
        configured_value(spec, RuleProperty::LocalAddresses) == RuleValueModel::Text("*"@),
        configured_value(spec, RuleProperty::LocalPorts) == RuleValueModel::Text("*"@),
        configured_value(spec, RuleProperty::Interfaces) is Unset,
        configured_value(spec, RuleProperty::InterfaceTypes) == RuleValueModel::Text("All"@),
        configured_value(spec, RuleProperty::EdgeTraversal) == RuleValueModel::Boolean(false),
        configured_value(spec, RuleProperty::EdgeTraversalOptions) == RuleValueModel::Number(0),
        configured_value(spec, RuleProperty::SecureFlags) == RuleValueModel::Number(0),
        forall|property: RuleProperty|
            property is ApplicationName || property is ServiceName || property is LocalAppPackageId
                || property is LocalUserOwner || property is RemoteUserAuthorizedList
                || property is RemoteMachineAuthorizedList ==> #[trigger] configured_value(spec, property)
                == RuleValueModel::Text(""@),
{
}

/// Configuring a rule writes every property that limits it: the ports only where the
/// protocol tells them apart, and the remaining scope only for an exact rule. The account
/// comes last and is confirmed.
pub proof fn configuring_writes_every_limit(spec: BlockRuleModel, property: RuleProperty)
    ensures
        configure_steps(spec).contains(ConfigureStep::Write(property)) <==> match property {
            RuleProperty::Description => true,
            RuleProperty::Direction => true,
            RuleProperty::Action => true,
            RuleProperty::Enabled => true,
            RuleProperty::Profiles => true,
            RuleProperty::Protocol => true,
            RuleProperty::RemoteAddresses => true,
            RuleProperty::LocalUserAuthorizedList => true,
            RuleProperty::RemotePorts => spec.protocol == 6 || spec.protocol == 17,
            RuleProperty::LocalPorts => false,
            _ => spec.exact_scope,
        },
        configure_steps(spec).contains(ConfigureStep::WriteLocalPorts) <==> spec.exact_scope,
        configure_steps(spec).last() is ConfirmUserScope,
{
    let steps = configure_steps(spec);
    let start = seq![
        ConfigureStep::Write(RuleProperty::Description),
        ConfigureStep::Write(RuleProperty::Direction),
        ConfigureStep::Write(RuleProperty::Action),
        ConfigureStep::Write(RuleProperty::Enabled),
        ConfigureStep::Write(RuleProperty::Profiles),
    ];
    let network = network_scope_steps(spec.protocol);
    let exact = if spec.exact_scope {
        exact_scope_steps()
    } else {
        Seq::empty()
    };
    let end = seq![ConfigureStep::Write(RuleProperty::LocalUserAuthorizedList), ConfigureStep::ConfirmUserScope];
    assert(steps == start + network + exact + end);
    assert forall|step: ConfigureStep| steps.contains(step) implies start.contains(step) || network.contains(step)
        || exact.contains(step) || end.contains(step) by {
        let index = choose|index: int| 0 <= index < steps.len() && steps[index] == step;
        if index < start.len() {
            assert(start[index] == step);
        } else if index < start.len() + network.len() {
            assert(network[index - start.len()] == step);
        } else if index < start.len() + network.len() + exact.len() {
            assert(exact[index - start.len() - network.len()] == step);
        } else {
            assert(end[index - start.len() - network.len() - exact.len()] == step);
        }
    }
    assert forall|step: ConfigureStep|
        start.contains(step) || network.contains(step) || exact.contains(step) || end.contains(
            step,
        ) implies steps.contains(step) by {
        if start.contains(step) {
            let index = choose|index: int| 0 <= index < start.len() && start[index] == step;
            assert(steps[index] == step);
        } else if network.contains(step) {
            let index = choose|index: int| 0 <= index < network.len() && network[index] == step;
            assert(steps[start.len() + index] == step);
        } else if exact.contains(step) {
            let index = choose|index: int| 0 <= index < exact.len() && exact[index] == step;
            assert(steps[start.len() + network.len() + index] == step);
        } else {
            let index = choose|index: int| 0 <= index < end.len() && end[index] == step;
            assert(steps[start.len() + network.len() + exact.len() + index] == step);
        }
    }
    lemma_step_places(spec.protocol, property);
    assert(start[0] == ConfigureStep::Write(RuleProperty::Description));
    assert(start[1] == ConfigureStep::Write(RuleProperty::Direction));
    assert(start[2] == ConfigureStep::Write(RuleProperty::Action));
    assert(start[3] == ConfigureStep::Write(RuleProperty::Enabled));
    assert(start[4] == ConfigureStep::Write(RuleProperty::Profiles));
    assert(end[0] == ConfigureStep::Write(RuleProperty::LocalUserAuthorizedList));
}

proof fn lemma_step_places(protocol: i32, property: RuleProperty)
    ensures
        network_scope_steps(protocol).contains(ConfigureStep::Write(property)) <==> {
            ||| property is Protocol
            ||| property is RemoteAddresses
            ||| property is RemotePorts && (protocol == 6 || protocol == 17)
        },
        !network_scope_steps(protocol).contains(ConfigureStep::WriteLocalPorts),
        exact_scope_steps().contains(ConfigureStep::WriteLocalPorts),
        exact_scope_steps().contains(ConfigureStep::Write(property)) <==> match property {
            RuleProperty::ApplicationName => true,
            RuleProperty::ServiceName => true,
            RuleProperty::LocalAddresses => true,
            RuleProperty::Interfaces => true,
            RuleProperty::InterfaceTypes => true,
            RuleProperty::EdgeTraversal => true,
            RuleProperty::EdgeTraversalOptions => true,
            RuleProperty::LocalAppPackageId => true,
            RuleProperty::LocalUserOwner => true,
            RuleProperty::RemoteUserAuthorizedList => true,
            RuleProperty::RemoteMachineAuthorizedList => true,
            RuleProperty::SecureFlags => true,
            _ => false,
        },
{
    let network = network_scope_steps(protocol);
    assert(network[0] == ConfigureStep::Write(RuleProperty::Protocol));
    assert(network[1] == ConfigureStep::Write(RuleProperty::RemoteAddresses));
    if protocol == 6 || protocol == 17 {
        assert(network[2] == ConfigureStep::Write(RuleProperty::RemotePorts));
    }
    let exact = exact_scope_steps();
    assert(exact[0] == ConfigureStep::Write(RuleProperty::ApplicationName));
    assert(exact[1] == ConfigureStep::Write(RuleProperty::ServiceName));
    assert(exact[2] == ConfigureStep::Write(RuleProperty::LocalAddresses));
    assert(exact[3] == ConfigureStep::WriteLocalPorts);
    assert(exact[4] == ConfigureStep::Write(RuleProperty::Interfaces));
    assert(exact[5] == ConfigureStep::Write(RuleProperty::InterfaceTypes));
    assert(exact[6] == ConfigureStep::Write(RuleProperty::EdgeTraversal));
    assert(exact[7] == ConfigureStep::Write(RuleProperty::EdgeTraversalOptions));
    assert(exact[8] == ConfigureStep::Write(RuleProperty::LocalAppPackageId));
    assert(exact[9] == ConfigureStep::Write(RuleProperty::LocalUserOwner));
    assert(exact[10] == ConfigureStep::Write(RuleProperty::RemoteUserAuthorizedList));
    assert(exact[11] == ConfigureStep::Write(RuleProperty::RemoteMachineAuthorizedList));
    assert(exact[12] == ConfigureStep::Write(RuleProperty::SecureFlags));
}

/// The user scope is confirmed where the descriptor that was read back names the account,
/// whatever stands around it, and refused where it could not be read or is too short.
pub proof fn confirmed_scopes_name_the_account(
    spec: BlockRuleModel,
    read_back: Result<String, String>,
    before: Seq<char>,
    after: Seq<char>,
)
    ensures
        read_back is Err ==> user_scope_failure(spec, read_back) is Some,
        read_back matches Ok(actual) ==> {
            &&& actual@ == before + spec.offline_sid + after ==> user_scope_failure(spec, read_back) is None
            &&& actual@.len() < spec.offline_sid.len() ==> user_scope_failure(spec, read_back) is Some
            &&& user_scope_failure(spec, read_back) is None ==> exists|place: int|
                #![trigger actual@.skip(place)]
                0 <= place <= actual@.len() && spec.offline_sid.is_prefix_of(actual@.skip(place))
        },
        user_scope_failure(spec, read_back) matches Some(failure) ==> failure.code
            == SetupErrorCode::HelperFirewallRuleVerifyFailed,
{
    if read_back is Ok {
        let actual = read_back->Ok_0@;
        if actual == before + spec.offline_sid + after {
            assert(actual.subrange(before.len() as int, (before.len() + spec.offline_sid.len()) as int)
                =~= spec.offline_sid);
            assert(stands_at(actual, spec.offline_sid, before.len() as int));
        }
        if holds_part(actual, spec.offline_sid) {
            let place = choose|place: int| stands_at(actual, spec.offline_sid, place);
            let rest = actual.skip(place);
            assert(rest.subrange(0, spec.offline_sid.len() as int) =~= actual.subrange(
                place,
                place + spec.offline_sid.len(),
            ));
            assert(spec.offline_sid.is_prefix_of(rest));
        }
    }
}

/// A rule that is there is brought into line in place; only one that is missing is
/// created, named and added, in that order.
pub proof fn only_missing_rules_are_added(spec: BlockRuleModel, operation: RuleOperation)
    ensures
        rule_steps(spec, true).contains(RuleStep::Perform(operation)) <==> operation is CastExisting,
        rule_steps(spec, false).contains(RuleStep::Perform(operation)) <==> !(operation is CastExisting),
        rule_steps(spec, true)[0] == RuleStep::Perform(RuleOperation::CastExisting),
        rule_steps(spec, false)[0] == RuleStep::Perform(RuleOperation::Create),
        rule_steps(spec, false)[1] == RuleStep::Perform(RuleOperation::SetName),
        rule_steps(spec, true).last() is Log,
        rule_steps(spec, false).last() is Log,
{
    let configure = configuring(configure_steps(spec));
    let found = rule_steps(spec, true);
    let missing = rule_steps(spec, false);
    let count = configure.len();
    assert forall|index: int| 0 <= index < count implies (#[trigger] configure[index]) is Configure by {}
    assert forall|index: int| 0 <= index < found.len() implies ((#[trigger] found[index]) is Perform <==> index == 0) by {
        if 1 <= index <= count {
            assert(found[index] == configure[index - 1]);
        }
    }
    assert forall|index: int| 0 <= index < missing.len() implies ((#[trigger] missing[index]) is Perform <==> index < 2
        || index == 2 + count) by {
        if 2 <= index < 2 + count {
            assert(missing[index] == configure[index - 2]);
        } else if 3 + count <= index < 3 + 2 * count {
            assert(missing[index] == configure[index - 3 - count]);
        }
    }
    assert(found[0] == RuleStep::Perform(RuleOperation::CastExisting));
    assert(missing[0] == RuleStep::Perform(RuleOperation::Create));
    assert(missing[1] == RuleStep::Perform(RuleOperation::SetName));
    assert(missing[2 + count as int] == RuleStep::Perform(RuleOperation::Add));
}

/// A removal fails only where the host refused it, and is reported only where there was a
/// rule.
pub proof fn removals_report_what_was_removed(internal_name: Seq<char>, removed: Option<Result<(), String>>)
    ensures
        removal_outcome(internal_name, removed) is Err <==> removed matches Some(Err(_)),
        removal_outcome(internal_name, removed) matches Ok(line) ==> (line is Some <==> removed is Some),
        removal_outcome(internal_name, removed) matches Ok(Some(line)) ==> internal_name.is_suffix_of(line),
{
    let line = "firewall rule removed name="@ + internal_name;
    assert(line.subrange(line.len() - internal_name.len(), line.len() as int) =~= internal_name);
}

/// A failure of writing, creating or adding a rule is reported as such, with the host's own
/// error at its end.
pub proof fn rule_failures_are_reported_as_such(property: Seq<char>, operation: RuleOperation, error: Seq<char>)
    ensures
        configuration_failure(property, error).code == SetupErrorCode::HelperFirewallRuleCreateOrAddFailed,
        operation_failure(operation, error).code == SetupErrorCode::HelperFirewallRuleCreateOrAddFailed,
        error.is_suffix_of(configuration_failure(property, error).message),
        error.is_suffix_of(operation_failure(operation, error).message),
{
    let written = configuration_failure(property, error).message;
    let performed = operation_failure(operation, error).message;
    assert(written.subrange(written.len() - error.len(), written.len() as int) =~= error);
    assert(performed.subrange(performed.len() - error.len(), performed.len() as int) =~= error);
}

} // verus!
