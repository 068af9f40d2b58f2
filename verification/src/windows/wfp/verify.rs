//! Verifying every authority-bearing field of the installed filters.

use crate::text::{concat2, concat3, concat4, decimal_string, padded_upper_hex_string};
use crate::windows::failure::{Failure, FailureModel};
use crate::windows::namespace::WindowsSandboxPolicyNamespace;
use crate::windows::product::Guid;
use crate::windows::wfp::filter_specs::{filter_specs, ConditionSpec, FilterSpec, WfpLayer};
use vstd::prelude::*;
use vstd::string::*;

verus! {

/// The flag of an object that survives a restart, for providers, sublayers, and filters.
pub const FWPM_FLAG_PERSISTENT: u32 = 1;

/// The sublayer's weight.
pub const SUBLAYER_WEIGHT: u16 = 0x8000;

/// The provider's stable identity. A new one would orphan the installed objects.
pub open spec fn provider_identity() -> Guid {
    Guid { data1: 0x2e31d31c, data2: 0x3948, data3: 0x4753, data4: 0x9117_e5d1a6496f41 }
}

/// The sublayer's stable identity.
pub open spec fn sublayer_identity() -> Guid {
    Guid { data1: 0xe65054fd, data2: 0x4d32, data3: 0x4c7c, data4: 0x95ef_621f0cf6431a }
}

/// The provider's stable identity.
pub fn provider_key() -> (result: Guid)
    ensures
        result == provider_identity(),
{
    Guid { data1: 0x2e31d31c, data2: 0x3948, data3: 0x4753, data4: 0x9117_e5d1a6496f41 }
}

/// The sublayer's stable identity.
pub fn sublayer_key() -> (result: Guid)
    ensures
        result == sublayer_identity(),
{
    Guid { data1: 0xe65054fd, data2: 0x4d32, data3: 0x4c7c, data4: 0x95ef_621f0cf6431a }
}

/// An error code in diagnostics.
pub open spec fn error_code_text(result: u32) -> Seq<char> {
    "0x"@ + crate::text::padded_upper_hex(result as nat, 8)
}

/// An error code in diagnostics.
pub fn format_error_code(result: u32) -> (text: String)
    ensures
        text@ == error_code_text(result),
{
    let digits = padded_upper_hex_string(result);
    concat2("0x", digits.as_str())
}

/// The failure of an operation, unless its result is a success or an accepted code.
pub open spec fn operation_failure(result: u32, operation: Seq<char>, accepted: Seq<u32>) -> Option<FailureModel> {
    if result == 0 || accepted.contains(result) {
        None
    } else {
        Some(FailureModel::plain(operation + " failed: "@ + error_code_text(result)))
    }
}

/// Checks that an operation succeeded.
pub fn ensure_success(result: u32, operation: &str) -> (outcome: Result<(), Failure>)
    ensures
        match operation_failure(result, operation@, Seq::empty()) {
            Some(expected) => outcome matches Err(failure) && failure@ == expected,
            None => outcome is Ok,
        },
{
    let accepted: Vec<u32> = Vec::new();
    ensure_success_or(result, operation, &accepted)
}

/// Checks that an operation succeeded or gave an accepted code.
pub fn ensure_success_or(result: u32, operation: &str, accepted: &Vec<u32>) -> (outcome: Result<(), Failure>)
    ensures
        match operation_failure(result, operation@, accepted@) {
            Some(expected) => outcome matches Err(failure) && failure@ == expected,
            None => outcome is Ok,
        },
{
    if result == 0 {
        return Ok(());
    }
    for index in 0..accepted.len()
        invariant
            result != 0,
            forall|i: int| 0 <= i < index ==> accepted@[i] != result,
    {
        if accepted[index] == result {
            assert(accepted@[index as int] == result);
            return Ok(());
        }
    }
    let code = format_error_code(result);
    let message = concat3(operation, " failed: ", code.as_str());
    Err(Failure::new(message.as_str()))
}

/// Whether an object is what the lookup of one with this result code gives.
pub open spec fn is_retrieved<T>(
    result: u32,
    operation: Seq<char>,
    kind: Seq<char>,
    object: Option<T>,
    retrieved: Result<T, Failure>,
) -> bool {
    match operation_failure(result, operation, Seq::empty()) {
        Some(expected) => retrieved matches Err(failure) && failure@ == expected,
        None => match object {
            Some(object) => retrieved == Ok::<T, Failure>(object),
            None => retrieved matches Err(failure) && failure@ == FailureModel::plain(
                operation + " returned a null "@ + kind,
            ),
        },
    }
}

/// The object that a lookup gave.
pub fn retrieve<T>(result: u32, operation: &str, kind: &str, object: Option<T>) -> (retrieved: Result<T, Failure>)
    ensures
        is_retrieved(result, operation@, kind@, object, retrieved),
{
    ensure_success(result, operation)?;
    match object {
        Some(object) => Ok(object),
        None => {
            let message = concat3(operation, " returned a null ", kind);
            Err(Failure::new(message.as_str()))
        },
    }
}

/// An installed provider.
#[derive(Clone, Copy, Debug, PartialEq, Eq, Structural)]
pub struct ProviderRecord {
    pub key: Guid,
    pub flags: u32,
    pub provider_data_size: u32,
    pub has_service: bool,
}

/// The failure of a provider, if it is not the one that was installed.
pub open spec fn provider_failure(provider: ProviderRecord) -> Option<FailureModel> {
    if provider.key != provider_identity() {
        Some(FailureModel::plain("WFP provider has an incompatible key"@))
    } else if provider.flags != FWPM_FLAG_PERSISTENT {
        Some(
            FailureModel::plain(
                "WFP provider has incompatible flags "@ + error_code_text(provider.flags)
                    + "; expected persistent-only flags "@ + error_code_text(FWPM_FLAG_PERSISTENT),
            ),
        )
    } else if provider.provider_data_size != 0 {
        Some(FailureModel::plain("WFP provider has incompatible provider data"@))
    } else if provider.has_service {
        Some(FailureModel::plain("WFP provider is unexpectedly associated with a Windows service"@))
    } else {
        None
    }
}

/// The failure of the provider's lookup or of what it gave.
pub open spec fn provider_check(provider: Result<ProviderRecord, Failure>) -> Option<FailureModel> {
    match provider {
        Err(failure) => Some(FailureModel::plain("WFP provider is unavailable: "@ + failure@.message)),
        Ok(provider) => provider_failure(provider),
    }
}

/// Checks the installed provider.
pub fn verify_provider(provider: &Result<ProviderRecord, Failure>) -> (result: Result<(), Failure>)
    ensures
        match provider_check(*provider) {
            Some(expected) => result matches Err(failure) && failure@ == expected,
            None => result is Ok,
        },
{
    let provider = match provider {
        Ok(provider) => *provider,
        Err(failure) => {
            let message = concat2("WFP provider is unavailable: ", failure.message.as_str());
            return Err(Failure::new(message.as_str()));
        },
    };
    if provider.key != provider_key() {
        return Err(Failure::new("WFP provider has an incompatible key"));
    }
    if provider.flags != FWPM_FLAG_PERSISTENT {
        let flags = format_error_code(provider.flags);
        let expected = format_error_code(FWPM_FLAG_PERSISTENT);
        let message = concat4(
            "WFP provider has incompatible flags ",
            flags.as_str(),
            "; expected persistent-only flags ",
            expected.as_str(),
        );
        return Err(Failure::new(message.as_str()));
    }
    if provider.provider_data_size != 0 {
        return Err(Failure::new("WFP provider has incompatible provider data"));
    }
    if provider.has_service {
        return Err(Failure::new("WFP provider is unexpectedly associated with a Windows service"));
    }
    Ok(())
}

/// An installed sublayer.
#[derive(Clone, Copy, Debug, PartialEq, Eq, Structural)]
pub struct SublayerRecord {
    pub key: Guid,
    pub flags: u32,
    pub provider: Option<Guid>,
    pub provider_data_size: u32,
    pub weight: u16,
}

/// A weight in diagnostics.
pub open spec fn weight_text(weight: u16) -> Seq<char> {
    "0x"@ + crate::text::padded_upper_hex(weight as nat, 4)
}

/// The failure of a sublayer, if it is not the one that was installed.
pub open spec fn sublayer_failure(sublayer: SublayerRecord) -> Option<FailureModel> {
    if sublayer.key != sublayer_identity() {
        Some(FailureModel::plain("WFP sublayer has an incompatible key"@))
    } else if sublayer.flags != FWPM_FLAG_PERSISTENT {
        Some(
            FailureModel::plain(
                "WFP sublayer has incompatible flags "@ + error_code_text(sublayer.flags)
                    + "; expected persistent-only flags "@ + error_code_text(FWPM_FLAG_PERSISTENT),
            ),
        )
    } else if sublayer.provider != Some(provider_identity()) {
        Some(FailureModel::plain("WFP sublayer is associated with an incompatible provider"@))
    } else if sublayer.provider_data_size != 0 {
        Some(FailureModel::plain("WFP sublayer has incompatible provider data"@))
    } else if sublayer.weight != SUBLAYER_WEIGHT {
        Some(
            FailureModel::plain(
                "WFP sublayer has incompatible weight "@ + weight_text(sublayer.weight) + "; expected "@
                    + weight_text(SUBLAYER_WEIGHT),
            ),
        )
    } else {
        None
    }
}

/// The failure of the sublayer's lookup or of what it gave.
pub open spec fn sublayer_check(sublayer: Result<SublayerRecord, Failure>) -> Option<FailureModel> {
    match sublayer {
        Err(failure) => Some(FailureModel::plain("WFP sublayer is unavailable: "@ + failure@.message)),
        Ok(sublayer) => sublayer_failure(sublayer),
    }
}

fn format_weight(weight: u16) -> (result: String)
    ensures
        result@ == weight_text(weight),
{
    let digits = crate::text::padded_upper_hex_string16(weight);
    concat2("0x", digits.as_str())
}

/// Whether an optional identity is the provider's.
fn is_our_provider(provider: Option<Guid>) -> (result: bool)
    ensures
        result == (provider == Some(provider_identity())),
{
    match provider {
        Some(key) => key == provider_key(),
        None => false,
    }
}

/// Checks the installed sublayer.
pub fn verify_sublayer(sublayer: &Result<SublayerRecord, Failure>) -> (result: Result<(), Failure>)
    ensures
        match sublayer_check(*sublayer) {
            Some(expected) => result matches Err(failure) && failure@ == expected,
            None => result is Ok,
        },
{
    let sublayer = match sublayer {
        Ok(sublayer) => *sublayer,
        Err(failure) => {
            let message = concat2("WFP sublayer is unavailable: ", failure.message.as_str());
            return Err(Failure::new(message.as_str()));
        },
    };
    if sublayer.key != sublayer_key() {
        return Err(Failure::new("WFP sublayer has an incompatible key"));
    }
    if sublayer.flags != FWPM_FLAG_PERSISTENT {
        let flags = format_error_code(sublayer.flags);
        let expected = format_error_code(FWPM_FLAG_PERSISTENT);
        let message = concat4(
            "WFP sublayer has incompatible flags ",
            flags.as_str(),
            "; expected persistent-only flags ",
            expected.as_str(),
        );
        return Err(Failure::new(message.as_str()));
    }
    if !is_our_provider(sublayer.provider) {
        return Err(Failure::new("WFP sublayer is associated with an incompatible provider"));
    }
    if sublayer.provider_data_size != 0 {
        return Err(Failure::new("WFP sublayer has incompatible provider data"));
    }
    if sublayer.weight != SUBLAYER_WEIGHT {
        let weight = format_weight(sublayer.weight);
        let expected = format_weight(SUBLAYER_WEIGHT);
        let message = concat4(
            "WFP sublayer has incompatible weight ",
            weight.as_str(),
            "; expected ",
            expected.as_str(),
        );
        return Err(Failure::new(message.as_str()));
    }
    Ok(())
}

/// The field that a condition looks at.
#[derive(Clone, Copy, Debug, PartialEq, Eq, Structural)]
pub enum ConditionField {
    AleUserId,
    IpProtocol,
    IpRemotePort,
    Other,
}

/// A security descriptor as the host holds it.
pub enum SecurityDescriptor {
    /// There is no descriptor.
    Null,
    /// A descriptor of some size has no data.
    NullData,
    Bytes(Vec<u8>),
}

/// The value that a condition compares with.
pub enum ConditionValue {
    SecurityDescriptor(SecurityDescriptor),
    Uint8(u8),
    Uint16(u16),
    Other,
}

/// One condition of an installed filter.
pub struct ConditionRecord {
    /// Whether the condition matches exact equality.
    pub match_equal: bool,
    pub field: ConditionField,
    pub value: ConditionValue,
}

/// An installed filter.
pub struct FilterRecord {
    pub key: Guid,
    pub provider: Option<Guid>,
    /// The layer, when it is one that filters are installed in.
    pub layer: Option<WfpLayer>,
    pub sublayer: Guid,
    pub flags: u32,
    /// Whether the filter's action is to block.
    pub blocks: bool,
    /// Whether the filter leaves its weight to the host.
    pub weight_empty: bool,
    /// The number of conditions that the filter claims to have.
    pub condition_count: u32,
    /// The conditions, unless there is no array of them.
    pub conditions: Option<Vec<ConditionRecord>>,
}

impl FilterRecord {
    /// The array holds as many conditions as the filter claims.
    pub open spec fn well_formed(self) -> bool {
        self.conditions matches Some(conditions) ==> conditions@.len() == self.condition_count
    }
}

/// The bytes of a descriptor, or what is wrong with it.
pub open spec fn descriptor_bytes(descriptor: SecurityDescriptor) -> Result<Seq<u8>, Seq<char>> {
    match descriptor {
        SecurityDescriptor::Null => Err("filter security descriptor is null"@),
        SecurityDescriptor::NullData => Err("filter security descriptor data is null"@),
        SecurityDescriptor::Bytes(bytes) => Ok(bytes@),
    }
}

/// The bytes of a descriptor.
pub fn security_descriptor_bytes(descriptor: &SecurityDescriptor) -> (result: Result<&Vec<u8>, Failure>)
    ensures
        match descriptor_bytes(*descriptor) {
            Ok(expected) => result matches Ok(bytes) && bytes@ == expected,
            Err(expected) => result matches Err(failure) && failure@ == FailureModel::plain(expected),
        },
{
    match descriptor {
        SecurityDescriptor::Null => Err(Failure::new("filter security descriptor is null")),
        SecurityDescriptor::NullData => Err(Failure::new("filter security descriptor data is null")),
        SecurityDescriptor::Bytes(bytes) => Ok(bytes),
    }
}

/// What is wrong with one condition, if anything is.
pub open spec fn condition_failure(
    actual: ConditionRecord,
    expected: ConditionSpec,
    user: SecurityDescriptor,
) -> Option<Seq<char>> {
    if !actual.match_equal {
        Some("filter condition does not use exact matching"@)
    } else {
        match expected {
            ConditionSpec::User => if actual.field != ConditionField::AleUserId
                || !(actual.value is SecurityDescriptor) {
                Some("filter user condition has an incompatible shape"@)
            } else {
                match (descriptor_bytes(actual.value->SecurityDescriptor_0), descriptor_bytes(user)) {
                    (Err(message), _) => Some(message),
                    (_, Err(message)) => Some(message),
                    (Ok(actual_bytes), Ok(user_bytes)) => if actual_bytes != user_bytes {
                        Some("filter user condition targets a different identity"@)
                    } else {
                        None
                    },
                }
            },
            ConditionSpec::Protocol(protocol) => if actual.field != ConditionField::IpProtocol || actual.value
                != ConditionValue::Uint8(protocol) {
                Some("filter protocol condition differs from the requested policy"@)
            } else {
                None
            },
            ConditionSpec::RemotePort(port) => if actual.field != ConditionField::IpRemotePort || actual.value
                != ConditionValue::Uint16(port) {
                Some("filter port condition differs from the requested policy"@)
            } else {
                None
            },
        }
    }
}

/// Whether the condition at `index` is the first one that is wrong.
pub open spec fn first_bad_condition(
    actual: Seq<ConditionRecord>,
    expected: Seq<ConditionSpec>,
    user: SecurityDescriptor,
    index: int,
) -> bool {
    &&& 0 <= index < expected.len()
    &&& condition_failure(actual[index], expected[index], user) is Some
    &&& forall|earlier: int|
        0 <= earlier < index ==> condition_failure(#[trigger] actual[earlier], expected[earlier], user) is None
}

/// What is wrong with a filter's conditions, if anything is.
pub open spec fn conditions_failure(
    filter: FilterRecord,
    expected: Seq<ConditionSpec>,
    user: SecurityDescriptor,
) -> Option<Seq<char>> {
    if filter.condition_count != expected.len() {
        Some(
            "expected "@ + crate::text::decimal(expected.len()) + " conditions, found "@ + crate::text::decimal(
                filter.condition_count as nat,
            ),
        )
    } else if filter.condition_count != 0 && filter.conditions is None {
        Some("filter condition array is null"@)
    } else {
        let actual = filter.conditions->Some_0@;
        if exists|index: int| first_bad_condition(actual, expected, user, index) {
            let index = choose|index: int| first_bad_condition(actual, expected, user, index);
            condition_failure(actual[index], expected[index], user)
        } else {
            None
        }
    }
}

fn same_bytes(left: &Vec<u8>, right: &Vec<u8>) -> (result: bool)
    ensures
        result == (left@ == right@),
{
    let result = left == right;
    assert(result ==> left@ =~= right@);
    result
}

fn verify_condition(actual: &ConditionRecord, expected: ConditionSpec, user: &SecurityDescriptor) -> (result: Result<
    (),
    Failure,
>)
    ensures
        match condition_failure(*actual, expected, *user) {
            Some(message) => result matches Err(failure) && failure@ == FailureModel::plain(message),
            None => result is Ok,
        },
{
    if !actual.match_equal {
        return Err(Failure::new("filter condition does not use exact matching"));
    }
    match expected {
        ConditionSpec::User => {
            if actual.field != ConditionField::AleUserId {
                return Err(Failure::new("filter user condition has an incompatible shape"));
            }
            match &actual.value {
                ConditionValue::SecurityDescriptor(descriptor) => {
                    let actual_bytes = security_descriptor_bytes(descriptor)?;
                    let expected_bytes = security_descriptor_bytes(user)?;
                    if !same_bytes(actual_bytes, expected_bytes) {
                        return Err(Failure::new("filter user condition targets a different identity"));
                    }
                    Ok(())
                },
                _ => Err(Failure::new("filter user condition has an incompatible shape")),
            }
        },
        ConditionSpec::Protocol(protocol) => {
            let matching = match &actual.value {
                ConditionValue::Uint8(value) => *value == protocol,
                _ => false,
            };
            if actual.field != ConditionField::IpProtocol || !matching {
                return Err(Failure::new("filter protocol condition differs from the requested policy"));
            }
            Ok(())
        },
        ConditionSpec::RemotePort(port) => {
            let matching = match &actual.value {
                ConditionValue::Uint16(value) => *value == port,
                _ => false,
            };
            if actual.field != ConditionField::IpRemotePort || !matching {
                return Err(Failure::new("filter port condition differs from the requested policy"));
            }
            Ok(())
        },
    }
}

/// Checks the conditions of an installed filter.
pub fn verify_filter_conditions(
    filter: &FilterRecord,
    expected: &Vec<ConditionSpec>,
    user: &SecurityDescriptor,
) -> (result: Result<(), Failure>)
    requires
        filter.well_formed(),
    ensures
        match conditions_failure(*filter, expected@, *user) {
            Some(message) => result matches Err(failure) && failure@ == FailureModel::plain(message),
            None => result is Ok,
        },
{
    if filter.condition_count as u64 != expected.len() as u64 {
        let wanted = decimal_string(expected.len() as u64);
        let found = decimal_string(filter.condition_count as u64);
        let message = concat4("expected ", wanted.as_str(), " conditions, found ", found.as_str());
        return Err(Failure::new(message.as_str()));
    }
    let conditions = match &filter.conditions {
        Some(conditions) => conditions,
        None => {
            if filter.condition_count != 0 {
                return Err(Failure::new("filter condition array is null"));
            }
            return Ok(());
        },
    };
    for index in 0..expected.len()
        invariant
            filter.well_formed(),
            filter.conditions == Some(*conditions),
            filter.condition_count == expected@.len(),
            conditions@.len() == expected@.len(),
            forall|i: int|
                0 <= i < index ==> condition_failure(#[trigger] conditions@[i], expected@[i], *user) is None,
    {
        let outcome = verify_condition(&conditions[index], expected[index], user);
        if outcome.is_err() {
            proof {
                let chosen = choose|i: int| first_bad_condition(conditions@, expected@, *user, i);
                assert(first_bad_condition(conditions@, expected@, *user, index as int));
                assert(first_bad_condition(conditions@, expected@, *user, chosen));
                assert(chosen == index) by {
                    if chosen < index {
                        assert(condition_failure(conditions@[chosen], expected@[chosen], *user) is None);
                    } else if index < chosen {
                        assert(condition_failure(conditions@[index as int], expected@[index as int], *user) is None);
                    }
                }
            }
            return outcome;
        }
    }
    Ok(())
}

/// Whether a filter has the identity, place, and action of the one that was installed.
pub open spec fn has_authority(filter: FilterRecord, spec: FilterSpec, namespace: WindowsSandboxPolicyNamespace) -> bool {
    &&& filter.key == spec.key_in(namespace)
    &&& filter.provider == Some(provider_identity())
    &&& filter.layer == Some(spec.layer)
    &&& filter.sublayer == sublayer_identity()
    &&& filter.flags == FWPM_FLAG_PERSISTENT
    &&& filter.blocks
    &&& filter.weight_empty
}

/// The failure of a filter's lookup or of what it gave.
pub open spec fn filter_check(
    filter: Result<FilterRecord, Failure>,
    spec: FilterSpec,
    namespace: WindowsSandboxPolicyNamespace,
    user: SecurityDescriptor,
) -> Option<FailureModel> {
    let lead = "WFP filter "@ + spec.name_in(namespace);
    match filter {
        Err(failure) => Some(FailureModel::plain(lead + " is unavailable: "@ + failure@.message)),
        Ok(filter) => if !has_authority(filter, spec, namespace) {
            Some(FailureModel::plain(lead + " has incompatible authority fields"@))
        } else {
            match conditions_failure(filter, spec.all_conditions(), user) {
                Some(message) => Some(FailureModel::plain(lead + " is incompatible: "@ + message)),
                None => None,
            }
        },
    }
}

/// Checks one installed filter.
pub fn verify_filter(
    filter: &Result<FilterRecord, Failure>,
    spec: FilterSpec,
    namespace: WindowsSandboxPolicyNamespace,
    user: &SecurityDescriptor,
) -> (result: Result<(), Failure>)
    requires
        *filter matches Ok(record) ==> record.well_formed(),
    ensures
        match filter_check(*filter, spec, namespace, *user) {
            Some(expected) => result matches Err(failure) && failure@ == expected,
            None => result is Ok,
        },
{
    let lead = concat2("WFP filter ", spec.name(namespace));
    let filter = match filter {
        Ok(filter) => filter,
        Err(failure) => {
            let message = concat3(lead.as_str(), " is unavailable: ", failure.message.as_str());
            return Err(Failure::new(message.as_str()));
        },
    };
    let in_layer = match filter.layer {
        Some(layer) => layer == spec.layer,
        None => false,
    };
    if filter.key != spec.key(namespace) || !is_our_provider(filter.provider) || !in_layer || filter.sublayer
        != sublayer_key() || filter.flags != FWPM_FLAG_PERSISTENT || !filter.blocks || !filter.weight_empty {
        let message = concat2(lead.as_str(), " has incompatible authority fields");
        return Err(Failure::new(message.as_str()));
    }
    match verify_filter_conditions(filter, &spec.conditions(), user) {
        Ok(()) => Ok(()),
        Err(failure) => {
            let message = concat3(lead.as_str(), " is incompatible: ", failure.message.as_str());
            Err(Failure::new(message.as_str()))
        },
    }
}

/// What a verification looks at.
pub struct InstalledObjects {
    pub provider: Result<ProviderRecord, Failure>,
    pub sublayer: Result<SublayerRecord, Failure>,
    /// The descriptor that stands for the confined account.
    pub user: Result<SecurityDescriptor, Failure>,
    /// The lookup of every filter, in the order of the table.
    pub filters: Vec<Result<FilterRecord, Failure>>,
}

impl InstalledObjects {
    /// There is one lookup for every filter, and each record is whole.
    pub open spec fn well_formed(self) -> bool {
        &&& self.filters@.len() == crate::windows::wfp::filter_specs::filter_table().len()
        &&& forall|index: int|
            0 <= index < self.filters@.len() ==> ((#[trigger] self.filters@[index]) matches Ok(record)
                ==> record.well_formed())
    }
}

/// Whether the filter at `index` is the first one that fails.
pub open spec fn first_bad_filter(
    filters: Seq<Result<FilterRecord, Failure>>,
    namespace: WindowsSandboxPolicyNamespace,
    user: SecurityDescriptor,
    index: int,
) -> bool {
    let table = crate::windows::wfp::filter_specs::filter_table();
    &&& 0 <= index < table.len()
    &&& filter_check(filters[index], table[index], namespace, user) is Some
    &&& forall|earlier: int|
        0 <= earlier < index ==> filter_check(#[trigger] filters[earlier], table[earlier], namespace, user) is None
}

/// The first failure of a verification, if there is one.
pub open spec fn verification_failure(
    objects: InstalledObjects,
    namespace: WindowsSandboxPolicyNamespace,
) -> Option<FailureModel> {
    if let Some(failure) = provider_check(objects.provider) {
        Some(failure)
    } else if let Some(failure) = sublayer_check(objects.sublayer) {
        Some(failure)
    } else {
        match objects.user {
            Err(failure) => Some(failure@),
            Ok(user) => if exists|index: int| first_bad_filter(objects.filters@, namespace, user, index) {
                let index = choose|index: int| first_bad_filter(objects.filters@, namespace, user, index);
                filter_check(
                    objects.filters@[index],
                    crate::windows::wfp::filter_specs::filter_table()[index],
                    namespace,
                    user,
                )
            } else {
                None
            },
        }
    }
}

/// Verifies every authority-bearing field of the persistent filters for one closed
/// Windows sandbox policy namespace.
pub fn verify_wfp_filters_for_account_in_namespace(
    objects: &InstalledObjects,
    namespace: WindowsSandboxPolicyNamespace,
) -> (result: Result<(), Failure>)
    requires
        objects.well_formed(),
    ensures
        match verification_failure(*objects, namespace) {
            Some(expected) => result matches Err(failure) && failure@ == expected,
            None => result is Ok,
        },
{
    verify_provider(&objects.provider)?;
    verify_sublayer(&objects.sublayer)?;
    let user = match &objects.user {
        Ok(user) => user,
        Err(failure) => {
            return Err(failure.clone());
        },
    };
    let specs = filter_specs();
    let ghost table = crate::windows::wfp::filter_specs::filter_table();
    for index in 0..specs.len()
        invariant
            objects.well_formed(),
            specs@ == table,
            table == crate::windows::wfp::filter_specs::filter_table(),
            objects.user matches Ok(found) && found == *user,
            provider_check(objects.provider) is None,
            sublayer_check(objects.sublayer) is None,
            forall|i: int|
                0 <= i < index ==> filter_check(#[trigger] objects.filters@[i], table[i], namespace, *user) is None,
    {
        let outcome = verify_filter(&objects.filters[index], specs[index], namespace, user);
        if outcome.is_err() {
            proof {
                let filters = objects.filters@;
                let chosen = choose|i: int| first_bad_filter(filters, namespace, *user, i);
                assert(first_bad_filter(filters, namespace, *user, index as int));
                assert(first_bad_filter(filters, namespace, *user, chosen));
                assert(chosen == index) by {
                    if chosen < index {
                        assert(filter_check(filters[chosen], table[chosen], namespace, *user) is None);
                    } else if index < chosen {
                        assert(filter_check(filters[index as int], table[index as int], namespace, *user) is None);
                    }
                }
            }
            return outcome;
        }
    }
    proof {
        assert forall|i: int| !first_bad_filter(objects.filters@, namespace, *user, i) by {
            if 0 <= i < table.len() {
                assert(filter_check(objects.filters@[i], table[i], namespace, *user) is None);
            }
        }
    }
    Ok(())
}

/// Verification succeeds only if every filter blocks, under our provider and sublayer,
/// the traffic of exactly the confined account.
pub proof fn verified_filters_confine_the_account(
    objects: InstalledObjects,
    namespace: WindowsSandboxPolicyNamespace,
    index: int,
)
    requires
        objects.well_formed(),
        verification_failure(objects, namespace) is None,
        0 <= index < crate::windows::wfp::filter_specs::filter_table().len(),
    ensures
        objects.user is Ok,
        objects.filters@[index] is Ok,
        has_authority(
            objects.filters@[index]->Ok_0,
            crate::windows::wfp::filter_specs::filter_table()[index],
            namespace,
        ),
        conditions_failure(
            objects.filters@[index]->Ok_0,
            crate::windows::wfp::filter_specs::filter_table()[index].all_conditions(),
            objects.user->Ok_0,
        ) is None,
{
    let table = crate::windows::wfp::filter_specs::filter_table();
    let user = objects.user->Ok_0;
    lemma_no_bad_filter(objects.filters@, namespace, user, index);
}

proof fn lemma_no_bad_filter(
    filters: Seq<Result<FilterRecord, Failure>>,
    namespace: WindowsSandboxPolicyNamespace,
    user: SecurityDescriptor,
    index: int,
)
    requires
        0 <= index < crate::windows::wfp::filter_specs::filter_table().len(),
        forall|i: int| !first_bad_filter(filters, namespace, user, i),
    ensures
        filter_check(
            filters[index],
            crate::windows::wfp::filter_specs::filter_table()[index],
            namespace,
            user,
        ) is None,
    decreases index,
{
    let table = crate::windows::wfp::filter_specs::filter_table();
    assert forall|earlier: int| 0 <= earlier < index implies filter_check(
        #[trigger] filters[earlier],
        table[earlier],
        namespace,
        user,
    ) is None by {
        lemma_no_bad_filter(filters, namespace, user, earlier);
    }
    assert(!first_bad_filter(filters, namespace, user, index));
}

/// Whether a condition is the one that was asked for.
pub open spec fn is_condition_of(actual: ConditionRecord, expected: ConditionSpec, user: SecurityDescriptor) -> bool {
    &&& actual.match_equal
    &&& match expected {
        ConditionSpec::User => actual.field == ConditionField::AleUserId && (actual.value matches
            ConditionValue::SecurityDescriptor(descriptor) && descriptor is Bytes && descriptor_bytes(descriptor)
            == descriptor_bytes(user)),
        ConditionSpec::Protocol(protocol) => actual.field == ConditionField::IpProtocol && actual.value
            == ConditionValue::Uint8(protocol),
        ConditionSpec::RemotePort(port) => actual.field == ConditionField::IpRemotePort && actual.value
            == ConditionValue::Uint16(port),
    }
}

/// Whether a record is that of a filter as it was added.
pub open spec fn is_record_of(
    record: FilterRecord,
    spec: FilterSpec,
    namespace: WindowsSandboxPolicyNamespace,
    user: SecurityDescriptor,
) -> bool {
    &&& has_authority(record, spec, namespace)
    &&& record.condition_count == spec.all_conditions().len()
    &&& record.conditions matches Some(conditions) && conditions@.len() == spec.all_conditions().len()
        && forall|index: int|
        0 <= index < conditions@.len() ==> is_condition_of(
            #[trigger] conditions@[index],
            spec.all_conditions()[index],
            user,
        )
}

pub(crate) proof fn lemma_records_pass(
    record: FilterRecord,
    spec: FilterSpec,
    namespace: WindowsSandboxPolicyNamespace,
    user: SecurityDescriptor,
)
    requires
        is_record_of(record, spec, namespace, user),
        user is Bytes,
    ensures
        filter_check(Ok(record), spec, namespace, user) is None,
{
    let actual = record.conditions->Some_0@;
    let expected = spec.all_conditions();
    assert forall|index: int| !first_bad_condition(actual, expected, user, index) by {
        if 0 <= index < expected.len() {
            assert(is_condition_of(actual[index], expected[index], user));
        }
    }
}

pub(crate) proof fn lemma_verification(objects: InstalledObjects, namespace: WindowsSandboxPolicyNamespace)
    requires
        objects.well_formed(),
        provider_check(objects.provider) is None,
        sublayer_check(objects.sublayer) is None,
        objects.user is Ok,
    ensures
        verification_failure(objects, namespace) is None <==> (forall|index: int|
            #![trigger objects.filters@[index]]
            0 <= index < crate::windows::wfp::filter_specs::filter_table().len() ==> filter_check(
                objects.filters@[index],
                crate::windows::wfp::filter_specs::filter_table()[index],
                namespace,
                objects.user->Ok_0,
            ) is None),
        forall|index: int| #[trigger]
            first_bad_filter(objects.filters@, namespace, objects.user->Ok_0, index) ==> verification_failure(
                objects,
                namespace,
            ) == filter_check(
                objects.filters@[index],
                crate::windows::wfp::filter_specs::filter_table()[index],
                namespace,
                objects.user->Ok_0,
            ),
{
    let table = crate::windows::wfp::filter_specs::filter_table();
    let user = objects.user->Ok_0;
    let filters = objects.filters@;
    if verification_failure(objects, namespace) is None {
        assert forall|index: int| #![trigger objects.filters@[index]] 0 <= index < table.len() implies filter_check(
            filters[index],
            table[index],
            namespace,
            user,
        ) is None by {
            lemma_no_bad_filter(filters, namespace, user, index);
        }
    }
    assert forall|index: int| #[trigger] first_bad_filter(filters, namespace, user, index) implies verification_failure(
        objects,
        namespace,
    ) == filter_check(filters[index], table[index], namespace, user) by {
        let chosen = choose|i: int| first_bad_filter(filters, namespace, user, i);
        assert(first_bad_filter(filters, namespace, user, chosen));
        if chosen < index {
            assert(filter_check(filters[chosen], table[chosen], namespace, user) is None);
        } else if index < chosen {
            assert(filter_check(filters[index], table[index], namespace, user) is None);
        }
    }
}

/// An operation passes exactly where it succeeded or gave a code that it accepts.
pub proof fn operations_pass_on_success_alone(result: u32, operation: Seq<char>, accepted: Seq<u32>)
    ensures
        operation_failure(result, operation, Seq::empty()) is None <==> result == 0,
        operation_failure(result, operation, accepted) is None <==> result == 0 || (exists|index: int|
            0 <= index < accepted.len() && #[trigger] accepted[index] == result),
{
}

/// The provider and the sublayer pass exactly where they are the persistent objects that
/// this library installs, with nothing attached.
pub proof fn containers_pass_only_as_installed(
    provider: Result<ProviderRecord, Failure>,
    sublayer: Result<SublayerRecord, Failure>,
)
    ensures
        provider_check(provider) is None <==> (provider matches Ok(record) && {
            &&& record.key.data1 == 0x2e31d31c && record.key.data2 == 0x3948
            &&& record.key.data3 == 0x4753 && record.key.data4 == 0x9117_e5d1a6496f41
            &&& record.flags == 1
            &&& record.provider_data_size == 0
            &&& !record.has_service
        }),
        sublayer_check(sublayer) is None <==> (sublayer matches Ok(record) && {
            &&& record.key.data1 == 0xe65054fd && record.key.data2 == 0x4d32
            &&& record.key.data3 == 0x4c7c && record.key.data4 == 0x95ef_621f0cf6431a
            &&& record.flags == 1
            &&& record.provider matches Some(owner) && owner.data1 == 0x2e31d31c && owner.data2 == 0x3948
                && owner.data3 == 0x4753 && owner.data4 == 0x9117_e5d1a6496f41
            &&& record.provider_data_size == 0
            &&& record.weight == 0x8000
        }),
{
}

/// Whether a value is the descriptor of the confined account.
pub open spec fn is_descriptor_of(value: ConditionValue, user: SecurityDescriptor) -> bool {
    value matches ConditionValue::SecurityDescriptor(SecurityDescriptor::Bytes(actual)) && (user matches
        SecurityDescriptor::Bytes(expected) && actual@ == expected@)
}

/// A filter passes only as a persistent block under this library's provider and sublayer,
/// with exactly two conditions: the confined account and the filter's own traffic.
pub proof fn accepted_filters_block_their_traffic(
    filter: Result<FilterRecord, Failure>,
    spec: FilterSpec,
    namespace: WindowsSandboxPolicyNamespace,
    user: SecurityDescriptor,
)
    requires
        filter matches Ok(record) ==> record.well_formed(),
        filter_check(filter, spec, namespace, user) is None,
    ensures
        filter matches Ok(record) && {
            &&& record.blocks
            &&& record.flags == 1
            &&& record.weight_empty
            &&& record.layer == Some(spec.layer)
            &&& record.provider == Some(provider_identity())
            &&& record.sublayer == sublayer_identity()
            &&& namespace is Codex ==> record.key == spec.codex_key
            &&& namespace is McpConsole ==> record.key == spec.mcp_console_key
            &&& record.conditions matches Some(conditions) && conditions@.len() == 2 && {
                &&& conditions@[0].match_equal
                &&& conditions@[0].field is AleUserId
                &&& is_descriptor_of(conditions@[0].value, user)
                &&& conditions@[1].match_equal
                &&& match spec.traffic {
                    ConditionSpec::User => is_descriptor_of(conditions@[1].value, user),
                    ConditionSpec::Protocol(protocol) => conditions@[1].field is IpProtocol && conditions@[1].value
                        == ConditionValue::Uint8(protocol),
                    ConditionSpec::RemotePort(port) => conditions@[1].field is IpRemotePort && conditions@[1].value
                        == ConditionValue::Uint16(port),
                }
            }
        },
{
    let record = filter->Ok_0;
    let expected = spec.all_conditions();
    let actual = record.conditions->Some_0@;
    if condition_failure(actual[0], expected[0], user) is Some {
        assert(first_bad_condition(actual, expected, user, 0));
        lemma_chosen_condition(actual, expected, user);
    } else if condition_failure(actual[1], expected[1], user) is Some {
        assert(first_bad_condition(actual, expected, user, 1));
        lemma_chosen_condition(actual, expected, user);
    }
}

proof fn lemma_chosen_condition(actual: Seq<ConditionRecord>, expected: Seq<ConditionSpec>, user: SecurityDescriptor)
    requires
        exists|index: int| first_bad_condition(actual, expected, user, index),
    ensures
        ({
            let index = choose|index: int| first_bad_condition(actual, expected, user, index);
            condition_failure(actual[index], expected[index], user) is Some
        }),
{
}

/// A lookup gives what it found, exactly where it succeeded and found something.
pub proof fn lookups_give_what_they_found<T>(
    result: u32,
    operation: Seq<char>,
    kind: Seq<char>,
    object: Option<T>,
    retrieved: Result<T, Failure>,
)
    requires
        is_retrieved(result, operation, kind, object, retrieved),
    ensures
        retrieved is Ok <==> result == 0 && object is Some,
        retrieved matches Ok(found) ==> object == Some(found),
{
}

} // verus!
