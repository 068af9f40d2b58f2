//! Whether firewall rules take effect on the host at all.

use crate::text::{concat2, concat3, concat4, concat5, padded_upper_hex_string, prefixed_hex_string, signed_decimal_string};
use crate::windows::namespace::WindowsSandboxPolicyNamespace;
use crate::windows::setup_failure::{SetupErrorCode, SetupFailure, SetupFailureModel};
use vstd::prelude::*;
use vstd::string::*;

verus! {

/// Result codes of the firewall's interface.
pub const S_OK: i32 = 0;

pub const S_FALSE: i32 = 1;

/// What the firewall answers about local changes of its policy.
pub const NET_FW_MODIFY_STATE_OK: i32 = 0;

pub const NET_FW_MODIFY_STATE_GP_OVERRIDE: i32 = 1;

/// The network profiles of the firewall, one bit each.
pub const NET_FW_PROFILE2_DOMAIN: u32 = 1;

pub const NET_FW_PROFILE2_PRIVATE: u32 = 2;

pub const NET_FW_PROFILE2_PUBLIC: u32 = 4;

pub const KNOWN_PROFILES: u32 = 7;

/// The truth values of the firewall's interface.
pub const VARIANT_TRUE: i32 = -1;

pub const VARIANT_FALSE: i32 = 0;

/// How the firewall's policy was reached for.
#[derive(Clone, Copy, Debug, PartialEq, Eq, Structural)]
pub enum PolicyAccess {
    InitializeCom,
    CreatePolicy,
    ListRules,
}

/// The failure of reaching for the firewall's policy.
pub open spec fn access_failure(access: PolicyAccess, error: Seq<char>) -> SetupFailureModel {
    match access {
        PolicyAccess::InitializeCom => SetupFailureModel::new(
            SetupErrorCode::HelperFirewallComInitFailed,
            "CoInitializeEx failed: "@ + error,
        ),
        PolicyAccess::CreatePolicy => SetupFailureModel::new(
            SetupErrorCode::HelperFirewallPolicyAccessFailed,
            "CoCreateInstance NetFwPolicy2 failed: "@ + error,
        ),
        PolicyAccess::ListRules => SetupFailureModel::new(
            SetupErrorCode::HelperFirewallPolicyAccessFailed,
            "INetFwPolicy2::Rules failed: "@ + error,
        ),
    }
}

/// The failure of reaching for the firewall's policy, with the host's error.
pub fn policy_access_failure(access: PolicyAccess, error: &str) -> (result: SetupFailure)
    ensures
        result@ == access_failure(access, error@),
{
    match access {
        PolicyAccess::InitializeCom => SetupFailure::new(
            SetupErrorCode::HelperFirewallComInitFailed,
            concat2("CoInitializeEx failed: ", error),
        ),
        PolicyAccess::CreatePolicy => SetupFailure::new(
            SetupErrorCode::HelperFirewallPolicyAccessFailed,
            concat2("CoCreateInstance NetFwPolicy2 failed: ", error),
        ),
        PolicyAccess::ListRules => SetupFailure::new(
            SetupErrorCode::HelperFirewallPolicyAccessFailed,
            concat2("INetFwPolicy2::Rules failed: ", error),
        ),
    }
}

/// A result code in diagnostics.
pub open spec fn result_code_text(result: i32) -> Seq<char> {
    "HRESULT(0x"@ + crate::text::padded_upper_hex((result as u32) as nat, 8) + ")"@
}

fn result_code_string(result: i32) -> (text: String)
    ensures
        text@ == result_code_text(result),
{
    let digits = padded_upper_hex_string(result as u32);
    concat3("HRESULT(0x", digits.as_str(), ")")
}

/// Why local rules would not take effect, if they would not.
pub open spec fn modify_state_failure(result: i32, modify_state: i32) -> Option<SetupFailureModel> {
    if result < 0 {
        Some(
            SetupFailureModel::new(
                SetupErrorCode::HelperFirewallPolicyAccessFailed,
                "INetFwPolicy2::LocalPolicyModifyState failed: "@ + result_code_text(result),
            ),
        )
    } else if result != S_OK {
        Some(
            SetupFailureModel::new(
                SetupErrorCode::HelperFirewallPolicyIneffective,
                "local firewall policy modifications do not apply to every current profile: LocalPolicyModifyState result="@
                    + result_code_text(result),
            ),
        )
    } else if modify_state == NET_FW_MODIFY_STATE_OK {
        None
    } else {
        Some(
            SetupFailureModel::new(
                SetupErrorCode::HelperFirewallPolicyIneffective,
                "local firewall policy modifications will not take effect: LocalPolicyModifyState=NET_FW_MODIFY_STATE("@
                    + crate::text::signed_decimal(modify_state as int) + ")"@,
            ),
        )
    }
}

/// Checks what the firewall answered about local changes of its policy.
pub fn validate_local_policy_modify_result(result: i32, modify_state: i32) -> (outcome: Result<(), SetupFailure>)
    ensures
        match modify_state_failure(result, modify_state) {
            Some(expected) => outcome matches Err(failure) && failure@ == expected,
            None => outcome is Ok,
        },
{
    if result < 0 {
        // The query itself failed, so the firewall never gave a policy answer.
        let code = result_code_string(result);
        return Err(
            SetupFailure::new(
                SetupErrorCode::HelperFirewallPolicyAccessFailed,
                concat2("INetFwPolicy2::LocalPolicyModifyState failed: ", code.as_str()),
            ),
        );
    }
    if result != S_OK {
        // The answer only holds for some active profiles, not all of them.
        let code = result_code_string(result);
        return Err(
            SetupFailure::new(
                SetupErrorCode::HelperFirewallPolicyIneffective,
                concat2(
                    "local firewall policy modifications do not apply to every current profile: LocalPolicyModifyState result=",
                    code.as_str(),
                ),
            ),
        );
    }
    if modify_state == NET_FW_MODIFY_STATE_OK {
        return Ok(());
    }
    // The answer is uniform, and says that local rule edits are ineffective.
    let state = signed_decimal_string(modify_state);
    Err(
        SetupFailure::new(
            SetupErrorCode::HelperFirewallPolicyIneffective,
            concat3(
                "local firewall policy modifications will not take effect: LocalPolicyModifyState=NET_FW_MODIFY_STATE(",
                state.as_str(),
                ")",
            ),
        ),
    )
}

/// The failure of an active profile whose firewall is off.
pub open spec fn profile_state_failure(profile: u32, name: Seq<char>, enabled: i32) -> Option<SetupFailureModel> {
    if enabled == VARIANT_TRUE {
        None
    } else {
        Some(
            SetupFailureModel::new(
                SetupErrorCode::HelperFirewallPolicyIneffective,
                "Windows Firewall is disabled for the active "@ + name + " profile ("@ + crate::text::prefixed_hex(
                    profile as nat,
                ) + "); sandbox firewall rules cannot enforce network policy"@,
            ),
        )
    }
}

/// Checks that the firewall is on for an active profile.
pub fn validate_active_profile_firewall_state(profile: u32, name: &str, enabled: i32) -> (outcome: Result<(), SetupFailure>)
    ensures
        match profile_state_failure(profile, name@, enabled) {
            Some(expected) => outcome matches Err(failure) && failure@ == expected,
            None => outcome is Ok,
        },
{
    if enabled == VARIANT_TRUE {
        return Ok(());
    }
    let mask = prefixed_hex_string(profile as u64);
    Err(
        SetupFailure::new(
            SetupErrorCode::HelperFirewallPolicyIneffective,
            concat5(
                "Windows Firewall is disabled for the active ",
                name,
                " profile (",
                mask.as_str(),
                "); sandbox firewall rules cannot enforce network policy",
            ),
        ),
    )
}

/// What the host says of the network profiles: which are active, and for which the
/// firewall is on. A reading that failed is the host's error.
pub struct ProfileReadings {
    pub active_profiles: Result<u32, String>,
    pub domain_enabled: Result<i32, String>,
    pub private_enabled: Result<i32, String>,
    pub public_enabled: Result<i32, String>,
}

/// What is wrong with one profile, if anything is. An inactive one does not matter.
pub open spec fn profile_failure(active: u32, profile: u32, name: Seq<char>, enabled: Result<i32, String>) -> Option<
    SetupFailureModel,
> {
    if active & profile == 0 {
        None
    } else {
        match enabled {
            Err(error) => Some(
                SetupFailureModel::new(
                    SetupErrorCode::HelperFirewallPolicyAccessFailed,
                    "INetFwPolicy2::FirewallEnabled failed for "@ + name + " profile: "@ + error@,
                ),
            ),
            Ok(enabled) => profile_state_failure(profile, name, enabled),
        }
    }
}

/// Why the firewall is not on for every active profile, if it is not.
pub open spec fn profiles_failure(readings: ProfileReadings) -> Option<SetupFailureModel> {
    match readings.active_profiles {
        Err(error) => Some(
            SetupFailureModel::new(
                SetupErrorCode::HelperFirewallPolicyAccessFailed,
                "INetFwPolicy2::CurrentProfileTypes failed: "@ + error@,
            ),
        ),
        Ok(active) => {
            let domain = profile_failure(active, NET_FW_PROFILE2_DOMAIN, "domain"@, readings.domain_enabled);
            let private = profile_failure(active, NET_FW_PROFILE2_PRIVATE, "private"@, readings.private_enabled);
            let public = profile_failure(active, NET_FW_PROFILE2_PUBLIC, "public"@, readings.public_enabled);
            if active & !KNOWN_PROFILES != 0 {
                Some(
                    SetupFailureModel::new(
                        SetupErrorCode::HelperFirewallPolicyIneffective,
                        "active Windows Firewall profile mask contains unsupported bits: active="@
                            + crate::text::prefixed_hex(active as nat) + ", unknown="@ + crate::text::prefixed_hex(
                            (active & !KNOWN_PROFILES) as nat,
                        ),
                    ),
                )
            } else if domain is Some {
                domain
            } else if private is Some {
                private
            } else {
                public
            }
        },
    }
}

fn check_profile(active: u32, profile: u32, name: &str, enabled: &Result<i32, String>) -> (outcome: Result<(), SetupFailure>)
    ensures
        match profile_failure(active, profile, name@, *enabled) {
            Some(expected) => outcome matches Err(failure) && failure@ == expected,
            None => outcome is Ok,
        },
{
    if active & profile == 0 {
        return Ok(());
    }
    match enabled {
        Err(error) => Err(
            SetupFailure::new(
                SetupErrorCode::HelperFirewallPolicyAccessFailed,
                concat4("INetFwPolicy2::FirewallEnabled failed for ", name, " profile: ", error.as_str()),
            ),
        ),
        Ok(enabled) => validate_active_profile_firewall_state(profile, name, *enabled),
    }
}

/// Checks that the firewall is on for every active profile.
pub fn verify_active_profile_firewalls_enabled(readings: &ProfileReadings) -> (outcome: Result<(), SetupFailure>)
    ensures
        match profiles_failure(*readings) {
            Some(expected) => outcome matches Err(failure) && failure@ == expected,
            None => outcome is Ok,
        },
{
    let active: u32 = match &readings.active_profiles {
        Ok(active) => *active,
        Err(error) => {
            return Err(
                SetupFailure::new(
                    SetupErrorCode::HelperFirewallPolicyAccessFailed,
                    concat2("INetFwPolicy2::CurrentProfileTypes failed: ", error.as_str()),
                ),
            );
        },
    };
    let unknown: u32 = active & !KNOWN_PROFILES;
    if unknown != 0 {
        let active_text = prefixed_hex_string(active as u64);
        let unknown_text = prefixed_hex_string(unknown as u64);
        return Err(
            SetupFailure::new(
                SetupErrorCode::HelperFirewallPolicyIneffective,
                concat4(
                    "active Windows Firewall profile mask contains unsupported bits: active=",
                    active_text.as_str(),
                    ", unknown=",
                    unknown_text.as_str(),
                ),
            ),
        );
    }
    match check_profile(active, NET_FW_PROFILE2_DOMAIN, "domain", &readings.domain_enabled) {
        Ok(_) => {},
        Err(failure) => {
            return Err(failure);
        },
    }
    match check_profile(active, NET_FW_PROFILE2_PRIVATE, "private", &readings.private_enabled) {
        Ok(_) => {},
        Err(failure) => {
            return Err(failure);
        },
    }
    check_profile(active, NET_FW_PROFILE2_PUBLIC, "public", &readings.public_enabled)
}

/// What the host says of the local firewall policy before any rule is looked at.
pub struct PolicyReadings {
    /// The result of asking whether local rules take effect, and the answer.
    pub result: i32,
    pub modify_state: i32,
    pub profiles: ProfileReadings,
}

impl PolicyReadings {
    /// Why the rules of a namespace would not take effect, if they would not.
    pub open spec fn failure(self, namespace: WindowsSandboxPolicyNamespace) -> Option<SetupFailureModel> {
        local_policy_failure(namespace, self.result, self.modify_state, self.profiles)
    }

    /// Checks that the rules of a namespace take effect on the host.
    pub fn check(&self, namespace: WindowsSandboxPolicyNamespace) -> (outcome: Result<(), SetupFailure>)
        ensures
            match self.failure(namespace) {
                Some(expected) => outcome matches Err(failure) && failure@ == expected,
                None => outcome is Ok,
            },
    {
        ensure_local_policy_rules_take_effect(namespace, self.result, self.modify_state, &self.profiles)
    }
}

/// Why the rules of a namespace would not take effect, if they would not. The state of
/// the profiles only matters to the MCP Console namespace.
pub open spec fn local_policy_failure(
    namespace: WindowsSandboxPolicyNamespace,
    result: i32,
    modify_state: i32,
    readings: ProfileReadings,
) -> Option<SetupFailureModel> {
    match modify_state_failure(result, modify_state) {
        Some(failure) => Some(failure),
        None => if namespace == WindowsSandboxPolicyNamespace::McpConsole {
            profiles_failure(readings)
        } else {
            None
        },
    }
}

/// Checks that the rules of a namespace take effect on the host.
pub fn ensure_local_policy_rules_take_effect(
    namespace: WindowsSandboxPolicyNamespace,
    result: i32,
    modify_state: i32,
    readings: &ProfileReadings,
) -> (outcome: Result<(), SetupFailure>)
    ensures
        match local_policy_failure(namespace, result, modify_state, *readings) {
            Some(expected) => outcome matches Err(failure) && failure@ == expected,
            None => outcome is Ok,
        },
{
    match validate_local_policy_modify_result(result, modify_state) {
        Ok(_) => {},
        Err(failure) => {
            return Err(failure);
        },
    }
    if namespace == WindowsSandboxPolicyNamespace::McpConsole {
        return verify_active_profile_firewalls_enabled(readings);
    }
    Ok(())
}

/// Where the rules of the MCP Console namespace take effect, every active profile is a
/// known one and its firewall is on.
pub proof fn effective_rules_cover_every_active_profile(result: i32, modify_state: i32, readings: ProfileReadings)
    requires
        local_policy_failure(WindowsSandboxPolicyNamespace::McpConsole, result, modify_state, readings) is None,
    ensures
        result == S_OK,
        modify_state == NET_FW_MODIFY_STATE_OK,
        readings.active_profiles matches Ok(active) && {
            &&& active & !KNOWN_PROFILES == 0
            &&& active & NET_FW_PROFILE2_DOMAIN != 0 ==> readings.domain_enabled == Ok::<i32, String>(VARIANT_TRUE)
            &&& active & NET_FW_PROFILE2_PRIVATE != 0 ==> readings.private_enabled == Ok::<i32, String>(VARIANT_TRUE)
            &&& active & NET_FW_PROFILE2_PUBLIC != 0 ==> readings.public_enabled == Ok::<i32, String>(VARIANT_TRUE)
        },
{
}

/// The rules of a namespace take effect exactly where the host applies local changes to
/// every profile and, for the MCP Console namespace, the firewall is on for each active
/// profile and there is no unknown one.
pub proof fn rules_take_effect_when_every_profile_applies_them(
    namespace: WindowsSandboxPolicyNamespace,
    readings: PolicyReadings,
)
    ensures
        readings.failure(namespace) is None <==> {
            &&& readings.result == 0
            &&& readings.modify_state == 0
            &&& namespace is McpConsole ==> (readings.profiles.active_profiles matches Ok(active) && {
                &&& active & !7u32 == 0
                &&& active & 1 != 0 ==> (readings.profiles.domain_enabled matches Ok(enabled) && enabled == -1)
                &&& active & 2 != 0 ==> (readings.profiles.private_enabled matches Ok(enabled) && enabled == -1)
                &&& active & 4 != 0 ==> (readings.profiles.public_enabled matches Ok(enabled) && enabled == -1)
            })
        },
        readings.failure(namespace) matches Some(failure) ==> (failure.code
            == SetupErrorCode::HelperFirewallPolicyIneffective || failure.code
            == SetupErrorCode::HelperFirewallPolicyAccessFailed),
        readings.result < 0 ==> readings.failure(namespace)->Some_0.code
            == SetupErrorCode::HelperFirewallPolicyAccessFailed,
        readings.result > 0 ==> readings.failure(namespace)->Some_0.code
            == SetupErrorCode::HelperFirewallPolicyIneffective,
{
}

/// A policy that could not be reached is reported by how it was reached for.
pub proof fn unreachable_policies_are_reported_as_such(access: PolicyAccess, error: Seq<char>)
    ensures
        access is InitializeCom <==> access_failure(access, error).code
            == SetupErrorCode::HelperFirewallComInitFailed,
        !(access is InitializeCom) <==> access_failure(access, error).code
            == SetupErrorCode::HelperFirewallPolicyAccessFailed,
        error.is_suffix_of(access_failure(access, error).message),
{
    let message = access_failure(access, error).message;
    assert(message.subrange(message.len() - error.len(), message.len() as int) =~= error);
}

/// A result code is shown by the eight hexadecimal digits of its bits.
pub proof fn result_codes_are_shown_in_full(result: i32)
    ensures
        ({
            let digits = result_code_text(result).subrange(10, result_code_text(result).len() - 1);
            &&& digits.len() == 8
            &&& crate::text::numeral_value(digits, 16) == result as u32
            &&& result_code_text(result).take(10) == "HRESULT(0x"@
        }),
{
    reveal_strlit("HRESULT(0x");
    reveal_strlit(")");
    let digits = crate::text::padded_upper_hex((result as u32) as nat, 8);
    crate::text::padded_numerals_read_back((result as u32) as nat, 8);
    assert(vstd::arithmetic::power::pow(16, 8) == 0x1_0000_0000) by {
        reveal_with_fuel(vstd::arithmetic::power::pow, 9);
    }
    assert(result_code_text(result).subrange(10, result_code_text(result).len() - 1) =~= digits);
    assert(result_code_text(result).take(10) =~= "HRESULT(0x"@);
}

/// A policy that could be read and does not take effect is told from one that could not be
/// read: where every reading succeeded, the failure is never one of access, and the first
/// reading that failed, of those that matter, is one.
pub proof fn ineffective_policies_are_told_from_unreadable_ones(readings: PolicyReadings)
    ensures
        ({
            let profiles = readings.profiles;
            let failure = readings.failure(WindowsSandboxPolicyNamespace::McpConsole);
            &&& readings.result >= 0 && profiles.active_profiles is Ok && profiles.domain_enabled is Ok
                && profiles.private_enabled is Ok && profiles.public_enabled is Ok && failure is Some
                ==> failure->Some_0.code == SetupErrorCode::HelperFirewallPolicyIneffective
            &&& readings.result == 0 && readings.modify_state == 0 && profiles.active_profiles is Err
                ==> failure->Some_0.code == SetupErrorCode::HelperFirewallPolicyAccessFailed
            &&& readings.result == 0 && readings.modify_state == 0 ==> (profiles.active_profiles matches Ok(active)
                ==> {
                let domain_passes = active & 1 == 0 || (profiles.domain_enabled matches Ok(enabled) && enabled == -1);
                let private_passes = active & 2 == 0 || (profiles.private_enabled matches Ok(enabled) && enabled == -1);
                &&& active & !7u32 != 0 ==> failure->Some_0.code == SetupErrorCode::HelperFirewallPolicyIneffective
                &&& active & !7u32 == 0 && active & 1 != 0 && profiles.domain_enabled is Err
                    ==> failure->Some_0.code == SetupErrorCode::HelperFirewallPolicyAccessFailed
                &&& active & !7u32 == 0 && domain_passes && active & 2 != 0 && profiles.private_enabled is Err
                    ==> failure->Some_0.code == SetupErrorCode::HelperFirewallPolicyAccessFailed
                &&& active & !7u32 == 0 && domain_passes && private_passes && active & 4 != 0
                    && profiles.public_enabled is Err ==> failure->Some_0.code
                    == SetupErrorCode::HelperFirewallPolicyAccessFailed
            })
        }),
{
}

} // verus!
