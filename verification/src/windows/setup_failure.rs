//! Failures that the elevated setup helper reports.

use vstd::prelude::*;
use vstd::string::*;

verus! {

/// What kind of step of the setup failed.
#[derive(Clone, Copy, Debug, PartialEq, Eq, Structural)]
pub enum SetupErrorCode {
    HelperFirewallComInitFailed,
    HelperFirewallPolicyAccessFailed,
    HelperFirewallPolicyIneffective,
    HelperFirewallRuleCreateOrAddFailed,
    HelperFirewallRuleVerifyFailed,
}

/// A failure of the setup.
#[derive(Debug, PartialEq, Eq)]
pub struct SetupFailure {
    pub code: SetupErrorCode,
    pub message: String,
}

/// What a [`SetupFailure`] holds.
pub struct SetupFailureModel {
    pub code: SetupErrorCode,
    pub message: Seq<char>,
}

impl DeepView for SetupFailure {
    type V = SetupFailureModel;

    open spec fn deep_view(&self) -> SetupFailureModel {
        SetupFailureModel { code: self.code, message: self.message@ }
    }
}

impl View for SetupFailure {
    type V = SetupFailureModel;

    open spec fn view(&self) -> SetupFailureModel {
        self.deep_view()
    }
}

impl SetupFailureModel {
    /// A failure of the given kind.
    pub open spec fn new(code: SetupErrorCode, message: Seq<char>) -> SetupFailureModel {
        SetupFailureModel { code, message }
    }
}

impl SetupFailure {
    /// A failure of the given kind.
    pub fn new(code: SetupErrorCode, message: String) -> (result: Self)
        ensures
            result@ == SetupFailureModel::new(code, message@),
    {
        SetupFailure { code, message }
    }
}

} // verus!
