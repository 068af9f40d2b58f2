//! Failures with the context in which they came up.

use crate::text::concat3;
use vstd::prelude::*;
use vstd::string::*;

verus! {

/// A failure: what went wrong, and what caused it.
#[derive(Debug, PartialEq, Eq)]
pub struct Failure {
    /// What went wrong, in the widest context.
    pub message: String,
    /// The chain of causes, from the nearest one on.
    pub cause: Option<String>,
}

/// What a [`Failure`] holds.
pub struct FailureModel {
    pub message: Seq<char>,
    pub cause: Option<Seq<char>>,
}

impl DeepView for Failure {
    type V = FailureModel;

    open spec fn deep_view(&self) -> FailureModel {
        FailureModel { message: self.message@, cause: self.cause.deep_view() }
    }
}

impl View for Failure {
    type V = FailureModel;

    open spec fn view(&self) -> FailureModel {
        self.deep_view()
    }
}

impl FailureModel {
    /// A failure without a known cause.
    pub open spec fn plain(message: Seq<char>) -> FailureModel {
        FailureModel { message, cause: None }
    }

    /// The failure with all its causes.
    pub open spec fn chain(self) -> Seq<char> {
        match self.cause {
            Some(cause) => self.message + ": "@ + cause,
            None => self.message,
        }
    }

    /// The failure in a wider context.
    pub open spec fn within(self, context: Seq<char>) -> FailureModel {
        FailureModel { message: context, cause: Some(self.chain()) }
    }
}

impl Failure {
    /// A failure without a known cause.
    pub fn new(message: &str) -> (result: Self)
        ensures
            result@ == FailureModel::plain(message@),
    {
        Failure { message: message.to_owned(), cause: None }
    }

    /// The failure with all its causes.
    pub fn chain(&self) -> (result: String)
        ensures
            result@ == self@.chain(),
    {
        match &self.cause {
            Some(cause) => concat3(self.message.as_str(), ": ", cause.as_str()),
            None => self.message.clone(),
        }
    }

    /// The failure in a wider context.
    pub fn within(self, context: &str) -> (result: Self)
        ensures
            result@ == self@.within(context@),
    {
        Failure { message: context.to_owned(), cause: Some(self.chain()) }
    }
}

impl Clone for Failure {
    fn clone(&self) -> (result: Self)
        ensures
            result@ == self@,
    {
        let cause = match &self.cause {
            Some(cause) => Some(cause.clone()),
            None => None,
        };
        Failure { message: self.message.clone(), cause }
    }
}

/// A failure says what went wrong, and each wider context leads what it wraps.
pub proof fn contexts_lead_their_causes(failure: FailureModel, context: Seq<char>, message: Seq<char>)
    ensures
        FailureModel::plain(message).chain() == message,
        failure.within(context).message == context,
        failure.within(context).chain() == context + ": "@ + failure.chain(),
        failure.cause matches Some(cause) ==> failure.chain() == failure.message + ": "@ + cause,
{
}

} // verus!
