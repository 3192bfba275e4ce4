//! What a core operation reports back to the layer that speaks the protocol.

use crate::errors::ErrorReport;
use crate::errors::ErrorReportView;
use crate::errors::SubscribeError;
use crate::errors::SubscriptionConfirmationError;
use vstd::prelude::*;

verus! {

/// The result of one core operation.
#[derive(Debug, PartialEq, Eq)]
pub enum Outcome {
    /// The operation completed.
    Success,
    /// The input was malformed; the text says how.
    ClientError(String),
    /// The presented token was never issued.
    Unauthorized,
    /// Storage or dispatch failed; the report holds the causal chain.
    ServerError(ErrorReport),
}

/// An [`Outcome`] as mathematical values.
pub enum OutcomeView {
    Success,
    ClientError(Seq<char>),
    Unauthorized,
    ServerError(ErrorReportView),
}

impl View for Outcome {
    type V = OutcomeView;

    open spec fn view(&self) -> OutcomeView {
        match self {
            Outcome::Success => OutcomeView::Success,
            Outcome::ClientError(reason) => OutcomeView::ClientError(reason@),
            Outcome::Unauthorized => OutcomeView::Unauthorized,
            Outcome::ServerError(report) => OutcomeView::ServerError(report@),
        }
    }
}

impl OutcomeView {
    /// The HTTP status that stands for this outcome.
    pub open spec fn status_code(self) -> u16 {
        match self {
            OutcomeView::Success => 200,
            OutcomeView::ClientError(_) => 400,
            OutcomeView::Unauthorized => 401,
            OutcomeView::ServerError(_) => 500,
        }
    }
}

impl Outcome {
    /// The HTTP status that stands for this outcome: 200, 400, 401 or 500.
    pub fn status_code(&self) -> (status: u16)
        ensures
            status == self@.status_code(),
    {
        match self {
            Outcome::Success => 200,
            Outcome::ClientError(_) => 400,
            Outcome::Unauthorized => 401,
            Outcome::ServerError(_) => 500,
        }
    }

    /// The outcome that a failed subscription amounts to: a validation error
    /// is the client's, everything else the server's.
    pub fn from_subscribe_error(error: SubscribeError) -> (outcome: Outcome)
        ensures
            outcome@ == match error {
                SubscribeError::ValidationError(reason) => OutcomeView::ClientError(reason@),
                SubscribeError::UnexpectedError(report) => OutcomeView::ServerError(report@),
            },
            outcome@.status_code() == error.status_code_spec(),
    {
        match error {
            SubscribeError::ValidationError(reason) => Outcome::ClientError(reason),
            SubscribeError::UnexpectedError(report) => Outcome::ServerError(report),
        }
    }

    /// The outcome that a failed confirmation amounts to.
    pub fn from_confirmation_error(error: SubscriptionConfirmationError) -> (outcome: Outcome)
        ensures
            error matches SubscriptionConfirmationError::UnexpectedError(report) && outcome@
                == OutcomeView::ServerError(report@),
    {
        match error {
            SubscriptionConfirmationError::UnexpectedError(report) => Outcome::ServerError(report),
        }
    }
}

} // verus!
