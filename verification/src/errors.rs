//! The errors of the subscription workflow and how they are rendered.
//!
//! Lower-level failures are never shown to a caller as they are. Each is
//! wrapped with a line of context where it crosses a component boundary, and
//! the whole chain is kept in an [`ErrorReport`] for the log.

use crate::store::StorageError;
use vstd::prelude::*;
use vstd::string::StringExecFns;

verus! {

/// The texts of a sequence of strings.
pub open spec fn texts(strings: Seq<String>) -> Seq<Seq<char>> {
    Seq::new(strings.len(), |i: int| strings[i]@)
}

/// An error and its causes as one text: the error's message and a blank
/// line, then for each cause, nearest first, a `Caused by:` line and the
/// cause's message indented by a tab.
pub open spec fn chain_text(message: Seq<char>, causes: Seq<Seq<char>>) -> Seq<char>
    decreases causes.len(),
{
    if causes.len() == 0 {
        message + "\n\n"@
    } else {
        chain_text(message, causes.drop_last()) + "Caused by:\n\t"@ + causes.last() + "\n"@
    }
}

/// Renders an error with its chain of causes, nearest cause first.
pub fn error_chain_fmt(message: &str, causes: &Vec<String>) -> (rendered: String)
    ensures
        rendered@ == chain_text(message@, texts(causes@)),
{
    let mut rendered = message.to_owned();
    rendered.append("\n\n");
    let mut i: usize = 0;
    while i < causes.len()
        invariant
            i <= causes@.len(),
            rendered@ == chain_text(message@, texts(causes@).take(i as int)),
        decreases causes@.len() - i,
    {
        rendered.append("Caused by:\n\t");
        rendered.append(causes[i].as_str());
        rendered.append("\n");
        proof {
            let upto = texts(causes@).take(i + 1);
            assert(upto.drop_last() == texts(causes@).take(i as int));
            assert(upto.last() == causes@[i as int]@);
        }
        i += 1;
    }
    proof {
        assert(texts(causes@).take(i as int) == texts(causes@));
    }
    rendered
}

/// An [`ErrorReport`] as mathematical values.
pub struct ErrorReportView {
    pub message: Seq<char>,
    pub causes: Seq<Seq<char>>,
}

impl ErrorReportView {
    /// This report wrapped in a line of context: the context becomes the
    /// message, and the former message the nearest cause.
    pub open spec fn context(self, context: Seq<char>) -> ErrorReportView {
        ErrorReportView { message: context, causes: seq![self.message] + self.causes }
    }
}

/// What went wrong, and why: a message and the messages of its causes,
/// nearest cause first.
#[derive(Debug, PartialEq, Eq)]
pub struct ErrorReport {
    pub message: String,
    pub causes: Vec<String>,
}

impl View for ErrorReport {
    type V = ErrorReportView;

    open spec fn view(&self) -> ErrorReportView {
        ErrorReportView { message: self.message@, causes: texts(self.causes@) }
    }
}

impl ErrorReport {
    /// A report without causes.
    pub fn new(message: String) -> (report: ErrorReport)
        ensures
            report@ == (ErrorReportView { message: message@, causes: Seq::empty() }),
    {
        let report = ErrorReport { message, causes: Vec::new() };
        assert(report@.causes == Seq::<Seq<char>>::empty());
        report
    }

    /// Wraps this report in a line of context.
    pub fn context(self, context: &str) -> (report: ErrorReport)
        ensures
            report@ == self@.context(context@),
    {
        let mut causes: Vec<String> = Vec::new();
        causes.push(self.message);
        let mut i: usize = 0;
        while i < self.causes.len()
            invariant
                i <= self.causes@.len(),
                causes@.len() == i + 1,
                causes@[0] == self.message,
                forall|k: int| 0 <= k < i ==> #[trigger] causes@[k + 1] == self.causes@[k],
            decreases self.causes@.len() - i,
        {
            causes.push(self.causes[i].clone());
            i += 1;
        }
        let report = ErrorReport { message: context.to_owned(), causes };
        proof {
            let wanted = seq![self.message@] + texts(self.causes@);
            assert(report@.causes.len() == wanted.len());
            assert forall|k: int| 0 <= k < wanted.len() implies report@.causes[k] == wanted[k] by {
                if k > 0 {
                    assert(causes@[(k - 1) + 1] == self.causes@[k - 1]);
                }
            }
            assert(report@.causes == wanted);
        }
        report
    }

    /// The report as one text, for the log.
    pub fn chain(&self) -> (rendered: String)
        ensures
            rendered@ == chain_text(self@.message, self@.causes),
    {
        error_chain_fmt(self.message.as_str(), &self.causes)
    }
}

/// The report of a storage failure under the given message: the store's
/// own report is its one cause.
pub open spec fn storage_report(message: Seq<char>, cause: Seq<char>) -> ErrorReportView {
    ErrorReportView { message, causes: seq![cause] }
}

/// A report with `message` on top and the storage error as its cause.
pub fn report_storage_failure(message: &str, error: &StorageError) -> (report: ErrorReport)
    ensures
        report@ == storage_report(message@, error.report()),
{
    let mut causes: Vec<String> = Vec::new();
    causes.push(error.message());
    let report = ErrorReport { message: message.to_owned(), causes };
    assert(report@.causes == seq![error.report()]);
    report
}

/// Looking up the subscriber of a token failed in the store.
#[derive(Debug)]
pub struct RetrieveSubscriberIdError(pub StorageError);

impl RetrieveSubscriberIdError {
    /// What this error says of itself.
    pub open spec fn text() -> Seq<char> {
        "An database error was encountered while trying to retrieve subscriber id using subscription token."@
    }

    /// What this error says of itself.
    pub fn message(&self) -> (message: String)
        ensures
            message@ == Self::text(),
    {
        "An database error was encountered while trying to retrieve subscriber id using subscription token.".to_owned()
    }

    /// The storage failure behind this error.
    pub fn source(&self) -> (source: &StorageError)
        ensures
            *source == self.0,
    {
        &self.0
    }

    /// This error with its cause.
    pub fn report(&self) -> (report: ErrorReport)
        ensures
            report@ == storage_report(Self::text(), self.0.report()),
    {
        report_storage_failure(
            "An database error was encountered while trying to retrieve subscriber id using subscription token.",
            &self.0,
        )
    }
}

/// Binding a token to its subscriber failed in the store.
#[derive(Debug)]
pub struct StoreTokenError(pub StorageError);

impl StoreTokenError {
    /// What this error says of itself.
    pub open spec fn text() -> Seq<char> {
        "A database error was encountered while trying to store a subscription token."@
    }

    /// What this error says of itself.
    pub fn message(&self) -> (message: String)
        ensures
            message@ == Self::text(),
    {
        "A database error was encountered while trying to store a subscription token.".to_owned()
    }

    /// The storage failure behind this error.
    pub fn source(&self) -> (source: &StorageError)
        ensures
            *source == self.0,
    {
        &self.0
    }

    /// This error with its cause.
    pub fn report(&self) -> (report: ErrorReport)
        ensures
            report@ == storage_report(Self::text(), self.0.report()),
    {
        report_storage_failure(
            "A database error was encountered while trying to store a subscription token.",
            &self.0,
        )
    }
}

/// Why a subscription was not created.
#[derive(Debug)]
pub enum SubscribeError {
    /// The submitted name or email is malformed; the text says which.
    ValidationError(String),
    /// Storage or dispatch failed partway through.
    UnexpectedError(ErrorReport),
}

impl SubscribeError {
    /// The HTTP status this error is answered with: 400 for malformed input,
    /// 500 for everything else.
    pub open spec fn status_code_spec(self) -> u16 {
        match self {
            SubscribeError::ValidationError(_) => 400,
            SubscribeError::UnexpectedError(_) => 500,
        }
    }

    /// The HTTP status this error is answered with: 400 for malformed input,
    /// 500 for everything else.
    pub fn status_code(&self) -> (status: u16)
        ensures
            status == self.status_code_spec(),
    {
        match self {
            SubscribeError::ValidationError(_) => 400,
            SubscribeError::UnexpectedError(_) => 500,
        }
    }

    /// This error as a report: a validation error stands alone, an
    /// unexpected error is its own report.
    pub open spec fn report(self) -> ErrorReportView {
        match self {
            SubscribeError::ValidationError(reason) => ErrorReportView {
                message: reason@,
                causes: Seq::empty(),
            },
            SubscribeError::UnexpectedError(report) => report@,
        }
    }

    /// The error with its chain of causes as one text, for the log.
    pub fn chain(&self) -> (rendered: String)
        ensures
            rendered@ == chain_text(self.report().message, self.report().causes),
    {
        match self {
            SubscribeError::ValidationError(reason) => {
                let none: Vec<String> = Vec::new();
                assert(texts(none@) == Seq::<Seq<char>>::empty());
                error_chain_fmt(reason.as_str(), &none)
            },
            SubscribeError::UnexpectedError(report) => report.chain(),
        }
    }
}

/// Why a confirmation could not be carried out.
#[derive(Debug)]
pub enum SubscriptionConfirmationError {
    /// Storage failed during the lookup or the update.
    UnexpectedError(ErrorReport),
}

impl SubscriptionConfirmationError {
    /// The HTTP status this error is answered with: always 500.
    pub fn status_code(&self) -> (status: u16)
        ensures
            status == 500,
    {
        500
    }

    /// The error with its chain of causes as one text, for the log.
    pub fn chain(&self) -> (rendered: String)
        ensures
            self matches SubscriptionConfirmationError::UnexpectedError(report) && rendered@
                == chain_text(report@.message, report@.causes),
    {
        match self {
            SubscriptionConfirmationError::UnexpectedError(report) => report.chain(),
        }
    }
}

} // verus!
