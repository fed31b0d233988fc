use vstd::prelude::*;

verus! {

/// How serious a diagnostic is.
#[derive(Clone, Copy, Debug, PartialEq, Eq, Structural)]
pub enum Severity {
    Error,
    Warn,
}

/// A message for the user that travels beside a result.
#[derive(Debug)]
pub struct Diagnostic {
    pub severity: Severity,
    pub title: String,
    pub message: String,
}

impl Clone for Diagnostic {
    fn clone(&self) -> (r: Self)
        ensures
            r == *self,
    {
        Diagnostic {
            severity: self.severity,
            title: self.title.clone(),
            message: self.message.clone(),
        }
    }
}

impl Diagnostic {
    /// An error diagnostic with the given title and message.
    pub fn error(title: String, message: String) -> (d: Self)
        ensures
            d.severity == Severity::Error,
            d.title == title,
            d.message == message,
    {
        Diagnostic { severity: Severity::Error, title, message }
    }
}

/// A failure of the pipeline itself: misuse of an operation, or a step that
/// could not be carried out.
#[derive(Debug)]
pub struct InternalError {
    pub message: String,
    pub severity: Severity,
}

impl InternalError {
    pub fn new(message: String, severity: Severity) -> (e: Self)
        ensures
            e.message == message,
            e.severity == severity,
    {
        InternalError { message, severity }
    }

    /// The diagnostic that reports this error.
    pub fn into_diagnostic(self) -> (d: Diagnostic)
        ensures
            d.severity == self.severity,
            d.message == self.message,
            d.title@ == "Internal error"@,
    {
        Diagnostic {
            severity: self.severity,
            title: "Internal error".to_owned(),
            message: self.message,
        }
    }
}

/// Whether any of the diagnostics is an error.
pub open spec fn has_error(ds: Seq<Diagnostic>) -> bool {
    exists|i: int| 0 <= i < ds.len() && ds[i].severity == Severity::Error
}

/// The messages of the error diagnostics, in order.
pub open spec fn error_messages(ds: Seq<Diagnostic>) -> Seq<Seq<char>>
    decreases ds.len(),
{
    if ds.len() == 0 {
        Seq::empty()
    } else if ds.last().severity == Severity::Error {
        error_messages(ds.drop_last()).push(ds.last().message@)
    } else {
        error_messages(ds.drop_last())
    }
}

/// The diagnostics hold an error exactly when they have an error message.
pub proof fn lemma_has_error_messages(ds: Seq<Diagnostic>)
    ensures
        has_error(ds) <==> error_messages(ds).len() > 0,
    decreases ds.len(),
{
    if ds.len() > 0 {
        lemma_has_error_messages(ds.drop_last());
        if ds.last().severity == Severity::Error {
            assert(ds[ds.len() - 1].severity == Severity::Error);
        } else {
            if has_error(ds) {
                let i = choose|i: int| 0 <= i < ds.len() && ds[i].severity == Severity::Error;
                assert(ds.drop_last()[i].severity == Severity::Error);
            }
            if has_error(ds.drop_last()) {
                let i = choose|i: int|
                    0 <= i < ds.drop_last().len() && ds.drop_last()[i].severity == Severity::Error;
                assert(ds[i].severity == Severity::Error);
            }
        }
    }
}

} // verus!
