use vstd::prelude::*;

verus! {

/// The mathematical value of a diagnostic.
pub ghost struct DiagnosticModel {
    pub line: nat,
    pub location: Seq<char>,
    pub message: Seq<char>,
}

/// One report for the diagnostics sink: the line it concerns, where on the
/// line (empty when no place is named) and the message. Formatting the
/// report for a user is left to whoever receives it.
#[derive(Debug, Clone, PartialEq, Eq)]
pub struct Diagnostic {
    pub line: usize,
    pub location: String,
    pub message: String,
}

impl View for Diagnostic {
    type V = DiagnosticModel;

    open spec fn view(&self) -> DiagnosticModel {
        DiagnosticModel { line: self.line as nat, location: self.location@, message: self.message@ }
    }
}

pub open spec fn diagnostic_views(ds: Seq<Diagnostic>) -> Seq<DiagnosticModel> {
    ds.map_values(|d: Diagnostic| d@)
}

/// A diagnostic on a whole line, with no location.
pub fn error(line: usize, message: String) -> (d: Diagnostic)
    ensures
        d@ == (DiagnosticModel { line: line as nat, location: Seq::empty(), message: message@ }),
{
    Diagnostic { line, location: String::new(), message }
}

} // verus!
