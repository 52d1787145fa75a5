//! Domain diagnostics produced by hardening checks.

use vstd::prelude::*;
use crate::text::{decimal, decimal_string, join2, join3};

verus! {

/// Severity used to sort and group diagnostics in the Doctor page.
#[derive(Debug, Clone, Copy, PartialEq, Eq, PartialOrd, Ord, Structural)]
pub enum DiagnosticSeverity {
    /// Informational issue that does not block normal workflows.
    Info,
    /// Suspicious setup that is allowed but likely worth correcting.
    Warning,
    /// Structural issue that can break or confuse scene operation.
    Error,
}

/// Number of diagnostics in `s` that carry `severity`.
pub open spec fn severity_count(s: Seq<Diagnostic>, severity: DiagnosticSeverity) -> nat
    decreases s.len(),
{
    if s.len() == 0 {
        0
    } else {
        severity_count(s.drop_last(), severity) + if s.last().severity == severity { 1nat } else { 0nat }
    }
}

/// Count text for `count` diagnostics of one severity, in English.
pub open spec fn count_text(severity: DiagnosticSeverity, count: nat) -> Seq<char> {
    decimal(count) + match severity {
        DiagnosticSeverity::Error => if count == 1 { " error"@ } else { " errors"@ },
        DiagnosticSeverity::Warning => if count == 1 { " warning"@ } else { " warnings"@ },
        DiagnosticSeverity::Info => if count == 1 { " info item"@ } else { " info items"@ },
    }
}

impl DiagnosticSeverity {
    /// Display order for summaries and grouped diagnostic rows.
    pub const DISPLAY_ORDER: [DiagnosticSeverity; 3] = [
        DiagnosticSeverity::Error,
        DiagnosticSeverity::Warning,
        DiagnosticSeverity::Info,
    ];

    /// User-facing group label.
    pub fn label(self) -> (s: &'static str)
        ensures
            s@ == match self {
                DiagnosticSeverity::Info => "Info"@,
                DiagnosticSeverity::Warning => "Warnings"@,
                DiagnosticSeverity::Error => "Errors"@,
            },
    {
        match self {
            DiagnosticSeverity::Info => "Info",
            DiagnosticSeverity::Warning => "Warnings",
            DiagnosticSeverity::Error => "Errors",
        }
    }

    /// Symbolic icon name for rows carrying this severity.
    pub fn icon_name(self) -> (s: &'static str)
        ensures
            s@ == match self {
                DiagnosticSeverity::Info => "dialog-information-symbolic"@,
                DiagnosticSeverity::Warning => "dialog-warning-symbolic"@,
                DiagnosticSeverity::Error => "dialog-error-symbolic"@,
            },
    {
        match self {
            DiagnosticSeverity::Info => "dialog-information-symbolic",
            DiagnosticSeverity::Warning => "dialog-warning-symbolic",
            DiagnosticSeverity::Error => "dialog-error-symbolic",
        }
    }

    /// CSS class applied to the severity icon.
    pub fn css_class(self) -> (s: &'static str)
        ensures
            s@ == match self {
                DiagnosticSeverity::Info => "diag-info"@,
                DiagnosticSeverity::Warning => "diag-warning"@,
                DiagnosticSeverity::Error => "diag-error"@,
            },
    {
        match self {
            DiagnosticSeverity::Info => "diag-info",
            DiagnosticSeverity::Warning => "diag-warning",
            DiagnosticSeverity::Error => "diag-error",
        }
    }

    /// Count diagnostics with this severity.
    pub fn count_in(self, diagnostics: &[Diagnostic]) -> (n: usize)
        ensures
            n == severity_count(diagnostics@, self),
    {
        let mut n: usize = 0;
        let mut i: usize = 0;
        while i < diagnostics.len()
            invariant
                i <= diagnostics@.len(),
                n == severity_count(diagnostics@.take(i as int), self),
                n <= i,
            decreases diagnostics@.len() - i,
        {
            assert(diagnostics@.take(i + 1).drop_last() =~= diagnostics@.take(i as int));
            if diagnostics[i].severity == self {
                n = n + 1;
            }
            i = i + 1;
        }
        assert(diagnostics@.take(diagnostics@.len() as int) =~= diagnostics@);
        n
    }

    /// User-facing count label with singular and plural wording.
    pub fn format_count(self, count: usize) -> (s: String)
        ensures
            s@ == count_text(self, count as nat),
    {
        let number = decimal_string(count as u64);
        let unit = match self {
            DiagnosticSeverity::Error => if count == 1 { " error" } else { " errors" },
            DiagnosticSeverity::Warning => if count == 1 { " warning" } else { " warnings" },
            DiagnosticSeverity::Info => if count == 1 { " info item" } else { " info items" },
        };
        join2(number.as_str(), unit)
    }
}

/// A single architecture or configuration finding shown in the Doctor page.
#[derive(Debug, Clone)]
pub struct Diagnostic {
    /// Importance and grouping for the finding.
    pub severity: DiagnosticSeverity,
    /// Scene name this diagnostic refers to, if any.
    pub scene: Option<String>,
    /// Short user-facing description of the problem.
    pub message: String,
    /// Short human-readable fix suggestion.
    pub suggestion: Option<String>,
}

impl Diagnostic {
    /// Row title: `scene: message`, or just the message for global findings.
    pub fn title(&self) -> (s: String)
        ensures
            s@ == match self.scene {
                Some(scene) => scene@ + ": "@ + self.message@,
                None => self.message@,
            },
    {
        match &self.scene {
            Some(scene) => join3(scene.as_str(), ": ", self.message.as_str()),
            None => self.message.clone(),
        }
    }
}

} // verus!
