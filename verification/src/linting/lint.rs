//! Lints: what a rule reports.

use vstd::prelude::*;
use crate::linting::suggestion::Suggestion;
use crate::span::Span;

verus! {

/// The family of problem that a lint reports.
#[derive(Debug, Clone, Copy, PartialEq, Eq, Structural)]
pub enum LintKind {
    Spelling,
    Capitalization,
    Style,
    Formatting,
    Repetition,
    Enhancement,
    Readability,
    WordChoice,
    Miscellaneous,
}

/// A problem found in the text, with the edits that would mend it.
#[derive(Debug, Clone)]
pub struct Lint {
    /// The characters that the problem covers.
    pub span: Span,
    pub lint_kind: LintKind,
    pub suggestions: Vec<Suggestion>,
    pub message: String,
    /// A sort key: the lower, the more important.
    pub priority: u8,
}

/// A lint as plain values.
pub struct LintView {
    pub span: Span,
    pub lint_kind: LintKind,
    pub suggestions: Seq<Seq<char>>,
    pub message: Seq<char>,
    pub priority: u8,
}

impl View for Lint {
    type V = LintView;

    open spec fn view(&self) -> LintView {
        LintView {
            span: self.span,
            lint_kind: self.lint_kind,
            suggestions: Seq::new(self.suggestions@.len(), |i: int| self.suggestions@[i]@),
            message: self.message@,
            priority: self.priority,
        }
    }
}

/// The views of a list of lints, in order.
pub open spec fn lint_views(lints: Seq<Lint>) -> Seq<LintView> {
    Seq::new(lints.len(), |i: int| lints[i]@)
}

} // verus!
