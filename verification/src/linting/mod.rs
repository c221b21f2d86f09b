pub mod lint;
pub mod pattern_linter;
pub mod suggestion;
pub mod then_than;

pub use lint::{Lint, LintKind};
pub use pattern_linter::PatternLinter;
pub use suggestion::Suggestion;
pub use then_than::ThenThan;
