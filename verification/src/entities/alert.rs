//! Alert severities.

use vstd::prelude::*;

verus! {

/// How severe a condition is.
#[derive(Debug, Clone, Copy, PartialEq, Eq, Hash, PartialOrd, Ord, Structural)]
pub enum SeverityLevel {
    /// No problem.
    Okay,
    /// A problem that is not urgent.
    Warning,
    /// A problem that needs attention now.
    Critical,
}

impl Default for SeverityLevel {
    fn default() -> (level: Self)
        ensures
            level == SeverityLevel::Okay,
    {
        SeverityLevel::Okay
    }
}

} // verus!
