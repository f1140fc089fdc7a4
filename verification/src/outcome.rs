//! Terminal byproducts of irreversible operations.
//!
//! Consuming an unprotected repository through an irreversible operation
//! yields one of these values instead of a repository. Neither type offers
//! any repository operation or any transition back into the state machine:
//! all that remains is a read-only summary of what happened.

use vstd::prelude::*;
use vstd::string::StringExecFns;
use crate::decimal::decimal_digits;
use crate::decimal::usize_to_decimal;

verus! {

/// What remains after a history rewrite. Not a repository: the original
/// handle was consumed to produce it.
pub struct FilteredRepository {
    pub name: String,
    pub path: String,
    pub rewritten_commits: usize,
}

impl FilteredRepository {
    /// Read-only summary of the rewrite, carrying the prior commit count.
    pub fn summary(&self) -> (r: String)
        ensures
            r@ == "["@ + self.name@ + "] history rewritten: "@ + decimal_digits(
                self.rewritten_commits as nat,
            ) + " commits now have new SHAs. Original history is unreachable."@,
    {
        let mut r = String::from_str("[");
        r.append(self.name.as_str());
        r.append("] history rewritten: ");
        let count = usize_to_decimal(self.rewritten_commits);
        r.append(count.as_str());
        r.append(" commits now have new SHAs. Original history is unreachable.");
        r
    }
}

/// What remains after a hard reset. Not a repository: the original handle
/// was consumed to produce it.
pub struct ResetRepository {
    pub name: String,
    pub path: String,
}

impl ResetRepository {
    /// Read-only summary of the reset.
    pub fn summary(&self) -> (r: String)
        ensures
            r@ == "["@ + self.name@ + "] reset to HEAD. All uncommitted work is permanently lost."@,
    {
        let mut r = String::from_str("[");
        r.append(self.name.as_str());
        r.append("] reset to HEAD. All uncommitted work is permanently lost.");
        r
    }
}

} // verus!
