//! The repository handle and its protection-state machine.
//!
//! `Repository<Protected>` and `Repository<Unprotected>` are different
//! types with different method sets. The destructive operations exist only
//! on the unprotected type, so calling one on a protected handle is a
//! compile-time error, not a rejected runtime request. The state machine:
//!
//! - `Protected`, the initial state, reached only through [`Repository::open`];
//! - `remove_protection` consumes a protected handle plus a consent token
//!   and yields an unprotected one;
//! - `restore_protection` consumes an unprotected handle and, with no token
//!   needed, yields a protected one;
//! - `force_push` borrows an unprotected handle, which stays usable;
//! - `filter_repo` and `reset_hard` consume an unprotected handle and yield
//!   a terminal byproduct with no way back.
//!
//! Each transition carries the handle's data forward unchanged, so a
//! lower-then-restore round trip is identity on the data
//! ([`lemma_round_trip_preserves_data`]).

use vstd::prelude::*;
use vstd::string::StringExecFns;
use core::marker::PhantomData;
use crate::consent::UserConsent;
use crate::decimal::decimal_digits;
use crate::decimal::usize_to_decimal;
use crate::outcome::FilteredRepository;
use crate::outcome::ResetRepository;

verus! {

/// Marker for a repository with branch protection enabled, the initial and
/// most restrictive state. Destructive operations do not exist on
/// `Repository<Protected>`.
pub struct Protected;

/// Marker for a repository whose branch protection was explicitly removed
/// with a consent token. Only `Repository<Unprotected>` carries the
/// destructive operations.
pub struct Unprotected;

/// The data a repository handle carries, independent of its protection
/// state: the view of a [`Repository`] in either state.
pub ghost struct RepoData {
    pub name: Seq<char>,
    pub path: Seq<char>,
    pub total_commits: nat,
}

/// A repository handle parameterized by its protection state.
///
/// The protection state is part of the type, never a runtime flag: the
/// operation set of a handle is fully determined by its type, and a
/// transition returns a value of a different type rather than mutating a
/// field. The state marker field is private, so no code outside this
/// module can build a handle by naming the fields; the only entry into the
/// state machine is [`Repository::open`].
pub struct Repository<State = Protected> {
    pub name: String,
    pub path: String,
    pub total_commits: usize,
    state: PhantomData<State>,
}

impl<State> View for Repository<State> {
    type V = RepoData;

    closed spec fn view(&self) -> RepoData {
        RepoData {
            name: self.name@,
            path: self.path@,
            total_commits: self.total_commits as nat,
        }
    }
}

impl Repository<Protected> {
    /// Open a repository. This is the only constructor, and every
    /// repository starts protected.
    pub fn open(name: &str, path: &str, total_commits: usize) -> (r: Self)
        ensures
            r@.name == name@,
            r@.path == path@,
            r@.total_commits == total_commits,
    {
        Repository {
            name: String::from_str(name),
            path: String::from_str(path),
            total_commits,
            state: PhantomData,
        }
    }

    /// Read-only description: identifier, commit count, protection state.
    pub fn status(&self) -> (r: String)
        ensures
            r@ == self@.name + ": "@ + decimal_digits(self@.total_commits)
                + " commits, protected"@,
    {
        let mut r = self.name.clone();
        r.append(": ");
        let count = usize_to_decimal(self.total_commits);
        r.append(count.as_str());
        r.append(" commits, protected");
        r
    }

    /// Commit is safe and always available; no consent required.
    pub fn commit(&self, message: &str) -> (r: String)
        ensures
            r@ == "["@ + self@.name + "] committed: "@ + message@,
    {
        let mut r = String::from_str("[");
        r.append(self.name.as_str());
        r.append("] committed: ");
        r.append(message);
        r
    }

    /// Regular push is safe and always available; no consent required.
    pub fn push(&self) -> (r: String)
        ensures
            r@ == "["@ + self@.name + "] pushed to origin/main"@,
    {
        let mut r = String::from_str("[");
        r.append(self.name.as_str());
        r.append("] pushed to origin/main");
        r
    }

    /// Remove branch protection. Requires a consent token and consumes the
    /// protected handle; the unprotected handle carries the data forward
    /// unchanged.
    pub fn remove_protection(self, _consent: &UserConsent) -> (r: Repository<Unprotected>)
        ensures
            r@ == self@,
    {
        Repository {
            name: self.name,
            path: self.path,
            total_commits: self.total_commits,
            state: PhantomData,
        }
    }
}

impl Repository<Unprotected> {
    /// Force-push to the remote. Borrows the handle rather than consuming
    /// it: overwriting a remote pointer does not destroy the local
    /// resource, so the handle stays usable. Each call requires its own
    /// freshly minted token.
    pub fn force_push(&self, _consent: &UserConsent) -> (r: String)
        ensures
            r@ == "["@ + self@.name + "] force-pushed to origin/main"@,
    {
        let mut r = String::from_str("[");
        r.append(self.name.as_str());
        r.append("] force-pushed to origin/main");
        r
    }

    /// Rewrite the repository's history. Consumes the handle: the original
    /// identity is permanently superseded, and the byproduct carries the
    /// prior commit count as its rewritten count.
    pub fn filter_repo(self, _callback: &str, _consent: &UserConsent) -> (r: FilteredRepository)
        ensures
            r.name@ == self@.name,
            r.path@ == self@.path,
            r.rewritten_commits == self@.total_commits,
    {
        FilteredRepository {
            name: self.name,
            path: self.path,
            rewritten_commits: self.total_commits,
        }
    }

    /// Hard reset, discarding unsaved contents. Consumes the handle and
    /// yields a terminal byproduct.
    pub fn reset_hard(self, _consent: &UserConsent) -> (r: ResetRepository)
        ensures
            r.name@ == self@.name,
            r.path@ == self@.path,
    {
        ResetRepository { name: self.name, path: self.path }
    }

    /// Restore branch protection. Raising protection is always permitted,
    /// so no consent token is needed; the protected handle carries the data
    /// forward unchanged.
    pub fn restore_protection(self) -> (r: Repository<Protected>)
        ensures
            r@ == self@,
    {
        Repository {
            name: self.name,
            path: self.path,
            total_commits: self.total_commits,
            state: PhantomData,
        }
    }
}

/// Lowering protection and then restoring it is identity on the handle's
/// data: any unprotected handle `u` produced from a protected handle `p` by
/// `remove_protection`, and any protected handle `q` produced from `u` by
/// `restore_protection`, agree with `p` on identifier, location and commit
/// count — and the restoring leg needs no consent at all.
pub proof fn lemma_round_trip_preserves_data(
    p: Repository<Protected>,
    u: Repository<Unprotected>,
    q: Repository<Protected>,
)
    requires
        u@ == p@,
        q@ == u@,
    ensures
        q@ == p@,
        q@.name == p@.name,
        q@.path == p@.path,
        q@.total_commits == p@.total_commits,
{
}

} // verus!
