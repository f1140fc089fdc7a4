//! A capability-gated resource state machine.
//!
//! A repository handle is parameterized by its protection state. The
//! operations legally callable on a handle are exactly the ones defined for
//! its current state: a protected handle exposes only the safe operations,
//! and the destructive ones do not exist on it at all, so an illegal call is
//! a compile-time error rather than a rejected runtime request. Lowering
//! protection consumes the protected handle together with a consent token
//! and yields an unprotected handle; the irreversible operations consume the
//! unprotected handle and yield a terminal byproduct with no way back into
//! the state machine. Consent tokens are unforgeable: the only factory is
//! [`SafetyGate::request_consent`], which records every grant in an
//! append-only audit log, one record per token.

mod consent;
mod decimal;
mod outcome;
mod repo;

pub use consent::SafetyGate;
pub use consent::UserConsent;
pub use decimal::decimal_digits;
pub use decimal::usize_to_decimal;
pub use outcome::FilteredRepository;
pub use outcome::ResetRepository;
pub use repo::lemma_round_trip_preserves_data;
pub use repo::Protected;
pub use repo::RepoData;
pub use repo::Repository;
pub use repo::Unprotected;
