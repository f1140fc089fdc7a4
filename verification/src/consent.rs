//! The consent authority and its unforgeable tokens.
//!
//! A [`UserConsent`] proves that a human approved one specific destructive
//! operation. Its fields are private and it has no constructor of its own:
//! the only factory is [`SafetyGate::request_consent`], so no other code can
//! fabricate approval by naming the fields. Every grant is recorded in the
//! gate's append-only audit log, one record per token.

use vstd::prelude::*;
use vstd::string::StringExecFns;

verus! {

/// Proof that a human approved a specific destructive operation.
///
/// There is no public constructor and no `Default`: the sole producer is
/// [`SafetyGate::request_consent`].
pub struct UserConsent {
    /// What the user approved. Private, set once at mint time.
    operation: String,
    /// Opaque token from the approval flow.
    token: u64,
}

impl UserConsent {
    /// The operation description this token was minted for.
    pub closed spec fn operation_desc(&self) -> Seq<char> {
        self.operation@
    }
}

/// The sole issuer of [`UserConsent`] tokens; keeper of the append-only
/// audit log of grants.
pub struct SafetyGate {
    consent_log: Vec<String>,
}

impl SafetyGate {
    /// The audit log as a sequence of records, in issuance order.
    pub closed spec fn log(&self) -> Seq<Seq<char>> {
        self.consent_log.deep_view()
    }

    /// A fresh gate starts with an empty audit log.
    pub fn new() -> (r: SafetyGate)
        ensures
            r.log() == Seq::<Seq<char>>::empty(),
    {
        SafetyGate { consent_log: Vec::new() }
    }

    /// Request consent for a destructive operation.
    ///
    /// Models an interactive approval flow as synchronous and
    /// unconditionally granted. Appends exactly one `"GRANTED: "` record to
    /// the audit log and mints a token bound to the given description; the
    /// new record and the token's description agree, so every token in
    /// existence corresponds to exactly one log entry.
    pub fn request_consent(&mut self, operation_description: &str) -> (r: UserConsent)
        ensures
            r.operation_desc() == operation_description@,
            final(self).log() == old(self).log().push("GRANTED: "@ + operation_description@),
            final(self).log().len() == old(self).log().len() + 1,
    {
        let mut record = String::from_str("GRANTED: ");
        record.append(operation_description);
        self.consent_log.push(record);
        UserConsent { operation: String::from_str(operation_description), token: 0xDEAD_BEEF }
    }

    /// Read-only view of all grant records issued so far, in issuance order.
    pub fn audit_trail(&self) -> (r: &Vec<String>)
        ensures
            r.deep_view() == self.log(),
    {
        &self.consent_log
    }
}

} // verus!
