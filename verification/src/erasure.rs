//! The erasure request validator: decides whether a data-subject-deletion
//! request may proceed. Independent of the policy evaluator, but with the
//! same permit/deny/reason/control-reference shape. On permit, the action
//! label tells the collaborator to shred the vault key rather than delete
//! records.

use vstd::prelude::*;

use crate::actions::str_eq;

verus! {

/// The verdict on an erasure request.
pub struct DeletionDecision {
    /// Whether the deletion may proceed.
    pub permitted: bool,
    /// Human-readable reason.
    pub reason: String,
    /// What the collaborator should do: shred the vault key, or nothing.
    pub action: String,
    /// Compliance control reference.
    pub iso_control: String,
    /// The legal basis for the erasure right.
    pub gdpr_article: String,
    /// Timestamp in Unix milliseconds, echoed from the caller.
    pub timestamp_ms: u64,
}

/// The mathematical model of a deletion decision.
pub ghost struct DeletionDecisionView {
    pub permitted: bool,
    pub reason: Seq<char>,
    pub action: Seq<char>,
    pub iso_control: Seq<char>,
    pub gdpr_article: Seq<char>,
    pub timestamp_ms: u64,
}

impl View for DeletionDecision {
    type V = DeletionDecisionView;

    open spec fn view(&self) -> DeletionDecisionView {
        DeletionDecisionView {
            permitted: self.permitted,
            reason: self.reason@,
            action: self.action@,
            iso_control: self.iso_control@,
            gdpr_article: self.gdpr_article@,
            timestamp_ms: self.timestamp_ms,
        }
    }
}

/// An erasure request is permitted exactly when the requester is the data
/// subject, or holds one of the two admin roles.
pub open spec fn spec_erasure_permitted(
    user_id: Seq<char>,
    requesting_user_id: Seq<char>,
    requester_role: Seq<char>,
) -> bool {
    user_id == requesting_user_id || requester_role == "org_admin"@ || requester_role
        == "super_admin"@
}

/// The whole deletion decision as a function of the inputs.
pub open spec fn spec_deletion_decision(
    user_id: Seq<char>,
    requesting_user_id: Seq<char>,
    requester_role: Seq<char>,
    ts: u64,
) -> DeletionDecisionView {
    let permitted = spec_erasure_permitted(user_id, requesting_user_id, requester_role);
    DeletionDecisionView {
        permitted,
        reason: if permitted {
            "GDPR deletion request validated. Proceed with crypto-shredding."@
        } else {
            "Deletion request denied: requester is not the data subject or an authorised admin."@
        },
        action: if permitted {
            "DELETE_VAULT_KEY"@
        } else {
            "DENY"@
        },
        iso_control: "A.8.3"@,
        gdpr_article: "Article 17 — Right to erasure"@,
        timestamp_ms: ts,
    }
}

/// Validates an erasure request: pure, deterministic, never fails. Permits
/// exactly when the requester is the data subject or an authorised admin.
pub fn validate_gdpr_deletion(
    user_id: &str,
    requesting_user_id: &str,
    requester_role: &str,
    timestamp_ms: u64,
) -> (decision: DeletionDecision)
    ensures
        decision@ == spec_deletion_decision(user_id@, requesting_user_id@, requester_role@, timestamp_ms),
{
    let permitted = str_eq(user_id, requesting_user_id) || str_eq(requester_role, "org_admin")
        || str_eq(requester_role, "super_admin");
    DeletionDecision {
        permitted,
        reason: if permitted {
            String::from_str("GDPR deletion request validated. Proceed with crypto-shredding.")
        } else {
            String::from_str(
                "Deletion request denied: requester is not the data subject or an authorised admin.",
            )
        },
        action: if permitted {
            String::from_str("DELETE_VAULT_KEY")
        } else {
            String::from_str("DENY")
        },
        iso_control: String::from_str("A.8.3"),
        gdpr_article: String::from_str("Article 17 — Right to erasure"),
        timestamp_ms,
    }
}

} // verus!
