//! The policy evaluator: a pure, deterministic function from a requested
//! action and a security context to a permit/deny decision with an auditable
//! rationale. Rules are evaluated in strict priority order; the first
//! matching rule wins. Anything not explicitly allow-listed is denied.

use vstd::prelude::*;

use crate::actions::{
    check_blocked_action, check_read_action, check_system_action, check_write_action,
    is_blocked_action, is_system_action, is_whitelisted_action, is_write_action, str_eq,
};
use crate::decimal::{spec_dec, u64_to_dec_string};

verus! {

/// Relies on serde_json::Value only as an opaque carrier: the policy logic
/// never reads a value of this type.
#[verifier::external_type_specification]
#[verifier::external_body]
pub struct ExValue(serde_json::Value);

/// Maximum risk score allowed for any action.
pub const MAX_RISK_SCORE: u8 = 50;

/// Risk score above which a permitted action is still audited.
pub const AUDIT_RISK_THRESHOLD: u8 = 30;

/// Maximum session age, in seconds, for write and system operations.
pub const MAX_SESSION_AGE_SENSITIVE: u64 = 900;

/// Failed attempts in the last hour at which the account is locked out.
pub const MAX_FAILED_ATTEMPTS: u32 = 5;

/// An action proposed by the untrusted recommender.
pub struct AiRequest {
    /// The action to be performed.
    pub action: String,
    /// The resource being targeted.
    pub target_resource: String,
    /// Risk score 0-100, computed by the caller; trusted only as a number.
    pub risk_score: u8,
    /// The module requesting the action.
    pub requesting_module: String,
    /// User ID context.
    pub user_id: Option<String>,
    /// Organisation ID context.
    pub organisation_id: Option<String>,
    /// Additional metadata; opaque, never read by any rule.
    pub metadata: Option<serde_json::Value>,
}

/// The caller's view of session and authentication state, supplied fresh per
/// call and never retained.
pub struct SecurityContext {
    /// Current user's role.
    pub user_role: String,
    /// Whether MFA has been verified in this session.
    pub mfa_verified: bool,
    /// Session age in seconds.
    pub session_age_seconds: u64,
    /// Whether the request comes from a trusted network. Advisory only: no
    /// current rule reads it, but the field is kept for forward compatibility.
    pub trusted_network: bool,
    /// Number of failed attempts in the last hour.
    pub failed_attempts_last_hour: u32,
}

/// The evaluator's verdict.
pub struct PolicyDecision {
    /// Whether the action is permitted.
    pub permitted: bool,
    /// The policy rule that was applied.
    pub applied_rule: String,
    /// Human-readable reason.
    pub reason: String,
    /// Compliance control reference.
    pub iso_control: String,
    /// Timestamp in Unix milliseconds, echoed from the caller.
    pub timestamp_ms: u64,
    /// Whether this decision should be audited.
    pub audit_required: bool,
}

/// The mathematical model of a request: the fields the rules read, as plain
/// values. The opaque `metadata` is absent because no rule may depend on it.
pub ghost struct AiRequestView {
    pub action: Seq<char>,
    pub target_resource: Seq<char>,
    pub risk_score: u8,
    pub requesting_module: Seq<char>,
    pub user_id: Option<Seq<char>>,
    pub organisation_id: Option<Seq<char>>,
}

/// The mathematical model of a security context.
pub ghost struct SecurityContextView {
    pub user_role: Seq<char>,
    pub mfa_verified: bool,
    pub session_age_seconds: u64,
    pub trusted_network: bool,
    pub failed_attempts_last_hour: u32,
}

/// The mathematical model of a decision.
pub ghost struct DecisionView {
    pub permitted: bool,
    pub applied_rule: Seq<char>,
    pub reason: Seq<char>,
    pub iso_control: Seq<char>,
    pub timestamp_ms: u64,
    pub audit_required: bool,
}

impl View for AiRequest {
    type V = AiRequestView;

    open spec fn view(&self) -> AiRequestView {
        AiRequestView {
            action: self.action@,
            target_resource: self.target_resource@,
            risk_score: self.risk_score,
            requesting_module: self.requesting_module@,
            user_id: match self.user_id {
                Option::Some(ref s) => Option::Some(s@),
                Option::None => Option::None,
            },
            organisation_id: match self.organisation_id {
                Option::Some(ref s) => Option::Some(s@),
                Option::None => Option::None,
            },
        }
    }
}

impl View for SecurityContext {
    type V = SecurityContextView;

    open spec fn view(&self) -> SecurityContextView {
        SecurityContextView {
            user_role: self.user_role@,
            mfa_verified: self.mfa_verified,
            session_age_seconds: self.session_age_seconds,
            trusted_network: self.trusted_network,
            failed_attempts_last_hour: self.failed_attempts_last_hour,
        }
    }
}

impl View for PolicyDecision {
    type V = DecisionView;

    open spec fn view(&self) -> DecisionView {
        DecisionView {
            permitted: self.permitted,
            applied_rule: self.applied_rule@,
            reason: self.reason@,
            iso_control: self.iso_control@,
            timestamp_ms: self.timestamp_ms,
            audit_required: self.audit_required,
        }
    }
}

/// The rules, one variant per row of the rule table, plus the default.
pub enum Rule {
    HardBlock,
    RiskScoreExceeded,
    AccountLockout,
    SessionExpired,
    MfaRequired,
    InsufficientRole,
    NotInWhitelist,
    WhitelistApproved,
}

/// The firing condition of each rule, read off the rule table. The default
/// `WhitelistApproved` has no condition of its own: it matches everything and
/// applies only when no earlier rule does.
pub open spec fn rule_condition(rule: Rule, r: AiRequestView, c: SecurityContextView) -> bool {
    match rule {
        Rule::HardBlock => is_blocked_action(r.action),
        Rule::RiskScoreExceeded => r.risk_score > MAX_RISK_SCORE,
        Rule::AccountLockout => c.failed_attempts_last_hour >= MAX_FAILED_ATTEMPTS,
        Rule::SessionExpired => (is_write_action(r.action) || is_system_action(r.action))
            && c.session_age_seconds > MAX_SESSION_AGE_SENSITIVE,
        Rule::MfaRequired => is_system_action(r.action) && !c.mfa_verified,
        Rule::InsufficientRole => c.user_role == "user"@ && is_system_action(r.action),
        Rule::NotInWhitelist => !is_whitelisted_action(r.action),
        Rule::WhitelistApproved => true,
    }
}

/// The priority of each rule: lower numbers are checked first.
pub open spec fn rule_priority(rule: Rule) -> int {
    match rule {
        Rule::HardBlock => 1,
        Rule::RiskScoreExceeded => 2,
        Rule::AccountLockout => 3,
        Rule::SessionExpired => 4,
        Rule::MfaRequired => 5,
        Rule::InsufficientRole => 6,
        Rule::NotInWhitelist => 7,
        Rule::WhitelistApproved => 8,
    }
}

/// The rule that applies: the first, in priority order, whose condition holds.
pub open spec fn spec_applied_rule(r: AiRequestView, c: SecurityContextView) -> Rule {
    if is_blocked_action(r.action) {
        Rule::HardBlock
    } else if r.risk_score > MAX_RISK_SCORE {
        Rule::RiskScoreExceeded
    } else if c.failed_attempts_last_hour >= MAX_FAILED_ATTEMPTS {
        Rule::AccountLockout
    } else if (is_write_action(r.action) || is_system_action(r.action))
        && c.session_age_seconds > MAX_SESSION_AGE_SENSITIVE {
        Rule::SessionExpired
    } else if is_system_action(r.action) && !c.mfa_verified {
        Rule::MfaRequired
    } else if c.user_role == "user"@ && is_system_action(r.action) {
        Rule::InsufficientRole
    } else if !is_whitelisted_action(r.action) {
        Rule::NotInWhitelist
    } else {
        Rule::WhitelistApproved
    }
}

/// Only the default rule permits; every named rule denies.
pub open spec fn rule_permits(rule: Rule) -> bool {
    rule is WhitelistApproved
}

/// The identifier of each rule, as reported in `applied_rule`.
pub open spec fn rule_name(rule: Rule) -> Seq<char> {
    match rule {
        Rule::HardBlock => "HARD_BLOCK"@,
        Rule::RiskScoreExceeded => "RISK_SCORE_EXCEEDED"@,
        Rule::AccountLockout => "ACCOUNT_LOCKOUT"@,
        Rule::SessionExpired => "SESSION_EXPIRED"@,
        Rule::MfaRequired => "MFA_REQUIRED"@,
        Rule::InsufficientRole => "INSUFFICIENT_ROLE"@,
        Rule::NotInWhitelist => "NOT_IN_WHITELIST"@,
        Rule::WhitelistApproved => "WHITELIST_APPROVED"@,
    }
}

/// The compliance control reference tied to each rule.
pub open spec fn rule_iso_control(rule: Rule) -> Seq<char> {
    match rule {
        Rule::HardBlock => "A.9.4.1"@,
        Rule::RiskScoreExceeded => "A.8.16"@,
        Rule::AccountLockout => "A.9.4.3"@,
        Rule::SessionExpired => "A.9.4.2"@,
        Rule::MfaRequired => "A.9.4.2"@,
        Rule::InsufficientRole => "A.9.2.3"@,
        Rule::NotInWhitelist => "A.9.4.1"@,
        Rule::WhitelistApproved => "A.9.4.1"@,
    }
}

/// Whether a decision under the given rule must be audited. A permitted
/// action is audited when its risk score is above the audit threshold.
pub open spec fn rule_audit_required(rule: Rule, r: AiRequestView) -> bool {
    match rule {
        Rule::HardBlock => true,
        Rule::RiskScoreExceeded => true,
        Rule::AccountLockout => true,
        Rule::SessionExpired => false,
        Rule::MfaRequired => false,
        Rule::InsufficientRole => false,
        Rule::NotInWhitelist => true,
        Rule::WhitelistApproved => r.risk_score > AUDIT_RISK_THRESHOLD,
    }
}

/// The exact reason text reported under each rule, interpolated values
/// included.
pub open spec fn spec_reason(rule: Rule, r: AiRequestView, c: SecurityContextView) -> Seq<char> {
    match rule {
        Rule::HardBlock => "Action '"@ + r.action
            + "' is permanently blocked. AI cannot modify security-critical resources."@,
        Rule::RiskScoreExceeded => "Risk score "@ + spec_dec(r.risk_score as nat)
            + " exceeds maximum allowed 50. Human review required."@,
        Rule::AccountLockout => "Too many failed attempts ("@ + spec_dec(
            c.failed_attempts_last_hour as nat,
        ) + "/5). Account temporarily locked."@,
        Rule::SessionExpired => "Session age "@ + spec_dec(c.session_age_seconds as nat)
            + "s exceeds 900s limit for write operations. Re-authentication required."@,
        Rule::MfaRequired => "System-level actions require MFA verification."@,
        Rule::InsufficientRole => "Role '"@ + c.user_role
            + "' cannot perform system actions. Requires 'power_user' or higher."@,
        Rule::NotInWhitelist => "Action '"@ + r.action
            + "' is not in the permitted actions whitelist. Default deny."@,
        Rule::WhitelistApproved => "Action '"@ + r.action + "' approved. Risk score: "@ + spec_dec(
            r.risk_score as nat,
        ) + "/50."@,
    }
}

/// The whole decision as a function of the inputs: every field is determined
/// by the request, the context and the echoed timestamp.
pub open spec fn spec_decision(r: AiRequestView, c: SecurityContextView, ts: u64) -> DecisionView {
    let rule = spec_applied_rule(r, c);
    DecisionView {
        permitted: rule_permits(rule),
        applied_rule: rule_name(rule),
        reason: spec_reason(rule, r, c),
        iso_control: rule_iso_control(rule),
        timestamp_ms: ts,
        audit_required: rule_audit_required(rule, r),
    }
}

/// Law: an action in the blocked set is always denied under `HARD_BLOCK`,
/// whatever the role, MFA state, session age, risk score or anything else in
/// the request or context says.
pub proof fn lemma_blocked_always_denied(r: AiRequestView, c: SecurityContextView, ts: u64)
    requires
        is_blocked_action(r.action),
    ensures
        spec_applied_rule(r, c) == Rule::HardBlock,
        !spec_decision(r, c, ts).permitted,
        spec_decision(r, c, ts).applied_rule == "HARD_BLOCK"@,
{
}

/// Law: a risk score above the maximum is denied under
/// `RISK_SCORE_EXCEEDED`, unless the higher-priority blocked-set rule already
/// matched.
pub proof fn lemma_high_risk_denied(r: AiRequestView, c: SecurityContextView, ts: u64)
    requires
        r.risk_score > MAX_RISK_SCORE,
        !is_blocked_action(r.action),
    ensures
        spec_applied_rule(r, c) == Rule::RiskScoreExceeded,
        !spec_decision(r, c, ts).permitted,
        spec_decision(r, c, ts).applied_rule == "RISK_SCORE_EXCEEDED"@,
{
}

/// Law: the evaluator is deterministic. Any two decisions that meet
/// `evaluate_policy`'s postcondition for identical request, context and
/// timestamp are identical in every field, the echoed timestamp included.
pub proof fn lemma_evaluate_deterministic(
    r: AiRequestView,
    c: SecurityContextView,
    ts: u64,
    d1: DecisionView,
    d2: DecisionView,
)
    requires
        d1 == spec_decision(r, c, ts),
        d2 == spec_decision(r, c, ts),
    ensures
        d1 == d2,
{
}

/// Law: the first matching rule wins. The applied rule's own condition holds,
/// and no rule whose condition holds has a higher priority (a lower number)
/// than the applied rule; so an input that satisfies two rules at once gets
/// the decision of the higher-priority one.
pub proof fn lemma_first_matching_rule_wins(r: AiRequestView, c: SecurityContextView)
    ensures
        rule_condition(spec_applied_rule(r, c), r, c),
        forall|k: Rule|
            rule_condition(k, r, c) ==> rule_priority(spec_applied_rule(r, c))
                <= rule_priority(k),
{
    assert forall|k: Rule| rule_condition(k, r, c) implies rule_priority(spec_applied_rule(r, c))
        <= rule_priority(k) by {
        let applied = spec_applied_rule(r, c);
        match k {
            Rule::HardBlock => assert(applied == Rule::HardBlock),
            Rule::RiskScoreExceeded => assert(rule_priority(applied) <= 2),
            Rule::AccountLockout => assert(rule_priority(applied) <= 3),
            Rule::SessionExpired => assert(rule_priority(applied) <= 4),
            Rule::MfaRequired => assert(rule_priority(applied) <= 5),
            Rule::InsufficientRole => assert(rule_priority(applied) <= 6),
            Rule::NotInWhitelist => assert(rule_priority(applied) <= 7),
            Rule::WhitelistApproved => assert(rule_priority(applied) <= 8),
        }
    }
}

/// Law: default deny. An action absent from the blocked set and from all
/// three allow-lists is denied under `NOT_IN_WHITELIST`, provided no
/// higher-priority rule fires first; the session, MFA and role rules cannot
/// fire for such an action, since each needs allow-list membership.
pub proof fn lemma_default_deny(r: AiRequestView, c: SecurityContextView, ts: u64)
    requires
        !is_blocked_action(r.action),
        !is_whitelisted_action(r.action),
        r.risk_score <= MAX_RISK_SCORE,
        c.failed_attempts_last_hour < MAX_FAILED_ATTEMPTS,
    ensures
        spec_applied_rule(r, c) == Rule::NotInWhitelist,
        !spec_decision(r, c, ts).permitted,
        spec_decision(r, c, ts).applied_rule == "NOT_IN_WHITELIST"@,
{
}

/// Finds the first rule, in priority order, whose condition holds.
fn classify(request: &AiRequest, context: &SecurityContext) -> (rule: Rule)
    ensures
        rule == spec_applied_rule(request@, context@),
{
    let action = request.action.as_str();
    if check_blocked_action(action) {
        Rule::HardBlock
    } else if request.risk_score > MAX_RISK_SCORE {
        Rule::RiskScoreExceeded
    } else if context.failed_attempts_last_hour >= MAX_FAILED_ATTEMPTS {
        Rule::AccountLockout
    } else {
        let is_write = check_write_action(action);
        let is_system = check_system_action(action);
        if (is_write || is_system) && context.session_age_seconds > MAX_SESSION_AGE_SENSITIVE {
            Rule::SessionExpired
        } else if is_system && !context.mfa_verified {
            Rule::MfaRequired
        } else if str_eq(context.user_role.as_str(), "user") && is_system {
            Rule::InsufficientRole
        } else if !(check_read_action(action) || is_write || is_system) {
            Rule::NotInWhitelist
        } else {
            Rule::WhitelistApproved
        }
    }
}

/// Evaluates the policy: pure, deterministic, never fails. The decision is
/// exactly `spec_decision` of the inputs — the first matching rule in
/// priority order decides permit/deny, rule name, reason text, control
/// reference and audit flag, and the timestamp is echoed unchanged.
pub fn evaluate_policy(
    request: &AiRequest,
    context: &SecurityContext,
    timestamp_ms: u64,
) -> (decision: PolicyDecision)
    ensures
        decision@ == spec_decision(request@, context@, timestamp_ms),
{
    let rule = classify(request, context);
    match rule {
        Rule::HardBlock => {
            let mut reason = String::from_str("Action '");
            reason.append(request.action.as_str());
            reason.append(
                "' is permanently blocked. AI cannot modify security-critical resources.",
            );
            PolicyDecision {
                permitted: false,
                applied_rule: String::from_str("HARD_BLOCK"),
                reason,
                iso_control: String::from_str("A.9.4.1"),
                timestamp_ms,
                audit_required: true,
            }
        },
        Rule::RiskScoreExceeded => {
            let score = u64_to_dec_string(request.risk_score as u64);
            let mut reason = String::from_str("Risk score ");
            reason.append(score.as_str());
            reason.append(" exceeds maximum allowed 50. Human review required.");
            PolicyDecision {
                permitted: false,
                applied_rule: String::from_str("RISK_SCORE_EXCEEDED"),
                reason,
                iso_control: String::from_str("A.8.16"),
                timestamp_ms,
                audit_required: true,
            }
        },
        Rule::AccountLockout => {
            let attempts = u64_to_dec_string(context.failed_attempts_last_hour as u64);
            let mut reason = String::from_str("Too many failed attempts (");
            reason.append(attempts.as_str());
            reason.append("/5). Account temporarily locked.");
            PolicyDecision {
                permitted: false,
                applied_rule: String::from_str("ACCOUNT_LOCKOUT"),
                reason,
                iso_control: String::from_str("A.9.4.3"),
                timestamp_ms,
                audit_required: true,
            }
        },
        Rule::SessionExpired => {
            let age = u64_to_dec_string(context.session_age_seconds);
            let mut reason = String::from_str("Session age ");
            reason.append(age.as_str());
            reason.append("s exceeds 900s limit for write operations. Re-authentication required.");
            PolicyDecision {
                permitted: false,
                applied_rule: String::from_str("SESSION_EXPIRED"),
                reason,
                iso_control: String::from_str("A.9.4.2"),
                timestamp_ms,
                audit_required: false,
            }
        },
        Rule::MfaRequired => {
            PolicyDecision {
                permitted: false,
                applied_rule: String::from_str("MFA_REQUIRED"),
                reason: String::from_str("System-level actions require MFA verification."),
                iso_control: String::from_str("A.9.4.2"),
                timestamp_ms,
                audit_required: false,
            }
        },
        Rule::InsufficientRole => {
            let mut reason = String::from_str("Role '");
            reason.append(context.user_role.as_str());
            reason.append("' cannot perform system actions. Requires 'power_user' or higher.");
            PolicyDecision {
                permitted: false,
                applied_rule: String::from_str("INSUFFICIENT_ROLE"),
                reason,
                iso_control: String::from_str("A.9.2.3"),
                timestamp_ms,
                audit_required: false,
            }
        },
        Rule::NotInWhitelist => {
            let mut reason = String::from_str("Action '");
            reason.append(request.action.as_str());
            reason.append("' is not in the permitted actions whitelist. Default deny.");
            PolicyDecision {
                permitted: false,
                applied_rule: String::from_str("NOT_IN_WHITELIST"),
                reason,
                iso_control: String::from_str("A.9.4.1"),
                timestamp_ms,
                audit_required: true,
            }
        },
        Rule::WhitelistApproved => {
            let score = u64_to_dec_string(request.risk_score as u64);
            let mut reason = String::from_str("Action '");
            reason.append(request.action.as_str());
            reason.append("' approved. Risk score: ");
            reason.append(score.as_str());
            reason.append("/50.");
            PolicyDecision {
                permitted: true,
                applied_rule: String::from_str("WHITELIST_APPROVED"),
                reason,
                iso_control: String::from_str("A.9.4.1"),
                timestamp_ms,
                audit_required: request.risk_score > AUDIT_RISK_THRESHOLD,
            }
        },
    }
}

} // verus!
