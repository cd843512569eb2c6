use policy_engine::{evaluate_policy, AiRequest, SecurityContext};

fn make_context(role: &str, mfa: bool, risk: u8) -> (AiRequest, SecurityContext) {
    let req = AiRequest {
        action: "read_public_cache".to_string(),
        target_resource: "cache:public".to_string(),
        risk_score: risk,
        requesting_module: "com.infinity-os.shell".to_string(),
        user_id: Some("user-123".to_string()),
        organisation_id: Some("org-456".to_string()),
        metadata: None,
    };
    let ctx = SecurityContext {
        user_role: role.to_string(),
        mfa_verified: mfa,
        session_age_seconds: 300,
        trusted_network: true,
        failed_attempts_last_hour: 0,
    };
    (req, ctx)
}

#[test]
fn test_allowed_read_action() {
    let (req, ctx) = make_context("user", false, 10);
    let decision = evaluate_policy(&req, &ctx, 0);
    assert!(decision.permitted);
}

#[test]
fn test_blocked_action_always_denied() {
    let (mut req, ctx) = make_context("super_admin", true, 0);
    req.action = "modify_kernel_scheduler".to_string();
    let decision = evaluate_policy(&req, &ctx, 0);
    assert!(!decision.permitted);
    assert_eq!(decision.applied_rule, "HARD_BLOCK");
}

#[test]
fn test_high_risk_score_denied() {
    let (mut req, ctx) = make_context("user", false, 75);
    req.action = "read_public_cache".to_string();
    let decision = evaluate_policy(&req, &ctx, 0);
    assert!(!decision.permitted);
    assert_eq!(decision.applied_rule, "RISK_SCORE_EXCEEDED");
}

#[test]
fn test_unknown_action_denied() {
    let (mut req, ctx) = make_context("super_admin", true, 0);
    req.action = "some_unknown_action".to_string();
    let decision = evaluate_policy(&req, &ctx, 0);
    assert!(!decision.permitted);
    assert_eq!(decision.applied_rule, "NOT_IN_WHITELIST");
}

#[test]
fn test_system_action_requires_mfa() {
    let (mut req, ctx) = make_context("power_user", false, 10);
    req.action = "schedule_background_task".to_string();
    let decision = evaluate_policy(&req, &ctx, 0);
    assert!(!decision.permitted);
    assert_eq!(decision.applied_rule, "MFA_REQUIRED");
}

#[test]
fn test_account_lockout() {
    let (req, mut ctx) = make_context("user", false, 10);
    ctx.failed_attempts_last_hour = 10;
    let decision = evaluate_policy(&req, &ctx, 0);
    assert!(!decision.permitted);
    assert_eq!(decision.applied_rule, "ACCOUNT_LOCKOUT");
}

#[test]
fn scenario_allowed_read_full_decision() {
    let (req, ctx) = make_context("user", false, 10);
    let decision = evaluate_policy(&req, &ctx, 1234);
    assert!(decision.permitted);
    assert_eq!(decision.applied_rule, "WHITELIST_APPROVED");
    assert!(!decision.audit_required);
    assert_eq!(decision.reason, "Action 'read_public_cache' approved. Risk score: 10/50.");
    assert_eq!(decision.iso_control, "A.9.4.1");
    assert_eq!(decision.timestamp_ms, 1234);
}

#[test]
fn scenario_hard_block_reason_text() {
    let (mut req, ctx) = make_context("super_admin", true, 0);
    req.action = "modify_kernel_scheduler".to_string();
    let decision = evaluate_policy(&req, &ctx, 0);
    assert_eq!(
        decision.reason,
        "Action 'modify_kernel_scheduler' is permanently blocked. AI cannot modify security-critical resources."
    );
    assert_eq!(decision.iso_control, "A.9.4.1");
    assert!(decision.audit_required);
}

#[test]
fn scenario_high_risk_reason_text() {
    let (req, ctx) = make_context("user", false, 75);
    let decision = evaluate_policy(&req, &ctx, 0);
    assert_eq!(decision.reason, "Risk score 75 exceeds maximum allowed 50. Human review required.");
    assert_eq!(decision.iso_control, "A.8.16");
    assert!(decision.audit_required);
}

#[test]
fn scenario_lockout_reason_text() {
    let (req, mut ctx) = make_context("user", false, 10);
    ctx.failed_attempts_last_hour = 10;
    let decision = evaluate_policy(&req, &ctx, 0);
    assert_eq!(decision.reason, "Too many failed attempts (10/5). Account temporarily locked.");
    assert_eq!(decision.iso_control, "A.9.4.3");
    assert!(decision.audit_required);
}

#[test]
fn lockout_on_allowed_write_action() {
    let (mut req, mut ctx) = make_context("power_user", true, 10);
    req.action = "write_notification".to_string();
    ctx.failed_attempts_last_hour = 5;
    let decision = evaluate_policy(&req, &ctx, 0);
    assert!(!decision.permitted);
    assert_eq!(decision.applied_rule, "ACCOUNT_LOCKOUT");
}

#[test]
fn session_expired_for_write_action() {
    let (mut req, mut ctx) = make_context("power_user", true, 10);
    req.action = "write_user_preferences".to_string();
    ctx.session_age_seconds = 901;
    let decision = evaluate_policy(&req, &ctx, 0);
    assert!(!decision.permitted);
    assert_eq!(decision.applied_rule, "SESSION_EXPIRED");
    assert_eq!(
        decision.reason,
        "Session age 901s exceeds 900s limit for write operations. Re-authentication required."
    );
    assert_eq!(decision.iso_control, "A.9.4.2");
    assert!(!decision.audit_required);
}

#[test]
fn session_age_at_limit_still_allowed() {
    let (mut req, mut ctx) = make_context("power_user", true, 10);
    req.action = "write_user_preferences".to_string();
    ctx.session_age_seconds = 900;
    let decision = evaluate_policy(&req, &ctx, 0);
    assert!(decision.permitted);
    assert_eq!(decision.applied_rule, "WHITELIST_APPROVED");
}

#[test]
fn old_session_read_action_still_allowed() {
    let (req, mut ctx) = make_context("user", false, 10);
    ctx.session_age_seconds = 100000;
    let decision = evaluate_policy(&req, &ctx, 0);
    assert!(decision.permitted);
    assert_eq!(decision.applied_rule, "WHITELIST_APPROVED");
}

#[test]
fn mfa_required_reason_text() {
    let (mut req, ctx) = make_context("power_user", false, 10);
    req.action = "schedule_background_task".to_string();
    let decision = evaluate_policy(&req, &ctx, 0);
    assert_eq!(decision.reason, "System-level actions require MFA verification.");
    assert_eq!(decision.iso_control, "A.9.4.2");
    assert!(!decision.audit_required);
}

#[test]
fn insufficient_role_for_system_action() {
    let (mut req, ctx) = make_context("user", true, 10);
    req.action = "clear_expired_cache".to_string();
    let decision = evaluate_policy(&req, &ctx, 0);
    assert!(!decision.permitted);
    assert_eq!(decision.applied_rule, "INSUFFICIENT_ROLE");
    assert_eq!(
        decision.reason,
        "Role 'user' cannot perform system actions. Requires 'power_user' or higher."
    );
    assert_eq!(decision.iso_control, "A.9.2.3");
    assert!(!decision.audit_required);
}

#[test]
fn power_user_system_action_with_mfa_allowed() {
    let (mut req, ctx) = make_context("power_user", true, 10);
    req.action = "schedule_background_task".to_string();
    let decision = evaluate_policy(&req, &ctx, 0);
    assert!(decision.permitted);
    assert_eq!(decision.applied_rule, "WHITELIST_APPROVED");
}

#[test]
fn unknown_action_reason_text() {
    let (mut req, ctx) = make_context("super_admin", true, 0);
    req.action = "some_unknown_action".to_string();
    let decision = evaluate_policy(&req, &ctx, 0);
    assert_eq!(
        decision.reason,
        "Action 'some_unknown_action' is not in the permitted actions whitelist. Default deny."
    );
    assert_eq!(decision.iso_control, "A.9.4.1");
    assert!(decision.audit_required);
}

#[test]
fn empty_action_denied_by_default() {
    let (mut req, ctx) = make_context("super_admin", true, 0);
    req.action = "".to_string();
    let decision = evaluate_policy(&req, &ctx, 0);
    assert!(!decision.permitted);
    assert_eq!(decision.applied_rule, "NOT_IN_WHITELIST");
}

#[test]
fn priority_hard_block_beats_high_risk() {
    let (mut req, ctx) = make_context("user", false, 99);
    req.action = "delete_user_data".to_string();
    let decision = evaluate_policy(&req, &ctx, 0);
    assert_eq!(decision.applied_rule, "HARD_BLOCK");
}

#[test]
fn priority_high_risk_beats_lockout() {
    let (req, mut ctx) = make_context("user", false, 80);
    ctx.failed_attempts_last_hour = 10;
    let decision = evaluate_policy(&req, &ctx, 0);
    assert_eq!(decision.applied_rule, "RISK_SCORE_EXCEEDED");
}

#[test]
fn priority_session_expired_beats_mfa() {
    let (mut req, mut ctx) = make_context("power_user", false, 10);
    req.action = "schedule_background_task".to_string();
    ctx.session_age_seconds = 2000;
    let decision = evaluate_policy(&req, &ctx, 0);
    assert_eq!(decision.applied_rule, "SESSION_EXPIRED");
}

#[test]
fn audit_required_just_above_threshold() {
    let (req, ctx) = make_context("user", false, 31);
    let decision = evaluate_policy(&req, &ctx, 0);
    assert!(decision.permitted);
    assert_eq!(decision.applied_rule, "WHITELIST_APPROVED");
    assert!(decision.audit_required);
    assert_eq!(decision.reason, "Action 'read_public_cache' approved. Risk score: 31/50.");
}

#[test]
fn no_audit_at_threshold() {
    let (req, ctx) = make_context("user", false, 30);
    let decision = evaluate_policy(&req, &ctx, 0);
    assert!(decision.permitted);
    assert!(!decision.audit_required);
}

#[test]
fn risk_at_limit_still_allowed() {
    let (req, ctx) = make_context("user", false, 50);
    let decision = evaluate_policy(&req, &ctx, 0);
    assert!(decision.permitted);
    assert_eq!(decision.applied_rule, "WHITELIST_APPROVED");
}

#[test]
fn risk_just_over_limit_denied() {
    let (req, ctx) = make_context("user", false, 51);
    let decision = evaluate_policy(&req, &ctx, 0);
    assert!(!decision.permitted);
    assert_eq!(decision.applied_rule, "RISK_SCORE_EXCEEDED");
    assert_eq!(decision.reason, "Risk score 51 exceeds maximum allowed 50. Human review required.");
}

#[test]
fn evaluate_twice_identical_decisions() {
    let (mut req, mut ctx) = make_context("power_user", true, 40);
    req.action = "send_notification".to_string();
    ctx.session_age_seconds = 123;
    let d1 = evaluate_policy(&req, &ctx, 777);
    let d2 = evaluate_policy(&req, &ctx, 777);
    assert_eq!(d1.permitted, d2.permitted);
    assert_eq!(d1.applied_rule, d2.applied_rule);
    assert_eq!(d1.reason, d2.reason);
    assert_eq!(d1.iso_control, d2.iso_control);
    assert_eq!(d1.timestamp_ms, d2.timestamp_ms);
    assert_eq!(d1.audit_required, d2.audit_required);
}

#[test]
fn metadata_does_not_change_decision() {
    let (mut req, ctx) = make_context("user", false, 10);
    req.metadata = Some(serde_json::Value::String("advisory note".to_string()));
    let decision = evaluate_policy(&req, &ctx, 0);
    assert!(decision.permitted);
    assert_eq!(decision.applied_rule, "WHITELIST_APPROVED");
    assert_eq!(decision.reason, "Action 'read_public_cache' approved. Risk score: 10/50.");
}

#[test]
fn untrusted_network_has_no_effect() {
    let (req, mut ctx) = make_context("user", false, 10);
    ctx.trusted_network = false;
    let decision = evaluate_policy(&req, &ctx, 0);
    assert!(decision.permitted);
    assert_eq!(decision.applied_rule, "WHITELIST_APPROVED");
}

#[test]
fn timestamp_is_echoed() {
    let (req, ctx) = make_context("user", false, 10);
    let decision = evaluate_policy(&req, &ctx, 1730000000123);
    assert_eq!(decision.timestamp_ms, 1730000000123);
}

#[test]
fn out_of_range_risk_score_still_decided() {
    let (req, ctx) = make_context("user", false, 255);
    let decision = evaluate_policy(&req, &ctx, 0);
    assert!(!decision.permitted);
    assert_eq!(decision.applied_rule, "RISK_SCORE_EXCEEDED");
    assert_eq!(
        decision.reason,
        "Risk score 255 exceeds maximum allowed 50. Human review required."
    );
}
