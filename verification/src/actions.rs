//! The fixed action classification sets: three allow-lists (read, write,
//! system) and one list of permanently blocked actions. Membership is exact
//! string match; anything outside all three allow-lists is denied by default.

use vstd::prelude::*;

verus! {

/// Character-for-character equality of two string slices.
pub fn str_eq(a: &str, b: &str) -> (r: bool)
    ensures
        r == (a@ == b@),
{
    let sa: String = a.to_owned();
    let sb: String = b.to_owned();
    sa == sb
}

/// Membership in the read allow-list.
pub open spec fn is_read_action(action: Seq<char>) -> bool {
    ||| action == "read_public_cache"@
    ||| action == "read_user_preferences"@
    ||| action == "read_module_config"@
    ||| action == "read_notification_settings"@
    ||| action == "read_search_index"@
    ||| action == "read_file_metadata"@
    ||| action == "read_app_store_listings"@
    ||| action == "read_system_metrics"@
}

/// Membership in the write allow-list.
pub open spec fn is_write_action(action: Seq<char>) -> bool {
    ||| action == "write_user_preferences"@
    ||| action == "write_notification"@
    ||| action == "write_search_index"@
    ||| action == "write_ai_suggestion"@
    ||| action == "write_analytics_event"@
    ||| action == "adjust_ui_theme"@
    ||| action == "prefetch_module"@
    ||| action == "cache_file_metadata"@
}

/// Membership in the system allow-list.
pub open spec fn is_system_action(action: Seq<char>) -> bool {
    ||| action == "schedule_background_task"@
    ||| action == "clear_expired_cache"@
    ||| action == "compress_old_logs"@
    ||| action == "send_notification"@
    ||| action == "update_search_ranking"@
}

/// Membership in the blocked list: these actions are denied whatever the
/// context says.
pub open spec fn is_blocked_action(action: Seq<char>) -> bool {
    ||| action == "modify_kernel_scheduler"@
    ||| action == "modify_security_policy"@
    ||| action == "delete_user_data"@
    ||| action == "modify_user_permissions"@
    ||| action == "access_other_user_files"@
    ||| action == "modify_audit_logs"@
    ||| action == "disable_mfa"@
    ||| action == "modify_encryption_keys"@
    ||| action == "access_vault_secrets"@
    ||| action == "modify_rbac_roles"@
    ||| action == "execute_arbitrary_code"@
    ||| action == "modify_network_config"@
    ||| action == "access_admin_panel"@
    ||| action == "modify_compliance_settings"@
}

/// An action is whitelisted when some allow-list contains it.
pub open spec fn is_whitelisted_action(action: Seq<char>) -> bool {
    is_read_action(action) || is_write_action(action) || is_system_action(action)
}

/// Decides membership in the read allow-list.
pub fn check_read_action(action: &str) -> (r: bool)
    ensures
        r == is_read_action(action@),
{
    str_eq(action, "read_public_cache") || str_eq(action, "read_user_preferences") || str_eq(
        action,
        "read_module_config",
    ) || str_eq(action, "read_notification_settings") || str_eq(action, "read_search_index")
        || str_eq(action, "read_file_metadata") || str_eq(action, "read_app_store_listings")
        || str_eq(action, "read_system_metrics")
}

/// Decides membership in the write allow-list.
pub fn check_write_action(action: &str) -> (r: bool)
    ensures
        r == is_write_action(action@),
{
    str_eq(action, "write_user_preferences") || str_eq(action, "write_notification") || str_eq(
        action,
        "write_search_index",
    ) || str_eq(action, "write_ai_suggestion") || str_eq(action, "write_analytics_event")
        || str_eq(action, "adjust_ui_theme") || str_eq(action, "prefetch_module") || str_eq(
        action,
        "cache_file_metadata",
    )
}

/// Decides membership in the system allow-list.
pub fn check_system_action(action: &str) -> (r: bool)
    ensures
        r == is_system_action(action@),
{
    str_eq(action, "schedule_background_task") || str_eq(action, "clear_expired_cache") || str_eq(
        action,
        "compress_old_logs",
    ) || str_eq(action, "send_notification") || str_eq(action, "update_search_ranking")
}

/// Decides membership in the blocked list.
pub fn check_blocked_action(action: &str) -> (r: bool)
    ensures
        r == is_blocked_action(action@),
{
    str_eq(action, "modify_kernel_scheduler") || str_eq(action, "modify_security_policy")
        || str_eq(action, "delete_user_data") || str_eq(action, "modify_user_permissions")
        || str_eq(action, "access_other_user_files") || str_eq(action, "modify_audit_logs")
        || str_eq(action, "disable_mfa") || str_eq(action, "modify_encryption_keys") || str_eq(
        action,
        "access_vault_secrets",
    ) || str_eq(action, "modify_rbac_roles") || str_eq(action, "execute_arbitrary_code") || str_eq(
        action,
        "modify_network_config",
    ) || str_eq(action, "access_admin_panel") || str_eq(action, "modify_compliance_settings")
}

} // verus!
