//! The rules of the packet filter.

use crate::appliance::{empty_payload, post_empty, post_of, post_search, search_payload};
use crate::db::ApiInfo;
use crate::http_client::PreparedRequest;
use crate::text::joined;
use vstd::prelude::*;

verus! {

/// One rule.
#[derive(Debug, PartialEq, Eq)]
pub struct FirewallRule {
    pub uuid: String,
    pub enabled: String,
    pub sequence: String,
    pub description: String,
}

/// One page of the rules.
#[derive(Debug, PartialEq, Eq)]
pub struct FirewallRulesResponse {
    pub rows: Vec<FirewallRule>,
    pub row_count: u32,
    pub total: u32,
    pub current: u32,
}

/// What switching a rule on or off gave.
#[derive(Debug, PartialEq, Eq)]
pub struct ToggleRuleResponse {
    pub result: String,
    pub changed: bool,
}

/// What applying the changes gave.
#[derive(Debug, PartialEq, Eq)]
pub struct ApplyResponse {
    pub status: String,
}

/// Reads all rules.
pub fn get_firewall_rules_call(api_info: &ApiInfo) -> (request: PreparedRequest)
    ensures
        request@ == post_of(api_info@, "/api/firewall/filter/searchRule"@, search_payload()),
{
    post_search(api_info, "/api/firewall/filter/searchRule")
}

/// Switches the rule with the identifier `uuid` on or off.
pub fn toggle_firewall_rule_call(api_info: &ApiInfo, uuid: &str) -> (request: PreparedRequest)
    ensures
        request@ == post_of(
            api_info@,
            "/api/firewall/filter/toggleRule/"@ + uuid@,
            empty_payload(),
        ),
{
    post_empty(api_info, joined("/api/firewall/filter/toggleRule/", uuid).as_str())
}

/// Applies the changes made to the rules.
pub fn apply_firewall_changes_call(api_info: &ApiInfo) -> (request: PreparedRequest)
    ensures
        request@ == post_of(api_info@, "/api/firewall/filter/apply"@, empty_payload()),
{
    post_empty(api_info, "/api/firewall/filter/apply")
}

} // verus!
