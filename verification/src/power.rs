//! Restarting the appliance.

use crate::appliance::{empty_payload, post_empty, post_of};
use crate::db::ApiInfo;
use crate::http_client::PreparedRequest;
use vstd::prelude::*;

verus! {

/// What asking for a reboot gave.
#[derive(Debug, PartialEq, Eq)]
pub struct RebootResponse {
    pub status: String,
}

/// Reboots the appliance.
pub fn reboot_firewall_call(api_info: &ApiInfo) -> (request: PreparedRequest)
    ensures
        request@ == post_of(api_info@, "/api/core/system/reboot"@, empty_payload()),
{
    post_empty(api_info, "/api/core/system/reboot")
}

} // verus!
