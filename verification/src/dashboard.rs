//! The gateways and services of the appliance.

use crate::appliance::{empty_payload, get, get_of, post_empty, post_of};
use crate::db::ApiInfo;
use crate::http_client::PreparedRequest;
use crate::text::joined;
use vstd::prelude::*;

verus! {

/// The state of the gateways.
#[derive(Debug, PartialEq, Eq)]
pub struct GatewayStatus {
    pub items: Vec<GatewayItem>,
    pub status: String,
}

/// The state of one gateway.
#[derive(Debug, PartialEq, Eq)]
pub struct GatewayItem {
    pub name: String,
    pub address: String,
    pub status: String,
    pub loss: String,
    pub delay: String,
    pub stddev: String,
    pub status_translated: String,
}

/// One page of the services.
#[derive(Debug, PartialEq, Eq)]
pub struct ServicesResponse {
    pub total: u32,
    pub row_count: u32,
    pub current: u32,
    pub rows: Vec<Service>,
}

/// One service.
#[derive(Debug, PartialEq, Eq)]
pub struct Service {
    pub id: String,
    pub locked: u8,
    pub running: u8,
    pub description: String,
    pub name: String,
}

/// What a restart of a service gave.
#[derive(Debug, PartialEq, Eq)]
pub struct RestartServiceResponse {
    pub result: String,
}

/// Reads the state of the gateways.
pub fn get_gateway_status_call(api_info: &ApiInfo) -> (request: PreparedRequest)
    ensures
        request@ == get_of(api_info@, "/api/routes/gateway/status"@),
{
    get(api_info, "/api/routes/gateway/status")
}

/// Reads the services.
pub fn get_services_call(api_info: &ApiInfo) -> (request: PreparedRequest)
    ensures
        request@ == get_of(api_info@, "/api/core/service/search"@),
{
    get(api_info, "/api/core/service/search")
}

/// Restarts the service with the identifier `service_id`.
pub fn restart_service_call(api_info: &ApiInfo, service_id: &str) -> (request: PreparedRequest)
    ensures
        request@ == post_of(
            api_info@,
            "/api/core/service/restart/"@ + service_id@,
            empty_payload(),
        ),
{
    post_empty(api_info, joined("/api/core/service/restart/", service_id).as_str())
}

} // verus!
