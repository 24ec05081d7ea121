//! The static routes of the appliance.

use crate::appliance::{
    empty_payload, get, get_of, post, post_empty, post_of, post_search, search_payload,
};
use crate::db::ApiInfo;
use crate::http_client::PreparedRequest;
use crate::json::{push_quoted, quoted};
use std::collections::HashMap;
use crate::text::joined;
use vstd::prelude::*;

verus! {

/// One route.
#[derive(Debug, PartialEq, Eq)]
pub struct Route {
    pub uuid: String,
    pub disabled: String,
    pub network: String,
    pub gateway: String,
    pub descr: String,
}

/// One page of the routes.
#[derive(Debug, PartialEq, Eq)]
pub struct RoutesResponse {
    pub rows: Vec<Route>,
    pub row_count: u32,
    pub total: u32,
    pub current: u32,
}

/// A gateway that a route can go through.
#[derive(Debug, PartialEq, Eq)]
pub struct GatewayOption {
    pub value: String,
    pub selected: u8,
}

/// The form of a route, with the gateways to choose from.
#[derive(Debug, PartialEq, Eq)]
pub struct RouteInfo {
    pub network: String,
    pub gateway: HashMap<String, GatewayOption>,
    pub descr: String,
    pub disabled: String,
}

/// The answer that holds the form of a route.
#[derive(Debug, PartialEq, Eq)]
pub struct RouteInfoResponse {
    pub route: RouteInfo,
}

/// What adding a route gave.
#[derive(Debug, PartialEq, Eq)]
pub struct AddRouteResponse {
    pub result: String,
    pub uuid: String,
}

/// What switching a route on or off gave.
#[derive(Debug, PartialEq, Eq)]
pub struct ToggleResponse {
    pub result: String,
}

/// What applying the changes gave.
#[derive(Debug, PartialEq, Eq)]
pub struct ReconfigureResponse {
    pub status: String,
}

/// Reads all routes.
pub fn get_routes_call(api_info: &ApiInfo) -> (request: PreparedRequest)
    ensures
        request@ == post_of(api_info@, "/api/routes/routes/searchroute"@, search_payload()),
{
    post_search(api_info, "/api/routes/routes/searchroute")
}

/// Reads the form of a route.
pub fn get_route_info_call(api_info: &ApiInfo) -> (request: PreparedRequest)
    ensures
        request@ == get_of(api_info@, "/api/routes/routes/getroute"@),
{
    get(api_info, "/api/routes/routes/getroute")
}

/// The body that describes a new route. A disabled route is marked `1`, an
/// enabled one `0`.
pub open spec fn route_payload_of(
    network: Seq<char>,
    gateway: Seq<char>,
    description: Seq<char>,
    disabled: bool,
) -> Seq<char> {
    "{\"route\":{\"descr\":"@ + quoted(description) + ",\"disabled\":"@ + (if disabled {
        "\"1\""@
    } else {
        "\"0\""@
    }) + ",\"gateway\":"@ + quoted(gateway) + ",\"network\":"@ + quoted(network) + "}}"@
}

/// The body that describes a new route.
pub fn route_payload(network: &str, gateway: &str, description: &str, disabled: bool) -> (payload:
    String)
    ensures
        payload@ == route_payload_of(network@, gateway@, description@, disabled),
{
    let mut payload = "{\"route\":{\"descr\":".to_owned();
    push_quoted(&mut payload, description);
    payload.append(",\"disabled\":");
    if disabled {
        payload.append("\"1\"");
    } else {
        payload.append("\"0\"");
    }
    payload.append(",\"gateway\":");
    push_quoted(&mut payload, gateway);
    payload.append(",\"network\":");
    push_quoted(&mut payload, network);
    payload.append("}}");
    payload
}

/// Adds a route.
pub fn add_route_call(
    api_info: &ApiInfo,
    network: &str,
    gateway: &str,
    description: &str,
    disabled: bool,
) -> (request: PreparedRequest)
    ensures
        request@ == post_of(
            api_info@,
            "/api/routes/routes/addroute"@,
            route_payload_of(network@, gateway@, description@, disabled),
        ),
{
    post(
        api_info,
        "/api/routes/routes/addroute",
        route_payload(network, gateway, description, disabled),
    )
}

/// Deletes the route with the identifier `uuid`.
pub fn delete_route_call(api_info: &ApiInfo, uuid: &str) -> (request: PreparedRequest)
    ensures
        request@ == post_of(api_info@, "/api/routes/routes/delroute/"@ + uuid@, empty_payload()),
{
    post_empty(api_info, joined("/api/routes/routes/delroute/", uuid).as_str())
}

/// Switches the route with the identifier `uuid` on or off.
pub fn toggle_route_call(api_info: &ApiInfo, uuid: &str) -> (request: PreparedRequest)
    ensures
        request@ == post_of(
            api_info@,
            "/api/routes/routes/toggleroute/"@ + uuid@,
            empty_payload(),
        ),
{
    post_empty(api_info, joined("/api/routes/routes/toggleroute/", uuid).as_str())
}

/// Applies the changes made to the routes.
pub fn apply_changes_call(api_info: &ApiInfo) -> (request: PreparedRequest)
    ensures
        request@ == post_of(api_info@, "/api/routes/routes/reconfigure"@, empty_payload()),
{
    post_empty(api_info, "/api/routes/routes/reconfigure")
}

} // verus!
