//! The traffic of the interfaces.

use crate::appliance::{get, get_of};
use crate::db::ApiInfo;
use crate::http_client::PreparedRequest;
use vstd::prelude::*;

verus! {

/// The counters of one interface.
#[derive(Debug, PartialEq, Eq)]
pub struct InterfaceData {
    pub name: String,
    pub bytes_received: String,
    pub bytes_transmitted: String,
    pub device: String,
    pub driver: String,
}

/// Reads the traffic of the interfaces.
pub fn get_interface_traffic_call(api_info: &ApiInfo) -> (request: PreparedRequest)
    ensures
        request@ == get_of(api_info@, "/api/diagnostics/traffic/interface"@),
{
    get(api_info, "/api/diagnostics/traffic/interface")
}

} // verus!
