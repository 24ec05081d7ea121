//! What every call to an appliance shares: the profile it goes to, the
//! address of an endpoint, and the credentials it is made with.

use crate::db::{default_of, ApiInfo, ApiInfoView, Database};
use crate::http_client::{
    headers_view, prepare, request_of, string_view, Header, HeaderView, Method, PreparedRequest,
    PreparedRequestView,
};
use crate::text::{decimal, push_decimal};
use vstd::prelude::*;

verus! {

/// The seconds that a call to an appliance may take.
pub const CALL_TIMEOUT_SECONDS: u64 = 30;

/// The address of an endpoint of the appliance of a profile: the base
/// address, a colon, the port in decimal, and the endpoint's path.
pub open spec fn api_url_of(profile: ApiInfoView, endpoint: Seq<char>) -> Seq<char> {
    profile.api_url + ":"@ + decimal(profile.port as nat) + endpoint
}

/// The address of an endpoint of the appliance of a profile. The base
/// address is taken as it is, scheme included.
pub fn build_api_url(api_info: &ApiInfo, endpoint: &str) -> (url: String)
    ensures
        url@ == api_url_of(api_info@, endpoint@),
{
    let mut url = api_info.api_url.clone();
    url.append(":");
    push_decimal(&mut url, api_info.port as u64);
    url.append(endpoint);
    url
}

/// The profile that calls go to: the default profile of the store.
pub fn current_profile(database: &Database) -> (r: Result<ApiInfo, String>)
    ensures
        match default_of(database@.profiles) {
            Some(profile) => r is Ok && r->Ok_0@ == profile,
            None => r is Err && r->Err_0@ == "API info not found"@,
        },
{
    match database.get_default_api_info() {
        Ok(Some(api_info)) => Ok(api_info),
        Ok(None) => Err("API info not found".to_owned()),
        Err(error) => {
            let mut text = "Failed to get API info: ".to_owned();
            text.append(error.message().as_str());
            Err(text)
        },
    }
}

/// The call of an endpoint of the appliance of a profile: the address is
/// built from the profile, and the key and secret of the profile are the
/// credentials.
pub open spec fn call_of(
    profile: ApiInfoView,
    method: Method,
    endpoint: Seq<char>,
    payload: Option<Seq<char>>,
    headers: Option<Seq<HeaderView>>,
    timeout_seconds: u64,
) -> PreparedRequestView {
    request_of(
        method,
        api_url_of(profile, endpoint),
        payload,
        headers,
        Some(timeout_seconds),
        Some(profile.api_key),
        Some(profile.api_secret),
    )
}

/// Prepares the call of an endpoint of the appliance of a profile.
/// `payload` is the body as JSON text.
pub fn call(
    api_info: &ApiInfo,
    method: Method,
    endpoint: &str,
    payload: Option<String>,
    headers: Option<Vec<Header>>,
    timeout_seconds: u64,
) -> (request: PreparedRequest)
    ensures
        request@ == call_of(
            api_info@,
            method,
            endpoint@,
            string_view(payload),
            headers_view(headers),
            timeout_seconds,
        ),
{
    let url = build_api_url(api_info, endpoint);
    prepare(
        method,
        url.as_str(),
        payload,
        headers,
        Some(timeout_seconds),
        Some(api_info.api_key.as_str()),
        Some(api_info.api_secret.as_str()),
    )
}

/// A GET of an endpoint, with the usual time to answer.
pub open spec fn get_of(profile: ApiInfoView, endpoint: Seq<char>) -> PreparedRequestView {
    call_of(profile, Method::Get, endpoint, None, None, CALL_TIMEOUT_SECONDS)
}

/// A POST to an endpoint with a JSON body, with the usual time to answer.
pub open spec fn post_of(
    profile: ApiInfoView,
    endpoint: Seq<char>,
    payload: Seq<char>,
) -> PreparedRequestView {
    call_of(profile, Method::Post, endpoint, Some(payload), None, CALL_TIMEOUT_SECONDS)
}

/// Prepares a GET of an endpoint.
pub fn get(api_info: &ApiInfo, endpoint: &str) -> (request: PreparedRequest)
    ensures
        request@ == get_of(api_info@, endpoint@),
{
    call(api_info, Method::Get, endpoint, None, None, CALL_TIMEOUT_SECONDS)
}

/// Prepares a POST to an endpoint with a JSON body.
pub fn post(api_info: &ApiInfo, endpoint: &str, payload: String) -> (request: PreparedRequest)
    ensures
        request@ == post_of(api_info@, endpoint@, payload@),
{
    call(api_info, Method::Post, endpoint, Some(payload), None, CALL_TIMEOUT_SECONDS)
}

/// The body of a call that has nothing to say: an empty JSON object.
pub open spec fn empty_payload() -> Seq<char> {
    "{}"@
}

/// The body of a search for all rows: the first page, without a limit on
/// its rows, in no particular order, with no phrase to look for.
pub open spec fn search_payload() -> Seq<char> {
    "{\"current\":1,\"rowCount\":-1,\"searchPhrase\":\"\",\"sort\":{}}"@
}

/// Prepares a POST to an endpoint with an empty JSON object as its body.
pub fn post_empty(api_info: &ApiInfo, endpoint: &str) -> (request: PreparedRequest)
    ensures
        request@ == post_of(api_info@, endpoint@, empty_payload()),
{
    post(api_info, endpoint, "{}".to_owned())
}

/// Prepares a POST to a search endpoint that asks for all rows.
pub fn post_search(api_info: &ApiInfo, endpoint: &str) -> (request: PreparedRequest)
    ensures
        request@ == post_of(api_info@, endpoint@, search_payload()),
{
    post(
        api_info,
        endpoint,
        "{\"current\":1,\"rowCount\":-1,\"searchPhrase\":\"\",\"sort\":{}}".to_owned(),
    )
}

} // verus!
