//! Aliases of the firewall: named lists of addresses.

use crate::appliance::{get, get_of, post, post_of};
use crate::db::{ApiInfo, ApiInfoView};
use crate::http_client::{PreparedRequest, PreparedRequestView};
use crate::json::{push_quoted, quoted};
use crate::text::{joined, replace_char, replaced};
use vstd::prelude::*;

verus! {

/// The content of an alias with one more address: the addresses it had, one
/// to a line whether commas or line ends parted them, and the new one after
/// them.
pub open spec fn merged_content_of(current_content: Seq<char>, new_ip: Seq<char>) -> Seq<char> {
    if current_content.len() == 0 {
        new_ip
    } else {
        replaced(current_content, ',', '\n') + seq!['\n'] + new_ip
    }
}

/// The content of an alias with one more address.
pub fn merged_content(current_content: &str, new_ip: &str) -> (content: String)
    ensures
        content@ == merged_content_of(current_content@, new_ip@),
{
    if current_content.is_empty() {
        new_ip.to_owned()
    } else {
        let mut content = replace_char(current_content, ',', '\n');
        content.push('\n');
        content.append(new_ip);
        content
    }
}

/// The body that sets the name and the content of an alias.
pub open spec fn alias_payload_of(name: Seq<char>, content: Seq<char>) -> Seq<char> {
    "{\"alias\":{\"content\":"@ + quoted(content) + ",\"name\":"@ + quoted(name) + "}}"@
}

/// The body that sets the name and the content of an alias.
pub fn alias_payload(name: &str, content: &str) -> (payload: String)
    ensures
        payload@ == alias_payload_of(name@, content@),
{
    let mut payload = "{\"alias\":{\"content\":".to_owned();
    push_quoted(&mut payload, content);
    payload.append(",\"name\":");
    push_quoted(&mut payload, name);
    payload.append("}}");
    payload
}

/// Lists the network aliases.
pub fn list_network_aliases_call(api_info: &ApiInfo) -> (request: PreparedRequest)
    ensures
        request@ == get_of(api_info@, "/api/firewall/alias/listNetworkAliases"@),
{
    get(api_info, "/api/firewall/alias/listNetworkAliases")
}

/// Reads the alias with the identifier `uuid`.
pub fn get_alias_info_call(api_info: &ApiInfo, uuid: &str) -> (request: PreparedRequest)
    ensures
        request@ == get_of(api_info@, "/api/firewall/alias/getItem/"@ + uuid@),
{
    get(api_info, joined("/api/firewall/alias/getItem/", uuid).as_str())
}

/// The call that adds `new_ip` to the alias of the name `alias_name` and
/// the identifier `uuid`, whose content was `current_content`.
pub open spec fn add_ip_to_alias_of(
    profile: ApiInfoView,
    uuid: Seq<char>,
    alias_name: Seq<char>,
    current_content: Seq<char>,
    new_ip: Seq<char>,
) -> PreparedRequestView {
    post_of(
        profile,
        "/api/firewall/alias/setItem/"@ + uuid,
        alias_payload_of(alias_name, merged_content_of(current_content, new_ip)),
    )
}

/// Adds an address to an alias: its content is set to what it was with the
/// new address after it.
pub fn add_ip_to_alias_call(
    api_info: &ApiInfo,
    uuid: &str,
    alias_name: &str,
    current_content: &str,
    new_ip: &str,
) -> (request: PreparedRequest)
    ensures
        request@ == add_ip_to_alias_of(
            api_info@,
            uuid@,
            alias_name@,
            current_content@,
            new_ip@,
        ),
{
    let content = merged_content(current_content, new_ip);
    post(
        api_info,
        joined("/api/firewall/alias/setItem/", uuid).as_str(),
        alias_payload(alias_name, content.as_str()),
    )
}

/// Takes an address out of an alias: its content is set to `content`, what
/// is left of it.
pub fn remove_ip_from_alias_call(
    api_info: &ApiInfo,
    uuid: &str,
    alias_name: &str,
    content: &str,
) -> (request: PreparedRequest)
    ensures
        request@ == post_of(
            api_info@,
            "/api/firewall/alias/setItem/"@ + uuid@,
            alias_payload_of(alias_name@, content@),
        ),
{
    post(
        api_info,
        joined("/api/firewall/alias/setItem/", uuid).as_str(),
        alias_payload(alias_name, content),
    )
}

/// Searches the aliases.
pub fn search_alias_items_call(api_info: &ApiInfo) -> (request: PreparedRequest)
    ensures
        request@ == get_of(api_info@, "/api/firewall/alias/searchItem"@),
{
    get(api_info, "/api/firewall/alias/searchItem")
}

/// What is shown when no alias has the name asked for.
pub fn alias_not_found(alias_name: &str) -> (text: String)
    ensures
        text@ == "Alias '"@ + alias_name@ + "' not found"@,
{
    let mut text = joined("Alias '", alias_name);
    text.append("' not found");
    text
}

} // verus!
