//! The log of the packet filter.

use crate::appliance::{call, call_of, CALL_TIMEOUT_SECONDS};
use crate::db::{ApiInfo, ApiInfoView};
use crate::http_client::{Header, HeaderView, Method, PreparedRequest, PreparedRequestView};
use std::collections::HashMap;
use vstd::prelude::*;

verus! {

/// One entry of the log. The appliance leaves out what does not apply.
#[derive(Debug, Clone, PartialEq, Eq)]
pub struct FirewallLog {
    pub rulenr: Option<String>,
    pub subrulenr: Option<String>,
    pub anchorname: Option<String>,
    pub rid: Option<String>,
    pub interface: Option<String>,
    pub reason: Option<String>,
    pub action: Option<String>,
    pub dir: Option<String>,
    pub ipversion: Option<String>,
    pub tos: Option<String>,
    pub ecn: Option<String>,
    pub ttl: Option<String>,
    pub id: Option<String>,
    pub offset: Option<String>,
    pub ipflags: Option<String>,
    pub protonum: Option<String>,
    pub protoname: Option<String>,
    pub length: Option<String>,
    pub src: Option<String>,
    pub dst: Option<String>,
    pub srcport: Option<String>,
    pub dstport: Option<String>,
    pub datalen: Option<String>,
    pub tcpflags: Option<String>,
    pub seq: Option<String>,
    pub ack: Option<String>,
    pub urp: Option<String>,
    pub tcpopts: Option<String>,
    pub timestamp: Option<String>,
    pub host: Option<String>,
    pub digest: Option<String>,
    pub spec: Option<Vec<String>>,
    pub label: Option<String>,
}

/// The values that the log can be filtered by.
#[derive(Debug, PartialEq, Eq)]
pub struct LogFilters {
    pub action: Vec<String>,
    pub interface_name: Vec<String>,
    pub dir: Vec<String>,
}

/// The names of the interfaces, by device.
#[derive(Debug, PartialEq, Eq)]
pub struct InterfaceNames(pub HashMap<String, String>);

/// The headers that ask for a JSON answer.
pub open spec fn accept_json() -> Seq<HeaderView> {
    seq![HeaderView { name: "accept"@, value: "application/json"@ }]
}

/// A GET of a diagnostics endpoint, asking for a JSON answer.
pub open spec fn diagnostics_of(profile: ApiInfoView, endpoint: Seq<char>) -> PreparedRequestView {
    call_of(profile, Method::Get, endpoint, None, Some(accept_json()), CALL_TIMEOUT_SECONDS)
}

fn diagnostics(api_info: &ApiInfo, endpoint: &str) -> (request: PreparedRequest)
    ensures
        request@ == diagnostics_of(api_info@, endpoint@),
{
    let mut headers: Vec<Header> = Vec::new();
    headers.push(Header { name: "accept".to_owned(), value: "application/json".to_owned() });
    assert(headers.deep_view() =~= accept_json());
    call(api_info, Method::Get, endpoint, None, Some(headers), CALL_TIMEOUT_SECONDS)
}

/// Reads the values that the log can be filtered by.
pub fn get_log_filters_call(api_info: &ApiInfo) -> (request: PreparedRequest)
    ensures
        request@ == diagnostics_of(api_info@, "/api/diagnostics/firewall/log_filters"@),
{
    diagnostics(api_info, "/api/diagnostics/firewall/log_filters")
}

/// Reads the names of the interfaces.
pub fn get_interface_names_call(api_info: &ApiInfo) -> (request: PreparedRequest)
    ensures
        request@ == diagnostics_of(api_info@, "/api/diagnostics/interface/getInterfaceNames"@),
{
    diagnostics(api_info, "/api/diagnostics/interface/getInterfaceNames")
}

/// Reads the log.
pub fn get_firewall_logs_call(api_info: &ApiInfo) -> (request: PreparedRequest)
    ensures
        request@ == diagnostics_of(api_info@, "/api/diagnostics/firewall/log"@),
{
    diagnostics(api_info, "/api/diagnostics/firewall/log")
}

/// How many characters of an answer that cannot be read are shown.
pub const EXCERPT_LENGTH: usize = 1000;

/// The start of a text: its first `EXCERPT_LENGTH` characters, or all of it
/// where it has no more.
pub open spec fn excerpt_of(text: Seq<char>) -> Seq<char> {
    if text.len() <= EXCERPT_LENGTH {
        text
    } else {
        text.take(EXCERPT_LENGTH as int)
    }
}

/// The start of a text.
pub fn excerpt(text: &str) -> (start: String)
    ensures
        start@ == excerpt_of(text@),
{
    let mut start = String::new();
    let mut taken: usize = 0;
    for c in it: text.chars()
        invariant
            it.seq() == text@,
            taken <= EXCERPT_LENGTH,
            taken as int == if it.index() <= EXCERPT_LENGTH {
                it.index() as int
            } else {
                EXCERPT_LENGTH as int
            },
            start@ == text@.take(taken as int),
    {
        if taken < EXCERPT_LENGTH {
            start.push(c);
            taken += 1;
            assert(start@ =~= text@.take(taken as int));
        }
    }
    assert(text@.take(text@.len() as int) =~= text@);
    start
}

/// What is shown when the log cannot be read: why, and how the answer
/// starts.
pub open spec fn unreadable_log_of(detail: Seq<char>, answer: Seq<char>) -> Seq<char> {
    "Failed to parse logs: "@ + detail + ". First 1000 chars of response: "@ + excerpt_of(
        answer,
    )
}

/// What is shown when the log cannot be read.
pub fn unreadable_log(detail: &str, answer: &str) -> (text: String)
    ensures
        text@ == unreadable_log_of(detail@, answer@),
{
    let mut text = "Failed to parse logs: ".to_owned();
    text.append(detail);
    text.append(". First 1000 chars of response: ");
    text.append(excerpt(answer).as_str());
    text
}

/// Whether a field passes a filter: an empty filter lets everything pass,
/// another one only the fields that are there and equal to it.
pub open spec fn passes(field: Option<String>, filter: Seq<char>) -> bool {
    filter.len() == 0 || (field is Some && field->0@ == filter)
}

/// Whether an entry passes the filters on its action, interface and
/// direction.
pub open spec fn selected(
    log: FirewallLog,
    action: Seq<char>,
    interface: Seq<char>,
    direction: Seq<char>,
) -> bool {
    passes(log.action, action) && passes(log.interface, interface) && passes(log.dir, direction)
}

fn field_passes(field: &Option<String>, filter: &String) -> (r: bool)
    ensures
        r == passes(*field, filter@),
{
    if filter.as_str().is_empty() {
        true
    } else {
        match field {
            Some(value) => *value == *filter,
            None => false,
        }
    }
}

/// The entries that pass the filters, in the order they came in.
pub fn apply_filters(
    logs: Vec<FirewallLog>,
    action: String,
    interface: String,
    direction: String,
) -> (kept: Vec<FirewallLog>)
    ensures
        kept@ == logs@.filter(|log: FirewallLog| selected(log, action@, interface@, direction@)),
{
    let ghost keep = |log: FirewallLog| selected(log, action@, interface@, direction@);
    let mut kept: Vec<FirewallLog> = Vec::new();
    assert(logs@.take(0).filter(keep) =~= Seq::<FirewallLog>::empty()) by {
        reveal(Seq::filter);
    }
    for log in it: logs
        invariant
            it.seq() == logs@,
            keep == (|log: FirewallLog| selected(log, action@, interface@, direction@)),
            kept@ == logs@.take(it.index() as int).filter(keep),
    {
        let ghost seen = logs@.take(it.index() as int);
        proof {
            reveal(Seq::filter);
            assert(logs@.take(it.index() + 1).drop_last() =~= seen);
        }
        if field_passes(&log.action, &action) && field_passes(&log.interface, &interface)
            && field_passes(&log.dir, &direction) {
            kept.push(log);
        }
    }
    assert(logs@.take(logs@.len() as int) =~= logs@);
    kept
}

/// The first `limit` entries, or all of them where there are no more.
pub fn limit_logs(logs: Vec<FirewallLog>, limit: usize) -> (kept: Vec<FirewallLog>)
    ensures
        kept@ == if limit < logs@.len() {
            logs@.take(limit as int)
        } else {
            logs@
        },
{
    let mut kept = logs;
    if limit < kept.len() {
        kept.truncate(limit);
        assert(kept@ =~= logs@.take(limit as int));
    }
    kept
}

} // verus!
