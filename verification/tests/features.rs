use firewall_companion::alias::{
    add_ip_to_alias_call, alias_not_found, alias_payload, get_alias_info_call,
    list_network_aliases_call, merged_content, remove_ip_from_alias_call, search_alias_items_call,
};
use firewall_companion::appliance::{call, current_profile, get, post, post_empty, post_search};
use firewall_companion::dashboard::{get_gateway_status_call, get_services_call, restart_service_call};
use firewall_companion::db::{ApiInfo, Database};
use firewall_companion::devices::{
    flush_arp_table_call, get_devices_call, parse_flushed, space, FlushArpResponse,
};
use firewall_companion::firewall::{
    apply_firewall_changes_call, get_firewall_rules_call, toggle_firewall_rule_call,
};
use firewall_companion::firewall_logs::{
    apply_filters, excerpt, get_firewall_logs_call, get_interface_names_call, get_log_filters_call,
    limit_logs, unreadable_log, FirewallLog,
};
use firewall_companion::http_client::{Header, Method, PreparedRequest};
use firewall_companion::json::quote;
use firewall_companion::migration::StoreImage;
use firewall_companion::power::reboot_firewall_call;
use firewall_companion::routes::{
    add_route_call, apply_changes_call, delete_route_call, get_route_info_call, get_routes_call,
    route_payload, toggle_route_call,
};
use firewall_companion::text::{push_decimal, replace_char, str_before};
use firewall_companion::traffic::get_interface_traffic_call;
use firewall_companion::update_checker::{
    accepted, check_call, check_move, check_timed_out, get_changelog_call, get_current_firmware_status_call,
    keeps_watching, start_update_call, watch_call, watch_step, watch_timed_out, CheckMove,
    CheckPhase, StatusPoll, UpdateWatch, WatchStep,
};

fn profile() -> ApiInfo {
    ApiInfo {
        id: 1,
        profile_name: "Home".to_string(),
        api_key: "k".to_string(),
        api_secret: "s".to_string(),
        api_url: "https://fw.lan".to_string(),
        port: 8443,
        is_default: true,
    }
}

fn expected(method: Method, path: &str, body: Option<&str>, timeout: u64) -> PreparedRequest {
    let mut headers =
        vec![Header { name: "authorization".to_string(), value: "Basic azpz".to_string() }];
    if body.is_some() {
        headers.push(Header {
            name: "content-type".to_string(),
            value: "application/json".to_string(),
        });
    }
    PreparedRequest {
        method,
        url: format!("https://fw.lan:8443{}", path),
        headers,
        body: body.map(|b| b.to_string()),
        timeout_seconds: Some(timeout),
        accept_invalid_certs: true,
    }
}

fn expected_get(path: &str) -> PreparedRequest {
    expected(Method::Get, path, None, 30)
}

fn expected_post(path: &str, body: &str) -> PreparedRequest {
    expected(Method::Post, path, Some(body), 30)
}

fn expected_diagnostics(path: &str) -> PreparedRequest {
    let mut request = expected_get(path);
    request
        .headers
        .push(Header { name: "accept".to_string(), value: "application/json".to_string() });
    request
}

const SEARCH: &str = "{\"current\":1,\"rowCount\":-1,\"searchPhrase\":\"\",\"sort\":{}}";

fn log(action: Option<&str>, interface: Option<&str>, dir: Option<&str>, label: &str) -> FirewallLog {
    FirewallLog {
        rulenr: None,
        subrulenr: None,
        anchorname: None,
        rid: None,
        interface: interface.map(|s| s.to_string()),
        reason: None,
        action: action.map(|s| s.to_string()),
        dir: dir.map(|s| s.to_string()),
        ipversion: None,
        tos: None,
        ecn: None,
        ttl: None,
        id: None,
        offset: None,
        ipflags: None,
        protonum: None,
        protoname: None,
        length: None,
        src: None,
        dst: None,
        srcport: None,
        dstport: None,
        datalen: None,
        tcpflags: None,
        seq: None,
        ack: None,
        urp: None,
        tcpopts: None,
        timestamp: None,
        host: None,
        digest: None,
        spec: None,
        label: Some(label.to_string()),
    }
}

fn labels(logs: &[FirewallLog]) -> Vec<String> {
    logs.iter().map(|l| l.label.clone().unwrap()).collect()
}

fn sample_logs() -> Vec<FirewallLog> {
    vec![
        log(Some("pass"), Some("wan"), Some("in"), "a"),
        log(Some("block"), Some("wan"), Some("in"), "b"),
        log(Some("pass"), Some("lan"), Some("out"), "c"),
        log(None, Some("wan"), None, "d"),
        log(Some("pass"), None, Some("in"), "e"),
        log(Some(""), Some(""), Some(""), "f"),
    ]
}

fn filtered(action: &str, interface: &str, direction: &str) -> Vec<String> {
    labels(&apply_filters(
        sample_logs(),
        action.to_string(),
        interface.to_string(),
        direction.to_string(),
    ))
}

#[test]
fn decimal_notation_has_no_leading_zeros() {
    for (n, text) in [
        (0u64, "0"),
        (7, "7"),
        (9, "9"),
        (10, "10"),
        (443, "443"),
        (65535, "65535"),
        (1000000, "1000000"),
        (u64::MAX, "18446744073709551615"),
    ] {
        let mut out = String::from("p");
        push_decimal(&mut out, n);
        assert_eq!(out, format!("p{}", text));
    }
}

#[test]
fn texts_are_ordered_by_their_bytes() {
    let words = ["", "A", "Z", "a", "ab", "abc", "b", "é", "z\u{10000}", "\u{ff}"];
    for a in words {
        for b in words {
            assert_eq!(str_before(a, b), a < b, "{:?} before {:?}", a, b);
        }
    }
}

#[test]
fn replace_char_changes_every_occurrence() {
    assert_eq!(replace_char("a,b,,c", ',', '\n'), "a\nb\n\nc");
    assert_eq!(replace_char("", ',', '\n'), "");
    assert_eq!(replace_char("äöü", 'ö', 'o'), "äoü");
    assert_eq!(replace_char("aaa", 'a', 'a'), "aaa");
}

#[test]
fn json_strings_are_quoted_as_the_serializer_does() {
    let samples = [
        "",
        "plain",
        "with \"quotes\" and \\ backslash",
        "line\nbreak\ttab\rreturn",
        "\u{8}\u{c}\u{0}\u{1}\u{1f}\u{7f}",
        "10.0.0.1\n10.0.0.2",
        "ünïcödé ✓ \u{10348}",
        "/slash",
    ];
    for sample in samples {
        assert_eq!(quote(sample), serde_json::to_string(sample).unwrap());
    }
    assert_eq!(quote("a\"b"), "\"a\\\"b\"");
    assert_eq!(quote("\u{1}"), "\"\\u0001\"");
    assert_eq!(quote("\u{1f}"), "\"\\u001f\"");
}

#[test]
fn calls_carry_address_credentials_and_timeout() {
    let p = profile();
    assert_eq!(get(&p, "/x"), expected_get("/x"));
    assert_eq!(post(&p, "/x", "[1]".to_string()), expected_post("/x", "[1]"));
    assert_eq!(post_empty(&p, "/x"), expected_post("/x", "{}"));
    assert_eq!(post_search(&p, "/x"), expected_post("/x", SEARCH));
    assert_eq!(
        call(&p, Method::Put, "/x", Some("1".to_string()), None, 7),
        expected(Method::Put, "/x", Some("1"), 7)
    );
    let parsed: serde_json::Value = serde_json::from_str(SEARCH).unwrap();
    assert_eq!(parsed["current"], 1);
    assert_eq!(parsed["rowCount"], -1);
    assert_eq!(parsed["searchPhrase"], "");
    assert_eq!(parsed["sort"], serde_json::Value::Object(serde_json::Map::new()));
}

#[test]
fn calls_go_to_the_default_profile() {
    let mut db =
        Database::new(StoreImage { first_run: None, password_hash: None, api_info: None }).unwrap();
    assert_eq!(current_profile(&db), Err("API info not found".to_string()));
    db.save_api_info(&profile()).unwrap();
    let mut other = profile();
    other.profile_name = "Work".to_string();
    other.is_default = false;
    db.save_api_info(&other).unwrap();
    assert_eq!(current_profile(&db), Ok(profile()));
    db.set_default_profile("Work").unwrap();
    assert_eq!(current_profile(&db).unwrap().profile_name, "Work");
}

#[test]
fn alias_content_gets_the_new_address_on_a_line_of_its_own() {
    assert_eq!(merged_content("", "10.0.0.9"), "10.0.0.9");
    assert_eq!(merged_content("10.0.0.1", "10.0.0.9"), "10.0.0.1\n10.0.0.9");
    assert_eq!(merged_content("10.0.0.1,10.0.0.2", "10.0.0.9"), "10.0.0.1\n10.0.0.2\n10.0.0.9");
    assert_eq!(merged_content("10.0.0.1\n10.0.0.2", ""), "10.0.0.1\n10.0.0.2\n");
}

#[test]
fn alias_calls() {
    let p = profile();
    assert_eq!(
        list_network_aliases_call(&p),
        expected_get("/api/firewall/alias/listNetworkAliases")
    );
    assert_eq!(search_alias_items_call(&p), expected_get("/api/firewall/alias/searchItem"));
    assert_eq!(get_alias_info_call(&p, "u-1"), expected_get("/api/firewall/alias/getItem/u-1"));
    assert_eq!(
        alias_payload("blocked", "10.0.0.1\n10.0.0.2"),
        "{\"alias\":{\"content\":\"10.0.0.1\\n10.0.0.2\",\"name\":\"blocked\"}}"
    );
    let payload: serde_json::Value =
        serde_json::from_str(&alias_payload("na\"me", "a\\b")).unwrap();
    assert_eq!(payload["alias"]["name"], "na\"me");
    assert_eq!(payload["alias"]["content"], "a\\b");
    assert_eq!(
        add_ip_to_alias_call(&p, "u-1", "blocked", "10.0.0.1,10.0.0.2", "10.0.0.9"),
        expected_post(
            "/api/firewall/alias/setItem/u-1",
            "{\"alias\":{\"content\":\"10.0.0.1\\n10.0.0.2\\n10.0.0.9\",\"name\":\"blocked\"}}"
        )
    );
    assert_eq!(
        remove_ip_from_alias_call(&p, "u-1", "blocked", "10.0.0.1"),
        expected_post(
            "/api/firewall/alias/setItem/u-1",
            "{\"alias\":{\"content\":\"10.0.0.1\",\"name\":\"blocked\"}}"
        )
    );
    assert_eq!(alias_not_found("blocked"), "Alias 'blocked' not found");
}

#[test]
fn device_calls() {
    let p = profile();
    assert_eq!(get_devices_call(&p), expected_get("/api/diagnostics/interface/getArp"));
    assert_eq!(
        flush_arp_table_call(&p),
        expected(Method::Post, "/api/diagnostics/interface/flushArp", None, 30)
    );
}

#[test]
fn flushed_addresses_are_the_first_words_of_the_lines() {
    let parsed = |body: &str| parse_flushed(body).deleted;
    assert_eq!(parsed(""), Vec::<String>::new());
    assert_eq!(parsed("\n\n  \n\t\r\n"), Vec::<String>::new());
    assert_eq!(
        parsed("10.0.0.1 (10.0.0.1) deleted\n10.0.0.2 (10.0.0.2) deleted\n"),
        vec!["10.0.0.1", "10.0.0.2"]
    );
    assert_eq!(parsed("  a b\r\n\r\n\tc\u{a0}d\ne"), vec!["a", "c", "e"]);
    assert_eq!(parsed("one"), vec!["one"]);
    assert_eq!(parsed("one\ntwo three"), vec!["one", "two"]);
    assert_eq!(
        parse_flushed("x y\nz"),
        FlushArpResponse { deleted: vec!["x".to_string(), "z".to_string()] }
    );
    for body in ["a b\n\nc", " \u{2003}lead\u{3000}trail \n", "a\u{85}b\u{1680}c\n\u{200b}z"] {
        let by_std: Vec<String> = body
            .lines()
            .map(|line| line.split_whitespace().next().unwrap_or("").to_string())
            .filter(|ip| !ip.is_empty())
            .collect();
        assert_eq!(parsed(body), by_std);
    }
}

#[test]
fn white_space_is_what_the_standard_library_calls_so() {
    for code in 0u32..0x11000 {
        if let Some(c) = char::from_u32(code) {
            assert_eq!(space(c), c.is_whitespace(), "U+{:04X}", code);
        }
    }
}

#[test]
fn log_calls_ask_for_json() {
    let p = profile();
    assert_eq!(
        get_log_filters_call(&p),
        expected_diagnostics("/api/diagnostics/firewall/log_filters")
    );
    assert_eq!(
        get_interface_names_call(&p),
        expected_diagnostics("/api/diagnostics/interface/getInterfaceNames")
    );
    assert_eq!(get_firewall_logs_call(&p), expected_diagnostics("/api/diagnostics/firewall/log"));
}

#[test]
fn empty_filters_let_every_entry_pass() {
    assert_eq!(filtered("", "", ""), vec!["a", "b", "c", "d", "e", "f"]);
}

#[test]
fn filters_keep_matching_entries_in_order() {
    assert_eq!(filtered("pass", "", ""), vec!["a", "c", "e"]);
    assert_eq!(filtered("", "wan", ""), vec!["a", "b", "d"]);
    assert_eq!(filtered("", "", "in"), vec!["a", "b", "e"]);
    assert_eq!(filtered("pass", "wan", "in"), vec!["a"]);
    assert_eq!(filtered("block", "lan", ""), Vec::<String>::new());
    assert_eq!(filtered("PASS", "", ""), Vec::<String>::new());
    assert_eq!(
        apply_filters(vec![], "pass".to_string(), String::new(), String::new()),
        vec![]
    );
}

#[test]
fn limit_keeps_the_first_entries() {
    assert_eq!(labels(&limit_logs(sample_logs(), 0)), Vec::<String>::new());
    assert_eq!(labels(&limit_logs(sample_logs(), 2)), vec!["a", "b"]);
    assert_eq!(labels(&limit_logs(sample_logs(), 6)), vec!["a", "b", "c", "d", "e", "f"]);
    assert_eq!(labels(&limit_logs(sample_logs(), usize::MAX)).len(), 6);
    assert_eq!(limit_logs(vec![], 3), vec![]);
}

#[test]
fn excerpt_is_the_first_thousand_characters() {
    assert_eq!(excerpt(""), "");
    assert_eq!(excerpt("short"), "short");
    let exact = "x".repeat(1000);
    assert_eq!(excerpt(&exact), exact);
    let long = format!("{}yz", exact);
    assert_eq!(excerpt(&long), exact);
    let wide = "é".repeat(1500);
    assert_eq!(excerpt(&wide), "é".repeat(1000));
    assert_eq!(
        unreadable_log("expected value at line 1 column 1", "<html>"),
        "Failed to parse logs: expected value at line 1 column 1. First 1000 chars of response: <html>"
    );
    let text = unreadable_log("e", &long);
    assert!(text.ends_with(&exact));
}

#[test]
fn dashboard_calls() {
    let p = profile();
    assert_eq!(get_gateway_status_call(&p), expected_get("/api/routes/gateway/status"));
    assert_eq!(get_services_call(&p), expected_get("/api/core/service/search"));
    assert_eq!(
        restart_service_call(&p, "unbound"),
        expected_post("/api/core/service/restart/unbound", "{}")
    );
}

#[test]
fn firewall_calls() {
    let p = profile();
    assert_eq!(
        get_firewall_rules_call(&p),
        expected_post("/api/firewall/filter/searchRule", SEARCH)
    );
    assert_eq!(
        toggle_firewall_rule_call(&p, "r-1"),
        expected_post("/api/firewall/filter/toggleRule/r-1", "{}")
    );
    assert_eq!(
        apply_firewall_changes_call(&p),
        expected_post("/api/firewall/filter/apply", "{}")
    );
    assert_eq!(reboot_firewall_call(&p), expected_post("/api/core/system/reboot", "{}"));
    assert_eq!(
        get_interface_traffic_call(&p),
        expected_get("/api/diagnostics/traffic/interface")
    );
}

#[test]
fn route_calls() {
    let p = profile();
    assert_eq!(get_routes_call(&p), expected_post("/api/routes/routes/searchroute", SEARCH));
    assert_eq!(get_route_info_call(&p), expected_get("/api/routes/routes/getroute"));
    assert_eq!(
        delete_route_call(&p, "r-1"),
        expected_post("/api/routes/routes/delroute/r-1", "{}")
    );
    assert_eq!(
        toggle_route_call(&p, "r-1"),
        expected_post("/api/routes/routes/toggleroute/r-1", "{}")
    );
    assert_eq!(apply_changes_call(&p), expected_post("/api/routes/routes/reconfigure", "{}"));
    let body = "{\"route\":{\"descr\":\"to \\\"lab\\\"\",\"disabled\":\"1\",\"gateway\":\"WAN_GW\",\"network\":\"10.1.0.0/16\"}}";
    assert_eq!(route_payload("10.1.0.0/16", "WAN_GW", "to \"lab\"", true), body);
    assert_eq!(
        add_route_call(&p, "10.1.0.0/16", "WAN_GW", "to \"lab\"", true),
        expected_post("/api/routes/routes/addroute", body)
    );
    let enabled: serde_json::Value =
        serde_json::from_str(&route_payload("n", "g", "d", false)).unwrap();
    assert_eq!(enabled["route"]["disabled"], "0");
    assert_eq!(enabled["route"]["network"], "n");
    assert_eq!(enabled["route"]["gateway"], "g");
    assert_eq!(enabled["route"]["descr"], "d");
}

#[test]
fn update_calls() {
    let p = profile();
    assert_eq!(
        check_call(&p, CheckPhase::Start),
        expected_post("/api/core/firmware/check", "{}")
    );
    assert_eq!(
        check_call(&p, CheckPhase::Wait),
        expected_get("/api/core/firmware/upgradestatus")
    );
    assert_eq!(check_call(&p, CheckPhase::Status), expected_get("/api/core/firmware/status"));
    assert_eq!(check_call(&p, CheckPhase::Info), expected_get("/api/core/firmware/info"));
    assert_eq!(
        get_changelog_call(&p, "24.7"),
        expected_post("/api/core/firmware/changelog/24.7", "{}")
    );
    assert_eq!(
        get_current_firmware_status_call(&p),
        expected_get("/api/core/firmware/status")
    );
    assert_eq!(start_update_call(&p), expected_post("/api/core/firmware/update", "{}"));
    assert_eq!(
        watch_call(&p),
        expected(Method::Get, "/api/core/firmware/upgradestatus", None, 5)
    );
}

#[test]
fn a_check_goes_through_its_steps() {
    assert!(accepted(Some("ok")));
    assert!(!accepted(Some("OK")));
    assert!(!accepted(Some("failure")));
    assert!(!accepted(None));
    assert_eq!(check_move(CheckPhase::Start, Some("ok"), 0), CheckMove::Call(CheckPhase::Wait));
    assert_eq!(check_move(CheckPhase::Start, Some("busy"), 0), CheckMove::Refused);
    assert_eq!(check_move(CheckPhase::Start, None, 0), CheckMove::Refused);
    assert_eq!(
        check_move(CheckPhase::Wait, Some("running"), 3),
        CheckMove::PauseThenCall(CheckPhase::Wait)
    );
    assert_eq!(check_move(CheckPhase::Wait, None, 3), CheckMove::PauseThenCall(CheckPhase::Wait));
    assert_eq!(check_move(CheckPhase::Wait, Some("done"), 3), CheckMove::Call(CheckPhase::Status));
    assert_eq!(check_move(CheckPhase::Status, None, 4), CheckMove::Call(CheckPhase::Info));
    assert_eq!(check_move(CheckPhase::Status, Some("x"), 4), CheckMove::Call(CheckPhase::Info));
    assert_eq!(check_move(CheckPhase::Info, Some("ok"), 5), CheckMove::Finished);
}

#[test]
fn a_check_that_is_not_done_after_thirty_minutes_is_given_up() {
    assert_eq!(
        check_move(CheckPhase::Wait, Some("running"), 1799),
        CheckMove::PauseThenCall(CheckPhase::Wait)
    );
    assert_eq!(check_move(CheckPhase::Wait, Some("running"), 1800), CheckMove::TimedOut);
    assert_eq!(check_move(CheckPhase::Wait, None, u64::MAX), CheckMove::TimedOut);
    assert_eq!(
        check_move(CheckPhase::Wait, Some("done"), 1800),
        CheckMove::Call(CheckPhase::Status)
    );
    assert_eq!(check_timed_out(), "Check for updates timed out");
}

#[test]
fn an_update_is_watched_for_thirty_minutes() {
    assert!(keeps_watching(0));
    assert!(keeps_watching(1799));
    assert!(!keeps_watching(1800));
    assert!(!keeps_watching(u64::MAX));
    assert_eq!(
        watch_timed_out(),
        "Update timed out or failed to detect system coming back online"
    );
}

#[test]
fn an_update_is_through_when_the_appliance_answers_after_its_reboot() {
    let before = UpdateWatch { reboot_detected: false };
    let after = UpdateWatch { reboot_detected: true };
    let answered = |status: Option<&str>| StatusPoll::Answered { status: status.map(String::from) };
    let wait = |watch: UpdateWatch, note: &str| WatchStep::Wait { watch, note: note.to_string() };
    let done = WatchStep::Completed("Update completed successfully. System is back online.".into());

    assert_eq!(
        watch_step(before, answered(Some("running"))),
        wait(before, "Current status: running")
    );
    assert_eq!(watch_step(before, answered(None)), wait(before, "Unknown status"));
    assert_eq!(
        watch_step(before, answered(Some("done"))),
        wait(before, "Update process completed, waiting for reboot...")
    );
    assert_eq!(
        watch_step(before, answered(Some("reboot"))),
        wait(after, "Reboot initiated, waiting for system to become unresponsive...")
    );
    assert_eq!(
        watch_step(before, StatusPoll::Unreachable),
        wait(after, "Lost connection to system, possible reboot in progress...")
    );
    assert_eq!(
        watch_step(after, StatusPoll::Unreachable),
        wait(after, "System is unresponsive, waiting for it to come back online...")
    );
    assert_eq!(
        watch_step(before, StatusPoll::Unreadable { detail: "EOF".into() }),
        WatchStep::Failed("Failed to parse upgrade status: EOF".into())
    );
    assert_eq!(watch_step(after, answered(Some("running"))), done);
    assert_eq!(watch_step(after, answered(None)), done);
    assert_eq!(watch_step(after, StatusPoll::Unreadable { detail: "EOF".into() }), done);
}
