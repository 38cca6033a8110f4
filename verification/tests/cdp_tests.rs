use irefined_launcher::cdp::{
    assemble_frame, record_of, records_of, select_target, target_in, CdpClient, CdpMessage,
    DiscoveryReply, TabInfo,
};
use irefined_launcher::json::{find_text, Json};

fn answered(status: u16, body: &str) -> DiscoveryReply {
    DiscoveryReply::Answered { status, body: body.to_string() }
}

fn good_record() -> Json {
    Json::Object(vec![
        ("url".to_string(), Json::Text("u".to_string())),
        ("webSocketDebuggerUrl".to_string(), Json::Text("w".to_string())),
    ])
}

fn tab(url: &str, socket: &str) -> TabInfo {
    TabInfo { url: url.to_string(), websocket_debugger_url: socket.to_string() }
}

#[test]
fn test_get_websocket_url_returns_none_when_no_server() {
    let client = CdpClient::new(19999);
    let result = client.get_websocket_url(&DiscoveryReply::Unreachable);
    assert!(result.is_none());
}

#[test]
fn test_cdp_message_serialization() {
    let msg = CdpMessage::add_script("console.log('test')");
    let json = msg.to_json().unwrap();
    assert!(json.contains("Page.addScriptToEvaluateOnNewDocument"));
    assert!(json.contains("console.log('test')"));
}

#[test]
fn add_script_builds_the_registering_command() {
    let msg = CdpMessage::add_script("let a = 1;");
    assert_eq!(msg.id, 1);
    assert_eq!(msg.method, "Page.addScriptToEvaluateOnNewDocument");
    assert_eq!(msg.params.source, "let a = 1;");
    assert!(msg.params.run_immediately);
}

#[test]
fn serialized_frame_is_exact() {
    let msg = CdpMessage::add_script("console.log('test')");
    assert_eq!(
        msg.to_json().unwrap(),
        "{\"id\":1,\"method\":\"Page.addScriptToEvaluateOnNewDocument\",\"params\":{\"source\":\"console.log('test')\",\"runImmediately\":true}}"
    );
}

#[test]
fn serialized_frame_escapes_the_script() {
    let msg = CdpMessage::add_script("say(\"hi\");\n\tback\\slash");
    let frame = msg.to_json().unwrap();
    assert_eq!(
        frame,
        "{\"id\":1,\"method\":\"Page.addScriptToEvaluateOnNewDocument\",\"params\":{\"source\":\"say(\\\"hi\\\");\\n\\tback\\\\slash\",\"runImmediately\":true}}"
    );
    let back: serde_json::Value = serde_json::from_str(&frame).unwrap();
    assert_eq!(back["params"]["source"].as_str().unwrap(), "say(\"hi\");\n\tback\\slash");
    assert_eq!(back["params"]["runImmediately"].as_bool(), Some(true));
    assert_eq!(back["id"].as_u64(), Some(1));
}

#[test]
fn serialized_frame_reads_back_as_the_message() {
    let msg = CdpMessage { id: 4000000000, ..CdpMessage::add_script("x") };
    let frame = msg.to_json().unwrap();
    let back: serde_json::Value = serde_json::from_str(&frame).unwrap();
    assert_eq!(back["id"].as_u64(), Some(4000000000));
    assert_eq!(back["method"].as_str(), Some("Page.addScriptToEvaluateOnNewDocument"));
}

#[test]
fn assemble_frame_places_the_literals() {
    assert_eq!(
        assemble_frame(7, "\"m\"", "\"s\"", false),
        "{\"id\":7,\"method\":\"m\",\"params\":{\"source\":\"s\",\"runImmediately\":false}}"
    );
    assert_eq!(
        assemble_frame(0, "\"\"", "\"\"", true),
        "{\"id\":0,\"method\":\"\",\"params\":{\"source\":\"\",\"runImmediately\":true}}"
    );
}

#[test]
fn discovery_url_names_the_port() {
    assert_eq!(CdpClient::new(9222).discovery_url(), "http://127.0.0.1:9222/json");
    assert_eq!(CdpClient::new(0).discovery_url(), "http://127.0.0.1:0/json");
    assert_eq!(CdpClient::new(65535).discovery_url(), "http://127.0.0.1:65535/json");
    assert_eq!(CdpClient::new(80).port, 80);
}

#[test]
fn locate_finds_the_session_page() {
    let body = "[{\"url\":\"https://x.iracing.com/web/racing/session\",\"webSocketDebuggerUrl\":\"ws://127.0.0.1:9222/devtools/page/ABC\"}]";
    let found = CdpClient::new(9222).get_websocket_url(&answered(200, body));
    assert_eq!(found, Some("ws://127.0.0.1:9222/devtools/page/ABC".to_string()));
}

#[test]
fn locate_takes_the_first_matching_record() {
    let body = "[{\"url\":\"https://example.com/\",\"webSocketDebuggerUrl\":\"ws://a\"},\
                {\"url\":\"https://members.iracing.com/web/racing/home\",\"webSocketDebuggerUrl\":\"ws://b\",\"title\":\"x\",\"id\":5},\
                {\"url\":\"https://y.iracing.com/web/racing\",\"webSocketDebuggerUrl\":\"ws://c\"}]";
    let found = CdpClient::new(9222).get_websocket_url(&answered(200, body));
    assert_eq!(found, Some("ws://b".to_string()));
}

#[test]
fn locate_gives_none_without_a_matching_record() {
    let client = CdpClient::new(9222);
    let body = "[{\"url\":\"https://example.com/\",\"webSocketDebuggerUrl\":\"ws://a\"}]";
    assert_eq!(client.get_websocket_url(&answered(200, body)), None);
    assert_eq!(client.get_websocket_url(&answered(200, "[]")), None);
}

#[test]
fn locate_gives_none_on_server_error() {
    let body = "[{\"url\":\"https://x.iracing.com/web/racing/session\",\"webSocketDebuggerUrl\":\"ws://a\"}]";
    let client = CdpClient::new(9222);
    assert_eq!(client.get_websocket_url(&answered(500, body)), None);
    assert_eq!(client.get_websocket_url(&answered(199, body)), None);
    assert_eq!(client.get_websocket_url(&answered(300, body)), None);
    assert_eq!(client.get_websocket_url(&answered(404, body)), None);
    assert_eq!(client.get_websocket_url(&answered(299, body)), Some("ws://a".to_string()));
    assert_eq!(client.get_websocket_url(&answered(204, body)), Some("ws://a".to_string()));
}

#[test]
fn locate_gives_none_on_unreachable_port() {
    assert_eq!(CdpClient::new(1).get_websocket_url(&DiscoveryReply::Unreachable), None);
}

#[test]
fn locate_gives_none_on_missing_fields() {
    let client = CdpClient::new(9222);
    let no_socket = "[{\"url\":\"https://x.iracing.com/web/racing/session\"}]";
    let no_url = "[{\"webSocketDebuggerUrl\":\"ws://a\"}]";
    let one_bad = "[{\"url\":\"https://x.iracing.com/web/racing/session\",\"webSocketDebuggerUrl\":\"ws://a\"},{\"url\":\"https://example.com\"}]";
    let wrong_type = "[{\"url\":\"https://x.iracing.com/web/racing/session\",\"webSocketDebuggerUrl\":17}]";
    assert_eq!(client.get_websocket_url(&answered(200, no_socket)), None);
    assert_eq!(client.get_websocket_url(&answered(200, no_url)), None);
    assert_eq!(client.get_websocket_url(&answered(200, one_bad)), None);
    assert_eq!(client.get_websocket_url(&answered(200, wrong_type)), None);
}

#[test]
fn locate_gives_none_on_malformed_body() {
    let client = CdpClient::new(9222);
    assert_eq!(client.get_websocket_url(&answered(200, "")), None);
    assert_eq!(client.get_websocket_url(&answered(200, "<html>oops</html>")), None);
    assert_eq!(client.get_websocket_url(&answered(200, "[{\"url\":")), None);
    assert_eq!(client.get_websocket_url(&answered(200, "{\"url\":\"https://x.iracing.com/web/racing\",\"webSocketDebuggerUrl\":\"ws://a\"}")), None);
    assert_eq!(client.get_websocket_url(&answered(200, "[1,2]")), None);
    assert_eq!(client.get_websocket_url(&answered(200, "null")), None);
}

#[test]
fn locate_reads_escaped_strings() {
    let body = "[{\"url\":\"https:\\/\\/x.iracing.com\\/web\\/racing\",\"webSocketDebuggerUrl\":\"ws:\\/\\/\\u0061\"}]";
    let found = CdpClient::new(9222).get_websocket_url(&answered(200, body));
    assert_eq!(found, Some("ws://a".to_string()));
}

#[test]
fn select_target_picks_first_match() {
    let tabs = vec![
        tab("https://example.com", "ws://0"),
        tab("https://a.iracing.com/web/racing/x", "ws://1"),
        tab("https://b.iracing.com/web/racing/y", "ws://2"),
    ];
    assert_eq!(select_target(&tabs), Some("ws://1".to_string()));
    assert_eq!(select_target(&Vec::new()), None);
    assert_eq!(select_target(&vec![tab(".iracing.com/web/racin", "ws://z")]), None);
    assert_eq!(select_target(&vec![tab(".iracing.com/web/racing", "ws://z")]), Some("ws://z".to_string()));
}

#[test]
fn record_of_needs_both_text_members() {
    let full = Json::Object(vec![
        ("id".to_string(), Json::Number("3".to_string())),
        ("url".to_string(), Json::Text("u".to_string())),
        ("webSocketDebuggerUrl".to_string(), Json::Text("w".to_string())),
    ]);
    assert_eq!(record_of(&full), Some(tab("u", "w")));
    let numeric = Json::Object(vec![
        ("url".to_string(), Json::Bool(true)),
        ("webSocketDebuggerUrl".to_string(), Json::Text("w".to_string())),
    ]);
    assert_eq!(record_of(&numeric), None);
    assert_eq!(record_of(&Json::Null), None);
    assert_eq!(record_of(&Json::Array(Vec::new())), None);
    assert_eq!(record_of(&Json::Object(Vec::new())), None);
}

#[test]
fn records_of_needs_a_list_of_records() {
    assert_eq!(
        records_of(&Json::Array(vec![good_record(), good_record()])),
        Some(vec![tab("u", "w"), tab("u", "w")])
    );
    assert_eq!(records_of(&Json::Array(Vec::new())), Some(Vec::new()));
    assert_eq!(records_of(&Json::Array(vec![good_record(), Json::Null])), None);
    assert_eq!(records_of(&good_record()), None);
    assert_eq!(target_in(&Json::Array(vec![good_record()])), None);
}

#[test]
fn find_text_takes_the_first_member_of_that_name() {
    let members = vec![
        ("a".to_string(), Json::Text("1".to_string())),
        ("b".to_string(), Json::Null),
        ("a".to_string(), Json::Text("2".to_string())),
    ];
    assert_eq!(find_text(&members, "a"), Some(&"1".to_string()));
    assert_eq!(find_text(&members, "b"), None);
    assert_eq!(find_text(&members, "c"), None);
}

#[test]
fn serialized_frame_escapes_control_characters() {
    let msg = CdpMessage::add_script("\u{1}\u{8}\u{b}\u{c}\r\u{1f} \u{7f}\u{e9}/");
    assert_eq!(
        msg.to_json().unwrap(),
        "{\"id\":1,\"method\":\"Page.addScriptToEvaluateOnNewDocument\",\"params\":{\"source\":\"\\u0001\\b\\u000b\\f\\r\\u001f \u{7f}\u{e9}/\",\"runImmediately\":true}}"
    );
}

#[test]
fn inject_script_prepares_address_and_frame() {
    let injection = CdpClient::new(9222).inject_script("ws://127.0.0.1:9222/x", "go()").unwrap();
    assert_eq!(injection.address, "ws://127.0.0.1:9222/x");
    assert_eq!(
        injection.frame,
        "{\"id\":1,\"method\":\"Page.addScriptToEvaluateOnNewDocument\",\"params\":{\"source\":\"go()\",\"runImmediately\":true}}"
    );
}

#[test]
fn locate_ignores_other_members_however_deep() {
    let body = "[{\"id\":\"7\",\"extra\":{\"a\":[1,2.5,{\"b\":null,\"c\":[true,false,\"x\"]}]},\"url\":\"https://x.iracing.com/web/racing\",\"webSocketDebuggerUrl\":\"ws://deep\"}]";
    let found = CdpClient::new(9222).get_websocket_url(&answered(200, body));
    assert_eq!(found, Some("ws://deep".to_string()));
}

#[test]
fn locate_looks_at_the_page_address_only() {
    let body = "[{\"title\":\".iracing.com/web/racing\",\"url\":\"https://example.com\",\"webSocketDebuggerUrl\":\"ws://x.iracing.com/web/racing\"}]";
    assert_eq!(CdpClient::new(9222).get_websocket_url(&answered(200, body)), None);
}

#[test]
fn serialized_frame_writes_hexadecimal_in_lower_case() {
    let frame = CdpMessage::add_script("\u{0}\u{1a}\u{1c}\u{1d}\u{1e}\u{10}").to_json().unwrap();
    assert!(frame.contains("\"source\":\"\\u0000\\u001a\\u001c\\u001d\\u001e\\u0010\""));
}
