use cherry_db_manager::{
    decode_utf16_le_bytes, encode_json_to_bytes, find_mcp_config_internal, scan_entries,
    CherryDbError, CherryDbManager, DefaultCherryDbManager, McpConfigRequest, McpConfigResponse,
    ServerRequest, ServerResponse, StoreEntry,
};

fn entry(key: &str, doc: &str) -> StoreEntry {
    let v: serde_json::Value = serde_json::from_str(doc).unwrap();
    StoreEntry { key: key.as_bytes().to_vec(), value: encode_json_to_bytes(&v) }
}

fn record(id: &str, name: &str) -> ServerResponse {
    ServerResponse {
        id: id.to_string(),
        is_active: true,
        server_type: "stdio".to_string(),
        name: name.to_string(),
        command: None,
        args: None,
        env: None,
        base_url: None,
        headers: None,
        long_running: None,
    }
}

fn request(id: &str, name: &str) -> ServerRequest {
    ServerRequest::from(record(id, name))
}

fn ids(servers: &[ServerRequest]) -> Vec<String> {
    servers.iter().map(|s| s.id.clone()).collect()
}

#[test]
fn empty_list_then_add_keeps_other_field() {
    let m = DefaultCherryDbManager::new();
    let store = vec![entry("k", "{\"mcp\": \"{\\\"servers\\\":[]}\", \"other\": 1}")];
    let located = m.read_mcp_config(store).unwrap();
    assert_eq!(located.nested(), "{\"servers\":[]}");
    let list = m.list_servers(McpConfigResponse { servers: vec![] });
    assert_eq!(list.total_count, 0);
    assert!(list.servers.is_empty());

    let server = ServerRequest {
        id: "s1".to_string(),
        is_active: true,
        server_type: "stdio".to_string(),
        name: "S1".to_string(),
        command: Some("node".to_string()),
        args: Some(vec!["x".to_string()]),
        env: None,
        base_url: None,
        headers: None,
        long_running: None,
    };
    let next = m.add_server(McpConfigResponse { servers: vec![] }, server.clone());
    assert_eq!(next.servers, vec![server]);

    let text = "{\"servers\":[{\"id\":\"s1\",\"isActive\":true,\"type\":\"stdio\",\"name\":\"S1\",\"command\":\"node\",\"args\":[\"x\"]}]}";
    let w = m.write_mcp_config(located, text.to_string());
    assert_eq!(w.key, b"k".to_vec());
    let doc = decode_utf16_le_bytes(&w.value).unwrap();
    assert_eq!(doc.get("other"), Some(&serde_json::Value::from(1)));
    assert_eq!(doc.get("mcp").and_then(|v| v.as_str()), Some(text));

    let again = m.read_mcp_config(vec![StoreEntry { key: w.key.clone(), value: w.value.clone() }]).unwrap();
    assert_eq!(again.nested(), text);
}

#[test]
fn missing_config_is_reported() {
    let m = DefaultCherryDbManager::new();
    let store = vec![
        entry("a", "{\"other\": 1}"),
        StoreEntry { key: b"b".to_vec(), value: vec![] },
        StoreEntry { key: b"c".to_vec(), value: vec![0, 1, 2] },
    ];
    assert!(matches!(m.read_mcp_config(store), Err(CherryDbError::ConfigNotFound)));
    assert!(matches!(m.read_mcp_config(vec![]), Err(CherryDbError::ConfigNotFound)));
}

#[test]
fn non_string_mcp_field_is_passed_over() {
    let m = DefaultCherryDbManager::new();
    let store = vec![entry("a", "{\"mcp\": {\"servers\": []}}"), entry("b", "[1, 2]")];
    assert!(matches!(m.read_mcp_config(store), Err(CherryDbError::ConfigNotFound)));
}

#[test]
fn undecodable_entries_are_skipped() {
    let m = DefaultCherryDbManager::new();
    let store = vec![
        StoreEntry { key: b"bad".to_vec(), value: vec![0, 1] },
        entry("good", "{\"mcp\": \"{}\"}"),
    ];
    let located = m.read_mcp_config(store).unwrap();
    assert_eq!(located.key(), &b"good".to_vec());
    assert_eq!(located.nested(), "{}");
}

#[test]
fn first_match_wins() {
    let m = DefaultCherryDbManager::new();
    let store = vec![
        entry("x", "{\"a\": 0}"),
        entry("first", "{\"mcp\": \"{\\\"n\\\":1}\"}"),
        entry("second", "{\"mcp\": \"{\\\"n\\\":2}\"}"),
    ];
    let located = m.read_mcp_config(store).unwrap();
    assert_eq!(located.key(), &b"first".to_vec());
    assert_eq!(located.nested(), "{\"n\":1}");
}

#[test]
fn scan_keeps_every_entry() {
    let store = vec![
        StoreEntry { key: b"bad".to_vec(), value: vec![9] },
        entry("good", "{\"a\": true}"),
    ];
    let scanned = scan_entries(store);
    assert_eq!(scanned.len(), 2);
    assert_eq!(scanned[0].key, b"bad".to_vec());
    assert!(scanned[0].json_data.is_none());
    assert_eq!(scanned[1].json_data.as_ref().and_then(|v| v.get("a")), Some(&serde_json::Value::Bool(true)));
    let located = find_mcp_config_internal(scanned);
    assert!(matches!(located, Err(CherryDbError::ConfigNotFound)));
}

#[test]
fn remove_absent_server_fails() {
    let m = DefaultCherryDbManager::new();
    let config = McpConfigResponse { servers: vec![record("s2", "S2")] };
    match m.remove_server(config.clone(), "s1") {
        Err(CherryDbError::ServerNotFound(id)) => assert_eq!(id, "s1"),
        other => panic!("unexpected {:?}", other),
    }
    let list = m.list_servers(config);
    assert_eq!(list.total_count, 1);
    assert_eq!(list.servers[0].id, "s2");
}

#[test]
fn remove_present_server_drops_it() {
    let m = DefaultCherryDbManager::new();
    let config = McpConfigResponse {
        servers: vec![record("a", "A"), record("b", "B"), record("c", "C")],
    };
    let next = m.remove_server(config, "b").unwrap();
    assert_eq!(ids(&next.servers), vec!["a".to_string(), "c".to_string()]);
}

#[test]
fn add_with_existing_id_replaces_record() {
    let m = DefaultCherryDbManager::new();
    let config = McpConfigResponse {
        servers: vec![record("a", "A"), record("b", "B"), record("c", "C")],
    };
    let mut new_b = request("b", "B2");
    new_b.is_active = false;
    new_b.base_url = Some("http://localhost:1".to_string());
    let next: McpConfigRequest = m.add_server(config, new_b.clone());
    assert_eq!(next.servers.len(), 3);
    assert_eq!(ids(&next.servers), vec!["a".to_string(), "c".to_string(), "b".to_string()]);
    assert_eq!(next.servers[2], new_b);
    assert_eq!(next.servers.iter().filter(|s| s.id == "b").count(), 1);
}

#[test]
fn add_with_new_id_appends() {
    let m = DefaultCherryDbManager::new();
    let config = McpConfigResponse { servers: vec![record("a", "A")] };
    let next = m.add_server(config, request("z", "Z"));
    assert_eq!(ids(&next.servers), vec!["a".to_string(), "z".to_string()]);
}

#[test]
fn server_exists_reports_presence() {
    let m = DefaultCherryDbManager::new();
    let config = McpConfigResponse { servers: vec![record("a", "A"), record("b", "B")] };
    assert!(m.server_exists(&config, "b"));
    assert!(!m.server_exists(&config, "c"));
    assert!(!m.server_exists(&McpConfigResponse { servers: vec![] }, "a"));
}

#[test]
fn list_counts_records() {
    let m = DefaultCherryDbManager::new();
    let config = McpConfigResponse { servers: vec![record("a", "A"), record("b", "B")] };
    let list = m.list_servers(config);
    assert_eq!(list.total_count, 2);
    assert_eq!(list.servers[1].name, "B");
}

#[test]
fn rewrite_cycle_keeps_unrelated_fields() {
    let m = DefaultCherryDbManager::new();
    let store = vec![entry(
        "k",
        "{\"mcp\": \"{\\\"servers\\\":[]}\", \"other\": 1, \"theme\": {\"dark\": true}}",
    )];
    let located = m.read_mcp_config(store).unwrap();
    let w1 = m.write_mcp_config(located, "{\"servers\":[1]}".to_string());
    let located = m.read_mcp_config(vec![StoreEntry { key: w1.key, value: w1.value }]).unwrap();
    let w2 = m.write_mcp_config(located, "{\"servers\":[]}".to_string());
    let doc = decode_utf16_le_bytes(&w2.value).unwrap();
    let expected: serde_json::Value = serde_json::from_str(
        "{\"mcp\": \"{\\\"servers\\\":[]}\", \"other\": 1, \"theme\": {\"dark\": true}}",
    )
    .unwrap();
    assert_eq!(doc, expected);
}

#[test]
fn request_and_response_convert_field_for_field() {
    let mut r = record("a", "A");
    r.args = Some(vec!["--x".to_string()]);
    r.long_running = Some(true);
    let req = ServerRequest::from(r.clone());
    assert_eq!(req.args, r.args);
    assert_eq!(req.long_running, Some(true));
    assert_eq!(ServerResponse::from(req), r);
}

#[test]
fn nested_text_that_is_not_json_fails() {
    let m = DefaultCherryDbManager::new();
    let store = vec![entry("k", "{\"mcp\": \"{servers\"}"), entry("l", "{\"mcp\": \"{}\"}")];
    assert!(matches!(m.read_mcp_config(store), Err(CherryDbError::JsonError(_))));
}
