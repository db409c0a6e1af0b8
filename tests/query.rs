use loki2nats::query::{connect_target, upgrade_headers, TailQuery, TargetError};

#[test]
fn tail_url_encodes_filter() {
    let q = TailQuery::new("loki.example".to_string(), "{job=\"x\"}".to_string(), 0);
    assert_eq!(q.tail_url(), "wss://loki.example/loki/api/v1/tail?limit=1&query=%7Bjob%3D%22x%22%7D&start=0");
    let q = TailQuery::new("h".to_string(), "a-b_c.d~e f/é".to_string(), 1710000000000000000);
    assert_eq!(q.tail_path(), "/loki/api/v1/tail?limit=1&query=a-b_c.d~e%20f%2F%C3%A9&start=1710000000000000000");
}

#[test]
fn connect_target_defaults_port() {
    assert_eq!(connect_target("wss://loki.example/loki/api/v1/tail"), Ok(("loki.example".to_string(), 443)));
    assert_eq!(connect_target("wss://loki.example:8443/x"), Ok(("loki.example".to_string(), 8443)));
    assert_eq!(connect_target("not a url"), Err(TargetError::InvalidUrl));
    assert_eq!(connect_target("wss://127.0.0.1/x"), Err(TargetError::NoDomain));
}

#[test]
fn upgrade_request_headers() {
    let h = upgrade_headers(&"loki.example".to_string(), &"abc==".to_string());
    let want = vec![
        ("Host", "loki.example"),
        ("Upgrade", "websocket"),
        ("Connection", "upgrade"),
        ("Sec-WebSocket-Key", "abc=="),
        ("Sec-WebSocket-Version", "13"),
    ];
    let got: Vec<(&str, &str)> = h.iter().map(|(k, v)| (k.as_str(), v.as_str())).collect();
    assert_eq!(got, want);
}
