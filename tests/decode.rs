use loki2nats::envelope::{decode_envelope, decode_text, ProtocolError};
use loki2nats::json::Json;
use loki2nats::record::{extract_log_sources, make_record, LogRecord, MalformedRecordError, Payload};

fn s(x: &str) -> Json {
    Json::Str(x.to_string())
}

fn obj(members: Vec<(&str, Json)>) -> Json {
    Json::Object(members.into_iter().map(|(k, v)| (k.to_string(), v)).collect())
}

fn fields(members: Vec<(&str, &str)>) -> Vec<(String, Json)> {
    members.into_iter().map(|(k, v)| (k.to_string(), s(v))).collect()
}

fn pair(t: &str, line: &str) -> Json {
    Json::Array(vec![s(t), s(line)])
}

fn labels(host: bool) -> Json {
    let mut m = vec![("tenant", s("acme")), ("filename", s("app.log"))];
    if host {
        m.push(("host", s("web1")));
    }
    obj(m)
}

fn group(labels: Json, values: Vec<Json>) -> Json {
    obj(vec![("stream", labels), ("values", Json::Array(values))])
}

fn envelope(groups: Vec<Json>) -> Json {
    obj(vec![("streams", Json::Array(groups))])
}

fn record(r: &Result<LogRecord, MalformedRecordError>) -> &LogRecord {
    match r {
        Ok(rec) => rec,
        Err(e) => panic!("expected a record, got {:?}", e),
    }
}

fn id() -> String {
    "loki.example".to_string()
}

#[test]
fn emits_one_record_per_value_in_order() {
    let env = envelope(vec![
        group(labels(true), vec![pair("1", "a"), pair("2", "b")]),
        group(labels(true), vec![pair("3", "c"), pair("4", "d"), pair("5", "e")]),
    ]);
    let b = decode_envelope(&id(), &env).unwrap();
    assert_eq!(b.records.len(), 5);
    let times: Vec<String> = b.records.iter().map(|r| record(r).nanotime.clone()).collect();
    assert_eq!(times, vec!["1", "2", "3", "4", "5"]);
    assert_eq!(b.dropped, None);
}

#[test]
fn empty_streams_yield_nothing() {
    let b = decode_envelope(&id(), &envelope(vec![])).unwrap();
    assert_eq!(b.records.len(), 0);
}

#[test]
fn accepts_dropped_entries_beside_streams() {
    let env = obj(vec![
        ("streams", Json::Array(vec![group(labels(true), vec![pair("1", "a")])])),
        ("dropped_entries", Json::Array(vec![Json::Null, Json::Null])),
    ]);
    let b = decode_envelope(&id(), &env).unwrap();
    assert_eq!(b.records.len(), 1);
    assert_eq!(b.dropped, Some(2));
}

#[test]
fn rejects_unknown_top_level_key() {
    let env = obj(vec![
        ("streams", Json::Array(vec![])),
        ("dropped_entries", Json::Array(vec![])),
        ("extra", Json::Null),
    ]);
    assert_eq!(decode_envelope(&id(), &env).err(), Some(ProtocolError::BadEnvelope));
}

#[test]
fn rejects_envelope_without_streams_array() {
    assert_eq!(decode_envelope(&id(), &obj(vec![])).err(), Some(ProtocolError::BadEnvelope));
    let env = obj(vec![("streams", Json::Null)]);
    assert_eq!(decode_envelope(&id(), &env).err(), Some(ProtocolError::BadEnvelope));
    assert_eq!(decode_envelope(&id(), &Json::Array(vec![])).err(), Some(ProtocolError::BadEnvelope));
    let env = obj(vec![("streams", Json::Array(vec![])), ("dropped_entries", Json::Null)]);
    assert_eq!(decode_envelope(&id(), &env).err(), Some(ProtocolError::BadEnvelope));
}

#[test]
fn rejects_stream_group_with_extra_key() {
    let bad = obj(vec![
        ("stream", labels(true)),
        ("values", Json::Array(vec![])),
        ("other", Json::Null),
    ]);
    let env = envelope(vec![group(labels(true), vec![pair("1", "a")]), bad]);
    assert_eq!(decode_envelope(&id(), &env).err(), Some(ProtocolError::BadStreamGroup));
    let missing = obj(vec![("stream", labels(true))]);
    let env = envelope(vec![missing]);
    assert_eq!(decode_envelope(&id(), &env).err(), Some(ProtocolError::BadStreamGroup));
}

#[test]
fn raw_payload_for_plain_text() {
    let r = make_record(&id(), &fields(vec![("tenant", "acme"), ("host", "web1"), ("filename", "app.log")]),
        &pair("1710000000000000000", "hello world")).unwrap();
    assert_eq!(r.payload.raw(), Some("hello world".to_string()));
    assert_eq!(r.payload.structured(), None);
    assert_eq!(r.tenant, "acme");
    assert_eq!(r.source_host, "web1");
    assert_eq!(r.source_id, "loki.example");
    assert_eq!(r.nanotime, "1710000000000000000");
}

#[test]
fn structured_payload_for_json_text() {
    let l = fields(vec![("tenant", "acme"), ("host", "web1"), ("filename", "app.log")]);
    let r = make_record(&id(), &l, &pair("1710000000000000000", "{\"a\":1}")).unwrap();
    assert_eq!(r.payload.structured(), Some("{\"a\":1}".to_string()));
    assert_eq!(r.payload.raw(), None);
    let r = make_record(&id(), &l, &pair("1", "{ \"a\" :  1 }")).unwrap();
    assert_eq!(r.payload.structured(), Some("{\"a\":1}".to_string()));
    let r = make_record(&id(), &l, &pair("1", "123")).unwrap();
    assert!(matches!(r.payload, Payload::Structured(ref c) if c == "123"));
}

#[test]
fn missing_host_skips_only_that_line() {
    let env = envelope(vec![
        group(labels(false), vec![pair("1", "a")]),
        group(labels(true), vec![pair("2", "b"), pair("3", "c")]),
    ]);
    let b = decode_envelope(&id(), &env).unwrap();
    assert_eq!(b.records.len(), 3);
    assert_eq!(b.records[0].as_ref().err(), Some(&MalformedRecordError::MissingHost));
    assert_eq!(record(&b.records[1]).nanotime, "2");
    assert_eq!(record(&b.records[2]).nanotime, "3");
}

#[test]
fn log_source_falls_back_to_systemd_unit() {
    let r = extract_log_sources(&fields(vec![("tenant", "t"), ("host", "h"), ("filename", "app.log")])).unwrap();
    assert_eq!(r.2, "app.log");
    let r = extract_log_sources(&fields(vec![("tenant", "t"), ("host", "h"), ("systemd_unit", "app.service")])).unwrap();
    assert_eq!(r.2, "app.service");
    let r = extract_log_sources(&fields(vec![
        ("tenant", "t"), ("host", "h"), ("systemd_unit", "app.service"), ("filename", "app.log"),
    ])).unwrap();
    assert_eq!(r.2, "app.log");
    let r = extract_log_sources(&fields(vec![("tenant", "t"), ("host", "h")]));
    assert_eq!(r.err(), Some(MalformedRecordError::MissingSource));
}

#[test]
fn missing_tenant_is_malformed() {
    let r = extract_log_sources(&fields(vec![("host", "h"), ("filename", "f")]));
    assert_eq!(r.err(), Some(MalformedRecordError::MissingTenant));
    let mut l = fields(vec![("host", "h"), ("filename", "f")]);
    l.push(("tenant".to_string(), Json::Number("7".to_string())));
    assert_eq!(extract_log_sources(&l).err(), Some(MalformedRecordError::MissingTenant));
}

#[test]
fn bad_value_pairs_are_malformed() {
    let l = fields(vec![("tenant", "acme"), ("host", "web1"), ("filename", "app.log")]);
    let three = Json::Array(vec![s("1"), s("a"), s("b")]);
    assert_eq!(make_record(&id(), &l, &three).err(), Some(MalformedRecordError::BadValuePair));
    let number = Json::Array(vec![Json::Number("1".to_string()), s("a")]);
    assert_eq!(make_record(&id(), &l, &number).err(), Some(MalformedRecordError::BadValuePair));
    assert_eq!(make_record(&id(), &l, &s("x")).err(), Some(MalformedRecordError::BadValuePair));
}

#[test]
fn decodes_wire_text() {
    let text = r#"{"streams":[{"stream":{"tenant":"acme","host":"web1","systemd_unit":"app.service"},"values":[["17","hello world"],["18","{\"a\": [1, 2]}"]]}],"dropped_entries":[{}]}"#;
    let b = decode_text(&id(), text).unwrap();
    assert_eq!(b.dropped, Some(1));
    assert_eq!(b.records.len(), 2);
    let r0 = record(&b.records[0]);
    assert_eq!(r0.source_log, "app.service");
    assert_eq!(r0.payload.raw(), Some("hello world".to_string()));
    let r1 = record(&b.records[1]);
    assert_eq!(r1.payload.structured(), Some("{\"a\":[1,2]}".to_string()));
}

#[test]
fn text_that_is_not_json_breaks_protocol() {
    assert_eq!(decode_text(&id(), "not json").err(), Some(ProtocolError::NotJson));
    let text = r#"{"streams":[],"bogus":1}"#;
    assert_eq!(decode_text(&id(), text).err(), Some(ProtocolError::BadEnvelope));
}
