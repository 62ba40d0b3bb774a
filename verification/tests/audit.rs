use axiomhive::audit::{
    entry_json_text, last_line_span, last_readable_line_span, AuditEntry, AuditError, AuditLog,
    StoreTail, TailPolicy,
};
use axiomhive::dag::dag::{DagNode, RequestDag};
use uuid::Uuid;

fn object1(key: &str, value: serde_json::Value) -> String {
    let mut map = serde_json::Map::new();
    map.insert(key.to_string(), value);
    serde_json::Value::Object(map).to_string()
}

fn text_of(value: &serde_json::Value, key: &str) -> String {
    value.get(key).and_then(|v| v.as_str()).expect(key).to_string()
}

fn entry_from_line(line: &str) -> Option<AuditEntry> {
    let value: serde_json::Value = serde_json::from_str(line).ok()?;
    let dag = value
        .get("dag")?
        .as_array()?
        .iter()
        .map(|n| DagNode {
            id: text_of(n, "id"),
            node_type: text_of(n, "node_type"),
            payload: n.get("payload").expect("payload").to_string(),
        })
        .collect();
    Some(AuditEntry {
        timestamp: text_of(&value, "timestamp"),
        request_id: text_of(&value, "request_id"),
        mode: text_of(&value, "mode"),
        merkle_root: text_of(&value, "merkle_root"),
        dag,
        prev_hash: text_of(&value, "prev_hash"),
        hash: text_of(&value, "hash"),
    })
}

fn recover(store: &str) -> AuditLog {
    let last = last_line_span(store.as_bytes())
        .and_then(|(start, end)| entry_from_line(&store[start..end]));
    AuditLog::new(last)
}

#[test]
fn merkle_root_is_deterministic() {
    let mut dag = RequestDag::default();
    dag.add_node("policy", object1("ok", serde_json::Value::Bool(true)));
    dag.add_node("model", object1("run", serde_json::Value::from(1)));
    let first = dag.merkle_root().expect("root");
    let mut dag2 = RequestDag::default();
    dag2.add_node("policy", object1("ok", serde_json::Value::Bool(true)));
    dag2.add_node("model", object1("run", serde_json::Value::from(1)));
    let second = dag2.merkle_root().expect("root");
    assert_eq!(first, second);
}

#[test]
fn audit_log_chains_hashes() {
    let mut log = AuditLog::new(None);

    let mut dag = RequestDag::default();
    dag.add_node("policy", object1("ok", serde_json::Value::Bool(true)));
    let first = log.append(&Uuid::new_v4().to_string(), "creative", &dag);

    let second = log.append(&Uuid::new_v4().to_string(), "verified", &dag);

    assert_eq!(second.prev_hash, first.hash);
}

#[test]
fn first_entry_has_empty_prev_hash() {
    let mut log = AuditLog::new(None);
    assert_eq!(log.last_hash(), "");
    let dag = RequestDag::default();
    let first = log.append("r-1", "creative", &dag);
    assert_eq!(first.prev_hash, "");
    assert_eq!(log.last_hash(), first.hash);
    assert_eq!(first.hash.len(), 64);
    assert!(chrono::DateTime::parse_from_rfc3339(&first.timestamp).is_ok());
}

#[test]
fn chain_of_many_appends_is_unbroken() {
    let mut log = AuditLog::new(None);
    let mut dag = RequestDag::default();
    dag.add_node("policy", "{}".to_string());
    let mut entries = Vec::new();
    for i in 0..8 {
        entries.push(log.append(&format!("req-{i}"), "creative", &dag));
    }
    assert_eq!(entries.len(), 8);
    assert_eq!(entries[0].prev_hash, "");
    for i in 1..entries.len() {
        assert_eq!(entries[i].prev_hash, entries[i - 1].hash);
        assert_ne!(entries[i].hash, entries[i - 1].hash);
    }
    assert_eq!(log.last_hash(), entries[7].hash);
}

#[test]
fn empty_dag_records_sentinel_root() {
    let dag = RequestDag::default();
    assert_eq!(dag.merkle_root(), None);
    let log = AuditLog::new(None);
    let entry = log.prepare("2024-01-01T00:00:00+00:00", "r", "creative", &dag);
    assert_eq!(entry.merkle_root, "empty-dag");
    assert!(entry.dag.is_empty());
}

#[test]
fn entry_embeds_dag_root_and_nodes() {
    let mut dag = RequestDag::default();
    dag.add_node("policy", "{\"ok\":true}".to_string());
    dag.add_node("model", "{\"run\":1}".to_string());
    let log = AuditLog::new(None);
    let entry = log.prepare("t", "r", "verified", &dag);
    assert_eq!(Some(entry.merkle_root.clone()), dag.merkle_root());
    assert_eq!(entry.hash.len(), 64);
    assert_eq!(entry.dag.len(), 2);
    assert_eq!(entry.dag[1].id, "model-1");
    assert_eq!(entry.mode, "verified");
    assert_eq!(entry.request_id, "r");
    assert_eq!(entry.timestamp, "t");
}

#[test]
fn entry_hash_covers_prev_hash_and_blank_record() {
    let mut dag = RequestDag::default();
    dag.add_node("policy", "{\"ok\":true}".to_string());
    let mut log = AuditLog::new(None);
    let first = log.prepare("t0", "id-0", "creative", &dag);
    log.commit(&first, true).unwrap();
    let second = log.prepare("t1", "id-1", "verified", &dag);

    let blank = "{\"timestamp\":\"t1\",\"request_id\":\"id-1\",\"mode\":\"verified\",\"merkle_root\":\""
        .to_string()
        + &second.merkle_root
        + "\",\"dag\":[{\"id\":\"policy-0\",\"node_type\":\"policy\",\"payload\":{\"ok\":true}}],\"prev_hash\":\""
        + &first.hash
        + "\",\"hash\":\"\"}";
    let mut hasher = blake3::Hasher::new();
    hasher.update(first.hash.as_bytes());
    hasher.update(blank.as_bytes());
    assert_eq!(second.hash, hasher.finalize().to_hex().to_string());
}

#[test]
fn entry_line_is_one_json_object() {
    let mut dag = RequestDag::default();
    dag.add_node("policy", "{\"note\":\"a \\\"quoted\\\" word\"}".to_string());
    let log = AuditLog::new(None);
    let entry = log.prepare("t", "r\"1", "creative", &dag);
    let line = entry_json_text(&entry);
    assert!(!line.contains('\n'));
    let back = entry_from_line(&line).expect("parsable");
    assert_eq!(back.request_id, "r\"1");
    assert_eq!(back.hash, entry.hash);
    assert_eq!(back.prev_hash, entry.prev_hash);
    assert_eq!(back.dag[0].payload, entry.dag[0].payload);
}

#[test]
fn failed_write_leaves_tip_unchanged() {
    let mut log = AuditLog::new(None);
    let dag = RequestDag::default();
    let first = log.append("a", "creative", &dag);
    let staged = log.prepare("t", "b", "creative", &dag);
    assert_eq!(log.commit(&staged, false), Err(AuditError::StoreUnavailable));
    assert_eq!(log.last_hash(), first.hash);
    let retry = log.prepare("t", "b", "creative", &dag);
    assert_eq!(retry.prev_hash, first.hash);
    assert_eq!(retry.hash, staged.hash);
    assert_eq!(log.commit(&retry, true), Ok(()));
    assert_eq!(log.last_hash(), retry.hash);
}

#[test]
fn recovered_tip_is_last_entry_hash() {
    let mut store = String::new();
    let mut log = recover(&store);
    let mut dag = RequestDag::default();
    dag.add_node("policy", "{\"ok\":true}".to_string());
    let first = log.append("one", "creative", &dag);
    store.push_str(&entry_json_text(&first));
    store.push('\n');
    let second = log.append("two", "verified", &dag);
    store.push_str(&entry_json_text(&second));
    store.push('\n');

    let mut fresh = recover(&store);
    assert_eq!(fresh.last_hash(), second.hash);
    let third = fresh.append("three", "creative", &dag);
    assert_eq!(third.prev_hash, second.hash);
}

#[test]
fn unparsable_last_line_resets_tip() {
    let mut log = AuditLog::new(None);
    let dag = RequestDag::default();
    let first = log.append("one", "creative", &dag);
    let store = entry_json_text(&first) + "\n{\"timestamp\": broken\n";
    let fresh = recover(&store);
    assert_eq!(fresh.last_hash(), "");
    assert_eq!(recover("").last_hash(), "");
}

#[test]
fn last_line_span_cases() {
    assert_eq!(last_line_span(b""), None);
    assert_eq!(last_line_span(b"\n"), Some((0, 0)));
    assert_eq!(last_line_span(b"abc"), Some((0, 3)));
    assert_eq!(last_line_span(b"abc\n"), Some((0, 3)));
    assert_eq!(last_line_span(b"abc\ndef"), Some((4, 7)));
    assert_eq!(last_line_span(b"abc\ndef\n"), Some((4, 7)));
    assert_eq!(last_line_span(b"abc\r\ndef\r\n"), Some((5, 8)));
    assert_eq!(last_line_span(b"abc\ndef\r"), Some((4, 8)));
    assert_eq!(last_line_span(b"abc\n\n"), Some((4, 4)));
    assert_eq!(last_line_span(b"\r\n"), Some((0, 0)));
}

#[test]
fn unreadable_tail_is_lenient_or_strict() {
    let lenient = AuditLog::recover(StoreTail::Unreadable, TailPolicy::Lenient).unwrap();
    assert_eq!(lenient.last_hash(), "");
    assert!(matches!(
        AuditLog::recover(StoreTail::Unreadable, TailPolicy::Strict),
        Err(AuditError::CorruptTail)
    ));
    let missing = AuditLog::recover(StoreTail::Missing, TailPolicy::Strict).unwrap();
    assert_eq!(missing.last_hash(), "");
    let mut log = AuditLog::new(None);
    let entry = log.append("one", "creative", &RequestDag::default());
    let hash = entry.hash.clone();
    let resumed = AuditLog::recover(StoreTail::Record(entry), TailPolicy::Strict).unwrap();
    assert_eq!(resumed.last_hash(), hash);
}

#[test]
fn lines_that_are_not_text_are_passed_over() {
    assert_eq!(last_readable_line_span(b""), None);
    assert_eq!(last_readable_line_span(b"abc\ndef\n"), Some((4, 7)));
    assert_eq!(last_readable_line_span(b"abc\r\ndef"), Some((5, 8)));
    assert_eq!(last_readable_line_span(b"abc\n\xff\xfe\n"), Some((0, 3)));
    assert_eq!(last_readable_line_span(b"abc\n\xff\n\xc3\n"), Some((0, 3)));
    assert_eq!(last_readable_line_span(b"abc\n\xc3\xa9\n\xff"), Some((4, 6)));
    assert_eq!(last_readable_line_span(b"\xff\n\xfe"), None);
    assert_eq!(last_readable_line_span(b"\xff"), None);
    assert_eq!(last_readable_line_span(b"\n"), Some((0, 0)));
    assert_eq!(last_readable_line_span(b"\xff\n\n"), Some((2, 2)));
}

#[test]
fn record_line_holds_no_line_break() {
    let mut dag = RequestDag::default();
    dag.add_node("policy\n", "{\"note\":\"a\\nb\"}".to_string());
    let log = AuditLog::new(None);
    let entry = log.prepare("t\r\n", "r\n1", "creative", &dag);
    let line = entry_json_text(&entry);
    assert!(!line.contains('\n') && !line.contains('\r'));
    let store = line.clone() + "\n";
    assert_eq!(last_readable_line_span(store.as_bytes()), Some((0, line.len())));
}
