use compute_worker::task::{Metadata, ResultData, WarningKind};
use compute_worker::wire::{gossip_payload, metadata_json, submit_body};

fn number_json(x: f64) -> Vec<u8> {
    serde_json::to_vec(&x).unwrap()
}

fn render(meta: &Metadata) -> Vec<u8> {
    let (min, max, average) = match meta {
        Metadata::VectorStats { min, max, average, .. } => (
            number_json(f64::from_bits(*min)),
            number_json(f64::from_bits(*max)),
            number_json(f64::from_bits(*average)),
        ),
        _ => (Vec::new(), Vec::new(), Vec::new()),
    };
    metadata_json(meta, &min, &max, &average)
}

fn expected_map_json(entries: &[(&str, serde_json::Value)]) -> Vec<u8> {
    let mut map = serde_json::Map::new();
    for (k, v) in entries {
        map.insert(k.to_string(), v.clone());
    }
    serde_json::to_vec(&serde_json::Value::Object(map)).unwrap()
}

#[test]
fn factorial_metadata_matches_reference_serializer() {
    let rendered = render(&Metadata::FactorialN { n: 5 });
    assert_eq!(rendered, expected_map_json(&[("n", serde_json::Value::from(5u64))]));
    let large = u64::MAX;
    let rendered = render(&Metadata::FactorialN { n: large });
    assert_eq!(rendered, expected_map_json(&[("n", serde_json::Value::from(large))]));
    let zero = render(&Metadata::FactorialN { n: 0 });
    assert_eq!(zero, expected_map_json(&[("n", serde_json::Value::from(0u64))]));
}

#[test]
fn vector_stats_metadata_matches_reference_serializer() {
    let meta = Metadata::VectorStats {
        count: 3,
        min: 1.0f64.to_bits(),
        max: 3.0f64.to_bits(),
        average: 2.0f64.to_bits(),
    };
    let expected = expected_map_json(&[
        ("count", serde_json::Value::from(3u64)),
        ("min", serde_json::Value::from(1.0f64)),
        ("max", serde_json::Value::from(3.0f64)),
        ("average", serde_json::Value::from(2.0f64)),
    ]);
    assert_eq!(render(&meta), expected);
}

#[test]
fn mean_and_warning_metadata_match_reference_serializer() {
    let rendered = render(&Metadata::MeanCount { count: 2 });
    assert_eq!(rendered, expected_map_json(&[("count", serde_json::Value::from(2u64))]));
    let rendered = render(&Metadata::Warning { which: WarningKind::MeanMissingValues });
    assert_eq!(
        rendered,
        expected_map_json(&[(
            "warning",
            serde_json::Value::String("mean payload missing".to_string())
        )])
    );
}

#[test]
fn submit_body_matches_reference_serializer() {
    let meta = Metadata::MeanCount { count: 2 };
    let result = ResultData {
        id: "task \"x\"".to_string(),
        worker: "worker-node".to_string(),
        output: 1.5f64.to_bits(),
        kind: Some("arithmetic".to_string()),
        payload: Some(meta),
    };
    let payload_json = Some(render(&meta));
    let body = submit_body(&result, &number_json(1.5), &payload_json, "UEs=", "U0lH");

    let expected = expected_map_json(&[
        ("id", serde_json::Value::String("task \"x\"".to_string())),
        ("worker", serde_json::Value::String("worker-node".to_string())),
        ("output", serde_json::Value::from(1.5f64)),
        ("signature", serde_json::Value::String("U0lH".to_string())),
        ("pub_key", serde_json::Value::String("UEs=".to_string())),
        ("kind", serde_json::Value::String("arithmetic".to_string())),
        (
            "payload",
            serde_json::from_slice::<serde_json::Value>(&render(&meta)).unwrap(),
        ),
    ]);
    assert_eq!(body, expected);
}

#[test]
fn submit_body_omits_absent_kind_and_payload() {
    let result = ResultData {
        id: "t".to_string(),
        worker: "w".to_string(),
        output: 2.0f64.to_bits(),
        kind: None,
        payload: None,
    };
    let body = submit_body(&result, &number_json(2.0), &None, "UEs=", "U0lH");
    let expected = expected_map_json(&[
        ("id", serde_json::Value::String("t".to_string())),
        ("worker", serde_json::Value::String("w".to_string())),
        ("output", serde_json::Value::from(2.0f64)),
        ("signature", serde_json::Value::String("U0lH".to_string())),
        ("pub_key", serde_json::Value::String("UEs=".to_string())),
    ]);
    assert_eq!(body, expected);
}

#[test]
fn gossip_payload_is_the_serialized_pair() {
    let meta = Metadata::FactorialN { n: 4 };
    let result = ResultData {
        id: "task-9".to_string(),
        worker: "worker-node".to_string(),
        output: 24.0f64.to_bits(),
        kind: Some("arithmetic".to_string()),
        payload: Some(meta),
    };
    let payload_json = Some(render(&meta));
    let bytes = gossip_payload(&result, &number_json(24.0), &payload_json, "U0lH");
    let expected = format!(
        "[{{\"id\":\"task-9\",\"worker\":\"worker-node\",\"output\":{},\"kind\":\"arithmetic\",\"payload\":{}}},\"U0lH\"]",
        serde_json::to_string(&24.0f64).unwrap(),
        String::from_utf8(render(&meta)).unwrap(),
    );
    assert_eq!(bytes, expected.into_bytes());

    let parsed: (serde_json::Value, String) = serde_json::from_slice(&bytes).unwrap();
    assert_eq!(parsed.1, "U0lH");
    assert_eq!(parsed.0["id"], serde_json::Value::String("task-9".to_string()));
}
