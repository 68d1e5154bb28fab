use pod_gateway::dispatch::{pod_from_body, query_get, PodBody};
use pod_gateway::error::{classify, Error, ErrorType};
use pod_gateway::memory::MemoryProvider;
use pod_gateway::models::{CapacityEntry, NodeCondition, Pod};
use pod_gateway::routes;
use pod_gateway::routes::{Method, Operation};
use pod_gateway::types::ProviderState;
use pod_gateway::utils::{parse_integral, str_eq};
use pod_gateway::wire::{capacity_to_json, json_escape, json_quote, pod_to_json, pods_to_json};

fn empty_state() -> ProviderState<MemoryProvider> {
    ProviderState::new(Box::new(MemoryProvider::new(
        "Linux".to_owned(),
        Vec::new(),
        Vec::new(),
    )))
}

fn pod(ns: &str, name: &str) -> Pod {
    Pod::new(ns.to_owned(), name.to_owned())
}

fn query(pairs: &[(&str, &str)]) -> Vec<(String, String)> {
    pairs
        .iter()
        .map(|(k, v)| (k.to_string(), v.to_string()))
        .collect()
}

#[test]
fn classify_not_found_is_404() {
    let e = Error::not_found("missing");
    assert_eq!(classify(&e), 404);
    assert_eq!(e.etype, ErrorType::NotFound);
    assert_eq!(e.message, "missing");
}

#[test]
fn classify_unknown_is_500() {
    let e = Error::new("boom");
    assert_eq!(classify(&e), 500);
    assert_eq!(e.etype, ErrorType::Unknown);
    assert_eq!(e.message, "boom");
}

#[test]
fn create_then_get_returns_matching_pod() {
    let state = empty_state();
    let r = routes::create_pod(&state, PodBody::Parsed(pod("default", "web")));
    assert_eq!(r.status, 200);
    assert_eq!(r.body, "Pod created");

    let q = query(&[("namespace", "default"), ("name", "web")]);
    let r = routes::get_pod(&state, &q);
    assert_eq!(r.status, 200);
    assert_eq!(r.body, "{\"namespace\":\"default\",\"name\":\"web\"}");
}

#[test]
fn empty_and_malformed_bodies_get_distinct_400() {
    let state = empty_state();
    let empty = routes::create_pod(&state, PodBody::Empty);
    let malformed = routes::create_pod(&state, PodBody::Malformed);
    assert_eq!(empty.status, 400);
    assert_eq!(malformed.status, 400);
    assert_eq!(empty.body, "Empty pod specification received");
    assert_eq!(malformed.body, "Invalid pod specification received");
    assert_ne!(empty.body, malformed.body);
}

#[test]
fn rejected_body_never_reaches_backend() {
    let state = empty_state();
    let _ = routes::create_pod(&state, PodBody::Malformed);
    let r = routes::get_pods(&state);
    assert_eq!(r.status, 200);
    assert_eq!(r.body, "[]");
}

#[test]
fn operating_system_is_idempotent_read() {
    let state = empty_state();
    let first = routes::operating_system(&state);
    let second = routes::operating_system(&state);
    assert_eq!(first.status, 200);
    assert_eq!(first.body, "Linux");
    assert_eq!(second.status, first.status);
    assert_eq!(second.body, first.body);
}

#[test]
fn get_pod_unknown_name_is_404_not_500() {
    let state = empty_state();
    let q = query(&[("namespace", "default"), ("name", "ghost")]);
    let r = routes::get_pod(&state, &q);
    assert_eq!(r.status, 404);
    assert_ne!(r.status, 500);
}

#[test]
fn update_replaces_pod_under_same_identity() {
    let state = empty_state();
    let _ = routes::create_pod(&state, PodBody::Parsed(pod("ns", "a")));
    let r = routes::update_pod(&state, PodBody::Parsed(pod("ns", "a")));
    assert_eq!(r.status, 200);
    assert_eq!(r.body, "Pod updated");
    let r = routes::get_pods(&state);
    assert_eq!(r.body, "[{\"namespace\":\"ns\",\"name\":\"a\"}]");
}

#[test]
fn delete_removes_pod_and_reports_missing() {
    let state = empty_state();
    let _ = routes::create_pod(&state, PodBody::Parsed(pod("ns", "a")));
    let r = routes::delete_pod(&state, PodBody::Parsed(pod("ns", "a")));
    assert_eq!(r.status, 200);
    assert_eq!(r.body, "Pod deleted");

    let q = query(&[("namespace", "ns"), ("name", "a")]);
    assert_eq!(routes::get_pod(&state, &q).status, 404);

    let r = routes::delete_pod(&state, PodBody::Parsed(pod("ns", "a")));
    assert_eq!(r.status, 404);
}

#[test]
fn write_to_one_identity_leaves_others_readable_unchanged() {
    let state = empty_state();
    let _ = routes::create_pod(&state, PodBody::Parsed(pod("ns", "stable")));
    let q = query(&[("namespace", "ns"), ("name", "stable")]);
    let before = routes::get_pod(&state, &q);
    let _ = routes::create_pod(&state, PodBody::Parsed(pod("ns", "other")));
    let _ = routes::delete_pod(&state, PodBody::Parsed(pod("ns", "other")));
    let after = routes::get_pod(&state, &q);
    assert_eq!(before.status, 200);
    assert_eq!(after.status, before.status);
    assert_eq!(after.body, before.body);
}

#[test]
fn get_pods_lists_every_pod_in_order() {
    let state = empty_state();
    let _ = routes::create_pod(&state, PodBody::Parsed(pod("n1", "a")));
    let _ = routes::create_pod(&state, PodBody::Parsed(pod("n2", "b")));
    let r = routes::get_pods(&state);
    assert_eq!(r.status, 200);
    assert_eq!(
        r.body,
        "[{\"namespace\":\"n1\",\"name\":\"a\"},{\"namespace\":\"n2\",\"name\":\"b\"}]"
    );
}

#[test]
fn get_pod_status_reports_running_or_missing() {
    let state = empty_state();
    let _ = routes::create_pod(&state, PodBody::Parsed(pod("ns", "a")));
    let q = query(&[("namespace", "ns"), ("name", "a")]);
    let r = routes::get_pod_status(&state, &q);
    assert_eq!(r.status, 200);
    assert_eq!(r.body, "{\"phase\":\"Running\",\"message\":\"\"}");

    let q = query(&[("namespace", "ns"), ("name", "other")]);
    assert_eq!(routes::get_pod_status(&state, &q).status, 404);
}

#[test]
fn capacity_and_conditions_encode_as_json() {
    let capacity = vec![
        CapacityEntry {
            resource: "cpu".to_owned(),
            quantity: "4".to_owned(),
        },
        CapacityEntry {
            resource: "memory".to_owned(),
            quantity: "8Gi".to_owned(),
        },
    ];
    let conditions = vec![NodeCondition {
        condition: "Ready".to_owned(),
        status: "True".to_owned(),
    }];
    let state = ProviderState::new(Box::new(MemoryProvider::new(
        "Linux".to_owned(),
        capacity,
        conditions,
    )));
    let r = routes::capacity(&state);
    assert_eq!(r.status, 200);
    assert_eq!(r.body, "{\"cpu\":\"4\",\"memory\":\"8Gi\"}");
    let r = routes::node_conditions(&state);
    assert_eq!(r.status, 200);
    assert_eq!(r.body, "[{\"type\":\"Ready\",\"status\":\"True\"}]");
}

#[test]
fn empty_capacity_is_empty_object() {
    let state = empty_state();
    assert_eq!(routes::capacity(&state).body, "{}");
    assert_eq!(routes::node_conditions(&state).body, "[]");
}

#[test]
fn route_table_matches_fixed_surface() {
    assert_eq!(routes::route_lookup(Method::Get, "/"), Some(Operation::Index));
    assert_eq!(
        routes::route_lookup(Method::Post, "/createPod"),
        Some(Operation::CreatePod)
    );
    assert_eq!(
        routes::route_lookup(Method::Put, "/updatePod"),
        Some(Operation::UpdatePod)
    );
    assert_eq!(
        routes::route_lookup(Method::Put, "/deletePod"),
        Some(Operation::DeletePod)
    );
    assert_eq!(routes::route_lookup(Method::Put, "/getPod"), Some(Operation::GetPod));
    assert_eq!(
        routes::route_lookup(Method::Put, "/getPodStatus"),
        Some(Operation::GetPodStatus)
    );
    assert_eq!(routes::route_lookup(Method::Put, "/getPods"), Some(Operation::GetPods));
    assert_eq!(routes::route_lookup(Method::Put, "/capacity"), Some(Operation::Capacity));
    assert_eq!(
        routes::route_lookup(Method::Put, "/nodeConditions"),
        Some(Operation::NodeConditions)
    );
    assert_eq!(
        routes::route_lookup(Method::Put, "/operatingSystem"),
        Some(Operation::OperatingSystem)
    );
    assert_eq!(routes::route_lookup(Method::Get, "/createPod"), None);
    assert_eq!(routes::route_lookup(Method::Put, "/"), None);
    assert_eq!(routes::route_lookup(Method::Put, "/nope"), None);
}

#[test]
fn handle_request_serves_routed_paths_only() {
    let state = empty_state();
    let q = Vec::new();
    let r = pod_gateway::routes::handle_request(&state, Method::Get, "/", PodBody::Empty, &q);
    let r = r.expect("index route serves");
    assert_eq!(r.status, 200);
    assert_eq!(r.body, "Welcome to Rust kubelet provider");

    let none = pod_gateway::routes::handle_request(&state, Method::Put, "/other", PodBody::Empty, &q);
    assert!(none.is_none());
}

#[test]
fn json_escaping_handles_quotes_backslashes_and_controls() {
    assert_eq!(json_escape("plain"), "plain");
    assert_eq!(json_escape("a\"b"), "a\\\"b");
    assert_eq!(json_escape("a\\b"), "a\\\\b");
    assert_eq!(json_escape("a\nb"), "a\\u000ab");
    assert_eq!(json_escape("\t"), "\\u0009");
    assert_eq!(json_quote("x"), "\"x\"");
    assert_eq!(json_quote(""), "\"\"");
}

#[test]
fn pod_encoding_escapes_identity_fields() {
    let p = pod("na\"me", "n");
    assert_eq!(pod_to_json(&p), "{\"namespace\":\"na\\\"me\",\"name\":\"n\"}");
    let pods = vec![pod("a", "b")];
    assert_eq!(pods_to_json(&pods), "[{\"namespace\":\"a\",\"name\":\"b\"}]");
    let empty: Vec<Pod> = Vec::new();
    assert_eq!(pods_to_json(&empty), "[]");
    let caps: Vec<CapacityEntry> = Vec::new();
    assert_eq!(capacity_to_json(&caps), "{}");
}

#[test]
fn query_parameters_default_to_empty_and_last_binding_wins() {
    let q = query(&[("namespace", "a"), ("namespace", "b")]);
    assert_eq!(query_get(&q, "namespace"), "b");
    assert_eq!(query_get(&q, "name"), "");
    let empty: Vec<(String, String)> = Vec::new();
    assert_eq!(query_get(&empty, "namespace"), "");
}

#[test]
fn body_extraction_distinguishes_cases() {
    match pod_from_body(PodBody::Parsed(pod("a", "b"))) {
        Ok(p) => {
            assert_eq!(p.namespace, "a");
            assert_eq!(p.name, "b");
        }
        Err(_) => panic!("parsed body must yield the pod"),
    }
    match pod_from_body(PodBody::Empty) {
        Ok(_) => panic!("empty body must be rejected"),
        Err(r) => {
            assert_eq!(r.status, 400);
            assert_eq!(r.body, "Empty pod specification received");
        }
    }
    match pod_from_body(PodBody::Malformed) {
        Ok(_) => panic!("malformed body must be rejected"),
        Err(r) => {
            assert_eq!(r.status, 400);
            assert_eq!(r.body, "Invalid pod specification received");
        }
    }
}

#[test]
fn parse_integral_reads_decimals_with_default() {
    assert_eq!(parse_integral(Some("8080"), 3000), 8080);
    assert_eq!(parse_integral(Some("+123"), 3000), 123);
    assert_eq!(parse_integral(Some("0"), 3000), 0);
    assert_eq!(parse_integral(Some("65535"), 3000), 65535);
    assert_eq!(parse_integral(Some("65536"), 3000), 3000);
    assert_eq!(parse_integral(Some("999999999999"), 3000), 3000);
    assert_eq!(parse_integral(Some(""), 3000), 3000);
    assert_eq!(parse_integral(Some("+"), 3000), 3000);
    assert_eq!(parse_integral(Some("12a"), 3000), 3000);
    assert_eq!(parse_integral(Some("-1"), 3000), 3000);
    assert_eq!(parse_integral(None, 3000), 3000);
}

#[test]
fn str_eq_compares_by_characters() {
    assert!(str_eq("", ""));
    assert!(str_eq("abc", "abc"));
    assert!(!str_eq("abc", "abd"));
    assert!(!str_eq("abc", "ab"));
    assert!(str_eq("naïve", "naïve"));
}
