use mamoru_sdk::mamoru::{
    http, log, query, u256_from_str, HttpMethod, HttpRequest, Incident, IncidentSeverity, LogType,
};
use mamoru_sdk::mamoru_serialize::{data, DataBuilder};
use std::collections::HashMap;

#[test]
fn new_info_defaults() {
    let incident = Incident::new_info("tx".to_string(), "msg", None, None);
    assert_eq!(incident.severity, 0);
    assert_eq!(incident.message, "msg");
    assert_eq!(incident.tx_hash, "tx");
    assert_eq!(incident.address, "");
    assert!(incident.data.is_none());
}

#[test]
fn new_info_carries_address_and_data() {
    let mut b = DataBuilder::new();
    b.integer("n", 5);
    let v = data(&b);
    let incident =
        Incident::new_info("tx9".to_string(), "hit", Some(v), Some("0xabc".to_string()));
    assert_eq!(incident.severity, 0);
    assert_eq!(incident.address, "0xabc");
    assert!(incident.data.is_some());
}

#[test]
fn log_defaults_to_info() {
    let incident = log("tx".to_string(), "note", None, None, None);
    assert_eq!(incident.severity, 0);
    assert_eq!(incident.message, "note");
    assert_eq!(incident.tx_hash, "tx");
    assert_eq!(incident.address, "");
    assert!(incident.data.is_none());
}

#[test]
fn log_levels_map_to_ranks() {
    assert_eq!(log("t".to_string(), "m", Some(LogType::DEBUG), None, None).severity, 0);
    assert_eq!(log("t".to_string(), "m", Some(LogType::INFO), None, None).severity, 0);
    assert_eq!(log("t".to_string(), "m", Some(LogType::WARN), None, None).severity, 1);
    assert_eq!(log("t".to_string(), "m", Some(LogType::ERROR), None, None).severity, 2);
}

#[test]
fn severity_ranks() {
    assert_eq!(IncidentSeverity::Info.rank(), 0);
    assert_eq!(IncidentSeverity::Warning.rank(), 1);
    assert_eq!(IncidentSeverity::Error.rank(), 2);
    assert_eq!(IncidentSeverity::Alert.rank(), 3);
}

#[test]
fn http_answers_fixed_empty_success() {
    let request = HttpRequest {
        method: HttpMethod::Get,
        url: "https://example.invalid".to_string(),
        headers: HashMap::new(),
        body: None,
    };
    let response = http(request);
    assert_eq!(response.status, 200);
    assert!(response.error.is_none());
    assert!(response.headers.is_empty());
    assert!(response.body.is_none());
}

#[test]
fn u256_from_str_yields_empty_bytes() {
    assert_eq!(u256_from_str("12345".to_string()).len(), 0);
    assert_eq!(u256_from_str(String::new()).len(), 0);
}

#[test]
fn query_is_inert() {
    query("select 1".to_string());
}
