use nyxflare::model::{Account, AuthMode, DnsRecord};
use nyxflare::wire::{
    create_record_request, delete_record_request, interpret_delete_response,
    interpret_item_response, interpret_records_response, interpret_zones_response, records_request,
    truncate_body, update_record_request, zones_request, CfDeleteResponse, CfError,
    CfItemResponse, CfRecord, CfRecordWrite, CfResponse, CfZone, HttpMethod,
};
use nyxflare::model::Zone;

fn cf_account() -> Account {
    Account {
        name: "cf".to_string(),
        api_token: "cf-token".to_string(),
        email: Some("user@example.com".to_string()),
        account_id: Some("acc-1".to_string()),
        auth_mode: AuthMode::Token,
    }
}

fn cf_zone() -> Zone {
    Zone { id: "zone-1".to_string(), name: "example.com".to_string() }
}

fn record(id: &str, name: &str, record_type: &str, content: &str) -> DnsRecord {
    DnsRecord {
        id: id.to_string(),
        name: name.to_string(),
        record_type: record_type.to_string(),
        content: content.to_string(),
        ttl: 300,
        proxied: false,
    }
}

#[test]
fn cloudflare_list_zones_parses_success() {
    let request = zones_request("https://api.example/v4", &cf_account());
    assert!(matches!(request.method, HttpMethod::Get));
    assert_eq!(request.url, "https://api.example/v4/zones");
    assert!(request.query.iter().any(|(k, v)| k == "per_page" && v == "200"));
    assert!(request.query.iter().any(|(k, v)| k == "account.id" && v == "acc-1"));
    assert!(request.headers.iter().any(|(k, v)| k == "Authorization" && v == "Bearer cf-token"));

    let envelope = CfResponse {
        success: true,
        errors: vec![],
        result: Some(vec![
            CfZone { id: "zone-1".to_string(), name: "example.com".to_string() },
            CfZone { id: "zone-2".to_string(), name: "demo.net".to_string() },
        ]),
    };
    let zones = interpret_zones_response(200, "{}", Some(envelope)).unwrap();
    assert_eq!(zones.len(), 2);
    assert_eq!(zones[0].name, "example.com");
}

#[test]
fn cloudflare_list_records_parses_success() {
    let zone = cf_zone();
    let request = records_request("https://api.example/v4", &cf_account(), &zone);
    assert!(matches!(request.method, HttpMethod::Get));
    assert_eq!(request.url, "https://api.example/v4/zones/zone-1/dns_records");
    assert!(request.query.iter().any(|(k, v)| k == "per_page" && v == "200"));
    assert!(request.headers.iter().any(|(k, v)| k == "Authorization" && v == "Bearer cf-token"));

    let envelope = CfResponse {
        success: true,
        errors: vec![],
        result: Some(vec![
            CfRecord {
                id: "rec-1".to_string(),
                name: "api.example.com".to_string(),
                record_type: "A".to_string(),
                content: "1.1.1.1".to_string(),
                ttl: Some(120),
                proxied: Some(true),
            },
            CfRecord {
                id: "rec-2".to_string(),
                name: "edge.example.com".to_string(),
                record_type: "CNAME".to_string(),
                content: "api.example.com".to_string(),
                ttl: Some(300),
                proxied: Some(false),
            },
        ]),
    };
    let records = interpret_records_response(200, "{}", Some(envelope)).unwrap();
    assert_eq!(records.len(), 2);
    assert_eq!(records[0].record_type, "A");
    assert!(records[0].proxied);
    assert_eq!(records[1].record_type, "CNAME");
}

#[test]
fn cloudflare_create_update_delete_roundtrip() {
    let zone = cf_zone();
    let account = cf_account();

    let created_record = record("rec-new", "new.example.com", "A", "2.2.2.2");
    let create = create_record_request("https://api.example/v4", &account, &zone, &created_record);
    assert!(matches!(create.method, HttpMethod::Post));
    assert_eq!(create.url, "https://api.example/v4/zones/zone-1/dns_records");
    assert!(create.headers.iter().any(|(k, v)| k == "Authorization" && v == "Bearer cf-token"));
    let body = create.body.expect("create carries a write payload");
    assert_eq!(body.name, "new.example.com");
    assert_eq!(body.record_type, "A");
    assert_eq!(body.content, "2.2.2.2");
    assert_eq!(body.ttl, 300);
    assert!(!body.proxied);

    let envelope = CfItemResponse {
        success: true,
        errors: vec![],
        result: Some(CfRecord {
            id: "rec-new".to_string(),
            name: "new.example.com".to_string(),
            record_type: "A".to_string(),
            content: "2.2.2.2".to_string(),
            ttl: Some(300),
            proxied: Some(false),
        }),
    };
    let created = interpret_item_response("Create", "create record", 200, "{}", Some(envelope))
        .unwrap();
    assert_eq!(created.id, "rec-new");

    let mut updated_record = created;
    updated_record.content = "3.3.3.3".to_string();
    let update = update_record_request("https://api.example/v4", &account, &zone, &updated_record);
    assert!(matches!(update.method, HttpMethod::Put));
    assert_eq!(update.url, "https://api.example/v4/zones/zone-1/dns_records/rec-new");
    let update_body = update.body.expect("update carries a write payload");
    assert_eq!(update_body.content, "3.3.3.3");

    let update_envelope = CfItemResponse {
        success: true,
        errors: vec![],
        result: Some(CfRecord {
            id: "rec-new".to_string(),
            name: "new.example.com".to_string(),
            record_type: "A".to_string(),
            content: "3.3.3.3".to_string(),
            ttl: Some(300),
            proxied: Some(false),
        }),
    };
    let updated = interpret_item_response("Update", "update record", 200, "{}", Some(update_envelope))
        .unwrap();
    assert_eq!(updated.content, "3.3.3.3");

    let delete = delete_record_request("https://api.example/v4", &account, &zone, "rec-new");
    assert!(matches!(delete.method, HttpMethod::Delete));
    assert_eq!(delete.url, "https://api.example/v4/zones/zone-1/dns_records/rec-new");
    assert!(delete.body.is_none());

    let delete_envelope = CfDeleteResponse { success: true, errors: vec![] };
    interpret_delete_response(200, "{}", Some(delete_envelope)).unwrap();
}

#[test]
fn cloudflare_errors_propagate_context() {
    let envelope = CfResponse::<CfZone> {
        success: false,
        errors: vec![CfError { message: "boom".to_string() }],
        result: None,
    };
    let body = "{\"success\":false,\"errors\":[{\"message\":\"boom\"}],\"result\":null}";
    let err = interpret_zones_response(500, body, Some(envelope)).unwrap_err();
    let msg = err.message;
    assert!(
        msg.contains("boom") || msg.contains("Zones"),
        "error lacked context: {msg}"
    );
    assert!(msg.contains("500"), "error names the status: {msg}");
}

#[test]
fn legacy_key_auth_sends_email_and_key_headers() {
    let mut account = cf_account();
    account.auth_mode = AuthMode::GlobalKey;
    let request = zones_request("https://api.example/v4", &account);
    assert!(request.headers.iter().any(|(k, v)| k == "X-Auth-Email" && v == "user@example.com"));
    assert!(request.headers.iter().any(|(k, v)| k == "X-Auth-Key" && v == "cf-token"));

    account.email = None;
    let unauthenticated = zones_request("https://api.example/v4", &account);
    assert!(
        unauthenticated.headers.is_empty(),
        "legacy mode without an email sends no authentication"
    );
}

#[test]
fn zone_query_omits_account_id_when_absent() {
    let mut account = cf_account();
    account.account_id = None;
    let request = zones_request("https://api.example/v4", &account);
    assert_eq!(request.query.len(), 1);
    assert!(request.query.iter().any(|(k, v)| k == "per_page" && v == "200"));
}

#[test]
fn decode_failure_reports_truncated_body() {
    let body: String = "x".repeat(250);
    let err = interpret_zones_response(200, body.as_str(), None).unwrap_err();
    assert!(err.message.starts_with("Failed to parse Cloudflare zones response: "));
    assert!(err.message.ends_with("..."));
    assert!(err.message.contains(&"x".repeat(200)));
    assert!(!err.message.contains(&"x".repeat(201)));
}

#[test]
fn truncate_body_keeps_short_text_and_cuts_long_text() {
    assert_eq!(truncate_body("short"), "short");
    let long: String = "a".repeat(201);
    let cut = truncate_body(long.as_str());
    assert_eq!(cut.chars().count(), 203);
    assert!(cut.ends_with("..."));
}

#[test]
fn missing_error_list_falls_back_to_generic_text() {
    let envelope = CfResponse::<CfZone> { success: false, errors: vec![], result: None };
    assert_eq!(envelope.error_message(), "Unknown Cloudflare API error");
    let err = interpret_zones_response(500, "{}", Some(envelope)).unwrap_err();
    assert!(err.message.contains("Unknown Cloudflare API error"));
}

#[test]
fn successful_envelope_with_missing_result_is_an_error() {
    let envelope = CfItemResponse::<CfRecord> { success: true, errors: vec![], result: None };
    let err = interpret_item_response("Create", "create record", 200, "{}", Some(envelope))
        .unwrap_err();
    assert_eq!(err.message, "Create succeeded but missing result");
}

#[test]
fn wire_record_defaults_fill_absent_fields() {
    let wire = CfRecord {
        id: "rec-9".to_string(),
        name: "bare.example.com".to_string(),
        record_type: "TXT".to_string(),
        content: "v=1".to_string(),
        ttl: None,
        proxied: None,
    };
    let rec = wire.into_dns_record();
    assert_eq!(rec.ttl, 300);
    assert!(!rec.proxied);
}

#[test]
fn write_payload_carries_exactly_the_record_fields() {
    let rec = DnsRecord {
        id: "rec-1".to_string(),
        name: "n.example.com".to_string(),
        record_type: "MX".to_string(),
        content: "mail.example.com".to_string(),
        ttl: 3600,
        proxied: true,
    };
    let w = CfRecordWrite::from_record(&rec);
    assert_eq!(w.name, "n.example.com");
    assert_eq!(w.record_type, "MX");
    assert_eq!(w.content, "mail.example.com");
    assert_eq!(w.ttl, 3600);
    assert!(w.proxied);
}

#[test]
fn status_outside_success_range_fails_even_with_success_flag() {
    let envelope = CfResponse::<CfZone> { success: true, errors: vec![], result: Some(vec![]) };
    let err = interpret_zones_response(301, "{}", Some(envelope)).unwrap_err();
    assert!(err.message.starts_with("Zones (301): "));
}
