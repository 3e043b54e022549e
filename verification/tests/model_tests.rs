use nyxflare::backend::DnsBackend;
use nyxflare::forms::{AccountForm, RecordDraft};
use nyxflare::mock::MockBackend;
use nyxflare::model::{default_config_path, load_config, Account, AuthMode, Config, DnsRecord, Zone};

fn account(name: &str) -> Account {
    Account {
        name: name.to_string(),
        api_token: "tok".to_string(),
        email: None,
        account_id: None,
        auth_mode: AuthMode::Token,
    }
}

fn zone(id: &str, name: &str) -> Zone {
    Zone { id: id.to_string(), name: name.to_string() }
}

#[test]
fn config_path_prefers_xdg_config_home() {
    let p = default_config_path(Some("/xdg".to_string()), Some("/home/u".to_string()));
    assert_eq!(p, "/xdg/nyxflare/accounts.json");
}

#[test]
fn config_path_falls_back_to_home_then_cwd() {
    let p = default_config_path(None, Some("/home/u".to_string()));
    assert_eq!(p, "/home/u/.config/nyxflare/accounts.json");
    let p = default_config_path(None, None);
    assert_eq!(p, "./.config/nyxflare/accounts.json");
}

#[test]
fn load_config_prefers_primary_then_legacy_then_empty() {
    let primary = Config { accounts: vec![account("primary")] };
    let legacy = Config { accounts: vec![account("legacy")] };
    let c = load_config(Some(primary), Some(legacy));
    assert_eq!(c.accounts[0].name, "primary");

    let legacy = Config { accounts: vec![account("legacy")] };
    let c = load_config(None, Some(legacy));
    assert_eq!(c.accounts[0].name, "legacy");

    let c = load_config(None, None);
    assert!(c.accounts.is_empty());
}

#[test]
fn account_form_builds_trimmed_account() {
    let form = AccountForm {
        name: "  Team  ".to_string(),
        api_token: " secret ".to_string(),
        email: "   ".to_string(),
        account_id: " acc-9 ".to_string(),
        field_index: 3,
    };
    assert!(form.is_ready());
    let account = form.build_account().unwrap();
    assert_eq!(account.name, "Team");
    assert_eq!(account.api_token, "secret");
    assert_eq!(account.email, None);
    assert_eq!(account.account_id, Some("acc-9".to_string()));
    assert!(matches!(account.auth_mode, AuthMode::Token));
}

#[test]
fn account_form_requires_name_and_token() {
    let form = AccountForm {
        name: "name".to_string(),
        api_token: "   ".to_string(),
        email: String::new(),
        account_id: String::new(),
        field_index: 0,
    };
    assert!(!form.is_ready());
    assert_eq!(form.build_account().unwrap_err(), "Name and API token are required");
}

#[test]
fn account_form_edits_the_active_field() {
    let mut form = AccountForm {
        name: String::new(),
        api_token: String::new(),
        email: String::new(),
        account_id: String::new(),
        field_index: 0,
    };
    form.insert_char('h');
    form.insert_char('i');
    form.backspace();
    assert_eq!(form.name, "h");

    form.next_field();
    form.insert_char('t');
    assert_eq!(form.api_token, "t");

    form.next_field();
    form.next_field();
    form.next_field();
    assert_eq!(form.field_index, 3, "the cursor stops at the last field");
    form.previous_field();
    form.previous_field();
    form.previous_field();
    form.previous_field();
    assert_eq!(form.field_index, 0, "the cursor stops at the first field");
}

#[test]
fn record_draft_round_trips_ttl_text() {
    let rec = DnsRecord {
        id: "r1".to_string(),
        name: "a.example.com".to_string(),
        record_type: "A".to_string(),
        content: "1.2.3.4".to_string(),
        ttl: 120,
        proxied: true,
    };
    let draft = RecordDraft::from_record(&rec);
    assert_eq!(draft.ttl, "120");
    let back = draft.to_record("r1".to_string()).unwrap();
    assert_eq!(back.ttl, 120);
    assert_eq!(back.name, "a.example.com");
    assert!(back.proxied);
}

#[test]
fn record_draft_rejects_bad_ttl_and_blank_names() {
    let mut draft = RecordDraft::default();
    draft.name = "x.example.com".to_string();
    draft.ttl = "soon".to_string();
    assert_eq!(draft.to_record("id".to_string()).unwrap_err(), "TTL must be a number");

    draft.ttl = "60".to_string();
    draft.name = "   ".to_string();
    assert_eq!(draft.to_record("id".to_string()).unwrap_err(), "Name and type are required");

    draft.name = "x.example.com".to_string();
    let rec = draft.to_record("id".to_string()).unwrap();
    assert_eq!(rec.ttl, 60);
    assert_eq!(rec.record_type, "A");
}

#[test]
fn record_draft_default_is_a_proxied_address_record() {
    let draft = RecordDraft::default();
    assert_eq!(draft.record_type, "A");
    assert_eq!(draft.ttl, "300");
    assert!(draft.proxied);
    assert!(draft.name.is_empty());
}

#[test]
fn mock_zones_are_stable_per_account() {
    let mut backend = MockBackend::new();
    let a = account("Acme Ops");
    let first = backend.list_zones(&a).unwrap();
    let second = backend.list_zones(&a).unwrap();
    assert_eq!(first.len(), 2);
    assert_eq!(first[0].id, "acmeops-01");
    assert_eq!(first[0].name, "acmeops.example.com");
    assert_eq!(first[1].id, "acmeops-02");
    assert_eq!(first[1].name, "acmeops.services.io");
    assert_eq!(second[0].id, first[0].id);
    assert_eq!(second[1].name, first[1].name);
}

#[test]
fn mock_seeds_three_records_once_per_zone() {
    let mut backend = MockBackend::new();
    let a = account("demo");
    let z = zone("demo-01", "demo.example.com");
    let first = backend.list_records(&a, &z).unwrap();
    assert_eq!(first.len(), 3);
    assert_eq!(first[0].id, "demo-01-a");
    assert_eq!(first[0].record_type, "A");
    assert_eq!(first[1].record_type, "CNAME");
    assert_eq!(first[2].record_type, "MX");
    assert_eq!(first[2].content, "mail.demo.example.com");

    let second = backend.list_records(&a, &z).unwrap();
    assert_eq!(second.len(), 3, "seeding happens only once");
}

#[test]
fn mock_create_appends_with_counted_id() {
    let mut backend = MockBackend::new();
    let a = account("demo");
    let z = zone("demo-01", "demo.example.com");
    let draft = DnsRecord {
        id: "new".to_string(),
        name: "www.demo.example.com".to_string(),
        record_type: "A".to_string(),
        content: "203.0.113.7".to_string(),
        ttl: 60,
        proxied: false,
    };
    let created = backend.create_record(&a, &z, draft).unwrap();
    assert_eq!(created.id, "demo-01-4", "three seeded records make the new one number four");
    let all = backend.list_records(&a, &z).unwrap();
    assert_eq!(all.len(), 4);
    assert_eq!(all[3].name, "www.demo.example.com");
}

#[test]
fn mock_update_replaces_matching_record_in_place() {
    let mut backend = MockBackend::new();
    let a = account("demo");
    let z = zone("demo-01", "demo.example.com");
    backend.list_records(&a, &z).unwrap();

    let replacement = DnsRecord {
        id: "demo-01-b".to_string(),
        name: "cdn.demo.example.com".to_string(),
        record_type: "CNAME".to_string(),
        content: "other.edge.net".to_string(),
        ttl: 30,
        proxied: false,
    };
    let echoed = backend.update_record(&a, &z, replacement).unwrap();
    assert_eq!(echoed.content, "other.edge.net");

    let all = backend.list_records(&a, &z).unwrap();
    assert_eq!(all.len(), 3);
    assert_eq!(all[1].id, "demo-01-b");
    assert_eq!(all[1].content, "other.edge.net");
}

#[test]
fn mock_update_of_unknown_id_changes_nothing() {
    let mut backend = MockBackend::new();
    let a = account("demo");
    let z = zone("demo-01", "demo.example.com");
    backend.list_records(&a, &z).unwrap();

    let stranger = DnsRecord {
        id: "nope".to_string(),
        name: "x".to_string(),
        record_type: "A".to_string(),
        content: "1.1.1.1".to_string(),
        ttl: 1,
        proxied: false,
    };
    backend.update_record(&a, &z, stranger).unwrap();
    let all = backend.list_records(&a, &z).unwrap();
    assert_eq!(all.len(), 3);
    assert!(all.iter().all(|r| r.id != "nope"));
}

#[test]
fn mock_delete_removes_by_id_and_tolerates_absence() {
    let mut backend = MockBackend::new();
    let a = account("demo");
    let z = zone("demo-01", "demo.example.com");
    backend.list_records(&a, &z).unwrap();

    backend.delete_record(&a, &z, "demo-01-b").unwrap();
    let all = backend.list_records(&a, &z).unwrap();
    assert_eq!(all.len(), 2);
    assert!(all.iter().all(|r| r.id != "demo-01-b"));

    backend.delete_record(&a, &z, "demo-01-b").unwrap();
    assert_eq!(backend.list_records(&a, &z).unwrap().len(), 2);
}
