use nyxflare::backend::{BackendError, DnsBackend};
use nyxflare::controller::{App, Mode};
use nyxflare::input::{
    handle_add_account_key, handle_normal_key, handle_record_form_key, handle_search_key, Key,
};
use nyxflare::mock::{MockBackend, ZoneStore};
use nyxflare::model::{Account, AuthMode, DnsRecord, Zone};

fn test_account() -> Account {
    Account {
        name: "demo".to_string(),
        api_token: "token".to_string(),
        email: None,
        account_id: None,
        auth_mode: AuthMode::Token,
    }
}

fn record(id: &str, name: &str, record_type: &str, content: &str) -> DnsRecord {
    DnsRecord {
        id: id.to_string(),
        name: name.to_string(),
        record_type: record_type.to_string(),
        content: content.to_string(),
        ttl: 300,
        proxied: false,
    }
}

fn app_with_records(records: Vec<DnsRecord>) -> App<MockBackend> {
    let mut backend = MockBackend::new();
    backend.records.push(ZoneStore { zone_id: "demo-01".to_string(), records: records.clone() });
    let mut app = App::new(vec![test_account()], backend);
    app.records = records;
    app.record_page = 0;
    app.selected_record = 0;
    app
}

#[test]
fn add_account_form_allows_typing_command_keys() {
    let mut app = App::new(vec![], MockBackend::new());
    let quit = handle_add_account_key(Key::Char('q'), &mut app);

    assert!(!quit, "q should not quit while typing");
    if let Mode::AddingAccount(form) = app.mode {
        assert_eq!(form.name, "q");
    } else {
        panic!("app left add account mode");
    }
}

#[test]
fn normal_mode_can_start_add_account_when_accounts_exist() {
    let mut app = app_with_records(vec![]);
    let quit = handle_normal_key(Key::Char('a'), &mut app);

    assert!(!quit, "a should not quit the app");
    assert!(
        matches!(app.mode, Mode::AddingAccount(_)),
        "app should enter add-account mode"
    );
}

#[test]
fn record_form_allows_typing_command_keys() {
    let mut app = app_with_records(vec![]);
    app.start_record_form(false);

    let quit = handle_record_form_key(Key::Char('q'), &mut app);
    assert!(!quit, "q should not quit while editing a record");

    if let Mode::RecordForm(form) = app.mode {
        assert_eq!(form.draft.name, "q");
    } else {
        panic!("app left record form mode");
    }
}

#[test]
fn search_overlay_allows_typing_command_keys() {
    let mut app = app_with_records(vec![]);
    app.mode = Mode::Searching(String::new());

    let quit = handle_search_key(Key::Char('q'), &mut app);
    assert!(!quit, "q should not quit while searching");

    if let Mode::Searching(text) = app.mode {
        assert_eq!(text, "q");
    } else {
        panic!("app left search mode");
    }
}

#[test]
fn filtered_records_matches_across_fields() {
    let records = vec![
        record("1", "api.demo.example.com", "A", "203.0.113.1"),
        record("2", "cdn.demo.example.com", "CNAME", "api.demo.example.com"),
        record("3", "_acme.demo.example.com", "TXT", "challenge-token"),
    ];
    let mut app = app_with_records(records);

    app.record_filter = "acme".to_string();
    let filtered = app.filtered_records();
    assert_eq!(filtered.len(), 1);
    assert_eq!(filtered[0].record_type, "TXT");

    app.record_filter = "api.demo".to_string();
    let filtered = app.filtered_records();
    assert_eq!(filtered.len(), 2);
    assert!(filtered.iter().any(|r| r.record_type == "A"));
    assert!(filtered.iter().any(|r| r.record_type == "CNAME"));
}

#[test]
fn filtered_records_ignores_case() {
    let records = vec![
        record("1", "API.Demo.example.com", "A", "203.0.113.1"),
        record("2", "cdn.demo.example.com", "CNAME", "edge.example.com"),
    ];
    let mut app = app_with_records(records);

    app.record_filter = "api".to_string();
    let filtered = app.filtered_records();
    assert_eq!(filtered.len(), 1);
    assert_eq!(filtered[0].id, "1");

    app.record_filter = "EDGE".to_string();
    let filtered = app.filtered_records();
    assert_eq!(filtered.len(), 1);
    assert_eq!(filtered[0].id, "2");
}

#[test]
fn empty_filter_keeps_every_record() {
    let records = (1..=4)
        .map(|i| record(&i.to_string(), &format!("r{i}.demo"), "A", "127.0.0.1"))
        .collect::<Vec<_>>();
    let mut app = app_with_records(records);

    app.record_filter = String::new();
    assert_eq!(app.filtered_records().len(), 4);

    app.record_filter = "   ".to_string();
    assert_eq!(app.filtered_records().len(), 4);
}

#[test]
fn paged_records_respects_page_and_size() {
    let records = (1..=5)
        .map(|i| record(&i.to_string(), &format!("r{i}.demo"), "A", "127.0.0.1"))
        .collect();
    let mut app = app_with_records(records);

    app.update_record_page_size(5); // yields a page size of 2

    app.record_page = 0;
    let first_page = app.paged_records();
    assert_eq!(first_page.len(), 2);
    assert_eq!(first_page[0].name, "r1.demo");

    app.record_page = 1;
    let second_page = app.paged_records();
    assert_eq!(second_page.len(), 2);
    assert_eq!(second_page[0].name, "r3.demo");

    app.record_page = 2;
    let final_page = app.paged_records();
    assert_eq!(final_page.len(), 1);
    assert_eq!(final_page[0].name, "r5.demo");
}

#[test]
fn ensure_record_visible_moves_page_to_selection() {
    let records = (1..=5)
        .map(|i| record(&i.to_string(), &format!("rec-{i}.demo"), "A", "127.0.0.1"))
        .collect();
    let mut app = app_with_records(records);
    app.update_record_page_size(6); // page size 3

    app.record_page = 0;
    app.selected_record = 4;
    let total = app.filtered_records().len();
    app.ensure_record_visible(total);

    assert_eq!(app.record_page, 1);
    assert_eq!(app.selected_record, 4);
}

#[test]
fn selection_relocates_to_its_page_from_anywhere() {
    let records = (1..=5)
        .map(|i| record(&i.to_string(), &format!("rec-{i}.demo"), "A", "127.0.0.1"))
        .collect();
    let mut app = app_with_records(records);
    app.update_record_page_size(5); // page size 2

    for start_page in 0..3 {
        app.record_page = start_page;
        app.selected_record = 4;
        let total = app.filtered_records().len();
        app.ensure_record_visible(total);
        assert_eq!(app.record_page, 2, "index 4 lives on page 2 with page size 2");
        let again = app.filtered_records().len();
        app.ensure_record_visible(again);
        assert_eq!(app.record_page, 2, "a second relocation changes nothing");
    }
}

#[test]
fn update_record_page_size_clamps_page_and_selection() {
    let records = (1..=5)
        .map(|i| record(&i.to_string(), &format!("rec-{i}.demo"), "A", "127.0.0.1"))
        .collect();
    let mut app = app_with_records(records);

    app.record_page_size = 1;
    app.record_page = 4;
    app.selected_record = 4;

    app.update_record_page_size(12); // page size grows to 9, shrinking page count to 1

    assert_eq!(app.page_size(), 9);
    assert_eq!(app.record_page, 0);
    assert_eq!(app.selected_record, 4);
}

#[test]
fn status_message_reports_filter_and_paging() {
    let records = (1..=3)
        .map(|i| record(&i.to_string(), &format!("item-{i}.demo"), "A", "127.0.0.1"))
        .collect();
    let mut app = app_with_records(records);

    app.update_record_page_size(5); // page size 2
    app.record_filter = "item".to_string();
    let (_, details) = app.status_message();

    assert!(
        details.contains("Records: page 1/2"),
        "status did not include page count: {}",
        details
    );
    assert!(details.contains("filtered"), "status did not mark filter");
}

#[test]
fn submitting_a_search_resets_page_and_selection() {
    let records = (1..=5)
        .map(|i| record(&i.to_string(), &format!("rec-{i}.demo"), "A", "127.0.0.1"))
        .collect();
    let mut app = app_with_records(records);
    app.update_record_page_size(5); // page size 2
    app.record_page = 2;
    app.selected_record = 4;

    app.mode = Mode::Searching("rec-".to_string());
    let quit = handle_search_key(Key::Enter, &mut app);

    assert!(!quit);
    assert_eq!(app.record_filter, "rec-");
    assert_eq!(app.record_page, 0);
    assert_eq!(app.selected_record, 0);
    assert!(matches!(app.mode, Mode::Normal));
}

#[test]
fn cancelling_a_search_keeps_the_active_filter() {
    let mut app = app_with_records(vec![record("1", "a.demo", "A", "127.0.0.1")]);
    app.record_filter = "kept".to_string();
    app.mode = Mode::Searching("draft".to_string());

    handle_search_key(Key::Esc, &mut app);

    assert_eq!(app.record_filter, "kept");
    assert!(matches!(app.mode, Mode::Normal));
}

#[test]
fn account_navigation_resets_zone_selection() {
    let mut backend = MockBackend::new();
    backend.records.push(ZoneStore { zone_id: "one-01".to_string(), records: vec![] });
    let accounts = vec![
        Account {
            name: "one".to_string(),
            api_token: "t1".to_string(),
            email: None,
            account_id: None,
            auth_mode: AuthMode::Token,
        },
        Account {
            name: "two".to_string(),
            api_token: "t2".to_string(),
            email: None,
            account_id: None,
            auth_mode: AuthMode::Token,
        },
    ];
    let mut app = App::new(accounts, backend);
    app.selected_zone = 1;

    app.next_account();
    assert_eq!(app.selected_account, 1);
    assert_eq!(app.selected_zone, 0, "zone selection resets on account change");
    assert_eq!(app.zones.len(), 2, "zones were refreshed for the new account");
    assert_eq!(app.zones[0].id, "two-01");
    assert_eq!(app.records.len(), 3, "records were refreshed for the first zone");

    app.previous_account();
    assert_eq!(app.selected_account, 0);
    assert_eq!(app.selected_zone, 0);
    assert_eq!(app.zones[0].id, "one-01");
}

#[test]
fn page_navigation_wraps_and_selects_first_record() {
    let records = (1..=5)
        .map(|i| record(&i.to_string(), &format!("rec-{i}.demo"), "A", "127.0.0.1"))
        .collect();
    let mut app = app_with_records(records);
    app.update_record_page_size(5); // page size 2, three pages

    app.next_page();
    assert_eq!(app.record_page, 1);
    assert_eq!(app.selected_record, 2);

    app.next_page();
    app.next_page();
    assert_eq!(app.record_page, 0, "next page wraps after the last page");
    assert_eq!(app.selected_record, 0);

    app.previous_page();
    assert_eq!(app.record_page, 2, "previous page wraps to the last page");
    assert_eq!(app.selected_record, 4);
}

#[test]
fn record_navigation_clamps_at_the_ends() {
    let records = (1..=3)
        .map(|i| record(&i.to_string(), &format!("rec-{i}.demo"), "A", "127.0.0.1"))
        .collect();
    let mut app = app_with_records(records);

    app.previous_record();
    assert_eq!(app.selected_record, 0, "previous clamps at the first record");

    app.next_record();
    app.next_record();
    app.next_record();
    assert_eq!(app.selected_record, 2, "next clamps at the last record");
}

#[test]
fn add_account_submit_with_empty_token_reports_validation_error() {
    let mut app = app_with_records(vec![]);
    app.start_add_account();
    if let Mode::AddingAccount(form) = &mut app.mode {
        form.name = "work".to_string();
        form.field_index = 3;
    } else {
        panic!("expected the add-account modal");
    }

    let quit = handle_add_account_key(Key::Enter, &mut app);

    assert!(!quit);
    assert!(
        matches!(app.mode, Mode::AddingAccount(_)),
        "modal must stay open on validation failure"
    );
    assert_eq!(app.accounts.len(), 1, "no account may be appended");
    assert_eq!(app.last_message, "Name and API token are required");
}

#[test]
fn add_account_enter_on_optional_fields_advances_before_submitting() {
    let mut app = app_with_records(vec![]);
    app.start_add_account();
    if let Mode::AddingAccount(form) = &mut app.mode {
        form.name = "work".to_string();
        form.api_token = "tok".to_string();
        form.field_index = 2; // the optional email field
    } else {
        panic!("expected the add-account modal");
    }

    handle_add_account_key(Key::Enter, &mut app);

    if let Mode::AddingAccount(form) = &app.mode {
        assert_eq!(form.field_index, 3, "Enter on the email field moves to the account id");
    } else {
        panic!("Enter before the last field must not submit");
    }
    assert_eq!(app.accounts.len(), 1, "nothing is committed before the last field");

    handle_add_account_key(Key::Enter, &mut app);
    assert!(matches!(app.mode, Mode::Normal), "Enter past the last field commits");
    assert_eq!(app.accounts.len(), 2);
}

#[test]
fn add_account_submit_appends_selects_and_refreshes() {
    let mut app = app_with_records(vec![]);
    app.start_add_account();
    if let Mode::AddingAccount(form) = &mut app.mode {
        form.name = "  fresh  ".to_string();
        form.api_token = "tok".to_string();
        form.field_index = 3;
    } else {
        panic!("expected the add-account modal");
    }

    handle_add_account_key(Key::Enter, &mut app);

    assert!(matches!(app.mode, Mode::Normal));
    assert_eq!(app.accounts.len(), 2);
    assert_eq!(app.accounts[1].name, "fresh");
    assert_eq!(app.selected_account, 1);
    assert_eq!(app.selected_zone, 0);
    assert_eq!(app.zones[0].id, "fresh-01");
}

#[test]
fn record_form_submit_with_bad_ttl_keeps_modal_open() {
    let mut app = app_with_records(vec![record("1", "a.demo", "A", "127.0.0.1")]);
    app.start_record_form(true);
    if let Mode::RecordForm(form) = &mut app.mode {
        form.draft.ttl = "soon".to_string();
        form.field_index = 4;
    } else {
        panic!("expected the record form");
    }

    let quit = handle_record_form_key(Key::Enter, &mut app);

    assert!(!quit);
    assert!(matches!(app.mode, Mode::RecordForm(_)));
    assert_eq!(app.last_message, "TTL must be a number");
}

#[test]
fn record_form_submit_creates_through_backend() {
    let mut app = app_with_records(vec![]);
    app.start_record_form(false);
    if let Mode::RecordForm(form) = &mut app.mode {
        form.draft.name = "www.demo".to_string();
        form.draft.content = "203.0.113.9".to_string();
        form.field_index = 4;
    } else {
        panic!("expected the record form");
    }

    handle_record_form_key(Key::Enter, &mut app);

    assert!(matches!(app.mode, Mode::Normal));
    assert!(
        app.records.iter().any(|r| r.name == "www.demo"),
        "the created record shows up after the refresh"
    );
}

struct FailingBackend;

impl DnsBackend for FailingBackend {
    fn list_zones(&mut self, _account: &Account) -> Result<Vec<Zone>, BackendError> {
        Err(BackendError { message: "boom".to_string() })
    }

    fn list_records(
        &mut self,
        _account: &Account,
        _zone: &Zone,
    ) -> Result<Vec<DnsRecord>, BackendError> {
        Err(BackendError { message: "boom".to_string() })
    }

    fn create_record(
        &mut self,
        _account: &Account,
        _zone: &Zone,
        _record: DnsRecord,
    ) -> Result<DnsRecord, BackendError> {
        Err(BackendError { message: "boom".to_string() })
    }

    fn update_record(
        &mut self,
        _account: &Account,
        _zone: &Zone,
        _record: DnsRecord,
    ) -> Result<DnsRecord, BackendError> {
        Err(BackendError { message: "boom".to_string() })
    }

    fn delete_record(
        &mut self,
        _account: &Account,
        _zone: &Zone,
        _record_id: &str,
    ) -> Result<(), BackendError> {
        Err(BackendError { message: "boom".to_string() })
    }
}

#[test]
fn failed_zone_refresh_keeps_lists_and_reports_error() {
    let mut app = App::new(vec![test_account()], FailingBackend);
    assert_eq!(app.zones.len(), 0, "a failed first load leaves the zone list empty");
    assert!(app.last_message.contains("boom"), "error text surfaces: {}", app.last_message);

    app.zones = vec![Zone { id: "z1".to_string(), name: "kept.example.com".to_string() }];
    app.selected_zone = 0;
    app.last_message = String::new();

    let ok = app.refresh_zones();
    assert!(!ok);
    assert_eq!(app.zones.len(), 1, "the zone list is left unchanged by a failed call");
    assert_eq!(app.zones[0].name, "kept.example.com");
    assert!(app.last_message.contains("boom"));
}
