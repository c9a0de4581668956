use azure_app_secrets_monitor::scrape::{
    applications_endpoint, check_status, page_samples, scrape, select_param, AzureApp,
    Credentials, ResponsePage, Sample, Scrape, ScrapeError,
};

fn cred(key_id: &str, end: &str) -> Credentials {
    Credentials {
        display_name: None,
        end_date_time: end.to_string(),
        key_id: key_id.to_string(),
    }
}

fn app(app_id: &str, name: &str, pw: Vec<Credentials>, key: Vec<Credentials>) -> AzureApp {
    AzureApp {
        app_id: app_id.to_string(),
        display_name: name.to_string(),
        password_credentials: pw,
        key_credentials: key,
    }
}

fn sample_tuple(s: &Sample) -> (String, String, String, u64) {
    (
        s.labels.app_id.clone(),
        s.labels.app_name.clone(),
        s.labels.key_id.clone(),
        s.value,
    )
}

#[test]
fn two_pages_yield_one_sample_per_credential() {
    let page1 = ResponsePage {
        next_link: Some("https://example.invalid/page2".to_string()),
        value: vec![app(
            "app-1",
            "First App",
            vec![cred("abc", "2025-01-01T00:00:00Z")],
            vec![],
        )],
    };
    let page2 = ResponsePage {
        next_link: None,
        value: vec![app(
            "app-2",
            "Second App",
            vec![],
            vec![cred("def", "2025-01-02T00:00:00Z")],
        )],
    };
    let fetches = vec![Ok(page1), Ok(page2)];
    let samples = scrape(&fetches).unwrap();
    assert_eq!(samples.len(), 2);
    assert_eq!(
        sample_tuple(&samples[0]),
        (
            "app-1".to_string(),
            "First App".to_string(),
            "abc".to_string(),
            1735689600
        )
    );
    assert_eq!(
        sample_tuple(&samples[1]),
        (
            "app-2".to_string(),
            "Second App".to_string(),
            "def".to_string(),
            1735776000
        )
    );
}

#[test]
fn offset_timestamps_convert_to_utc_seconds() {
    let page = ResponsePage {
        next_link: None,
        value: vec![app(
            "app-1",
            "App",
            vec![cred("k", "2025-01-01T00:00:00+01:00")],
            vec![],
        )],
    };
    let samples = page_samples(&page).unwrap();
    assert_eq!(samples.len(), 1);
    assert_eq!(samples[0].value, 1735689600 - 3600);
}

#[test]
fn pre_epoch_expiry_wraps_as_unsigned() {
    let page = ResponsePage {
        next_link: None,
        value: vec![app(
            "app-1",
            "App",
            vec![cred("k", "1960-01-01T00:00:00Z")],
            vec![],
        )],
    };
    let samples = page_samples(&page).unwrap();
    // 1960-01-01T00:00:00Z is -315619200 seconds; the unsigned gauge holds
    // the reinterpreted value.
    assert_eq!(samples[0].value, (-315619200i64) as u64);
}

#[test]
fn empty_credential_lists_yield_no_samples() {
    let page = ResponsePage {
        next_link: None,
        value: vec![app("app-1", "Empty App", vec![], vec![])],
    };
    let samples = page_samples(&page).unwrap();
    assert_eq!(samples.len(), 0);
}

#[test]
fn password_credentials_come_before_key_credentials() {
    let page = ResponsePage {
        next_link: None,
        value: vec![app(
            "app-1",
            "App",
            vec![cred("pw", "2025-01-01T00:00:00Z")],
            vec![cred("ky", "2025-01-02T00:00:00Z")],
        )],
    };
    let samples = page_samples(&page).unwrap();
    assert_eq!(samples.len(), 2);
    assert_eq!(samples[0].labels.key_id, "pw");
    assert_eq!(samples[1].labels.key_id, "ky");
}

#[test]
fn unparseable_expiry_fails_the_page() {
    let page = ResponsePage {
        next_link: None,
        value: vec![app("app-1", "App", vec![cred("k", "not a date")], vec![])],
    };
    assert_eq!(page_samples(&page), Err(ScrapeError::InvalidExpiry));
}

#[test]
fn failing_page_aborts_the_whole_scrape() {
    let page1 = ResponsePage {
        next_link: Some("https://example.invalid/page2".to_string()),
        value: vec![app(
            "app-1",
            "App",
            vec![cred("abc", "2025-01-01T00:00:00Z")],
            vec![],
        )],
    };
    let fetches = vec![Ok(page1), Err(ScrapeError::Upstream(500))];
    assert_eq!(scrape(&fetches), Err(ScrapeError::Upstream(500)));
}

#[test]
fn unreadable_page_body_aborts_the_scrape() {
    let fetches = vec![Err(ScrapeError::BadPage)];
    assert_eq!(scrape(&fetches), Err(ScrapeError::BadPage));
    let network = vec![Err(ScrapeError::Network)];
    assert_eq!(scrape(&network), Err(ScrapeError::Network));
}

#[test]
fn promised_next_page_must_arrive() {
    let page1 = ResponsePage {
        next_link: Some("https://example.invalid/page2".to_string()),
        value: vec![],
    };
    let fetches = vec![Ok(page1)];
    assert_eq!(scrape(&fetches), Err(ScrapeError::MissingPage));
}

#[test]
fn check_status_accepts_success_and_redirects() {
    assert!(check_status(200).is_ok());
    assert!(check_status(204).is_ok());
    assert!(check_status(302).is_ok());
    assert!(check_status(399).is_ok());
}

#[test]
fn check_status_rejects_client_and_server_errors() {
    assert_eq!(check_status(400), Err(ScrapeError::Upstream(400)));
    assert_eq!(check_status(401), Err(ScrapeError::Upstream(401)));
    assert_eq!(check_status(404), Err(ScrapeError::Upstream(404)));
    assert_eq!(check_status(500), Err(ScrapeError::Upstream(500)));
    assert_eq!(check_status(599), Err(ScrapeError::Upstream(599)));
}

#[test]
fn pagination_state_machine_follows_links() {
    let mut run = Scrape::begin();
    assert_eq!(run.next_url, applications_endpoint());
    assert!(run.first);
    assert!(!run.done);
    assert_eq!(select_param().0, "$select");
    assert_eq!(
        select_param().1,
        "appId,displayName,keyCredentials,passwordCredentials"
    );

    let page1 = ResponsePage {
        next_link: Some("https://example.invalid/page2".to_string()),
        value: vec![app(
            "app-1",
            "App",
            vec![cred("abc", "2025-01-01T00:00:00Z")],
            vec![],
        )],
    };
    run.apply_page(&page1).unwrap();
    assert!(!run.first);
    assert!(!run.done);
    assert_eq!(run.next_url, "https://example.invalid/page2");
    assert_eq!(run.samples.len(), 1);

    let page2 = ResponsePage {
        next_link: None,
        value: vec![],
    };
    run.apply_page(&page2).unwrap();
    assert!(run.done);
    assert_eq!(run.samples.len(), 1);
    assert_eq!(run.samples[0].value, 1735689600);
}

#[test]
fn credential_renders_with_and_without_label() {
    let mut labelled = cred("abc", "2025-01-01T00:00:00Z");
    labelled.display_name = Some("primary".to_string());
    assert_eq!(labelled.render(), "abc (primary): 2025-01-01 00:00:00 UTC");
    let bare = cred("abc", "2025-01-01T00:00:00Z");
    assert_eq!(bare.render(), "abc: 2025-01-01 00:00:00 UTC");
}

#[test]
fn credential_renders_offset_instants_in_utc() {
    let c = cred("abc", "2025-01-01T01:00:00+01:00");
    assert_eq!(c.render(), "abc: 2025-01-01 00:00:00 UTC");
}

#[test]
fn credential_renders_unparseable_instants_as_sent() {
    let c = cred("abc", "not a date");
    assert_eq!(c.render(), "abc: not a date");
}

#[test]
fn application_renders_credential_blocks() {
    let a = app(
        "id-1",
        "My App",
        vec![cred("pw", "2025-01-01T00:00:00Z")],
        vec![],
    );
    assert_eq!(
        a.render(),
        "My App (id-1):\n\tPassword Credentials:\n\t\tpw: 2025-01-01 00:00:00 UTC\
         \n\tKey Credentials: None"
    );
}

#[test]
fn failed_page_leaves_the_run_unchanged() {
    let mut run = Scrape::begin();
    let bad = ResponsePage {
        next_link: Some("https://example.invalid/page2".to_string()),
        value: vec![app("app-1", "App", vec![cred("k", "garbage")], vec![])],
    };
    assert_eq!(run.apply_page(&bad), Err(ScrapeError::InvalidExpiry));
    assert_eq!(run.samples.len(), 0);
    assert!(!run.done);
    assert_eq!(run.next_url, applications_endpoint());
}
