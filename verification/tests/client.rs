use gcp_bigquery_client::client::{
    caps_tls_at_1_2, DatasetApi, JobApi, ModelApi, ProjectApi, RoutineApi, StorageApi,
    TableApi, TableDataApi, BIG_QUERY_V2_URL,
};
use gcp_bigquery_client::Client;

const STORAGE_URL: &str = "https://bigquerystorage.googleapis.com";

fn new_client() -> Client {
    let http = reqwest::Client::new();
    Client::from_parts(
        DatasetApi::new(http.clone(), BIG_QUERY_V2_URL.to_string()),
        TableApi::new(http.clone(), BIG_QUERY_V2_URL.to_string()),
        JobApi::new(http.clone(), BIG_QUERY_V2_URL.to_string()),
        TableDataApi::new(http.clone(), BIG_QUERY_V2_URL.to_string()),
        RoutineApi::new(http.clone(), BIG_QUERY_V2_URL.to_string()),
        ModelApi::new(http.clone(), BIG_QUERY_V2_URL.to_string()),
        ProjectApi::new(http, BIG_QUERY_V2_URL.to_string()),
        StorageApi::new(STORAGE_URL.to_string()),
    )
}

fn base_urls(c: &Client) -> Vec<String> {
    vec![
        c.dataset().base_url().to_string(),
        c.table().base_url().to_string(),
        c.job().base_url().to_string(),
        c.tabledata().base_url().to_string(),
        c.routine().base_url().to_string(),
        c.model().base_url().to_string(),
        c.project().base_url().to_string(),
        c.storage().base_url().to_string(),
    ]
}

#[test]
fn getters_return_the_assembled_handles() {
    let c = new_client();
    let urls = base_urls(&c);
    for u in &urls[..7] {
        assert_eq!(u, BIG_QUERY_V2_URL);
    }
    assert_eq!(urls[7], STORAGE_URL);
}

#[test]
fn v2_base_url_addresses_every_handle() {
    let mut c = new_client();
    c.v2_base_url("http://127.0.0.1:8080".to_string());
    for u in base_urls(&c) {
        assert_eq!(u, "http://127.0.0.1:8080");
    }
}

#[test]
fn v2_base_url_last_call_wins() {
    let mut c = new_client();
    c.v2_base_url("http://a".to_string()).v2_base_url("http://b".to_string());
    for u in base_urls(&c) {
        assert_eq!(u, "http://b");
    }
}

#[test]
fn storage_mut_changes_only_storage() {
    let mut c = new_client();
    c.storage_mut().with_base_url("http://storage".to_string());
    let urls = base_urls(&c);
    for u in &urls[..7] {
        assert_eq!(u, BIG_QUERY_V2_URL);
    }
    assert_eq!(urls[7], "http://storage");
}

#[test]
fn handle_with_base_url_returns_the_updated_handle() {
    let mut d = DatasetApi::new(reqwest::Client::new(), BIG_QUERY_V2_URL.to_string());
    let r = d.with_base_url("http://x".to_string());
    assert_eq!(r.base_url(), "http://x");
    assert_eq!(d.base_url(), "http://x");
}

#[test]
fn tls_cap_only_for_exactly_1_2() {
    assert!(caps_tls_at_1_2(Some("1.2")));
    assert!(!caps_tls_at_1_2(Some("1.3")));
    assert!(!caps_tls_at_1_2(Some(" 1.2")));
    assert!(!caps_tls_at_1_2(Some("")));
    assert!(!caps_tls_at_1_2(None));
}

#[test]
fn new_client_addresses_the_v2_api() {
    let c = Client::new(reqwest::Client::new(), STORAGE_URL.to_string());
    let urls = base_urls(&c);
    for u in &urls[..7] {
        assert_eq!(u, BIG_QUERY_V2_URL);
    }
    assert_eq!(urls[7], STORAGE_URL);
}
