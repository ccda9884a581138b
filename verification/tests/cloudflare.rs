use cloudflare_dyndns::cloudflare::{
    DnsLookup, LookupAction, LookupAnswer, list_result, needs_update, select_record, select_zone, updated_record, CloudflareClient,
    CloudflareError, CLOUDFLARE_API_BASE,
};
use cloudflare_dyndns::record::{ApiListResponse, ApiSingleResponse, DnsRecord, UpdateRecordPayload, Zone};

fn zone(id: &str, name: &str) -> Zone {
    Zone { id: id.to_string(), name: name.to_string() }
}

/// A record as current Cloudflare answers carry it (no zone id).
fn sample_record(name: &str, content: &str) -> DnsRecord {
    DnsRecord {
        id: "rec1".to_string(),
        zone_id: String::new(),
        name: name.to_string(),
        content: content.to_string(),
        record_type: "A".to_string(),
    }
}

/// What the fake server answers to a listing request.
enum Reply<T> {
    Listing(ApiListResponse<T>),
    Transport(&'static str),
}

fn ok<T>(items: Vec<T>) -> Reply<T> {
    Reply::Listing(ApiListResponse { success: true, result: Some(items), errors: vec![] })
}

/// Drives the record lookup against canned replies and returns its outcome
/// together with the requests it made.
fn run_lookup(
    zones: Reply<Zone>,
    records: Reply<DnsRecord>,
    domain: &str,
    record: &str,
) -> (Result<DnsRecord, CloudflareError>, Vec<String>) {
    let mut requests = Vec::new();
    let (mut state, mut action) = DnsLookup::new(domain, record);
    let mut zones = Some(zones);
    let mut records = Some(records);
    loop {
        let answer = match action {
            LookupAction::ListZones => {
                requests.push("zones".to_string());
                match zones.take().expect("zones listed once") {
                    Reply::Listing(b) => LookupAnswer::ZonesListed(b),
                    Reply::Transport(m) => LookupAnswer::RequestFailed(m.to_string()),
                }
            }
            LookupAction::ListRecords { zone_id } => {
                requests.push(format!("records of {}", zone_id));
                match records.take().expect("records listed once") {
                    Reply::Listing(b) => LookupAnswer::RecordsListed(b),
                    Reply::Transport(m) => LookupAnswer::RequestFailed(m.to_string()),
                }
            }
            LookupAction::Done(outcome) => return (outcome, requests),
        };
        assert!(state.accepts(&answer));
        let next = state.next(answer);
        state = next.0;
        action = next.1;
    }
}

fn lookup(
    zones: Vec<Zone>,
    records: Vec<DnsRecord>,
    domain: &str,
    record: &str,
) -> Result<DnsRecord, CloudflareError> {
    run_lookup(ok(zones), ok(records), domain, record).0
}

#[test]
fn needs_update_when_different() {
    assert!(needs_update("1.1.1.1", "2.2.2.2"));
    assert!(!needs_update("1.1.1.1", "1.1.1.1"));
}

#[test]
fn skip_update_when_ip_matches() {
    assert!(!needs_update("1.2.3.4", "1.2.3.4"));
}

#[test]
fn needs_update_compares_whole_texts() {
    assert!(needs_update("1.2.3.4", "1.2.3.40"));
    assert!(needs_update("", "1.2.3.4"));
    assert!(!needs_update("", ""));
    assert!(needs_update("1.2.3.4", "1.2.3.5"));
}

#[test]
fn get_dns_record_subdomain() {
    let record = lookup(
        vec![zone("zone1", "acme.com")],
        vec![sample_record("www.acme.com", "1.2.3.4")],
        "acme.com",
        "www",
    )
    .unwrap();
    assert_eq!(record.name, "www.acme.com");
    assert_eq!(record.content, "1.2.3.4");
    assert_eq!(record.id, "rec1");
    assert_eq!(record.zone_id, "zone1");
}

#[test]
fn get_dns_record_root() {
    let record = lookup(
        vec![zone("zone1", "acme.com")],
        vec![sample_record("acme.com", "5.5.5.5")],
        "acme.com",
        "",
    )
    .unwrap();
    assert_eq!(record.name, "acme.com");
    assert_eq!(record.content, "5.5.5.5");
}

#[test]
fn zone_not_found() {
    let err = lookup(vec![zone("zone1", "other.com")], vec![], "acme.com", "www").unwrap_err();
    assert!(matches!(err, CloudflareError::ZoneNotFound(_)));
    assert_eq!(err, CloudflareError::ZoneNotFound("acme.com".to_string()));
    assert_eq!(err.message(), "Cannot find zone (domain) acme.com");
}

#[test]
fn record_not_found() {
    let err = lookup(
        vec![zone("zone1", "acme.com")],
        vec![sample_record("mail.acme.com", "1.1.1.1")],
        "acme.com",
        "www",
    )
    .unwrap_err();
    assert!(matches!(err, CloudflareError::RecordNotFound(_, _)));
    assert_eq!(err.message(), "Cannot find record www in zone (domain) acme.com");
}

#[test]
fn first_matching_zone_and_record_win() {
    let zones = vec![zone("z0", "other.com"), zone("z1", "acme.com"), zone("z2", "acme.com")];
    assert_eq!(select_zone(zones, "acme.com").unwrap().id, "z1");
    let mut second = sample_record("www.acme.com", "2.2.2.2");
    second.id = "rec2".to_string();
    let records = vec![sample_record("x.acme.com", "0.0.0.0"), sample_record("www.acme.com", "1.1.1.1"), second];
    let r = select_record(records, "zz".to_string(), "www", "acme.com").unwrap();
    assert_eq!(r.content, "1.1.1.1");
    assert_eq!(r.zone_id, "zz");
}

#[test]
fn update_sends_legacy_payload() {
    let client = CloudflareClient::new(reqwest::Client::new(), "http://127.0.0.1:9/", "test-token");
    assert_eq!(client.record_url("zone1", "rec1"), "http://127.0.0.1:9/zones/zone1/dns_records/rec1");
    assert_eq!(client.auth_header(), "Bearer test-token");
    let payload = UpdateRecordPayload::a_record("www", "9.9.9.9");
    assert_eq!(payload.record_type, "A");
    assert_eq!(payload.name, "www");
    assert_eq!(payload.content, "9.9.9.9");
    let updated = updated_record(
        ApiSingleResponse {
            success: true,
            result: Some(sample_record("www.acme.com", "9.9.9.9")),
            errors: vec![],
        },
        "zone1",
    )
    .unwrap();
    assert_eq!(updated.content, "9.9.9.9");
    assert_eq!(updated.zone_id, "zone1");
}

#[test]
fn put_when_ip_differs_flow() {
    let record = lookup(
        vec![zone("zone1", "acme.com")],
        vec![sample_record("www.acme.com", "1.2.3.4")],
        "acme.com",
        "www",
    )
    .unwrap();
    assert!(needs_update("8.8.8.8", &record.content));
    let client = CloudflareClient::new(reqwest::Client::new(), "https://api.example.test", "test-token");
    assert_eq!(
        client.record_url(&record.zone_id, &record.id),
        "https://api.example.test/zones/zone1/dns_records/rec1"
    );
    let updated = updated_record(
        ApiSingleResponse {
            success: true,
            result: Some(sample_record("www.acme.com", "8.8.8.8")),
            errors: vec![],
        },
        &record.zone_id,
    )
    .unwrap();
    assert_eq!(updated.content, "8.8.8.8");
}

#[test]
fn client_urls_drop_trailing_slashes() {
    let client = CloudflareClient::new(reqwest::Client::new(), "https://api.example.test///", "t");
    assert_eq!(client.zones_url(), "https://api.example.test/zones");
    assert_eq!(client.dns_records_url("z"), "https://api.example.test/zones/z/dns_records");
    assert_eq!(client.auth_header(), "Bearer t");
    let client = CloudflareClient::new(reqwest::Client::new(), CLOUDFLARE_API_BASE, "t");
    assert_eq!(client.zones_url(), "https://api.cloudflare.com/client/v4/zones");
}

#[test]
fn failed_answers_become_api_errors() {
    let failed: ApiListResponse<Zone> = ApiListResponse {
        success: false,
        result: Some(vec![zone("z", "acme.com")]),
        errors: vec!["Object {\"code\": Number(9109)}".to_string(), "String(\"x\")".to_string()],
    };
    let err = list_result(failed).unwrap_err();
    assert_eq!(err, CloudflareError::Api("[Object {\"code\": Number(9109)}, String(\"x\")]".to_string()));
    assert_eq!(err.message(), "Cloudflare API error: [Object {\"code\": Number(9109)}, String(\"x\")]");
    let none: ApiListResponse<Zone> = ApiListResponse { success: false, result: None, errors: vec![] };
    assert_eq!(list_result(none).unwrap_err(), CloudflareError::Api("[]".to_string()));
    let empty: ApiListResponse<Zone> = ApiListResponse { success: true, result: None, errors: vec![] };
    assert!(list_result(empty).unwrap().is_empty());
}

#[test]
fn update_answers_are_checked() {
    let missing: ApiSingleResponse<DnsRecord> = ApiSingleResponse { success: true, result: None, errors: vec![] };
    assert_eq!(updated_record(missing, "z").unwrap_err(), CloudflareError::Api("missing result".to_string()));
    let failed: ApiSingleResponse<DnsRecord> = ApiSingleResponse {
        success: false,
        result: Some(sample_record("a", "b")),
        errors: vec!["e".to_string()],
    };
    assert_eq!(updated_record(failed, "z").unwrap_err(), CloudflareError::Api("[e]".to_string()));
    let mut with_zone = sample_record("a", "b");
    with_zone.zone_id = "own".to_string();
    let kept = updated_record(ApiSingleResponse { success: true, result: Some(with_zone), errors: vec![] }, "z").unwrap();
    assert_eq!(kept.zone_id, "own");
}

#[test]
fn error_messages() {
    assert_eq!(
        CloudflareError::Request("timed out".to_string()).message(),
        "HTTP error talking to Cloudflare: timed out"
    );
    assert_eq!(CloudflareError::Api("bad".to_string()).message(), "Cloudflare API error: bad");
}

#[test]
fn lookup_stops_when_no_zone_matches() {
    let (res, requests) = run_lookup(ok(vec![zone("zone1", "other.com")]), ok(vec![]), "acme.com", "www");
    assert_eq!(res.unwrap_err(), CloudflareError::ZoneNotFound("acme.com".to_string()));
    assert_eq!(requests, vec!["zones".to_string()]);
}

#[test]
fn lookup_lists_records_of_matched_zone_only() {
    let (res, requests) = run_lookup(
        ok(vec![zone("z0", "other.com"), zone("z1", "acme.com")]),
        ok(vec![sample_record("www.acme.com", "1.2.3.4")]),
        "acme.com",
        "www",
    );
    assert_eq!(res.unwrap().zone_id, "z1");
    assert_eq!(requests, vec!["zones".to_string(), "records of z1".to_string()]);
}

#[test]
fn lookup_failures_end_it_with_their_error() {
    let (res, requests) = run_lookup(Reply::Transport("refused"), ok(vec![]), "acme.com", "www");
    assert_eq!(res.unwrap_err(), CloudflareError::Request("refused".to_string()));
    assert_eq!(requests, vec!["zones".to_string()]);
    let failed = Reply::Listing(ApiListResponse { success: false, result: None, errors: vec!["E".to_string()] });
    let (res, requests) = run_lookup(failed, ok(vec![]), "acme.com", "www");
    assert_eq!(res.unwrap_err(), CloudflareError::Api("[E]".to_string()));
    assert_eq!(requests.len(), 1);
    let (res, requests) =
        run_lookup(ok(vec![zone("zone1", "acme.com")]), Reply::Transport("reset"), "acme.com", "www");
    assert_eq!(res.unwrap_err(), CloudflareError::Request("reset".to_string()));
    assert_eq!(requests.len(), 2);
}
