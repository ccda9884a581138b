use cloudflare_dyndns::record::{record_fqdn, UpdateRecordPayload};

#[test]
fn fqdn_subdomain() {
    assert_eq!(record_fqdn("www", "acme.com"), "www.acme.com");
}

#[test]
fn fqdn_root() {
    assert_eq!(record_fqdn("", "acme.com"), "acme.com");
}

#[test]
fn update_payload_shape() {
    let payload = UpdateRecordPayload::a_record("www", "1.2.3.4");
    assert_eq!(payload.record_type, "A");
    assert_eq!(payload.name, "www");
    assert_eq!(payload.content, "1.2.3.4");
}

#[test]
fn update_payload_root_uses_empty_name() {
    let payload = UpdateRecordPayload::a_record("", "9.9.9.9");
    assert_eq!(payload.name, "");
    assert_eq!(payload.record_type, "A");
    assert_eq!(payload.content, "9.9.9.9");
}

#[test]
fn fqdn_keeps_labels_with_dots() {
    assert_eq!(record_fqdn("a.b", "example.org"), "a.b.example.org");
    assert_eq!(record_fqdn("home", ""), "home.");
}
