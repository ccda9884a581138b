use cloudflare_dyndns::ip::{ip_service_url, public_ip_from_body, IpError};

#[test]
fn fetches_and_trims_ip() {
    assert_eq!(public_ip_from_body("  203.0.113.42\n").unwrap(), "203.0.113.42");
}

#[test]
fn empty_body_errors() {
    let err = public_ip_from_body("   ").unwrap_err();
    assert!(matches!(err, IpError::Empty));
}

#[test]
fn body_trimming_matches_str_trim() {
    for body in ["", "\n", "1.2.3.4", "\t1.2.3.4\r\n", "\u{a0}1.2.3.4\u{3000}", " a b ", "x\u{200b}"] {
        match public_ip_from_body(body) {
            Ok(ip) => assert_eq!(ip, body.trim()),
            Err(e) => {
                assert!(body.trim().is_empty());
                assert_eq!(e, IpError::Empty);
            }
        }
    }
}

#[test]
fn ip_service_url_drops_trailing_slashes() {
    assert_eq!(ip_service_url("http://api.ipify.org"), "http://api.ipify.org");
    assert_eq!(ip_service_url("http://127.0.0.1:8080//"), "http://127.0.0.1:8080");
    assert_eq!(ip_service_url("/"), "");
}

#[test]
fn ip_error_messages() {
    assert_eq!(IpError::Empty.message(), "ipify returned empty body");
    assert_eq!(IpError::Request("refused".to_string()).message(), "failed to fetch public IP: refused");
}
