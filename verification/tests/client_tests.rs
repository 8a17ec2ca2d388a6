use cddns::api::{ClientError, DnsRecord, RecordType, Zone};
use cddns::Cloudflare;

fn client() -> Cloudflare {
    Cloudflare::new(String::from("SECRET-REDACTED"), String::from("home.example.com"))
}

fn record(id: &str, name: &str, content: &str) -> DnsRecord {
    DnsRecord {
        id: String::from(id),
        record_type: String::from("A"),
        name: String::from(name),
        content: String::from(content),
        ttl: 120,
        proxied: true,
    }
}

#[test]
fn new_keeps_token_and_fixes_base_url() {
    let cf = client();
    assert_eq!(cf.token, "SECRET-REDACTED");
    assert_eq!(cf.base_url, "https://api.cloudflare.com/client/v4");
}

#[test]
fn endpoint_urls() {
    let cf = client();
    assert_eq!(cf.zones_url(), "https://api.cloudflare.com/client/v4/zones");
    assert_eq!(
        cf.records_url("z1"),
        "https://api.cloudflare.com/client/v4/zones/z1/dns_records"
    );
    assert_eq!(
        cf.record_url("z1", "r9"),
        "https://api.cloudflare.com/client/v4/zones/z1/dns_records/r9"
    );
}

#[test]
fn zone_is_matched_by_registrable_domain() {
    let cf = client();
    let zones = vec![
        Zone { id: String::from("z0"), name: String::from("other.net") },
        Zone { id: String::from("z1"), name: String::from("example.com") },
    ];
    let id = cf.get_zone_id(&zones, "home.example.com").unwrap();
    assert_eq!(id, "z1");
}

#[test]
fn missing_zone_reports_zone_not_found() {
    let cf = client();
    let zones = vec![Zone { id: String::from("z0"), name: String::from("other.net") }];
    let err = cf.get_zone_id(&zones, "home.example.com").unwrap_err();
    assert!(matches!(err, ClientError::ZoneNotFound));
}

#[test]
fn first_matching_record_wins() {
    let cf = client();
    let records = vec![
        record("r0", "mail.example.com", "9.9.9.9"),
        record("r1", "home.example.com", "1.1.1.1"),
        record("r2", "home.example.com", "8.8.8.8"),
    ];
    let rec = cf.get_record(&records, "home.example.com").unwrap();
    assert_eq!(rec.id, "r1");
    assert_eq!(rec.content, "1.1.1.1");
}

#[test]
fn no_matching_record_reports_record_not_found() {
    let cf = client();
    let records = vec![record("r0", "mail.example.com", "9.9.9.9")];
    let err = cf.get_record(&records, "home.example.com").unwrap_err();
    assert!(matches!(err, ClientError::RecordNotFound));
}

#[test]
fn create_request_fixes_ttl_and_requested_fields() {
    let cf = client();
    let request = cf.create_record("home.example.com", "2.2.2.2", RecordType::A, true);
    assert_eq!(request.record_type, "A");
    assert_eq!(request.name, "home.example.com");
    assert_eq!(request.content, "2.2.2.2");
    assert_eq!(request.ttl, 3600);
    assert!(request.proxied);
    assert!(request.comment.starts_with("Automatic by DDNS - Set "));
    let aaaa = cf.create_record("home.example.com", "2001:db8::1", RecordType::AAAA, false);
    assert_eq!(aaaa.record_type, "AAAA");
    assert_eq!(aaaa.ttl, 3600);
    assert!(!aaaa.proxied);
}

#[test]
fn update_request_preserves_existing_fields() {
    let cf = client();
    let existing = record("r1", "home.example.com", "1.1.1.1");
    let request = cf.update_record("2.2.2.2", &existing);
    assert_eq!(request.record_type, "A");
    assert_eq!(request.name, "home.example.com");
    assert_eq!(request.ttl, 120);
    assert!(request.proxied);
    assert_eq!(request.content, "2.2.2.2");
    assert!(request.comment.starts_with("Automatic by DDNS - Set "));
}

#[test]
fn timestamp_comment_is_fresh_text() {
    // The comment carries a rendered local timestamp after the fixed
    // prefix: "YYYY-MM-DD HH:MM:SS", 19 characters of digits and
    // separators.
    let cf = client();
    let request = cf.create_record("home.example.com", "2.2.2.2", RecordType::A, false);
    let stamp = &request.comment["Automatic by DDNS - Set ".len()..];
    assert_eq!(stamp.len(), 19);
    assert_eq!(&stamp[4..5], "-");
    assert_eq!(&stamp[7..8], "-");
    assert_eq!(&stamp[10..11], " ");
    assert_eq!(&stamp[13..14], ":");
    assert_eq!(&stamp[16..17], ":");
    assert!(stamp.chars().filter(|c| c.is_ascii_digit()).count() == 14);
}
