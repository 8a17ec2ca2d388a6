use cddns::api::{ApiError, ClientError, DnsRecord, Zone};
use cddns::flow::{start, step, Action, Config, Event, Phase};

fn config(ipv6: bool) -> Config {
    Config { domain: String::from("home.example.com"), ipv6, proxied: false }
}

fn example_zones() -> Vec<Zone> {
    vec![
        Zone { id: String::from("z0"), name: String::from("other.net") },
        Zone { id: String::from("z1"), name: String::from("example.com") },
    ]
}

fn home_record(content: &str) -> DnsRecord {
    DnsRecord {
        id: String::from("r1"),
        record_type: String::from("A"),
        name: String::from("home.example.com"),
        content: String::from(content),
        ttl: 120,
        proxied: true,
    }
}

#[test]
fn scenario_existing_record_is_updated() {
    let config = config(false);
    let (phase, action) = start();
    assert!(matches!(action, Action::ListZones));

    let (phase, action) = step(&config, phase, Event::ZonesListed { zones: example_zones() });
    match &action {
        Action::LookupIp { ipv6 } => assert!(!ipv6),
        _ => panic!("expected an IP lookup"),
    }

    let (phase, action) = step(
        &config,
        phase,
        Event::IpResolved { body: String::from("2.2.2.2\n") },
    );
    match &action {
        Action::ListRecords { zone_id } => assert_eq!(zone_id, "z1"),
        _ => panic!("expected a record listing"),
    }

    let records = vec![home_record("1.1.1.1")];
    let (phase, action) = step(&config, phase, Event::RecordsListed { records });
    let request = match action {
        Action::SendUpdate { zone_id, record_id, request } => {
            assert_eq!(zone_id, "z1");
            assert_eq!(record_id, "r1");
            request
        },
        _ => panic!("expected an update"),
    };
    assert_eq!(request.content, "2.2.2.2");
    assert_eq!(request.record_type, "A");
    assert_eq!(request.name, "home.example.com");
    assert_eq!(request.ttl, 120);
    assert!(request.proxied);

    let (phase, action) = step(&config, phase, Event::RecordSaved { record: home_record("2.2.2.2") });
    match action {
        Action::Report { name, content } => {
            assert_eq!(name, "home.example.com");
            assert_eq!(content, "2.2.2.2");
        },
        _ => panic!("expected a success report"),
    }
    assert!(matches!(phase, Phase::Done { .. }));
}

#[test]
fn scenario_missing_record_is_created_over_ipv6() {
    let config = config(true);
    let (phase, _) = start();
    let (phase, action) = step(&config, phase, Event::ZonesListed { zones: example_zones() });
    match &action {
        Action::LookupIp { ipv6 } => assert!(*ipv6),
        _ => panic!("expected an IP lookup"),
    }
    let (phase, action) = step(
        &config,
        phase,
        Event::IpResolved { body: String::from("2001:db8::1\n") },
    );
    assert!(matches!(action, Action::ListRecords { .. }));

    // The zone has records, none named home.example.com.
    let records = vec![DnsRecord {
        id: String::from("r7"),
        record_type: String::from("A"),
        name: String::from("mail.example.com"),
        content: String::from("9.9.9.9"),
        ttl: 300,
        proxied: false,
    }];
    let (phase, action) = step(&config, phase, Event::RecordsListed { records });
    match action {
        Action::SendCreate { zone_id, request } => {
            assert_eq!(zone_id, "z1");
            assert_eq!(request.record_type, "AAAA");
            assert_eq!(request.name, "home.example.com");
            assert_eq!(request.content, "2001:db8::1");
            assert_eq!(request.ttl, 3600);
            assert!(!request.proxied);
        },
        _ => panic!("expected a create"),
    }
    assert!(matches!(phase, Phase::SavingRecord { .. }));
}

#[test]
fn scenario_missing_zone_aborts_before_ip_lookup() {
    let config = config(false);
    let (phase, _) = start();
    let zones = vec![Zone { id: String::from("z0"), name: String::from("other.net") }];
    let (phase, action) = step(&config, phase, Event::ZonesListed { zones });
    // The run fails at once: the very next action is the abort, so no
    // IP lookup is ever requested.
    match action {
        Action::Abort { error } => {
            assert!(matches!(error, ClientError::ZoneNotFound));
            assert!(error.message().contains("does the token have clearance"));
        },
        _ => panic!("expected an abort"),
    }
    assert!(matches!(phase, Phase::Failed { .. }));
}

#[test]
fn scenario_http_400_reports_the_provider_detail() {
    let config = config(false);
    let (phase, _) = start();
    // The zones call answered HTTP 400 with a parseable error body.
    let detail = ApiError { code: 9109, message: String::from("Invalid token") };
    let error = cddns::api::http_status_check(400, Some(detail)).unwrap_err();
    let (phase, action) = step(&config, phase, Event::CallFailed { error });
    match action {
        Action::Abort { error } => {
            let msg = error.message();
            assert!(msg.contains("400"));
            assert!(msg.contains("9109"));
            assert!(msg.contains("Invalid token"));
        },
        _ => panic!("expected an abort"),
    }
    assert!(matches!(phase, Phase::Failed { .. }));
}

#[test]
fn failed_record_fetch_falls_through_to_create() {
    let config = config(false);
    let (phase, _) = start();
    let (phase, _) = step(&config, phase, Event::ZonesListed { zones: example_zones() });
    let (phase, _) = step(
        &config,
        phase,
        Event::IpResolved { body: String::from("2.2.2.2") },
    );
    // Any failure of the record fetch is treated like an empty fetch:
    // the run creates the record instead of aborting.
    let error = ClientError::Parse { context: String::from("DNS records response") };
    let (_, action) = step(&config, phase, Event::CallFailed { error });
    match action {
        Action::SendCreate { zone_id, request } => {
            assert_eq!(zone_id, "z1");
            assert_eq!(request.record_type, "A");
            assert_eq!(request.content, "2.2.2.2");
        },
        _ => panic!("expected a create"),
    }
}

#[test]
fn ip_lookup_failure_aborts() {
    let config = config(false);
    let (phase, _) = start();
    let (phase, _) = step(&config, phase, Event::ZonesListed { zones: example_zones() });
    let error = ClientError::IpLookup { status: Some(503) };
    let (phase, action) = step(&config, phase, Event::CallFailed { error });
    match action {
        Action::Abort { error } => {
            assert_eq!(error.message(), "Failure retrieving IP address: HTTP 503");
        },
        _ => panic!("expected an abort"),
    }
    assert!(matches!(phase, Phase::Failed { .. }));
}

#[test]
fn echo_endpoints_are_fixed() {
    assert_eq!(cddns::ip::ip_echo_url(false), "https://4.ident.me/");
    assert_eq!(cddns::ip::ip_echo_url(true), "https://6.ident.me/");
}
