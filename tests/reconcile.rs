use dns_updater::reconcile::{pending_updates, record_needs_update, update_request};
use dns_updater::records::{CloudFlareDNSListResponseResult, Protocol, UpdateTarget};

fn target(domain: &str, record_type: Protocol, zone_id: &str) -> UpdateTarget {
    UpdateTarget {
        domain: domain.to_string(),
        record_type,
        zone_id: zone_id.to_string(),
    }
}

fn record(name: &str, ttype: &str, content: &str, id: &str) -> CloudFlareDNSListResponseResult {
    CloudFlareDNSListResponseResult {
        content: content.to_string(),
        name: name.to_string(),
        proxied: false,
        comment: None,
        ttype: ttype.to_string(),
        created_on: "2024-01-01T00:00:00Z".to_string(),
        id: id.to_string(),
        zone_id: "Z1".to_string(),
        zone_name: "example.com".to_string(),
    }
}

#[test]
fn stale_record_gets_one_update() {
    let t = target("home.example.com", Protocol::A, "Z1");
    let rs = vec![record("home.example.com", "A", "198.51.100.9", "R1")];
    let out = pending_updates(&"203.0.113.5".to_string(), &t, &rs);
    assert_eq!(out.len(), 1);
    assert_eq!(out[0].content, "203.0.113.5");
    assert_eq!(out[0].id, "R1");
    assert_eq!(out[0].name, "home.example.com");
    assert_eq!(out[0].ttype, "A");
}

#[test]
fn current_record_gets_no_update() {
    let t = target("home.example.com", Protocol::A, "Z1");
    let rs = vec![record("home.example.com", "A", "203.0.113.5", "R1")];
    let out = pending_updates(&"203.0.113.5".to_string(), &t, &rs);
    assert!(out.is_empty());
}

#[test]
fn record_of_other_type_gets_no_update() {
    let t = target("home.example.com", Protocol::A, "Z1");
    let rs = vec![record("home.example.com", "AAAA", "2001:db8::1", "R1")];
    let out = pending_updates(&"203.0.113.5".to_string(), &t, &rs);
    assert!(out.is_empty());
}

#[test]
fn record_of_other_name_gets_no_update() {
    let t = target("home.example.com", Protocol::A, "Z1");
    let r = record("www.example.com", "A", "198.51.100.9", "R1");
    assert!(!record_needs_update(&"203.0.113.5".to_string(), &t, &r));
}

#[test]
fn empty_listing_gets_no_update() {
    let t = target("home.example.com", Protocol::AAAA, "Z1");
    let out = pending_updates(&"2001:db8::5".to_string(), &t, &Vec::new());
    assert!(out.is_empty());
}

#[test]
fn duplicates_are_each_updated_in_order() {
    let t = target("v6.example.com", Protocol::AAAA, "Z2");
    let rs = vec![
        record("v6.example.com", "AAAA", "2001:db8::1", "R1"),
        record("v6.example.com", "A", "198.51.100.9", "R2"),
        record("v6.example.com", "AAAA", "2001:db8::5", "R3"),
        record("v6.example.com", "AAAA", "2001:DB8::5", "R4"),
    ];
    let out = pending_updates(&"2001:db8::5".to_string(), &t, &rs);
    assert_eq!(out.len(), 2);
    assert_eq!(out[0].id, "R1");
    assert_eq!(out[1].id, "R4");
    assert_eq!(out[1].ttype, "AAAA");
    assert_eq!(out[1].content, "2001:db8::5");
}

#[test]
fn update_request_carries_target_and_record() {
    let t = target("home.example.com", Protocol::AAAA, "Z1");
    let r = record("home.example.com", "AAAA", "2001:db8::1", "R9");
    let q = update_request(&"2001:db8::2".to_string(), &t, &r);
    assert_eq!(q.content, "2001:db8::2");
    assert_eq!(q.name, "home.example.com");
    assert_eq!(q.ttype, "AAAA");
    assert_eq!(q.id, "R9");
}

#[test]
fn protocol_names() {
    assert_eq!(Protocol::A.to_string(), "A");
    assert_eq!(Protocol::AAAA.to_string(), "AAAA");
}
