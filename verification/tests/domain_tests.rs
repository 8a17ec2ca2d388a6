use cddns::registrable_domain;

#[test]
fn two_labels_stay() {
    assert_eq!(registrable_domain("example.com"), "example.com");
}

#[test]
fn subdomain_is_cut_to_two_labels() {
    assert_eq!(registrable_domain("home.example.com"), "example.com");
}

#[test]
fn deep_subdomain_is_cut_to_two_labels() {
    assert_eq!(registrable_domain("a.b.example.com"), "example.com");
}

#[test]
fn single_label_stays() {
    assert_eq!(registrable_domain("localhost"), "localhost");
}

#[test]
fn empty_name_stays() {
    assert_eq!(registrable_domain(""), "");
}

#[test]
fn co_uk_style_takes_last_two_labels() {
    // The registrable domain is a coarse approximation: always the
    // last two labels, whatever the public suffix really is.
    assert_eq!(registrable_domain("www.example.co.uk"), "co.uk");
}
