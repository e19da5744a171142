use kube_fqdn::annotations::Annotations;
use kube_fqdn::resolver::{resolve, DOMAIN_KEY, TLD_KEY};

fn annotations(entries: &[(&str, &str)]) -> Annotations {
    let mut set = Annotations::new();
    for (key, value) in entries {
        set.insert(key.to_string(), value.to_string());
    }
    set
}

#[test]
fn keys_are_the_documented_ones() {
    assert_eq!(DOMAIN_KEY, "fqdn.domain");
    assert_eq!(TLD_KEY, "fqdn.tld");
}

#[test]
fn domain_from_namespace_and_tld_from_service() {
    let namespace = annotations(&[("fqdn.domain", "example")]);
    let service = annotations(&[("fqdn.tld", "com")]);
    assert_eq!(resolve(&namespace, &service), Some("example.com".to_string()));
}

#[test]
fn service_tld_overrides_namespace_tld() {
    let namespace = annotations(&[("fqdn.domain", "example"), ("fqdn.tld", "org")]);
    let service = annotations(&[("fqdn.tld", "com")]);
    assert_eq!(resolve(&namespace, &service), Some("example.com".to_string()));
}

#[test]
fn missing_tld_on_both_levels_is_unresolved() {
    let namespace = annotations(&[]);
    let service = annotations(&[("fqdn.domain", "example")]);
    assert_eq!(resolve(&namespace, &service), None);
}

#[test]
fn no_annotations_at_all_is_unresolved() {
    assert_eq!(resolve(&annotations(&[]), &annotations(&[])), None);
}

#[test]
fn missing_domain_on_both_levels_is_unresolved() {
    let namespace = annotations(&[("fqdn.tld", "org")]);
    let service = annotations(&[("fqdn.tld", "com")]);
    assert_eq!(resolve(&namespace, &service), None);
}

#[test]
fn service_domain_overrides_namespace_domain() {
    let namespace = annotations(&[("fqdn.domain", "example"), ("fqdn.tld", "org")]);
    let service = annotations(&[("fqdn.domain", "shop")]);
    assert_eq!(resolve(&namespace, &service), Some("shop.org".to_string()));
}

#[test]
fn service_overrides_both_fields() {
    let namespace = annotations(&[("fqdn.domain", "example"), ("fqdn.tld", "org")]);
    let service = annotations(&[("fqdn.domain", "shop"), ("fqdn.tld", "com")]);
    assert_eq!(resolve(&namespace, &service), Some("shop.com".to_string()));
}

#[test]
fn namespace_alone_resolves() {
    let namespace = annotations(&[("fqdn.domain", "example"), ("fqdn.tld", "org")]);
    assert_eq!(resolve(&namespace, &annotations(&[])), Some("example.org".to_string()));
}

#[test]
fn service_alone_resolves() {
    let service = annotations(&[("fqdn.tld", "com"), ("fqdn.domain", "example")]);
    assert_eq!(resolve(&annotations(&[]), &service), Some("example.com".to_string()));
}

#[test]
fn empty_values_are_taken_as_they_are() {
    let namespace = annotations(&[("fqdn.domain", "")]);
    let service = annotations(&[("fqdn.tld", "")]);
    assert_eq!(resolve(&namespace, &service), Some(".".to_string()));
}

#[test]
fn empty_service_value_still_overrides() {
    let namespace = annotations(&[("fqdn.domain", "example"), ("fqdn.tld", "org")]);
    let service = annotations(&[("fqdn.tld", "")]);
    assert_eq!(resolve(&namespace, &service), Some("example.".to_string()));
}

#[test]
fn values_are_not_validated() {
    let namespace = annotations(&[("fqdn.domain", "not a label!")]);
    let service = annotations(&[("fqdn.tld", "a.b c")]);
    assert_eq!(resolve(&namespace, &service), Some("not a label!.a.b c".to_string()));
}

#[test]
fn non_ascii_values_are_joined_unchanged() {
    let namespace = annotations(&[("fqdn.domain", "bücher")]);
    let service = annotations(&[("fqdn.tld", "例")]);
    assert_eq!(resolve(&namespace, &service), Some("bücher.例".to_string()));
}

#[test]
fn other_annotations_are_ignored() {
    let namespace = annotations(&[("owner", "team-a"), ("fqdn.domains", "wrong")]);
    let service = annotations(&[("fqdn", "wrong"), ("fqdn.tld.extra", "wrong")]);
    assert_eq!(resolve(&namespace, &service), None);
}

#[test]
fn resolved_exactly_when_both_fields_can_be_found() {
    for mask in 0u8..16 {
        let namespace_domain = mask & 1 != 0;
        let namespace_tld = mask & 2 != 0;
        let service_domain = mask & 4 != 0;
        let service_tld = mask & 8 != 0;
        let mut namespace = Annotations::new();
        let mut service = Annotations::new();
        if namespace_domain {
            namespace.insert("fqdn.domain".to_string(), "nsd".to_string());
        }
        if namespace_tld {
            namespace.insert("fqdn.tld".to_string(), "nst".to_string());
        }
        if service_domain {
            service.insert("fqdn.domain".to_string(), "svd".to_string());
        }
        if service_tld {
            service.insert("fqdn.tld".to_string(), "svt".to_string());
        }
        let domain = if service_domain {
            Some("svd")
        } else if namespace_domain {
            Some("nsd")
        } else {
            None
        };
        let tld = if service_tld {
            Some("svt")
        } else if namespace_tld {
            Some("nst")
        } else {
            None
        };
        let expected = match (domain, tld) {
            (Some(domain), Some(tld)) => Some(format!("{}.{}", domain, tld)),
            _ => None,
        };
        assert_eq!(resolve(&namespace, &service), expected, "presence mask {}", mask);
    }
}

#[test]
fn resolution_is_repeatable() {
    let namespace = annotations(&[("fqdn.domain", "example")]);
    let service = annotations(&[("fqdn.tld", "com")]);
    assert_eq!(resolve(&namespace, &service), resolve(&namespace, &service));
}
