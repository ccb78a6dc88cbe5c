use meshstack::catalog::{default_destroy_set, default_install_set, lookup};
use meshstack::error::ErrorKind;

#[test]
fn lookup_finds_every_registered_chart() {
    assert_eq!(lookup("istio").unwrap(), "istio/istio");
    assert_eq!(lookup("prometheus").unwrap(), "prometheus-community/prometheus");
    assert_eq!(lookup("grafana").unwrap(), "grafana/grafana");
    assert_eq!(lookup("cert-manager").unwrap(), "cert-manager/cert-manager");
    assert_eq!(lookup("nginx-ingress").unwrap(), "ingress-nginx/ingress-nginx");
    assert_eq!(lookup("vault").unwrap(), "hashicorp/vault");
}

#[test]
fn lookup_of_unknown_key_lists_the_valid_keys() {
    let e = lookup("nonexistent").unwrap_err();
    assert_eq!(e.kind, ErrorKind::UnknownTarget);
    assert_eq!(
        e.message,
        "Unknown component: nonexistent. Valid components are: istio, prometheus, grafana, cert-manager, nginx-ingress, vault"
    );
}

#[test]
fn default_sets_follow_catalog_order() {
    let install: Vec<String> = default_install_set().into_iter().map(|r| r.key).collect();
    assert_eq!(install, vec!["istio", "prometheus", "grafana", "cert-manager", "nginx-ingress"]);
    assert_eq!(
        default_destroy_set(),
        vec!["istio", "prometheus", "grafana", "cert-manager", "nginx-ingress", "vault"]
    );
}
