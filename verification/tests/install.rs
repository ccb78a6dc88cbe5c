use meshstack::config::MeshstackContext;
use meshstack::error::ErrorKind;
use meshstack::install::{install_component, resolve_install_targets};
use meshstack::plan::Step;

fn context(kube: Option<&str>, dry_run: bool) -> MeshstackContext {
    MeshstackContext { config: None, kube_context: kube.map(|s| s.to_string()), dry_run }
}

fn said(plan: &[Step]) -> Vec<String> {
    plan.iter()
        .filter_map(|s| match s {
            Step::Say(line) => Some(line.clone()),
            _ => None,
        })
        .collect()
}

fn previewed(plan: &[Step]) -> Vec<String> {
    plan.iter()
        .filter_map(|s| match s {
            Step::Preview(call) => Some(call.render()),
            _ => None,
        })
        .collect()
}

fn spawned(plan: &[Step]) -> Vec<String> {
    plan.iter()
        .filter_map(|s| match s {
            Step::Spawn { call, .. } => Some(call.render()),
            _ => None,
        })
        .collect()
}

fn probes(plan: &[Step]) -> usize {
    plan.iter().filter(|s| matches!(s, Step::Check { .. })).count()
}

#[test]
fn no_component_resolves_to_the_five_defaults() {
    let targets = resolve_install_targets(&None).unwrap();
    let keys: Vec<&str> = targets.iter().map(|t| t.key.as_str()).collect();
    assert_eq!(keys, vec!["istio", "prometheus", "grafana", "cert-manager", "nginx-ingress"]);
    let charts: Vec<&str> = targets.iter().map(|t| t.chart.as_str()).collect();
    assert_eq!(
        charts,
        vec![
            "istio/istio",
            "prometheus-community/prometheus",
            "grafana/grafana",
            "cert-manager/cert-manager",
            "ingress-nginx/ingress-nginx"
        ]
    );
}

#[test]
fn vault_is_installed_only_when_named() {
    let targets = resolve_install_targets(&Some("vault".to_string())).unwrap();
    assert_eq!(targets.len(), 1);
    assert_eq!(targets[0].key, "vault");
    assert_eq!(targets[0].chart, "hashicorp/vault");
}

#[test]
fn test_install_command_with_invalid_component() {
    let e = install_component(&Some("nonexistent".to_string()), &None, &context(None, true), true).unwrap_err();
    assert_eq!(e.kind, ErrorKind::UnknownTarget);
    assert_eq!(
        e.message,
        "Unknown component: nonexistent. Valid components are: istio, prometheus, grafana, cert-manager, nginx-ingress, vault"
    );
}

#[test]
fn test_install_command_with_custom_profile() {
    let e = install_component(&None, &Some("custom".to_string()), &context(None, true), true).unwrap_err();
    assert_eq!(e.kind, ErrorKind::NotImplemented);
    assert_eq!(e.message, "Custom profile not yet implemented.");
}

#[test]
fn unknown_profile_fails_before_any_step() {
    for dry_run in [true, false] {
        let e = install_component(&None, &Some("staging".to_string()), &context(None, dry_run), true).unwrap_err();
        assert_eq!(e.kind, ErrorKind::UnknownTarget);
        assert_eq!(e.message, "Unknown profile: staging. Valid profiles are: dev, prod, custom");
    }
}

#[test]
fn unknown_component_is_reported_before_unknown_profile() {
    let e = install_component(&Some("nope".to_string()), &Some("custom".to_string()), &context(None, false), true)
        .unwrap_err();
    assert_eq!(e.kind, ErrorKind::UnknownTarget);
    assert!(e.message.starts_with("Unknown component: nope."));
}

#[test]
fn dry_run_of_the_default_set_previews_five_commands_and_spawns_nothing() {
    let plan = install_component(&None, &Some("prod".to_string()), &context(Some("prod-ctx"), true), true).unwrap();
    assert_eq!(spawned(&plan).len(), 0);
    assert_eq!(probes(&plan), 0);
    assert_eq!(
        previewed(&plan),
        vec![
            "helm install istio istio/istio --dry-run --kube-context prod-ctx --values prod-values.yaml",
            "helm install prometheus prometheus-community/prometheus --dry-run --kube-context prod-ctx --values prod-values.yaml",
            "helm install grafana grafana/grafana --dry-run --kube-context prod-ctx --values prod-values.yaml",
            "helm install cert-manager cert-manager/cert-manager --dry-run --kube-context prod-ctx --values prod-values.yaml",
            "helm install nginx-ingress ingress-nginx/ingress-nginx --dry-run --kube-context prod-ctx --values prod-values.yaml",
        ]
    );
    assert_eq!(
        said(&plan),
        vec![
            "Installing components...",
            "No component specified, installing default set.",
            "Applying profile: prod",
            "Attempting to install istio from chart istio/istio",
            "Attempting to install prometheus from chart prometheus-community/prometheus",
            "Attempting to install grafana from chart grafana/grafana",
            "Attempting to install cert-manager from chart cert-manager/cert-manager",
            "Attempting to install nginx-ingress from chart ingress-nginx/ingress-nginx",
        ]
    );
}

#[test]
fn applied_install_probes_helm_then_runs_one_command_per_component() {
    let plan = install_component(&None, &Some("prod".to_string()), &context(Some("prod-ctx"), false), true).unwrap();
    assert_eq!(previewed(&plan).len(), 0);
    assert_eq!(probes(&plan), 1);
    let runs = spawned(&plan);
    assert_eq!(runs.len(), 5);
    for run in &runs {
        assert!(run.ends_with("--kube-context prod-ctx --values prod-values.yaml"));
        assert!(!run.contains("--dry-run"));
    }
    assert_eq!(runs[0], "helm install istio istio/istio --kube-context prod-ctx --values prod-values.yaml");
    match &plan[3] {
        Step::Check { call, remedy } => {
            assert_eq!(call.render(), "helm version");
            assert_eq!(
                remedy,
                "Helm is not installed or not found in PATH. Please install Helm to proceed. Refer to https://helm.sh/docs/intro/install/ for instructions."
            );
        }
        other => panic!("expected the helm probe, got {:?}", other),
    }
    match &plan[5] {
        Step::Spawn { done, echo, .. } => {
            assert_eq!(done, "Successfully deployed service: istio");
            assert!(*echo);
        }
        other => panic!("expected a spawn, got {:?}", other),
    }
}

#[test]
fn single_component_with_context_only() {
    let plan = install_component(&Some("grafana".to_string()), &None, &context(Some("my-kube-context"), true), false)
        .unwrap();
    assert_eq!(previewed(&plan), vec!["helm install grafana grafana/grafana --dry-run --kube-context my-kube-context"]);
    assert_eq!(
        said(&plan),
        vec!["Installing components...", "Attempting to install grafana from chart grafana/grafana"]
    );
}

#[test]
fn missing_overlay_is_warned_of_and_left_out() {
    let plan = install_component(&Some("istio".to_string()), &Some("dev".to_string()), &context(None, false), false)
        .unwrap();
    assert_eq!(spawned(&plan), vec!["helm install istio istio/istio"]);
    assert!(said(&plan).contains(&"Warning: Environment values file dev-values.yaml not found. Skipping.".to_string()));
    let with = install_component(&Some("istio".to_string()), &Some("dev".to_string()), &context(None, false), true)
        .unwrap();
    assert_eq!(spawned(&with), vec!["helm install istio istio/istio --values dev-values.yaml"]);
    assert!(!said(&with).iter().any(|l| l.starts_with("Warning")));
}
