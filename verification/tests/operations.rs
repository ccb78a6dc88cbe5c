use meshstack::bootstrap::{bootstrap_local_cluster, probe_local_cluster};
use meshstack::config::{load_config, MeshstackConfig, MeshstackContext};
use meshstack::discovery::{DirEntry, ServicesRoot};
use meshstack::error::ErrorKind;
use meshstack::plan::Step;
use meshstack::status::status_project;
use meshstack::update::Reply;
use meshstack::validate::validate_project;

fn said(plan: &[Step]) -> Vec<String> {
    plan.iter()
        .filter_map(|s| match s {
            Step::Say(line) => Some(line.clone()),
            _ => None,
        })
        .collect()
}

fn calls(plan: &[Step]) -> Vec<String> {
    plan.iter()
        .filter_map(|s| match s {
            Step::Spawn { call, .. } => Some(format!("run {}", call.render())),
            Step::Preview(call) => Some(format!("preview {}", call.render())),
            Step::Check { call, .. } => Some(format!("check {}", call.render())),
            _ => None,
        })
        .collect()
}

fn config() -> MeshstackConfig {
    MeshstackConfig {
        project_name: "my-app".to_string(),
        language: "generic".to_string(),
        service_mesh: "istio".to_string(),
        ci_cd: "github".to_string(),
    }
}

#[test]
fn probing_kind_by_default() {
    let plan = probe_local_cluster(false, false, "meshstack-dev", false);
    assert_eq!(calls(&plan), vec!["check kind version"]);
    assert_eq!(
        said(&plan),
        vec![
            "\u{1F680} Bootstrapping local Kubernetes cluster...",
            "Using kind for local cluster provisioning",
            "Checking if kind is installed...",
            "\u{2705} kind is installed",
            "Checking if cluster 'meshstack-dev' exists...",
        ]
    );
    match &plan[3] {
        Step::Check { remedy, .. } => assert_eq!(
            remedy,
            "kind is not installed or not found in PATH. Please install kind to proceed.\nInstallation instructions:\n- Kind: https://kind.sigs.k8s.io/docs/user/quick-start/#installation\n- k3d: https://k3d.io/v5.4.6/#installation"
        ),
        other => panic!("expected the probe, got {:?}", other),
    }
}

#[test]
fn probing_k3d_when_previewing() {
    let plan = probe_local_cluster(true, true, "test-cluster", true);
    assert_eq!(calls(&plan), vec!["preview k3d version", "preview k3d cluster list --output json"]);
    assert!(said(&plan).contains(&"Using k3d for local cluster provisioning".to_string()));
}

#[test]
fn bootstrap_creates_a_cluster_that_is_not_listed() {
    let plan = bootstrap_local_cluster(true, false, true, "test-cluster", &Reply::Output("other\n".to_string()), false, true);
    assert_eq!(
        calls(&plan),
        vec!["run kind create cluster --name test-cluster", "run kubectl config use-context kind-test-cluster"]
    );
    assert_eq!(
        said(&plan),
        vec![
            "\u{1F4CB} Cluster 'test-cluster' does not exist",
            "\u{1F528} Creating cluster 'test-cluster'...",
            "\u{1F527} Setting kubectl context to 'kind-test-cluster'...",
            "\u{23ED}\u{FE0F}  Skipping infrastructure component installation",
            "\n\u{2705} Local cluster bootstrap completed!",
            "\u{1F527} Cluster name: test-cluster",
            "\u{1F527} Tool: kind",
            "\u{1F527} Context: kind-test-cluster",
        ]
    );
}

#[test]
fn bootstrap_keeps_a_cluster_that_is_listed() {
    let listing = Reply::Output("alpha\ntest-cluster\n".to_string());
    let plan = bootstrap_local_cluster(false, true, true, "test-cluster", &listing, false, true);
    assert_eq!(calls(&plan), vec!["run kubectl config use-context k3d-test-cluster"]);
    assert_eq!(said(&plan)[0], "\u{2705} Cluster 'test-cluster' already exists");
    match &plan[3] {
        Step::Spawn { done, echo, .. } => {
            assert_eq!(done, "\u{2705} Successfully set kubectl context to 'k3d-test-cluster'");
            assert!(!*echo);
        }
        other => panic!("expected the context switch, got {:?}", other),
    }
}

#[test]
fn bootstrap_assumes_no_cluster_when_listing_fails() {
    let plan = bootstrap_local_cluster(false, false, true, "dev", &Reply::Failed, false, true);
    assert_eq!(said(&plan)[0], "\u{1F4CB} Could not list clusters, assuming 'dev' does not exist");
    assert_eq!(calls(&plan)[0], "run kind create cluster --name dev");
}

#[test]
fn bootstrap_installs_the_defaults_with_the_dev_profile() {
    let plan = bootstrap_local_cluster(false, false, false, "dev", &Reply::Failed, false, true);
    let all = calls(&plan);
    assert_eq!(all.len(), 8);
    assert_eq!(all[2], "check helm version");
    assert_eq!(all[3], "run helm install istio istio/istio --kube-context kind-dev --values dev-values.yaml");
    assert_eq!(
        all[7],
        "run helm install nginx-ingress ingress-nginx/ingress-nginx --kube-context kind-dev --values dev-values.yaml"
    );
    let lines = said(&plan);
    assert!(lines.contains(&"\n\u{1F4E6} Installing infrastructure components...".to_string()));
    assert!(lines.contains(&"Applying profile: dev".to_string()));
    assert_eq!(lines.last().unwrap(), "\u{1F527} Infrastructure: Installed (dev profile)");
}

#[test]
fn previewed_bootstrap_spawns_nothing() {
    let plan = bootstrap_local_cluster(false, true, false, "dev", &Reply::Output("dev".to_string()), true, false);
    let all = calls(&plan);
    assert!(all.iter().all(|c| c.starts_with("preview ")));
    assert_eq!(all.len(), 7);
    assert_eq!(
        all[0],
        "preview k3d cluster create dev --port 80:80@loadbalancer --port 443:443@loadbalancer"
    );
    assert_eq!(all[2], "preview helm install istio istio/istio --dry-run --kube-context k3d-dev");
}

#[test]
fn status_of_everything() {
    let ctx = MeshstackContext { config: Some(config()), kube_context: Some("my-kube-context".to_string()), dry_run: false };
    let root = ServicesRoot::Present(vec![
        DirEntry { name: "my-service".to_string(), is_dir: true, has_dockerfile: false, has_chart: false },
        DirEntry { name: "notes".to_string(), is_dir: false, has_dockerfile: false, has_chart: false },
    ]);
    let lines = status_project(true, true, true, &ctx, &root, &Some("locked_component: v1.0".to_string()));
    assert_eq!(
        lines,
        vec![
            "Showing project status...",
            "\n--- Installed Infrastructure Components ---",
            "Service Mesh: istio",
            "Other components (placeholder): Prometheus, Grafana, Cert-Manager",
            "\n--- Running App Services ---",
            "Service: my-service (Status: Running - placeholder)",
            "\n--- meshstack.lock Status ---",
            "Content of meshstack.lock:\nlocked_component: v1.0",
            "\n--- Kubernetes Context Status ---",
            "Targeting Kubernetes context: my-kube-context",
            "Kubernetes context status (placeholder): Connected",
        ]
    );
}

#[test]
fn status_of_what_is_missing() {
    let ctx = MeshstackContext { config: None, kube_context: None, dry_run: false };
    assert_eq!(status_project(false, false, false, &ctx, &ServicesRoot::Absent, &None), vec!["Showing project status..."]);
    let lines = status_project(true, true, true, &ctx, &ServicesRoot::Absent, &None);
    assert_eq!(
        lines,
        vec![
            "Showing project status...",
            "\n--- Installed Infrastructure Components ---",
            "No meshstack.yaml found. Cannot determine installed components.",
            "\n--- Running App Services ---",
            "'services/' directory not found.",
            "\n--- meshstack.lock Status ---",
            "meshstack.lock not found.",
        ]
    );
    let empty = status_project(false, true, false, &ctx, &ServicesRoot::Present(vec![]), &None);
    assert_eq!(empty[2], "No services found in the 'services/' directory.");
}

#[test]
fn validation_of_everything() {
    let loaded = load_config(&Some("project_name: a\nlanguage: rust\nservice_mesh: istio\nci_cd: github\n".to_string()));
    let plan = validate_project(false, false, false, true, &loaded, false, false);
    assert_eq!(
        said(&plan),
        vec![
            "Validating project...",
            "Validating meshstack.yaml...",
            "meshstack.yaml is valid.",
            "Checking Kubernetes cluster connectivity...",
            "Validating CI/CD manifests...",
            "GitHub Actions workflows directory not found. Skipping GitHub Actions validation.",
            "ArgoCD manifests validation (placeholder): No issues found.",
        ]
    );
    assert_eq!(calls(&plan), vec!["run kubectl cluster-info --context current-context"]);
    match &plan[4] {
        Step::Spawn { call, done, .. } => {
            assert_eq!(call.label, "kubectl cluster-info");
            assert_eq!(done, "Connected to Kubernetes cluster successfully.");
        }
        other => panic!("expected the connectivity check, got {:?}", other),
    }
}

#[test]
fn validation_stops_at_a_missing_configuration() {
    let plan = validate_project(false, false, false, true, &load_config(&None), true, false);
    assert_eq!(plan.len(), 3);
    match plan.last().unwrap() {
        Step::Halt(e) => {
            assert_eq!(e.kind, ErrorKind::ConfigMissing);
            assert_eq!(e.message, "meshstack.yaml not found.");
        }
        other => panic!("expected a planned failure, got {:?}", other),
    }
    let invalid = validate_project(true, false, true, false, &load_config(&Some("a: b: c".to_string())), true, false);
    match invalid.last().unwrap() {
        Step::Halt(e) => {
            assert_eq!(e.kind, ErrorKind::ConfigInvalid);
            assert!(e.message.contains("mapping values are not allowed in this context"));
        }
        other => panic!("expected a planned failure, got {:?}", other),
    }
}

#[test]
fn validation_of_single_aspects() {
    let missing = load_config(&None);
    let ci = validate_project(false, false, true, false, &missing, true, false);
    assert_eq!(
        said(&ci),
        vec![
            "Validating project...",
            "Validating CI/CD manifests...",
            "GitHub Actions workflows directory found.",
            "ArgoCD manifests validation (placeholder): No issues found.",
        ]
    );
    let cluster = validate_project(false, true, false, false, &missing, true, true);
    assert_eq!(calls(&cluster), vec!["preview kubectl cluster-info --context current-context"]);
    let nothing = validate_project(false, false, false, false, &missing, true, false);
    assert_eq!(said(&nothing), vec!["Validating project..."]);
}
