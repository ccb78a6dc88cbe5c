use meshstack::config::MeshstackConfig;
use meshstack::discovery::{DirEntry, ServicesRoot};
use meshstack::error::ErrorKind;
use meshstack::planner::{plan_deploy_command, plan_destroy_command, plan_install_command};
use meshstack::preview::{plan_bootstrap_command, plan_command, plan_generate_command, plan_update_command};

fn args(list: &[&str]) -> Vec<String> {
    list.iter().map(|s| s.to_string()).collect()
}

fn config(language: &str) -> Option<MeshstackConfig> {
    Some(MeshstackConfig {
        project_name: "my-app".to_string(),
        language: language.to_string(),
        service_mesh: "istio".to_string(),
        ci_cd: "github".to_string(),
    })
}

fn dir(name: &str) -> DirEntry {
    DirEntry { name: name.to_string(), is_dir: true, has_dockerfile: true, has_chart: true }
}

fn has(lines: &[String], part: &str) -> bool {
    lines.iter().any(|l| l.contains(part))
}

#[test]
fn test_plan_command_install() {
    let lines = plan_command("install", false, &args(&["--component", "istio"]), &None, &ServicesRoot::Absent).unwrap();
    assert_eq!(
        lines,
        vec![
            "\u{1F4CB} Planning execution of 'install' command...",
            "\n\u{1F527} Planning 'install' command execution:",
            "\u{1F4E6} Components that would be installed:",
            "  \u{2022} istio (from chart: istio/istio)",
            "\u{1F3AF} Target Kubernetes context: current-context",
            "\n\u{26A0}\u{FE0F}  Prerequisites:",
            "  \u{2022} Helm must be installed and available in PATH",
            "  \u{2022} Kubernetes cluster must be accessible",
            "  \u{2022} Required Helm repositories must be added",
            "\n\u{2705} Planning completed successfully!",
            "\u{1F4A1} To execute the planned changes, run: meshstack install --component istio",
        ]
    );
}

#[test]
fn test_plan_command_verbose() {
    let lines =
        plan_command("install", true, &args(&["--verbose", "--component", "prometheus"]), &None, &ServicesRoot::Absent)
            .unwrap();
    assert!(has(&lines, "Planning execution of 'install' command..."));
    assert!(has(&lines, "Verbose mode enabled - showing detailed planning information"));
    assert!(has(&lines, "- Helm command: helm install prometheus prometheus-community/prometheus"));
    assert!(has(&lines, "Planning completed successfully!"));
}

#[test]
fn test_plan_command_invalid_command() {
    let e = plan_command("invalid-command", false, &args(&[]), &None, &ServicesRoot::Absent).unwrap_err();
    assert_eq!(e.kind, ErrorKind::UnknownTarget);
    assert_eq!(
        e.message,
        "Unknown command 'invalid-command' for planning. Supported commands: install, deploy, destroy, update, bootstrap, generate"
    );
}

#[test]
fn preview_of_install_fails_as_install_does() {
    let e = plan_install_command(&args(&["--component", "nonexistent"]), true).unwrap_err();
    assert_eq!(e.kind, ErrorKind::UnknownTarget);
    assert_eq!(
        e.message,
        "Unknown component: nonexistent. Valid components are: istio, prometheus, grafana, cert-manager, nginx-ingress, vault"
    );
    let direct = meshstack::install::install_component(
        &Some("nonexistent".to_string()),
        &None,
        &meshstack::config::MeshstackContext { config: None, kube_context: None, dry_run: false },
        true,
    )
    .unwrap_err();
    assert_eq!(direct.kind, e.kind);
    assert_eq!(direct.message, e.message);
    let custom = plan_install_command(&args(&["-p", "custom"]), false).unwrap_err();
    assert_eq!(custom.kind, ErrorKind::NotImplemented);
    let via = plan_command("install", false, &args(&["-c", "nonexistent"]), &None, &ServicesRoot::Absent).unwrap_err();
    assert_eq!(via.message, e.message);
}

#[test]
fn install_preview_shows_the_resolved_command() {
    let lines = plan_install_command(&args(&["-c", "vault", "-p", "prod", "--context", "prod-ctx"]), true).unwrap();
    assert_eq!(
        lines,
        vec![
            "\n\u{1F527} Planning 'install' command execution:",
            "\u{1F4E6} Components that would be installed:",
            "  \u{2022} vault (from chart: hashicorp/vault)",
            "    - Helm command: helm install vault hashicorp/vault --kube-context prod-ctx --values prod-values.yaml",
            "    - Profile: prod (values file: prod-values.yaml)",
            "    - Kubernetes context: prod-ctx",
            "\u{1F3AF} Profile: prod",
            "\u{1F3AF} Target Kubernetes context: prod-ctx",
            "\n\u{26A0}\u{FE0F}  Prerequisites:",
            "  \u{2022} Helm must be installed and available in PATH",
            "  \u{2022} Kubernetes cluster must be accessible",
            "  \u{2022} Required Helm repositories must be added",
        ]
    );
}

#[test]
fn install_preview_defaults_to_five_components() {
    let lines = plan_install_command(&args(&[]), false).unwrap();
    let listed: Vec<&String> = lines.iter().filter(|l| l.contains("(from chart: ")).collect();
    assert_eq!(listed.len(), 5);
    assert_eq!(listed[0], "  \u{2022} istio (from chart: istio/istio)");
    assert_eq!(listed[4], "  \u{2022} nginx-ingress (from chart: ingress-nginx/ingress-nginx)");
    assert!(!has(&lines, "vault"));
}

#[test]
fn a_flag_in_last_place_takes_no_value_and_values_are_no_flags() {
    let lines = plan_install_command(&args(&["--component", "istio", "--profile"]), false).unwrap();
    assert!(!has(&lines, "Profile:"));
    let swapped = plan_install_command(&args(&["--context", "--component", "grafana"]), false).unwrap();
    assert!(has(&swapped, "Target Kubernetes context: --component"));
    assert_eq!(swapped.iter().filter(|l| l.contains("(from chart: ")).count(), 5);
    let last = plan_install_command(&args(&["-c", "istio", "-c", "vault"]), false).unwrap();
    assert!(has(&last, "\u{2022} vault (from chart: hashicorp/vault)"));
    assert!(!has(&last, "istio"));
}

#[test]
fn test_plan_command_deploy() {
    let root = ServicesRoot::Present(vec![dir("test-service")]);
    let lines =
        plan_command("deploy", false, &args(&["--service", "test-service", "--build"]), &config("rust"), &root).unwrap();
    for part in [
        "Planning execution of 'deploy' command...",
        "Planning 'deploy' command execution:",
        "Services that would be deployed:",
        "\u{2022} test-service",
        "Deployment steps that would be executed:",
        "1. Build Docker images for services",
        "Planning completed successfully!",
    ] {
        assert!(has(&lines, part), "missing {:?}", part);
    }
    assert!(!has(&lines, "2. Push Docker images to registry"));
    assert_eq!(
        lines.last().unwrap(),
        "\u{1F4A1} To execute the planned changes, run: meshstack deploy --service test-service --build"
    );
}

#[test]
fn deploy_preview_details_each_command() {
    let root = ServicesRoot::Present(vec![dir("web"), dir("api")]);
    let lines = plan_deploy_command(
        &args(&["--build", "--push", "-e", "staging", "--context", "k"]),
        true,
        &config("generic"),
        &root,
    )
    .unwrap();
    assert_eq!(
        lines[..10],
        [
            "\n\u{1F680} Planning 'deploy' command execution:",
            "\u{1F3AF} Services that would be deployed:",
            "  \u{2022} api",
            "    - Docker build: docker build -t meshstack/api:latest services/api",
            "    - Docker push: docker push meshstack/api:latest",
            "    - Helm deploy: helm upgrade --install meshstack-api services/api --kube-context k --values staging-values.yaml",
            "  \u{2022} web",
            "    - Docker build: docker build -t meshstack/web:latest services/web",
            "    - Docker push: docker push meshstack/web:latest",
            "    - Helm deploy: helm upgrade --install meshstack-web services/web --kube-context k --values staging-values.yaml",
        ]
    );
    assert!(has(&lines, "\u{1F30D} Environment: staging (values file: staging-values.yaml)"));
    assert!(has(&lines, "  \u{2022} Docker registry credentials must be configured"));
}

#[test]
fn deploy_preview_is_refused_as_deploy_is() {
    let root = ServicesRoot::Present(vec![dir("api")]);
    let e = plan_deploy_command(&args(&[]), false, &None, &root).unwrap_err();
    assert_eq!(e.kind, ErrorKind::ConfigMissing);
    let e = plan_deploy_command(&args(&["--env", "qa"]), false, &config("go"), &root).unwrap_err();
    assert_eq!(e.message, "Unknown environment: qa. Valid environments are: dev, prod, staging");
    let e = plan_deploy_command(&args(&[]), false, &config("go"), &ServicesRoot::Absent).unwrap_err();
    assert_eq!(e.kind, ErrorKind::PreconditionFailed);
}

#[test]
fn deploy_preview_of_an_empty_root() {
    let lines = plan_deploy_command(&args(&[]), true, &config("go"), &ServicesRoot::Present(vec![])).unwrap();
    assert_eq!(
        lines,
        vec!["\n\u{1F680} Planning 'deploy' command execution:", "\u{274C} No services found to deploy"]
    );
}

#[test]
fn test_plan_command_destroy() {
    let lines =
        plan_command("destroy", false, &args(&["--service", "my-service"]), &None, &ServicesRoot::Absent).unwrap();
    for part in [
        "Planning execution of 'destroy' command...",
        "Planning 'destroy' command execution:",
        "Resources that would be destroyed:",
        "\u{2022} Service: my-service (Helm release: meshstack-my-service)",
        "DANGER ZONE:",
        "Planning completed successfully!",
    ] {
        assert!(has(&lines, part), "missing {:?}", part);
    }
}

#[test]
fn destroy_preview_of_everything() {
    let root = ServicesRoot::Present(vec![dir("api")]);
    let lines = plan_destroy_command(&args(&["--all", "-c", "vault", "--context", "k"]), true, &root).unwrap();
    for part in [
        "  \u{2022} Component: vault (Helm release: vault)",
        "    - Command: helm uninstall vault --kube-context k",
        "  \u{2022} All infrastructure components:",
        "    - nginx-ingress",
        "      Command: helm uninstall nginx-ingress --kube-context k",
        "  \u{2022} All application services:",
        "    - api (Helm release: meshstack-api)",
        "      Command: helm uninstall meshstack-api --kube-context k",
        "  \u{2022} Local project files (with --all flag):",
        "    - provision/ directory",
        "\u{1F3AF} Target Kubernetes context: k",
    ] {
        assert!(lines.iter().any(|l| l == part), "missing {:?}", part);
    }
    let e = plan_destroy_command(&args(&["--component", "redis"]), false, &root).unwrap_err();
    assert_eq!(e.kind, ErrorKind::UnknownTarget);
    let full = plan_destroy_command(&args(&["--full"]), false, &root).unwrap();
    assert!(!has(&full, "Local project files"));
    assert_eq!(full.iter().filter(|l| l.starts_with("    - ")).count(), 7);
}

#[test]
fn test_plan_command_update() {
    let lines = plan_command("update", false, &args(&["--check"]), &config("rust"), &ServicesRoot::Absent).unwrap();
    for part in [
        "Planning execution of 'update' command...",
        "Planning 'update' command execution:",
        "Update operations that would be performed:",
        "\u{2022} Check for available updates",
        "Prerequisites:",
        "Planning completed successfully!",
    ] {
        assert!(has(&lines, part), "missing {:?}", part);
    }
    assert!(!has(&lines, "Query Helm repositories"));
}

#[test]
fn update_preview_in_detail() {
    let lines =
        plan_update_command(&args(&["--apply", "-c", "grafana", "--infra", "--template"]), true, &config("rust")).unwrap();
    for part in [
        "  \u{2022} Apply all available updates automatically",
        "    - Regenerate templates from latest versions",
        "  \u{2022} Update specific component: grafana",
        "    - Chart: grafana/grafana",
        "    - Command: helm upgrade grafana grafana/grafana",
        "  \u{2022} Update project templates",
        "    - Refresh CI/CD configurations",
        "  \u{2022} Update infrastructure charts",
        "    - Update ingress controllers",
    ] {
        assert!(lines.iter().any(|l| l == part), "missing {:?}", part);
    }
    assert!(!has(&lines, "Default:"));
    let plain = plan_update_command(&args(&[]), true, &config("rust")).unwrap();
    assert!(has(&plain, "  \u{2022} Default: Check infrastructure and template updates"));
    assert_eq!(plan_update_command(&args(&[]), false, &None).unwrap_err().kind, ErrorKind::ConfigMissing);
    let e = plan_update_command(&args(&["-c", "redis"]), false, &config("rust")).unwrap_err();
    assert_eq!(e.kind, ErrorKind::UnknownTarget);
}

#[test]
fn test_plan_command_bootstrap() {
    let lines =
        plan_command("bootstrap", false, &args(&["--k3d", "--name", "test-cluster"]), &None, &ServicesRoot::Absent)
            .unwrap();
    for part in [
        "Planning execution of 'bootstrap' command...",
        "Planning 'bootstrap' command execution:",
        "Bootstrap operations that would be performed:",
        "\u{2022} Create local Kubernetes cluster using k3d",
        "\u{2022} Cluster name: test-cluster",
        "\u{2022} Install infrastructure components (dev profile):",
        "Prerequisites:",
        "Planning completed successfully!",
    ] {
        assert!(has(&lines, part), "missing {:?}", part);
    }
}

#[test]
fn bootstrap_preview_in_detail() {
    let lines = plan_bootstrap_command(&args(&[]), true);
    for part in [
        "  \u{2022} Create local Kubernetes cluster using kind",
        "  \u{2022} Cluster name: meshstack-dev",
        "    - Command: kind create cluster --name meshstack-dev",
        "    - Context: kind-meshstack-dev",
        "    - Set kubectl context: kubectl config use-context kind-meshstack-dev",
        "    - istio",
        "      Command: helm install istio istio/istio --kube-context kind-meshstack-dev --values dev-values.yaml",
        "  \u{2022} kind must be installed and available in PATH",
        "  \u{2022} Docker must be running (required by kind)",
        "  \u{2022} Helm must be installed",
    ] {
        assert!(lines.iter().any(|l| l == part), "missing {:?}", part);
    }
    let k3d = plan_bootstrap_command(&args(&["--k3d", "--skip-install", "-n", "c1", "--kind"]), true);
    assert!(k3d.iter().any(|l| l
        == "    - Command: k3d cluster create c1 --port 80:80@loadbalancer --port 443:443@loadbalancer"));
    assert!(k3d.iter().any(|l| l == "  \u{2022} Skip infrastructure component installation"));
    assert!(!has(&k3d, "Helm must be installed"));
}

#[test]
fn test_plan_command_generate() {
    let lines =
        plan_command("generate", false, &args(&["--service", "new-service"]), &config("rust"), &ServicesRoot::Absent)
            .unwrap();
    for part in [
        "Planning execution of 'generate' command...",
        "Planning 'generate' command execution:",
        "Generation operations that would be performed:",
        "\u{2022} Generate scaffold for service: new-service",
        "Current project configuration:",
        "\u{2022} Language: rust",
        "Planning completed successfully!",
    ] {
        assert!(has(&lines, part), "missing {:?}", part);
    }
}

#[test]
fn generate_preview_by_scope() {
    let all = plan_generate_command(&args(&["--all", "--force"]), true, &config("go")).unwrap();
    assert!(all.iter().any(|l| l == "  \u{2022} Re-generate all project scaffolds and configurations"));
    assert!(all.iter().any(|l| l == "    - Regenerate all existing service scaffolds"));
    assert!(all.iter().any(|l| l == "  \u{2022} Force overwrite existing files"));
    assert!(all.iter().any(|l| l == "  \u{2022} Existing files will be overwritten without confirmation"));
    let plain = plan_generate_command(&args(&[]), false, &config("go")).unwrap();
    assert!(plain.iter().any(|l| l == "  \u{2022} Re-generate project-level configurations"));
    assert!(plain.iter().any(|l| l == "  \u{2022} Skip existing files (use --force to overwrite)"));
    assert!(!has(&plain, "    - "));
    let service_wins = plan_generate_command(&args(&["--all", "-s", "api"]), true, &config("go")).unwrap();
    assert!(service_wins.iter().any(|l| l == "    - Create service directory: services/api"));
    assert!(!has(&service_wins, "Re-generate all"));
    let e = plan_generate_command(&args(&[]), false, &None).unwrap_err();
    assert_eq!(e.message, "meshstack.yaml not found or invalid. Run 'meshstack init' first.");
}

#[test]
fn the_invitation_is_trimmed() {
    let none = plan_command("bootstrap", false, &args(&[]), &None, &ServicesRoot::Absent).unwrap();
    assert_eq!(none.last().unwrap(), "\u{1F4A1} To execute the planned changes, run: meshstack bootstrap");
    let padded = plan_command("bootstrap", false, &args(&["--name", "x", " "]), &None, &ServicesRoot::Absent).unwrap();
    assert_eq!(padded.last().unwrap(), "\u{1F4A1} To execute the planned changes, run: meshstack bootstrap --name x");
}
