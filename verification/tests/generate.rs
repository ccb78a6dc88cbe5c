use meshstack::config::{MeshstackConfig, MeshstackContext};
use meshstack::error::ErrorKind;
use meshstack::generate::{
    generate_app_files, generate_helm_chart, generate_project_structure, generate_scaffolds,
    generate_service_scaffold, generate_values_files, should_write_file, Task,
};
use meshstack::scaffold::{
    generate_deployment_yaml, generate_dockerfile_content, generate_overlay_yaml,
    generate_service_yaml, generate_values_yaml, Environment,
};

fn config(language: &str, mesh: &str, ci: &str) -> MeshstackConfig {
    MeshstackConfig {
        project_name: "my-app".to_string(),
        language: language.to_string(),
        service_mesh: mesh.to_string(),
        ci_cd: ci.to_string(),
    }
}

fn ctx(c: MeshstackConfig) -> MeshstackContext {
    MeshstackContext { config: Some(c), kube_context: None, dry_run: false }
}

fn paths(tasks: &[Task]) -> Vec<String> {
    tasks
        .iter()
        .filter_map(|t| match t {
            Task::Write(f) => Some(f.path.clone()),
            _ => None,
        })
        .collect()
}

fn said(tasks: &[Task]) -> Vec<String> {
    tasks
        .iter()
        .filter_map(|t| match t {
            Task::Say(l) => Some(l.clone()),
            _ => None,
        })
        .collect()
}

fn strings(list: &[&str]) -> Vec<String> {
    list.iter().map(|s| s.to_string()).collect()
}

#[test]
fn dockerfile_by_language() {
    assert!(generate_dockerfile_content(&config("rust", "istio", "github")).contains("FROM rust:1.70 as builder"));
    assert!(generate_dockerfile_content(&config("python", "istio", "github")).contains("FROM python:3.11-slim"));
    assert!(generate_dockerfile_content(&config("node", "istio", "github")).starts_with("FROM node:18-alpine\n"));
    assert_eq!(
        generate_dockerfile_content(&config("javascript", "istio", "github")),
        generate_dockerfile_content(&config("node", "istio", "github"))
    );
    assert!(generate_dockerfile_content(&config("go", "istio", "github")).contains("FROM golang:1.21-alpine AS builder"));
    let generic = generate_dockerfile_content(&config("generic", "istio", "github"));
    assert!(generic.starts_with("FROM alpine:latest\n"));
    assert!(generic.ends_with("CMD [\"echo\", \"Please customize this Dockerfile for your specific application\"]\n"));
    assert_eq!(generate_dockerfile_content(&config("cobol", "istio", "github")), generic);
}

#[test]
fn deployment_names_the_service_and_the_mesh() {
    let istio = generate_deployment_yaml("api", &config("go", "istio", "github"));
    assert!(istio.starts_with("apiVersion: apps/v1\nkind: Deployment\nmetadata:\n  name: {{ include \"api.fullname\" . }}\n"));
    assert!(istio.contains("      annotations:\n        sidecar.istio.io/inject: \"true\"\n      labels:\n"));
    assert!(istio.contains("        {{- include \"api.selectorLabels\" . | nindent 8 }}"));
    let linkerd = generate_deployment_yaml("api", &config("go", "linkerd", "github"));
    assert!(linkerd.contains("      annotations:\n        linkerd.io/inject: enabled\n      labels:\n"));
    let none = generate_deployment_yaml("api", &config("go", "consul", "github"));
    assert!(none.contains("      annotations:\n      labels:\n"));
    assert!(none.ends_with("            {{- toYaml .Values.resources | nindent 12 }}\n"));
}

#[test]
fn service_and_values_name_the_service() {
    assert_eq!(
        generate_service_yaml("api"),
        "apiVersion: v1\nkind: Service\nmetadata:\n  name: {{ include \"api.fullname\" . }}\n  labels:\n    {{- include \"api.labels\" . | nindent 4 }}\nspec:\n  type: {{ .Values.service.type }}\n  ports:\n    - port: {{ .Values.service.port }}\n      targetPort: {{ .Values.service.targetPort }}\n      protocol: TCP\n      name: http\n  selector:\n    {{- include \"api.selectorLabels\" . | nindent 4 }}\n"
    );
    let values = generate_values_yaml("api", &config("go", "istio", "github"));
    assert!(values.starts_with("# Default values for api.\nreplicaCount: 1\n\nimage:\n  repository: meshstack/api\n"));
    assert!(values.ends_with("nodeSelector: {}\n\ntolerations: []\n\naffinity: {}\n"));
}

#[test]
fn overlays_differ_for_production() {
    let prod = generate_overlay_yaml(Environment::Production);
    assert!(prod.starts_with("# PRODUCTION environment values\nenvironment: production\n"));
    assert!(prod.contains("  limits:\n    cpu: 1000m\n    memory: 1Gi\n  requests:\n    cpu: 500m\n    memory: 512Mi\n"));
    assert!(prod.contains("replicaCount: 3\n"));
    let dev = generate_overlay_yaml(Environment::Development);
    assert!(dev.starts_with("# DEVELOPMENT environment values\nenvironment: development\n"));
    assert!(dev.contains("  limits:\n    cpu: 500m\n    memory: 512Mi\n  requests:\n    cpu: 250m\n    memory: 256Mi\n"));
    assert!(dev.contains("# Replica count for development environment\nreplicaCount: 1\n"));
    assert!(generate_overlay_yaml(Environment::Staging).contains("environment: staging\n"));
    let files: Vec<String> = generate_values_files().into_iter().map(|f| f.path).collect();
    assert_eq!(files, vec!["dev-values.yaml", "prod-values.yaml", "staging-values.yaml"]);
}

#[test]
fn a_file_is_written_when_new_or_forced() {
    assert!(should_write_file(false, false));
    assert!(should_write_file(false, true));
    assert!(should_write_file(true, true));
    assert!(!should_write_file(true, false));
}

#[test]
fn chart_and_starter_files() {
    let c = config("rust", "istio", "github");
    let chart: Vec<String> = generate_helm_chart("api", &c).into_iter().map(|f| f.path).collect();
    assert_eq!(
        chart,
        vec![
            "services/api/Chart.yaml",
            "services/api/templates/deployment.yaml",
            "services/api/templates/service.yaml",
            "services/api/values.yaml"
        ]
    );
    let chart_yaml = &generate_helm_chart("api", &c)[0].content;
    assert_eq!(
        chart_yaml,
        "apiVersion: v2\nname: api\ndescription: A Helm chart for api service\ntype: application\nversion: 0.1.0\nappVersion: \"1.0.0\"\n"
    );
    let rust = generate_app_files("api", &c);
    assert_eq!(rust[0].path, "services/api/Cargo.toml");
    assert!(rust[0].content.starts_with("[package]\nname = \"api\"\n"));
    assert_eq!(rust[1].path, "services/api/src/main.rs");
    let node = generate_app_files("web", &config("javascript", "istio", "github"));
    assert_eq!(node[0].path, "services/web/package.json");
    assert!(node[0].content.starts_with("{\n  \"name\": \"web\",\n"));
    assert_eq!(node[1].path, "services/web/index.js");
    assert!(generate_app_files("x", &config("python", "istio", "github")).is_empty());
    assert!(generate_app_files("x", &config("generic", "istio", "github")).is_empty());
}

#[test]
fn existing_files_are_kept_unless_forced() {
    let c = config("rust", "istio", "github");
    let existing = strings(&["services/api/Dockerfile", "services/api/values.yaml", "services/api"]);
    let kept: Vec<String> = generate_service_scaffold("api", &c, false, &existing).into_iter().map(|f| f.path).collect();
    assert_eq!(
        kept,
        vec![
            "services/api/Chart.yaml",
            "services/api/templates/deployment.yaml",
            "services/api/templates/service.yaml",
            "services/api/Cargo.toml",
            "services/api/src/main.rs"
        ]
    );
    let forced = generate_service_scaffold("api", &c, true, &existing);
    assert_eq!(forced.len(), 7);
    assert_eq!(forced[0].path, "services/api/Dockerfile");
    assert!(forced[0].content.contains("FROM rust:1.70 as builder"));
}

#[test]
fn project_structure_follows_the_ci_system() {
    let github = generate_project_structure(&config("go", "linkerd", "github"), "yaml".to_string(), false, &vec![]);
    let names: Vec<&str> = github.iter().map(|f| f.path.as_str()).collect();
    assert_eq!(
        names,
        vec!["meshstack.yaml", ".github/workflows/meshstack.yml", "dev-values.yaml", "prod-values.yaml", "staging-values.yaml"]
    );
    assert_eq!(github[0].content, "yaml");
    assert!(github[1].content.contains("    - name: Deploy to linkerd cluster\n"));
    assert!(github[1].content.contains("        registry: ${{ secrets.REGISTRY_URL }}\n"));
    let argo = generate_project_structure(&config("go", "istio", "argo"), "y".to_string(), false, &strings(&["meshstack.yaml"]));
    assert_eq!(argo[0].path, "argocd/application.yaml");
    assert!(argo[0].content.contains("metadata:\n  name: my-app\n  namespace: argocd\n"));
    assert_eq!(argo.len(), 4);
    let other = generate_project_structure(&config("go", "istio", "jenkins"), "y".to_string(), false, &vec![]);
    assert_eq!(other.len(), 4);
}

#[test]
fn generating_one_service() {
    let tasks = generate_scaffolds(
        &Some("my-service".to_string()),
        false,
        false,
        &ctx(config("generic", "istio", "github")),
        &vec![],
        &vec![],
        true,
    )
    .unwrap();
    assert!(matches!(&tasks[2], Task::MakeDir(p) if p == "services/my-service"));
    assert_eq!(
        said(&tasks),
        vec![
            "\u{1F527} Generating scaffolds and configuration files...",
            "Generating scaffold for service: my-service",
            "Created service directory: services/my-service",
            "\n\u{1F4CB} Generated/Updated Files:",
            "  \u{2022} services/my-service/Dockerfile",
            "  \u{2022} services/my-service/Chart.yaml",
            "  \u{2022} services/my-service/templates/deployment.yaml",
            "  \u{2022} services/my-service/templates/service.yaml",
            "  \u{2022} services/my-service/values.yaml",
            "\n\u{2705} Successfully generated 5 files!",
        ]
    );
    assert_eq!(paths(&tasks).len(), 5);
}

#[test]
fn generating_everything() {
    let existing = strings(&["services", "services/existing-service", "meshstack.yaml"]);
    let tasks = generate_scaffolds(
        &None,
        true,
        false,
        &ctx(config("python", "istio", "gitlab")),
        &strings(&["existing-service"]),
        &existing,
        true,
    )
    .unwrap();
    let lines = said(&tasks);
    for expected in [
        "Re-generating all project scaffolds and configurations...",
        "Created directory: provision",
        "Unknown CI/CD system: gitlab. Skipping CI/CD generation.",
        "Re-generating scaffold for existing service: existing-service",
        "Language-specific files not implemented for: python",
        "  \u{2022} base templates",
        "\n\u{2705} Successfully generated 9 files!",
    ] {
        assert!(lines.contains(&expected.to_string()), "missing {:?}", expected);
    }
    assert!(!lines.contains(&"Created directory: services".to_string()));
    assert_eq!(tasks.iter().filter(|t| matches!(t, Task::CopyTemplates)).count(), 1);
    assert_eq!(
        paths(&tasks),
        vec![
            "dev-values.yaml",
            "prod-values.yaml",
            "staging-values.yaml",
            "services/existing-service/Dockerfile",
            "services/existing-service/Chart.yaml",
            "services/existing-service/templates/deployment.yaml",
            "services/existing-service/templates/service.yaml",
            "services/existing-service/values.yaml"
        ]
    );
}

#[test]
fn generating_the_project_writes_its_configuration() {
    let tasks = generate_scaffolds(&None, false, true, &ctx(config("go", "istio", "github")), &strings(&["ignored"]), &vec![], false)
        .unwrap();
    let first = tasks.iter().find_map(|t| match t {
        Task::Write(f) => Some(f),
        _ => None,
    });
    let f = first.unwrap();
    assert_eq!(f.path, "meshstack.yaml");
    assert_eq!(f.content, "project_name: my-app\nlanguage: go\nservice_mesh: istio\nci_cd: github\n");
    assert!(said(&tasks).contains(&"Re-generating project-level configurations...".to_string()));
    assert!(!said(&tasks).iter().any(|l| l.contains("ignored")));
    assert!(said(&tasks).contains(&"\n\u{2705} Successfully generated 5 files!".to_string()));
}

#[test]
fn generating_nothing_new_says_so() {
    let existing = strings(&[
        "services",
        "provision",
        "meshstack.yaml",
        ".github/workflows/meshstack.yml",
        "dev-values.yaml",
        "prod-values.yaml",
        "staging-values.yaml",
    ]);
    let tasks = generate_scaffolds(&None, false, false, &ctx(config("go", "istio", "github")), &vec![], &existing, false).unwrap();
    assert_eq!(
        said(&tasks),
        vec![
            "\u{1F527} Generating scaffolds and configuration files...",
            "Re-generating project-level configurations...",
            "\u{2705} No files needed to be generated or updated.",
        ]
    );
    assert_eq!(tasks.len(), 3);
}

#[test]
fn test_generate_command_no_config() {
    let none = MeshstackContext { config: None, kube_context: None, dry_run: false };
    let e = generate_scaffolds(&Some("test-service".to_string()), false, false, &none, &vec![], &vec![], true).unwrap_err();
    assert_eq!(e.kind, ErrorKind::ConfigMissing);
    assert_eq!(e.message, "meshstack.yaml not found or invalid. Run 'meshstack init' first.");
}
