use meshstack::config::{MeshstackConfig, MeshstackContext};
use meshstack::deploy::deploy_service;
use meshstack::discovery::{find_artifacts, list_services, DirEntry, ServicesRoot};
use meshstack::error::ErrorKind;
use meshstack::plan::Step;

fn config(language: &str) -> MeshstackConfig {
    MeshstackConfig {
        project_name: "my-app".to_string(),
        language: language.to_string(),
        service_mesh: "istio".to_string(),
        ci_cd: "github".to_string(),
    }
}

fn ctx(kube: Option<&str>, dry_run: bool) -> MeshstackContext {
    MeshstackContext { config: Some(config("generic")), kube_context: kube.map(|s| s.to_string()), dry_run }
}

fn dir(name: &str, dockerfile: bool, chart: bool) -> DirEntry {
    DirEntry { name: name.to_string(), is_dir: true, has_dockerfile: dockerfile, has_chart: chart }
}

fn file(name: &str) -> DirEntry {
    DirEntry { name: name.to_string(), is_dir: false, has_dockerfile: false, has_chart: false }
}

fn said(plan: &[Step]) -> Vec<String> {
    plan.iter()
        .filter_map(|s| match s {
            Step::Say(line) => Some(line.clone()),
            _ => None,
        })
        .collect()
}

fn calls(plan: &[Step]) -> Vec<String> {
    plan.iter()
        .filter_map(|s| match s {
            Step::Spawn { call, .. } => Some(format!("run {}", call.render())),
            Step::Preview(call) => Some(format!("preview {}", call.render())),
            Step::Check { call, .. } => Some(format!("check {}", call.render())),
            _ => None,
        })
        .collect()
}

#[test]
fn services_are_the_directories_in_name_order() {
    let root = ServicesRoot::Present(vec![
        dir("web", true, true),
        file("README.md"),
        dir("api", true, true),
        dir("Worker", false, false),
        dir("api-gateway", true, false),
        file("aaa"),
    ]);
    assert_eq!(list_services(&root).unwrap(), vec!["Worker", "api", "api-gateway", "web"]);
}

#[test]
fn names_are_ordered_by_their_bytes() {
    let root = ServicesRoot::Present(vec![dir("b", false, false), dir("a", false, false), dir("é", false, false), dir("ab", false, false), dir("", false, false), dir("a", false, false)]);
    assert_eq!(list_services(&root).unwrap(), vec!["", "a", "a", "ab", "b", "é"]);
}

#[test]
fn a_root_without_directories_lists_nothing() {
    assert!(list_services(&ServicesRoot::Present(vec![])).unwrap().is_empty());
    assert!(list_services(&ServicesRoot::Present(vec![file("notes.txt")])).unwrap().is_empty());
}

#[test]
fn a_missing_root_is_a_failed_precondition() {
    let e = list_services(&ServicesRoot::Absent).unwrap_err();
    assert_eq!(e.kind, ErrorKind::PreconditionFailed);
    assert_eq!(e.message, "Services directory not found. Please run `meshstack init` first.");
}

#[test]
fn artifacts_are_those_of_the_directory_of_that_name() {
    let items = vec![file("api"), dir("api", true, false), dir("api", false, true), dir("web", false, true)];
    assert_eq!(find_artifacts(&items, "api"), (true, false));
    assert_eq!(find_artifacts(&items, "web"), (false, true));
    assert_eq!(find_artifacts(&items, "nope"), (false, false));
}

#[test]
fn deploy_on_an_empty_root_does_nothing() {
    let d = deploy_service(&None, &None, true, true, &ctx(None, false), &ServicesRoot::Present(vec![]), true).unwrap();
    assert!(d.services.is_empty());
    assert!(calls(&d.steps).is_empty());
    assert_eq!(said(&d.steps), vec!["Deploying service...", "Deploying all services.", "No services found to deploy."]);
}

#[test]
fn test_deploy_command_services_dir_not_found() {
    let e = deploy_service(&None, &None, false, false, &ctx(None, false), &ServicesRoot::Absent, true).unwrap_err();
    assert_eq!(e.kind, ErrorKind::PreconditionFailed);
    assert_eq!(e.message, "Services directory not found. Please run `meshstack init` first.");
}

#[test]
fn test_deploy_command_meshstack_yaml_not_found() {
    let no_config = MeshstackContext { config: None, kube_context: None, dry_run: false };
    let root = ServicesRoot::Present(vec![dir("my-service", true, true)]);
    let e = deploy_service(&None, &None, false, false, &no_config, &root, true).unwrap_err();
    assert_eq!(e.kind, ErrorKind::ConfigMissing);
    assert_eq!(e.message, "meshstack.yaml not found or invalid. Run 'meshstack init' first.");
}

#[test]
fn test_deploy_command_invalid_env() {
    let root = ServicesRoot::Present(vec![dir("my-service", true, true)]);
    let e = deploy_service(&None, &Some("invalid-env".to_string()), false, false, &ctx(None, false), &root, true)
        .unwrap_err();
    assert_eq!(e.kind, ErrorKind::UnknownTarget);
    assert_eq!(e.message, "Unknown environment: invalid-env. Valid environments are: dev, prod, staging");
}

#[test]
fn custom_environment_is_not_implemented() {
    let root = ServicesRoot::Present(vec![dir("my-service", true, true)]);
    let e = deploy_service(&None, &Some("custom".to_string()), false, false, &ctx(None, true), &root, true).unwrap_err();
    assert_eq!(e.kind, ErrorKind::NotImplemented);
}

#[test]
fn deploy_all_builds_pushes_and_upgrades_each_service_in_order() {
    let root = ServicesRoot::Present(vec![dir("web", true, true), dir("api", true, true)]);
    let d = deploy_service(&None, &Some("prod".to_string()), true, true, &ctx(Some("k"), false), &root, true).unwrap();
    assert_eq!(d.services, vec!["api", "web"]);
    assert_eq!(
        calls(&d.steps),
        vec![
            "run docker build -t meshstack/api:latest services/api",
            "run docker push meshstack/api:latest",
            "run helm upgrade --install meshstack-api services/api --kube-context k --values prod-values.yaml",
            "run docker build -t meshstack/web:latest services/web",
            "run docker push meshstack/web:latest",
            "run helm upgrade --install meshstack-web services/web --kube-context k --values prod-values.yaml",
        ]
    );
    assert_eq!(
        said(&d.steps),
        vec![
            "Deploying service...",
            "Applying environment profile: prod",
            "Targeting Kubernetes context: k",
            "Deploying all services.",
            "\n--- Deploying service: api ---",
            "Building Docker image for api (language: generic)...",
            "Pushing Docker image for api to registry...",
            "Deploying Helm chart for service: api...",
            "\n--- Deploying service: web ---",
            "Building Docker image for web (language: generic)...",
            "Pushing Docker image for web to registry...",
            "Deploying Helm chart for service: web...",
            "\nDeployment process completed.",
        ]
    );
    match &d.steps[6] {
        Step::Spawn { done, .. } => assert_eq!(done, "Successfully built Docker image: meshstack/api:latest"),
        other => panic!("expected the build, got {:?}", other),
    }
}

#[test]
fn deploy_without_build_or_push_only_upgrades() {
    let root = ServicesRoot::Present(vec![dir("my-service", false, true)]);
    let d = deploy_service(&Some("my-service".to_string()), &None, false, false, &ctx(None, false), &root, true).unwrap();
    assert_eq!(d.services, vec!["my-service"]);
    assert_eq!(calls(&d.steps), vec!["run helm upgrade --install meshstack-my-service services/my-service"]);
    assert!(said(&d.steps).contains(&"Deploying specific service: my-service".to_string()));
}

#[test]
fn test_deploy_command_dockerfile_not_found() {
    let root = ServicesRoot::Present(vec![dir("api", true, true), dir("my-service", false, true), dir("web", true, true)]);
    let d = deploy_service(&None, &None, true, false, &ctx(None, false), &root, true).unwrap();
    match d.steps.last().unwrap() {
        Step::Halt(e) => {
            assert_eq!(e.kind, ErrorKind::ServiceArtifactMissing);
            assert_eq!(e.message, "Dockerfile not found in services/my-service.");
        }
        other => panic!("expected a planned failure, got {:?}", other),
    }
    assert_eq!(
        calls(&d.steps),
        vec![
            "run docker build -t meshstack/api:latest services/api",
            "run helm upgrade --install meshstack-api services/api",
        ]
    );
    assert!(!said(&d.steps).iter().any(|l| l.contains("web")));
    assert!(!said(&d.steps).contains(&"\nDeployment process completed.".to_string()));
}

#[test]
fn a_service_without_chart_cannot_be_deployed() {
    let root = ServicesRoot::Present(vec![dir("api", true, false)]);
    let d = deploy_service(&Some("api".to_string()), &None, true, true, &ctx(None, true), &root, true).unwrap();
    assert_eq!(
        calls(&d.steps),
        vec!["preview docker build -t meshstack/api:latest services/api", "preview docker push meshstack/api:latest"]
    );
    match d.steps.last().unwrap() {
        Step::Halt(e) => assert_eq!(e.message, "Helm chart (Chart.yaml) not found in services/api."),
        other => panic!("expected a planned failure, got {:?}", other),
    }
}

#[test]
fn a_named_service_without_directory_has_no_artifacts() {
    let root = ServicesRoot::Present(vec![dir("api", true, true)]);
    let d = deploy_service(&Some("ghost".to_string()), &None, false, false, &ctx(None, false), &root, true).unwrap();
    assert!(calls(&d.steps).is_empty());
    match d.steps.last().unwrap() {
        Step::Halt(e) => assert_eq!(e.message, "Helm chart (Chart.yaml) not found in services/ghost."),
        other => panic!("expected a planned failure, got {:?}", other),
    }
}

#[test]
fn dry_run_deploy_previews_every_call() {
    let root = ServicesRoot::Present(vec![dir("api", true, true)]);
    let d = deploy_service(&None, &Some("staging".to_string()), true, true, &ctx(None, true), &root, false).unwrap();
    assert_eq!(
        calls(&d.steps),
        vec![
            "preview docker build -t meshstack/api:latest services/api",
            "preview docker push meshstack/api:latest",
            "preview helm upgrade --install meshstack-api services/api",
        ]
    );
    assert!(said(&d.steps)
        .contains(&"Warning: Environment values file staging-values.yaml not found. Skipping.".to_string()));
}

#[test]
fn the_language_of_the_project_is_announced() {
    let c = MeshstackContext { config: Some(config("rust")), kube_context: None, dry_run: true };
    let root = ServicesRoot::Present(vec![dir("api", true, true)]);
    let d = deploy_service(&None, &None, true, false, &c, &root, true).unwrap();
    assert!(said(&d.steps).contains(&"Building Docker image for api (language: rust)...".to_string()));
}
