use meshstack::command::{context_of, image_of, path_of, release_of, Invocation, Tool};

fn ctx(s: &str) -> Option<String> {
    Some(s.to_string())
}

#[test]
fn helm_install_orders_its_flags() {
    let c = Invocation::helm_install("istio", "istio/istio", true, &ctx("prod-ctx"), &ctx("prod-values.yaml"));
    assert_eq!(c.tool, Tool::Helm);
    assert_eq!(
        c.args,
        vec!["install", "istio", "istio/istio", "--dry-run", "--kube-context", "prod-ctx", "--values", "prod-values.yaml"]
    );
    assert_eq!(c.label, "helm install istio");
    let plain = Invocation::helm_install("vault", "hashicorp/vault", false, &None, &None);
    assert_eq!(plain.args, vec!["install", "vault", "hashicorp/vault"]);
    let values_only = Invocation::helm_install("grafana", "grafana/grafana", false, &None, &ctx("dev-values.yaml"));
    assert_eq!(values_only.args, vec!["install", "grafana", "grafana/grafana", "--values", "dev-values.yaml"]);
}

#[test]
fn helm_upgrade_install_orders_its_flags() {
    let c = Invocation::helm_upgrade_install("meshstack-api", "services/api", &ctx("k"), &ctx("staging-values.yaml"));
    assert_eq!(
        c.args,
        vec!["upgrade", "--install", "meshstack-api", "services/api", "--kube-context", "k", "--values", "staging-values.yaml"]
    );
    assert_eq!(c.label, "helm upgrade --install meshstack-api");
    let plain = Invocation::helm_upgrade_install("meshstack-api", "services/api", &None, &None);
    assert_eq!(plain.args, vec!["upgrade", "--install", "meshstack-api", "services/api"]);
}

#[test]
fn helm_uninstall_and_upgrade_version() {
    let u = Invocation::helm_uninstall("meshstack-api", &ctx("k"));
    assert_eq!(u.args, vec!["uninstall", "meshstack-api", "--kube-context", "k"]);
    assert_eq!(u.label, "helm uninstall meshstack-api");
    assert_eq!(Invocation::helm_uninstall("istio", &None).args, vec!["uninstall", "istio"]);
    let v = Invocation::helm_upgrade_version("istio", "istio/istio", "1.1.0", &None);
    assert_eq!(v.args, vec!["upgrade", "istio", "istio/istio", "--version", "1.1.0"]);
    assert_eq!(v.label, "helm upgrade istio");
    let w = Invocation::helm_upgrade_version("istio", "istio/istio", "1.1.0", &ctx("k"));
    assert_eq!(w.args, vec!["upgrade", "istio", "istio/istio", "--version", "1.1.0", "--kube-context", "k"]);
}

#[test]
fn helm_queries() {
    assert_eq!(Invocation::helm_list("istio").args, vec!["list", "--filter", "istio", "--output", "json"]);
    assert_eq!(
        Invocation::helm_search("istio/istio").args,
        vec!["search", "repo", "istio/istio", "--output", "json"]
    );
    let v = Invocation::version(Tool::Helm);
    assert_eq!(v.args, vec!["version"]);
    assert_eq!(v.label, "helm version");
    assert_eq!(Invocation::version(Tool::K3d).label, "k3d version");
}

#[test]
fn docker_calls_name_the_image() {
    let b = Invocation::docker_build("api");
    assert_eq!(b.tool, Tool::Docker);
    assert_eq!(b.args, vec!["build", "-t", "meshstack/api:latest", "services/api"]);
    assert_eq!(b.label, "docker build");
    let p = Invocation::docker_push("api");
    assert_eq!(p.args, vec!["push", "meshstack/api:latest"]);
    assert_eq!(p.label, "docker push");
}

#[test]
fn cluster_client_calls() {
    let i = Invocation::cluster_info("current-context");
    assert_eq!(i.tool, Tool::Kubectl);
    assert_eq!(i.args, vec!["cluster-info", "--context", "current-context"]);
    assert_eq!(i.label, "kubectl cluster-info");
    let u = Invocation::use_context("kind-dev");
    assert_eq!(u.args, vec!["config", "use-context", "kind-dev"]);
    assert_eq!(u.label, "kubectl config use-context");
}

#[test]
fn provisioner_calls() {
    let kind = Invocation::create_cluster(false, "dev");
    assert_eq!(kind.tool, Tool::Kind);
    assert_eq!(kind.args, vec!["create", "cluster", "--name", "dev"]);
    let k3d = Invocation::create_cluster(true, "dev");
    assert_eq!(k3d.tool, Tool::K3d);
    assert_eq!(
        k3d.args,
        vec!["cluster", "create", "dev", "--port", "80:80@loadbalancer", "--port", "443:443@loadbalancer"]
    );
    assert_eq!(Invocation::list_clusters(false).args, vec!["get", "clusters"]);
    assert_eq!(Invocation::list_clusters(true).args, vec!["cluster", "list", "--output", "json"]);
    assert_eq!(Invocation::list_clusters(true).label, "k3d list clusters");
}

#[test]
fn names_are_derived_by_convention() {
    assert_eq!(release_of("api"), "meshstack-api");
    assert_eq!(image_of("api"), "meshstack/api:latest");
    assert_eq!(path_of("api"), "services/api");
    assert_eq!(context_of(Tool::Kind, "dev"), "kind-dev");
    assert_eq!(context_of(Tool::K3d, "dev"), "k3d-dev");
    assert_eq!(context_of(Tool::Helm, "dev"), "dev");
    assert_eq!(Tool::Kubectl.program(), "kubectl");
}

#[test]
fn rendering_joins_program_and_arguments() {
    let c = Invocation::helm_install("istio", "istio/istio", false, &None, &ctx("dev-values.yaml"));
    assert_eq!(c.render(), "helm install istio istio/istio --values dev-values.yaml");
    assert_eq!(
        c.preview(),
        "DRY RUN: Would execute helm command: helm install istio istio/istio --values dev-values.yaml"
    );
    let d = Invocation::docker_push("api");
    assert_eq!(d.preview(), "DRY RUN: Would execute docker command: docker push meshstack/api:latest");
    let bare = Invocation { tool: Tool::Kind, args: vec![], label: String::new() };
    assert_eq!(bare.render(), "kind ");
}
