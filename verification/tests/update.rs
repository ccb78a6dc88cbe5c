use meshstack::config::{MeshstackConfig, MeshstackContext};
use meshstack::error::ErrorKind;
use meshstack::plan::Step;
use meshstack::update::{
    check_component_updates, check_helm_chart_update, check_infrastructure_updates,
    check_template_updates, is_silent, plan_apply, release_installed, update_project,
    ChartObservation, Reply, TemplateSource, UpdateInfo, UpdateType,
};

fn config() -> MeshstackConfig {
    MeshstackConfig {
        project_name: "my-app".to_string(),
        language: "generic".to_string(),
        service_mesh: "istio".to_string(),
        ci_cd: "github".to_string(),
    }
}

fn ctx(dry_run: bool) -> MeshstackContext {
    MeshstackContext { config: Some(config()), kube_context: None, dry_run }
}

fn seen(component: &str, listing: Reply, search: Reply, current: &str, latest: &str) -> ChartObservation {
    ChartObservation {
        component: component.to_string(),
        listing,
        search,
        current_version: current.to_string(),
        latest_version: latest.to_string(),
    }
}

fn out(s: &str) -> Reply {
    Reply::Output(s.to_string())
}

fn stale(component: &str) -> ChartObservation {
    seen(component, out("[{\"name\":\"x\"}]"), out("[{\"version\":\"1.1.0\"}]"), "1.0.0", "1.1.0")
}

fn source(present: bool) -> TemplateSource {
    TemplateSource { present, current_version: "0.1.0".to_string(), latest_version: "0.1.1".to_string() }
}

fn said(plan: &[Step]) -> Vec<String> {
    plan.iter()
        .filter_map(|s| match s {
            Step::Say(line) => Some(line.clone()),
            _ => None,
        })
        .collect()
}

fn previews(plan: &[Step]) -> Vec<String> {
    plan.iter()
        .filter_map(|s| match s {
            Step::Preview(call) => Some(call.preview()),
            _ => None,
        })
        .collect()
}

#[test]
fn blank_and_empty_list_outputs_report_nothing() {
    for silent in ["", " ", "\n", "[]", "  []\n", "\t[]\u{a0}", "\u{3000}[]"] {
        assert!(is_silent(silent), "{:?}", silent);
    }
    for loud in ["[ ]", "[]x", "x[]", "[", "]", "[[]]", "[] []", "{}", "[{\"a\":1}]", "\u{200b}"] {
        assert!(!is_silent(loud), "{:?}", loud);
    }
}

#[test]
fn a_release_is_installed_when_the_listing_names_something() {
    assert!(release_installed(&out("[{\"name\":\"istio\"}]")));
    assert!(!release_installed(&out("[]")));
    assert!(!release_installed(&out("  ")));
    assert!(!release_installed(&Reply::Failed));
}

#[test]
fn an_uninstalled_component_is_not_out_of_date() {
    for listing in [Reply::Failed, out(""), out("[]\n")] {
        let v = check_helm_chart_update("istio", "istio/istio", &seen("istio", listing, out("[{}]"), "1.0.0", "1.1.0"));
        assert!(v.update.is_none());
        assert!(v.warning.is_none());
    }
}

#[test]
fn a_failing_repository_query_warns_and_gives_no_update() {
    let v = check_helm_chart_update("istio", "istio/istio", &seen("istio", out("[{}]"), Reply::Failed, "1.0.0", "1.1.0"));
    assert!(v.update.is_none());
    assert_eq!(
        v.warning.unwrap(),
        "Warning: Could not check updates for istio - repository might not be added"
    );
}

#[test]
fn differing_versions_give_a_chart_update() {
    let v = check_helm_chart_update("istio", "istio/istio", &stale("istio"));
    let u = v.update.unwrap();
    assert_eq!(u.name, "istio");
    assert_eq!(u.current_version, "1.0.0");
    assert_eq!(u.latest_version, "1.1.0");
    assert_eq!(u.update_type, UpdateType::HelmChart);
    assert_eq!(u.chart_name.as_deref(), Some("istio/istio"));
    assert!(v.warning.is_none());
}

#[test]
fn equal_versions_or_an_empty_repository_give_no_update() {
    let same = seen("istio", out("[{}]"), out("[{}]"), "1.1.0", "1.1.0");
    assert!(check_helm_chart_update("istio", "istio/istio", &same).update.is_none());
    let empty = seen("istio", out("[{}]"), out("[]"), "1.0.0", "1.1.0");
    let v = check_helm_chart_update("istio", "istio/istio", &empty);
    assert!(v.update.is_none());
    assert!(v.warning.is_none());
}

#[test]
fn test_update_command_invalid_component() {
    let e = check_component_updates("nonexistent", &vec![stale("nonexistent")]).unwrap_err();
    assert_eq!(e.kind, ErrorKind::UnknownTarget);
    assert_eq!(
        e.message,
        "Unknown component: nonexistent. Valid components are: istio, prometheus, grafana, cert-manager, nginx-ingress, vault"
    );
    let e = update_project(false, false, &Some("nonexistent".to_string()), false, false, &ctx(true), &vec![], &source(true))
        .unwrap_err();
    assert_eq!(e.kind, ErrorKind::UnknownTarget);
}

#[test]
fn component_updates_use_the_first_observation_of_that_component() {
    let observations = vec![stale("grafana"), seen("vault", out("[{}]"), out("[{}]"), "2.0", "2.1"), stale("vault")];
    let report = check_component_updates("vault", &observations).unwrap();
    assert_eq!(report.updates.len(), 1);
    assert_eq!(report.updates[0].name, "vault");
    assert_eq!(report.updates[0].latest_version, "2.1");
    assert_eq!(report.updates[0].chart_name.as_deref(), Some("hashicorp/vault"));
    let none = check_component_updates("istio", &observations).unwrap();
    assert!(none.updates.is_empty());
    assert!(none.warnings.is_empty());
}

#[test]
fn infrastructure_updates_follow_catalog_order_and_leave_vault_out() {
    let observations = vec![
        stale("vault"),
        stale("nginx-ingress"),
        seen("grafana", out("[{}]"), Reply::Failed, "1", "2"),
        stale("istio"),
        seen("prometheus", out("[]"), out("[{}]"), "1", "2"),
    ];
    let report = check_infrastructure_updates(&observations);
    let names: Vec<&str> = report.updates.iter().map(|u| u.name.as_str()).collect();
    assert_eq!(names, vec!["istio", "nginx-ingress"]);
    assert_eq!(report.updates[1].chart_name.as_deref(), Some("ingress-nginx/ingress-nginx"));
    assert_eq!(
        report.warnings,
        vec!["Warning: Could not check updates for grafana - repository might not be added"]
    );
}

#[test]
fn templates_are_stale_when_the_source_moved_on() {
    let u = check_template_updates(&config(), &source(true));
    assert_eq!(u.len(), 1);
    assert_eq!(u[0].name, "base-templates");
    assert_eq!(u[0].current_version, "0.1.0");
    assert_eq!(u[0].latest_version, "0.1.1");
    assert_eq!(u[0].update_type, UpdateType::Template);
    assert_eq!(u[0].chart_name, None);
    assert!(check_template_updates(&config(), &source(false)).is_empty());
    let current = TemplateSource { present: true, current_version: "0.1.1".to_string(), latest_version: "0.1.1".to_string() };
    assert!(check_template_updates(&config(), &current).is_empty());
}

#[test]
fn test_update_command_no_config() {
    let no_config = MeshstackContext { config: None, kube_context: None, dry_run: false };
    let e = update_project(true, false, &None, false, false, &no_config, &vec![], &source(true)).unwrap_err();
    assert_eq!(e.kind, ErrorKind::ConfigMissing);
    assert_eq!(e.message, "meshstack.yaml not found or invalid. Run 'meshstack init' first.");
}

#[test]
fn checking_lists_what_is_out_of_date() {
    let observations = vec![stale("istio"), stale("grafana")];
    let plan = update_project(true, false, &None, false, false, &ctx(false), &observations, &source(true)).unwrap();
    assert_eq!(
        said(&plan),
        vec![
            "Updating project...",
            "Checking for available updates...",
            "\n\u{1F4CB} Available Updates:",
            "  \u{2022} istio: 1.0.0 \u{2192} 1.1.0",
            "  \u{2022} grafana: 1.0.0 \u{2192} 1.1.0",
            "  \u{2022} base-templates: 0.1.0 \u{2192} 0.1.1",
        ]
    );
    assert_eq!(plan.len(), 6);
}

#[test]
fn checking_with_nothing_to_update_says_so() {
    let plan = update_project(true, false, &None, false, true, &ctx(false), &vec![], &source(true)).unwrap();
    assert_eq!(
        said(&plan),
        vec!["Updating project...", "Checking for available updates...", "\u{2705} All components are up to date!"]
    );
}

#[test]
fn applying_upgrades_charts_and_copies_templates() {
    let observations = vec![stale("istio")];
    let plan = update_project(false, true, &None, false, false, &ctx(false), &observations, &source(true)).unwrap();
    let lines = said(&plan);
    assert!(lines.contains(&"\n\u{1F680} Applying updates...".to_string()));
    assert!(lines.contains(&"\u{1F4E6} Updating istio from 1.0.0 to 1.1.0...".to_string()));
    assert!(lines.contains(&"\u{1F4C4} Updating templates: base-templates from 0.1.0 to 0.1.1...".to_string()));
    assert_eq!(lines.last().unwrap(), "\u{2705} All updates applied successfully!");
    let spawned: Vec<String> = plan
        .iter()
        .filter_map(|s| match s {
            Step::Spawn { call, done, .. } => Some(format!("{} => {}", call.render(), done)),
            _ => None,
        })
        .collect();
    assert_eq!(spawned, vec!["helm upgrade istio istio/istio --version 1.1.0 => \u{2705} Successfully updated istio"]);
    assert_eq!(plan.iter().filter(|s| matches!(s, Step::SyncTemplates)).count(), 1);
}

#[test]
fn test_update_command_specific_component() {
    let plan = update_project(false, false, &Some("istio".to_string()), false, false, &ctx(true), &vec![stale("istio")], &source(true))
        .unwrap();
    assert_eq!(said(&plan)[..2], ["Updating project...", "Updating component: istio"]);
    assert_eq!(
        previews(&plan),
        vec!["DRY RUN: Would execute helm command: helm upgrade istio istio/istio --version 1.1.0"]
    );
}

#[test]
fn single_flags_update_their_own_section() {
    let observations = vec![stale("prometheus")];
    let plan = update_project(false, false, &None, true, true, &ctx(true), &observations, &source(true)).unwrap();
    let lines = said(&plan);
    let t = lines.iter().position(|l| l == "Updating project templates...").unwrap();
    let i = lines.iter().position(|l| l == "Updating infrastructure charts...").unwrap();
    assert!(t < i);
    assert!(lines.contains(&"DRY RUN: Would copy the base templates into the project".to_string()));
    assert!(lines.contains(&"\u{2705} Successfully updated base templates".to_string()));
    assert_eq!(
        previews(&plan),
        vec!["DRY RUN: Would execute helm command: helm upgrade prometheus prometheus-community/prometheus --version 1.1.0"]
    );
    assert_eq!(plan.iter().filter(|s| matches!(s, Step::SyncTemplates)).count(), 0);
}

#[test]
fn no_flags_at_all_only_announce() {
    let plan = update_project(false, false, &None, false, false, &ctx(false), &vec![stale("istio")], &source(true)).unwrap();
    assert_eq!(said(&plan), vec!["Updating project..."]);
    assert_eq!(plan.len(), 1);
}

#[test]
fn a_chart_update_without_chart_name_stops_the_batch() {
    let nameless = UpdateInfo {
        name: "istio".to_string(),
        current_version: "1".to_string(),
        latest_version: "2".to_string(),
        update_type: UpdateType::HelmChart,
        chart_name: None,
    };
    let later = UpdateInfo {
        name: "grafana".to_string(),
        current_version: "1".to_string(),
        latest_version: "2".to_string(),
        update_type: UpdateType::HelmChart,
        chart_name: Some("grafana/grafana".to_string()),
    };
    let plan = plan_apply(&vec![nameless, later], &None, false);
    assert_eq!(plan.len(), 2);
    match &plan[1] {
        Step::Halt(e) => {
            assert_eq!(e.kind, ErrorKind::PreconditionFailed);
            assert_eq!(e.message, "Chart name not specified for istio");
        }
        other => panic!("expected a planned failure, got {:?}", other),
    }
}
