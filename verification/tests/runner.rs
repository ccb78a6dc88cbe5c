use meshstack::command::Invocation;
use meshstack::config::MeshstackContext;
use meshstack::error::{ErrorKind, MeshstackError};
use meshstack::install::install_component;
use meshstack::plan::{is_halted, settle, Directive, Runner, Step, ToolOutcome};

fn ok(stdout: &str) -> ToolOutcome {
    ToolOutcome { success: true, stdout: stdout.to_string(), stderr: String::new() }
}

fn failed(stdout: &str, stderr: &str) -> ToolOutcome {
    ToolOutcome { success: false, stdout: stdout.to_string(), stderr: stderr.to_string() }
}

/// Drives a plan to its end; the n-th process (from 0) fails where `fail_at` says so.
fn drive(plan: Vec<Step>, fail_at: Option<usize>) -> (Vec<String>, Vec<String>, Option<MeshstackError>) {
    let mut runner = Runner::new(plan);
    let mut printed = Vec::new();
    let mut executed = Vec::new();
    for _ in 0..1000 {
        match runner.current() {
            Directive::Print(line) => {
                printed.push(line);
                runner.acknowledge();
            }
            Directive::CopyTemplates => {
                printed.push("<copy>".to_string());
                runner.acknowledge();
            }
            Directive::Execute(call) => {
                let n = executed.len();
                executed.push(call.render());
                let outcome = if fail_at == Some(n) { failed("out", "boom") } else { ok("fine") };
                if let Some(line) = runner.complete(&outcome) {
                    printed.push(line);
                }
            }
            Directive::Finish => return (printed, executed, None),
            Directive::Fail(e) => return (printed, executed, Some(e)),
        }
    }
    panic!("the run did not end");
}

fn apply_ctx() -> MeshstackContext {
    MeshstackContext { config: None, kube_context: None, dry_run: false }
}

#[test]
fn a_run_executes_every_step_in_order() {
    let plan = install_component(&None, &None, &apply_ctx(), true).unwrap();
    let (printed, executed, failure) = drive(plan, None);
    assert!(failure.is_none());
    assert_eq!(
        executed,
        vec![
            "helm version",
            "helm install istio istio/istio",
            "helm install prometheus prometheus-community/prometheus",
            "helm install grafana grafana/grafana",
            "helm install cert-manager cert-manager/cert-manager",
            "helm install nginx-ingress ingress-nginx/ingress-nginx",
        ]
    );
    assert!(printed.contains(&"Successfully deployed service: grafana\nfine".to_string()));
}

#[test]
fn the_first_failure_aborts_the_rest() {
    let plan = install_component(&None, &None, &apply_ctx(), true).unwrap();
    let (printed, executed, failure) = drive(plan, Some(2));
    let e = failure.unwrap();
    assert_eq!(e.kind, ErrorKind::ToolInvocationFailed);
    assert_eq!(e.message, "helm install prometheus command failed:\nStdout: out\nStderr: boom");
    assert_eq!(
        executed,
        vec!["helm version", "helm install istio istio/istio", "helm install prometheus prometheus-community/prometheus"]
    );
    assert!(printed.contains(&"Successfully deployed service: istio\nfine".to_string()));
    assert!(!printed.iter().any(|l| l.contains("grafana")));
}

#[test]
fn a_failed_probe_means_the_tool_is_unavailable() {
    let plan = install_component(&None, &None, &apply_ctx(), true).unwrap();
    let (_, executed, failure) = drive(plan, Some(0));
    let e = failure.unwrap();
    assert_eq!(e.kind, ErrorKind::ToolUnavailable);
    assert_eq!(
        e.message,
        "Helm is not installed or not found in PATH. Please install Helm to proceed. Refer to https://helm.sh/docs/intro/install/ for instructions."
    );
    assert_eq!(executed, vec!["helm version"]);
}

#[test]
fn a_failed_run_stays_failed() {
    let plan = vec![
        Step::Spawn { call: Invocation::docker_push("a"), done: "pushed".to_string(), echo: false },
        Step::Say("after".to_string()),
    ];
    let mut runner = Runner::new(plan);
    assert!(matches!(runner.current(), Directive::Execute(_)));
    assert_eq!(runner.complete(&failed("", "denied")), None);
    for _ in 0..3 {
        match runner.current() {
            Directive::Fail(e) => assert_eq!(e.message, "docker push command failed:\nStdout: \nStderr: denied"),
            other => panic!("expected the failure, got {:?}", other),
        }
        runner.acknowledge();
        assert_eq!(runner.complete(&ok("late")), None);
    }
}

#[test]
fn a_dry_run_asks_for_no_process() {
    let ctx = MeshstackContext { config: None, kube_context: None, dry_run: true };
    let plan = install_component(&None, &Some("dev".to_string()), &ctx, true).unwrap();
    let (printed, executed, failure) = drive(plan, None);
    assert!(failure.is_none());
    assert!(executed.is_empty());
    let previews: Vec<&String> = printed.iter().filter(|l| l.starts_with("DRY RUN: ")).collect();
    assert_eq!(previews.len(), 5);
    assert_eq!(
        previews[0],
        "DRY RUN: Would execute helm command: helm install istio istio/istio --dry-run --values dev-values.yaml"
    );
}

#[test]
fn events_out_of_turn_change_nothing() {
    let mut runner = Runner::new(vec![
        Step::Say("one".to_string()),
        Step::Spawn { call: Invocation::docker_push("a"), done: "pushed".to_string(), echo: true },
    ]);
    assert_eq!(runner.complete(&ok("x")), None);
    assert!(matches!(runner.current(), Directive::Print(ref l) if l == "one"));
    runner.acknowledge();
    runner.acknowledge();
    assert!(matches!(runner.current(), Directive::Execute(_)));
    assert_eq!(runner.complete(&ok("x")), Some("pushed\nx".to_string()));
    assert!(matches!(runner.current(), Directive::Finish));
    runner.acknowledge();
    assert!(matches!(runner.current(), Directive::Finish));
}

#[test]
fn an_empty_plan_is_finished_at_once() {
    let runner = Runner::new(Vec::new());
    assert!(matches!(runner.current(), Directive::Finish));
}

#[test]
fn a_planned_failure_ends_the_run() {
    let halt = MeshstackError { kind: ErrorKind::ServiceArtifactMissing, message: "gone".to_string() };
    let plan = vec![Step::Say("before".to_string()), Step::Halt(halt), Step::Say("never".to_string())];
    assert!(!is_halted(&plan));
    let (printed, executed, failure) = drive(plan, None);
    assert_eq!(printed, vec!["before"]);
    assert!(executed.is_empty());
    assert_eq!(failure.unwrap().message, "gone");
    assert!(is_halted(&vec![Step::Halt(MeshstackError { kind: ErrorKind::ConfigMissing, message: String::new() })]));
    assert!(!is_halted(&Vec::new()));
}

#[test]
fn settling_reports_or_fails_by_the_kind_of_step() {
    let spawn = Step::Spawn { call: Invocation::docker_build("api"), done: "built".to_string(), echo: true };
    assert_eq!(settle(&spawn, &ok("log")).unwrap(), Some("built\nlog".to_string()));
    let quiet = Step::Spawn { call: Invocation::use_context("c"), done: "set".to_string(), echo: false };
    assert_eq!(settle(&quiet, &ok("log")).unwrap(), Some("set".to_string()));
    let e = settle(&spawn, &failed("o", "e")).unwrap_err();
    assert_eq!(e.kind, ErrorKind::ToolInvocationFailed);
    assert_eq!(e.message, "docker build command failed:\nStdout: o\nStderr: e");
    let check = Step::Check { call: Invocation::version(meshstack::command::Tool::Kind), remedy: "install it".to_string() };
    assert_eq!(settle(&check, &ok("v1")).unwrap(), None);
    let e = settle(&check, &failed("", "")).unwrap_err();
    assert_eq!(e.kind, ErrorKind::ToolUnavailable);
    assert_eq!(e.message, "install it");
    assert_eq!(settle(&Step::Say("x".to_string()), &failed("", "")).unwrap(), None);
    assert_eq!(settle(&Step::SyncTemplates, &ok("")).unwrap(), None);
}
