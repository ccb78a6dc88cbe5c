//! Previews: what an operation would do, rendered as text. A preview reads the
//! same arguments, resolves its targets through the same functions and builds
//! its commands with the same builder as the operation itself, and runs
//! nothing.

use vstd::prelude::*;
use vstd::string::*;
use crate::args::{option_of, option_value, switch_given, switch_of};
use crate::catalog::{registrations, ComponentRegistration};
use crate::command::{
    docker_build_call, docker_push_call, helm_install_call, helm_upgrade_install_call, path_of,
    release_of, rendered, service_path, service_release, Invocation,
};
use crate::config::{config_content, MeshstackConfig, ProjectConfig};
use crate::catalog::{default_destroy_set, destroy_defaults, lookup};
use crate::command::helm_uninstall_call;
use crate::deploy::{admit_deploy, deploy_refusal, deploy_targets, resolve_deploy_targets};
use crate::destroy::{destroy_refusal, services_found};
use crate::discovery::{sorted_directories, Entry, ServicesRoot};
use crate::error::{Fault, MeshstackError};
use crate::install::{install_targets, resolve_install_targets};
use crate::profile::{optional_resolution, resolve_optional_profile, ProfileScope};
use crate::text::{list1, list2, opt_text, push2, push3, push5, push_text, texts};

verus! {

/// The heading of the prerequisites of any preview.
pub const PREREQUISITES: &'static str = "\n\u{26A0}\u{FE0F}  Prerequisites:";

/// The flags of `install` that take a value.
pub open spec fn install_takers() -> Seq<Seq<char>> {
    seq!["--component"@, "-c"@, "--profile"@, "-p"@, "--context"@]
}

/// What the arguments of `install` ask for.
pub struct InstallRequest {
    pub component: Option<Seq<char>>,
    pub profile: Option<Seq<char>>,
    pub context: Option<Seq<char>>,
}

/// Reads the arguments of `install`.
pub open spec fn install_request(args: Seq<Seq<char>>) -> InstallRequest {
    InstallRequest {
        component: option_value(args, install_takers(), seq!["--component"@, "-c"@]),
        profile: option_value(args, install_takers(), seq!["--profile"@, "-p"@]),
        context: option_value(args, install_takers(), seq!["--context"@]),
    }
}

/// The lines for one component: its name and chart, and in detail the command
/// that would install it, the profile and the cluster context.
pub open spec fn component_lines(
    target: (Seq<char>, Seq<char>),
    req: InstallRequest,
    values: Option<Seq<char>>,
    verbose: bool,
) -> Seq<Seq<char>> {
    seq!["  \u{2022} "@ + target.0 + " (from chart: "@ + target.1 + ")"@] + (if verbose {
        seq![
            "    - Helm command: "@ + rendered(
                helm_install_call(target.0, target.1, false, req.context, values),
            ),
        ] + (match (req.profile, values) {
            (Some(p), Some(file)) => seq![
                "    - Profile: "@ + p + " (values file: "@ + file + ")"@,
            ],
            _ => seq![],
        }) + (match req.context {
            Some(c) => seq!["    - Kubernetes context: "@ + c],
            None => seq![],
        })
    } else {
        seq![]
    })
}

/// The lines for a list of components, in order.
pub open spec fn components_lines(
    targets: Seq<(Seq<char>, Seq<char>)>,
    req: InstallRequest,
    values: Option<Seq<char>>,
    verbose: bool,
) -> Seq<Seq<char>>
    decreases targets.len(),
{
    if targets.len() == 0 {
        seq![]
    } else {
        components_lines(targets.drop_last(), req, values, verbose) + component_lines(
            targets.last(),
            req,
            values,
            verbose,
        )
    }
}

/// The lines that close the preview of an installation.
pub open spec fn install_footer(req: InstallRequest) -> Seq<Seq<char>> {
    (match req.profile {
        Some(p) => seq!["\u{1F3AF} Profile: "@ + p],
        None => seq![],
    }) + seq![
        match req.context {
            Some(c) => "\u{1F3AF} Target Kubernetes context: "@ + c,
            None => "\u{1F3AF} Target Kubernetes context: current-context"@,
        },
        PREREQUISITES@,
        "  \u{2022} Helm must be installed and available in PATH"@,
        "  \u{2022} Kubernetes cluster must be accessible"@,
        "  \u{2022} Required Helm repositories must be added"@,
    ]
}

/// The preview of an installation. It fails where the installation itself
/// would be refused, and with the same failure.
pub open spec fn install_preview(req: InstallRequest, verbose: bool) -> Result<
    Seq<Seq<char>>,
    Fault,
> {
    match install_targets(req.component) {
        Err(fault) => Err(fault),
        Ok(targets) => match optional_resolution(ProfileScope::Install, req.profile) {
            Err(fault) => Err(fault),
            Ok(values) => Ok(
                seq![
                    "\n\u{1F527} Planning 'install' command execution:"@,
                    "\u{1F4E6} Components that would be installed:"@,
                ] + components_lines(targets, req, values, verbose) + install_footer(req),
            ),
        },
    }
}

fn install_takers_list() -> (r: Vec<String>)
    ensures
        texts(r@) == install_takers(),
{
    let mut r: Vec<String> = Vec::new();
    push_text(&mut r, "--component");
    push_text(&mut r, "-c");
    push_text(&mut r, "--profile");
    push_text(&mut r, "-p");
    push_text(&mut r, "--context");
    assert(texts(r@) =~= install_takers());
    r
}

fn push_component_lines(
    out: &mut Vec<String>,
    target: &ComponentRegistration,
    profile: &Option<String>,
    context: &Option<String>,
    values: &Option<String>,
    verbose: bool,
)
    ensures
        texts(final(out)@) == texts(old(out)@) + component_lines(
            target@,
            InstallRequest {
                component: None,
                profile: opt_text(*profile),
                context: opt_text(*context),
            },
            opt_text(*values),
            verbose,
        ),
{
    push5(out, "  \u{2022} ", target.key.as_str(), " (from chart: ", target.chart.as_str(), ")");
    if verbose {
        let call = Invocation::helm_install(
            target.key.as_str(),
            target.chart.as_str(),
            false,
            context,
            values,
        );
        push2(out, "    - Helm command: ", call.render().as_str());
        match (profile, values) {
            (Some(p), Some(file)) => {
                push5(out, "    - Profile: ", p.as_str(), " (values file: ", file.as_str(), ")");
            },
            _ => {},
        }
        match context {
            Some(c) => {
                push2(out, "    - Kubernetes context: ", c.as_str());
            },
            None => {},
        }
    }
    assert(texts(out@) =~= texts(old(out)@) + component_lines(
        target@,
        InstallRequest { component: None, profile: opt_text(*profile), context: opt_text(*context) },
        opt_text(*values),
        verbose,
    ));
}

/// Previews `install` for the given arguments.
pub fn plan_install_command(args: &Vec<String>, verbose: bool) -> (r: Result<
    Vec<String>,
    MeshstackError,
>)
    ensures
        match r {
            Ok(lines) => install_preview(install_request(texts(args@)), verbose) == Ok::<
                Seq<Seq<char>>,
                Fault,
            >(texts(lines@)),
            Err(e) => install_preview(install_request(texts(args@)), verbose) == Err::<
                Seq<Seq<char>>,
                Fault,
            >(e@),
        },
{
    let takers = install_takers_list();
    let component = option_of(args, &takers, &list2("--component", "-c"));
    let profile = option_of(args, &takers, &list2("--profile", "-p"));
    let context = option_of(args, &takers, &list1("--context"));
    let ghost req = install_request(texts(args@));
    let targets = match resolve_install_targets(&component) {
        Ok(t) => t,
        Err(e) => {
            return Err(e);
        },
    };
    let values = match resolve_optional_profile(&profile, ProfileScope::Install) {
        Ok(v) => v,
        Err(e) => {
            return Err(e);
        },
    };
    let mut out: Vec<String> = Vec::new();
    push_text(&mut out, "\n\u{1F527} Planning 'install' command execution:");
    push_text(&mut out, "\u{1F4E6} Components that would be installed:");
    let ghost head = texts(out@);
    assert(head =~= seq![
        "\n\u{1F527} Planning 'install' command execution:"@,
        "\u{1F4E6} Components that would be installed:"@,
    ]);
    let ghost all = registrations(targets@);
    let mut i: usize = 0;
    assert(texts(out@) =~= head + components_lines(all.take(0), req, opt_text(values), verbose));
    while i < targets.len()
        invariant
            i <= targets.len(),
            all == registrations(targets@),
            req.profile == opt_text(profile),
            req.context == opt_text(context),
            texts(out@) == head + components_lines(
                all.take(i as int),
                req,
                opt_text(values),
                verbose,
            ),
        decreases targets.len() - i,
    {
        proof {
            assert(all.take(i as int + 1).drop_last() =~= all.take(i as int));
            assert(all.take(i as int + 1).last() == targets@[i as int]@);
        }
        push_component_lines(&mut out, &targets[i], &profile, &context, &values, verbose);
        i += 1;
    }
    assert(all.take(targets.len() as int) =~= all);
    let ghost body = texts(out@);
    match &profile {
        Some(p) => {
            push2(&mut out, "\u{1F3AF} Profile: ", p.as_str());
        },
        None => {},
    }
    match &context {
        Some(c) => {
            push2(&mut out, "\u{1F3AF} Target Kubernetes context: ", c.as_str());
        },
        None => {
            push_text(&mut out, "\u{1F3AF} Target Kubernetes context: current-context");
        },
    }
    push_text(&mut out, PREREQUISITES);
    push_text(&mut out, "  \u{2022} Helm must be installed and available in PATH");
    push_text(&mut out, "  \u{2022} Kubernetes cluster must be accessible");
    push_text(&mut out, "  \u{2022} Required Helm repositories must be added");
    assert(texts(out@) =~= body + install_footer(req));
    Ok(out)
}

/// A preview of `install` fails exactly where the installation fails, and
/// with the same failure: a component that the catalog does not hold is named
/// with the valid keys in both, and so is a profile that does not resolve.
pub proof fn lemma_preview_fails_as_install(
    req: InstallRequest,
    verbose: bool,
    dry_run: bool,
    overlay_present: bool,
)
    ensures
        install_preview(req, verbose) is Err <==> crate::install::install_plan(
            req.component,
            req.profile,
            req.context,
            dry_run,
            overlay_present,
        ) is Err,
        install_preview(req, verbose) is Err ==> install_preview(req, verbose)->Err_0
            == crate::install::install_plan(
            req.component,
            req.profile,
            req.context,
            dry_run,
            overlay_present,
        )->Err_0,
{
}

/// The flags of `deploy` that take a value.
pub open spec fn deploy_takers() -> Seq<Seq<char>> {
    seq!["--service"@, "-s"@, "--env"@, "-e"@, "--context"@]
}

/// What the arguments of `deploy` ask for.
pub struct DeployRequest {
    pub service: Option<Seq<char>>,
    pub env: Option<Seq<char>>,
    pub build: bool,
    pub push: bool,
    pub context: Option<Seq<char>>,
}

/// Reads the arguments of `deploy`.
pub open spec fn deploy_request(args: Seq<Seq<char>>) -> DeployRequest {
    DeployRequest {
        service: option_value(args, deploy_takers(), seq!["--service"@, "-s"@]),
        env: option_value(args, deploy_takers(), seq!["--env"@, "-e"@]),
        build: switch_given(args, deploy_takers(), "--build"@),
        push: switch_given(args, deploy_takers(), "--push"@),
        context: option_value(args, deploy_takers(), seq!["--context"@]),
    }
}

/// The lines for one service: its name, and in detail the commands that
/// would build, push and deploy it.
pub open spec fn service_lines(
    service: Seq<char>,
    req: DeployRequest,
    values: Option<Seq<char>>,
    verbose: bool,
) -> Seq<Seq<char>> {
    seq!["  \u{2022} "@ + service] + (if verbose {
        (if req.build {
            seq!["    - Docker build: "@ + rendered(docker_build_call(service))]
        } else {
            seq![]
        }) + (if req.push {
            seq!["    - Docker push: "@ + rendered(docker_push_call(service))]
        } else {
            seq![]
        }) + seq![
            "    - Helm deploy: "@ + rendered(
                helm_upgrade_install_call(
                    service_release(service),
                    service_path(service),
                    req.context,
                    values,
                ),
            ),
        ]
    } else {
        seq![]
    })
}

/// The lines for a list of services, in order.
pub open spec fn services_lines(
    services: Seq<Seq<char>>,
    req: DeployRequest,
    values: Option<Seq<char>>,
    verbose: bool,
) -> Seq<Seq<char>>
    decreases services.len(),
{
    if services.len() == 0 {
        seq![]
    } else {
        services_lines(services.drop_last(), req, values, verbose) + service_lines(
            services.last(),
            req,
            values,
            verbose,
        )
    }
}

/// The lines that close the preview of a deployment.
pub open spec fn deploy_footer(req: DeployRequest, values: Option<Seq<char>>) -> Seq<Seq<char>> {
    (match (req.env, values) {
        (Some(e), Some(file)) => seq![
            "\u{1F30D} Environment: "@ + e + " (values file: "@ + file + ")"@,
        ],
        _ => seq![],
    }) + (match req.context {
        Some(c) => seq!["\u{1F3AF} Target Kubernetes context: "@ + c],
        None => seq![],
    }) + seq!["\n\u{1F4CB} Deployment steps that would be executed:"@] + (if req.build {
        seq!["  1. Build Docker images for services"@]
    } else {
        seq![]
    }) + (if req.push {
        seq!["  2. Push Docker images to registry"@]
    } else {
        seq![]
    }) + seq![
        "  3. Deploy services using Helm charts"@,
        PREREQUISITES@,
        "  \u{2022} meshstack.yaml configuration file must exist"@,
        "  \u{2022} Services must have valid Dockerfiles and Helm charts"@,
    ] + (if req.build {
        seq!["  \u{2022} Docker must be installed and running"@]
    } else {
        seq![]
    }) + (if req.push {
        seq!["  \u{2022} Docker registry credentials must be configured"@]
    } else {
        seq![]
    }) + seq![
        "  \u{2022} Kubernetes cluster must be accessible"@,
        "  \u{2022} Helm must be installed"@,
    ]
}

/// The preview of a deployment. It fails where the deployment itself would
/// be refused, and with the same failure.
pub open spec fn deploy_preview(
    req: DeployRequest,
    verbose: bool,
    config: Option<ProjectConfig>,
    listing: Option<Seq<Entry>>,
) -> Result<Seq<Seq<char>>, Fault> {
    match deploy_refusal(config, req.env, listing) {
        Some(fault) => Err(fault),
        None => {
            let targets = deploy_targets(req.service, listing->0);
            let values = optional_resolution(ProfileScope::Deploy, req.env)->Ok_0;
            Ok(
                seq!["\n\u{1F680} Planning 'deploy' command execution:"@] + (if targets.len()
                    == 0 {
                    seq!["\u{274C} No services found to deploy"@]
                } else {
                    seq!["\u{1F3AF} Services that would be deployed:"@] + services_lines(
                        targets,
                        req,
                        values,
                        verbose,
                    ) + deploy_footer(req, values)
                }),
            )
        },
    }
}

fn deploy_takers_list() -> (r: Vec<String>)
    ensures
        texts(r@) == deploy_takers(),
{
    let mut r: Vec<String> = Vec::new();
    push_text(&mut r, "--service");
    push_text(&mut r, "-s");
    push_text(&mut r, "--env");
    push_text(&mut r, "-e");
    push_text(&mut r, "--context");
    assert(texts(r@) =~= deploy_takers());
    r
}

fn push_service_lines(
    out: &mut Vec<String>,
    service: &str,
    build: bool,
    push: bool,
    context: &Option<String>,
    values: &Option<String>,
    verbose: bool,
)
    ensures
        texts(final(out)@) == texts(old(out)@) + service_lines(
            service@,
            DeployRequest { service: None, env: None, build, push, context: opt_text(*context) },
            opt_text(*values),
            verbose,
        ),
{
    push2(out, "  \u{2022} ", service);
    if verbose {
        if build {
            push2(out, "    - Docker build: ", Invocation::docker_build(service).render().as_str());
        }
        if push {
            push2(out, "    - Docker push: ", Invocation::docker_push(service).render().as_str());
        }
        let call = Invocation::helm_upgrade_install(
            release_of(service).as_str(),
            path_of(service).as_str(),
            context,
            values,
        );
        push2(out, "    - Helm deploy: ", call.render().as_str());
    }
    assert(texts(out@) =~= texts(old(out)@) + service_lines(
        service@,
        DeployRequest { service: None, env: None, build, push, context: opt_text(*context) },
        opt_text(*values),
        verbose,
    ));
}

fn push_deploy_footer(
    out: &mut Vec<String>,
    env: &Option<String>,
    build: bool,
    push: bool,
    context: &Option<String>,
    values: &Option<String>,
)
    ensures
        texts(final(out)@) == texts(old(out)@) + deploy_footer(
            DeployRequest {
                service: None,
                env: opt_text(*env),
                build,
                push,
                context: opt_text(*context),
            },
            opt_text(*values),
        ),
{
    match (env, values) {
        (Some(e), Some(file)) => {
            push5(out, "\u{1F30D} Environment: ", e.as_str(), " (values file: ", file.as_str(), ")");
        },
        _ => {},
    }
    match context {
        Some(c) => {
            push2(out, "\u{1F3AF} Target Kubernetes context: ", c.as_str());
        },
        None => {},
    }
    push_text(out, "\n\u{1F4CB} Deployment steps that would be executed:");
    if build {
        push_text(out, "  1. Build Docker images for services");
    }
    if push {
        push_text(out, "  2. Push Docker images to registry");
    }
    push_text(out, "  3. Deploy services using Helm charts");
    push_text(out, PREREQUISITES);
    push_text(out, "  \u{2022} meshstack.yaml configuration file must exist");
    push_text(out, "  \u{2022} Services must have valid Dockerfiles and Helm charts");
    if build {
        push_text(out, "  \u{2022} Docker must be installed and running");
    }
    if push {
        push_text(out, "  \u{2022} Docker registry credentials must be configured");
    }
    push_text(out, "  \u{2022} Kubernetes cluster must be accessible");
    push_text(out, "  \u{2022} Helm must be installed");
    assert(texts(out@) =~= texts(old(out)@) + deploy_footer(
        DeployRequest {
            service: None,
            env: opt_text(*env),
            build,
            push,
            context: opt_text(*context),
        },
        opt_text(*values),
    ));
}

/// Previews `deploy` for the given arguments, the configuration of the
/// project (if it has one) and what was found at the services root.
pub fn plan_deploy_command(
    args: &Vec<String>,
    verbose: bool,
    config: &Option<MeshstackConfig>,
    root: &ServicesRoot,
) -> (r: Result<Vec<String>, MeshstackError>)
    ensures
        match r {
            Ok(lines) => deploy_preview(
                deploy_request(texts(args@)),
                verbose,
                config_content(*config),
                root.listing(),
            ) == Ok::<Seq<Seq<char>>, Fault>(texts(lines@)),
            Err(e) => deploy_preview(
                deploy_request(texts(args@)),
                verbose,
                config_content(*config),
                root.listing(),
            ) == Err::<Seq<Seq<char>>, Fault>(e@),
        },
{
    let takers = deploy_takers_list();
    let service = option_of(args, &takers, &list2("--service", "-s"));
    let env = option_of(args, &takers, &list2("--env", "-e"));
    let build = switch_of(args, &takers, "--build");
    let push = switch_of(args, &takers, "--push");
    let context = option_of(args, &takers, &list1("--context"));
    let ghost req = deploy_request(texts(args@));
    let values = match admit_deploy(config, &env, root) {
        Ok(v) => v,
        Err(e) => {
            return Err(e);
        },
    };
    let items = match root {
        ServicesRoot::Present(items) => items,
        ServicesRoot::Absent => {
            return Ok(Vec::new());
        },
    };
    let services = resolve_deploy_targets(&service, items);
    assert(texts(services@).len() == services.len());
    let mut out: Vec<String> = Vec::new();
    push_text(&mut out, "\n\u{1F680} Planning 'deploy' command execution:");
    if services.len() == 0 {
        push_text(&mut out, "\u{274C} No services found to deploy");
        assert(texts(out@) =~= seq!["\n\u{1F680} Planning 'deploy' command execution:"@] + seq![
            "\u{274C} No services found to deploy"@,
        ]);
        assert(deploy_targets(req.service, root.listing()->0).len() == 0);
        return Ok(out);
    }
    push_text(&mut out, "\u{1F3AF} Services that would be deployed:");
    let ghost head = texts(out@);
    assert(head =~= seq![
        "\n\u{1F680} Planning 'deploy' command execution:"@,
        "\u{1F3AF} Services that would be deployed:"@,
    ]);
    let ghost all = texts(services@);
    let mut i: usize = 0;
    assert(texts(out@) =~= head + services_lines(all.take(0), req, opt_text(values), verbose));
    while i < services.len()
        invariant
            i <= services.len(),
            all == texts(services@),
            req.build == build,
            req.push == push,
            req.context == opt_text(context),
            texts(out@) == head + services_lines(all.take(i as int), req, opt_text(values), verbose),
        decreases services.len() - i,
    {
        proof {
            assert(all.take(i as int + 1).drop_last() =~= all.take(i as int));
            assert(all.take(i as int + 1).last() == services@[i as int]@);
        }
        push_service_lines(&mut out, services[i].as_str(), build, push, &context, &values, verbose);
        i += 1;
    }
    assert(all.take(services.len() as int) =~= all);
    push_deploy_footer(&mut out, &env, build, push, &context, &values);
    assert(texts(out@) =~= seq!["\n\u{1F680} Planning 'deploy' command execution:"@] + (seq![
        "\u{1F3AF} Services that would be deployed:"@,
    ] + services_lines(all, req, opt_text(values), verbose) + deploy_footer(req, opt_text(values))));
    Ok(out)
}

/// The flags of `destroy` that take a value.
pub open spec fn destroy_takers() -> Seq<Seq<char>> {
    seq!["--service"@, "-s"@, "--component"@, "-c"@, "--context"@]
}

/// What the arguments of `destroy` ask for.
pub struct DestroyRequest {
    pub service: Option<Seq<char>>,
    pub component: Option<Seq<char>>,
    pub full: bool,
    pub all: bool,
    pub context: Option<Seq<char>>,
}

/// Reads the arguments of `destroy`.
pub open spec fn destroy_request(args: Seq<Seq<char>>) -> DestroyRequest {
    DestroyRequest {
        service: option_value(args, destroy_takers(), seq!["--service"@, "-s"@]),
        component: option_value(args, destroy_takers(), seq!["--component"@, "-c"@]),
        full: switch_given(args, destroy_takers(), "--full"@),
        all: switch_given(args, destroy_takers(), "--all"@),
        context: option_value(args, destroy_takers(), seq!["--context"@]),
    }
}

/// The line that shows the uninstall command of a release, behind `indent`.
pub open spec fn uninstall_line(
    indent: Seq<char>,
    release: Seq<char>,
    context: Option<Seq<char>>,
) -> Seq<char> {
    indent + "Command: "@ + rendered(helm_uninstall_call(release, context))
}

/// The lines for the components of a full teardown.
pub open spec fn infra_lines(keys: Seq<Seq<char>>, context: Option<Seq<char>>, verbose: bool) -> Seq<
    Seq<char>,
>
    decreases keys.len(),
{
    if keys.len() == 0 {
        seq![]
    } else {
        infra_lines(keys.drop_last(), context, verbose) + seq!["    - "@ + keys.last()] + (
        if verbose {
            seq![uninstall_line("      "@, keys.last(), context)]
        } else {
            seq![]
        })
    }
}

/// The lines for the services of a full teardown.
pub open spec fn app_lines(services: Seq<Seq<char>>, context: Option<Seq<char>>, verbose: bool) -> Seq<
    Seq<char>,
>
    decreases services.len(),
{
    if services.len() == 0 {
        seq![]
    } else {
        app_lines(services.drop_last(), context, verbose) + seq![
            "    - "@ + services.last() + " (Helm release: "@ + service_release(services.last())
                + ")"@,
        ] + (if verbose {
            seq![uninstall_line("      "@, service_release(services.last()), context)]
        } else {
            seq![]
        })
    }
}

/// The lines for what is named one by one: the service and the component.
pub open spec fn named_lines(req: DestroyRequest, verbose: bool) -> Seq<Seq<char>> {
    (match req.service {
        Some(s) => seq![
            "  \u{2022} Service: "@ + s + " (Helm release: "@ + service_release(s) + ")"@,
        ] + (if verbose {
            seq![uninstall_line("    - "@, service_release(s), req.context)]
        } else {
            seq![]
        }),
        None => seq![],
    }) + (match req.component {
        Some(c) => seq!["  \u{2022} Component: "@ + c + " (Helm release: "@ + c + ")"@] + (
        if verbose {
            seq![uninstall_line("    - "@, c, req.context)]
        } else {
            seq![]
        }),
        None => seq![],
    })
}

/// The lines for a full teardown, if one is asked for.
pub open spec fn full_lines(req: DestroyRequest, services: Seq<Seq<char>>, verbose: bool) -> Seq<
    Seq<char>,
> {
    if req.full || req.all {
        seq!["  \u{2022} All infrastructure components:"@] + infra_lines(
            destroy_defaults(),
            req.context,
            verbose,
        ) + seq!["  \u{2022} All application services:"@] + app_lines(
            services,
            req.context,
            verbose,
        ) + (if req.all {
            seq![
                "  \u{2022} Local project files (with --all flag):"@,
                "    - meshstack.yaml"@,
                "    - services/ directory"@,
                "    - provision/ directory"@,
            ]
        } else {
            seq![]
        })
    } else {
        seq![]
    }
}

/// The lines that close the preview of a teardown.
pub open spec fn destroy_footer(req: DestroyRequest) -> Seq<Seq<char>> {
    (match req.context {
        Some(c) => seq!["\u{1F3AF} Target Kubernetes context: "@ + c],
        None => seq![],
    }) + seq![
        "\n\u{26A0}\u{FE0F}  DANGER ZONE:"@,
        "  \u{2022} This operation will permanently delete resources"@,
        "  \u{2022} Confirmation will be required unless --confirm flag is used"@,
        "  \u{2022} Backup important data before proceeding"@,
        PREREQUISITES@,
        "  \u{2022} Helm must be installed and available"@,
        "  \u{2022} Kubernetes cluster must be accessible"@,
        "  \u{2022} Sufficient permissions to delete resources"@,
    ]
}

/// The preview of a teardown. It fails where the teardown itself would be
/// refused, and with the same failure.
pub open spec fn destroy_preview(req: DestroyRequest, verbose: bool, listing: Option<Seq<Entry>>) -> Result<
    Seq<Seq<char>>,
    Fault,
> {
    match destroy_refusal(req.component) {
        Some(fault) => Err(fault),
        None => Ok(
            seq![
                "\n\u{1F4A5} Planning 'destroy' command execution:"@,
                "\u{1F3AF} Resources that would be destroyed:"@,
            ] + named_lines(req, verbose) + full_lines(req, services_found(listing), verbose)
                + destroy_footer(req),
        ),
    }
}

fn destroy_takers_list() -> (r: Vec<String>)
    ensures
        texts(r@) == destroy_takers(),
{
    let mut r: Vec<String> = Vec::new();
    push_text(&mut r, "--service");
    push_text(&mut r, "-s");
    push_text(&mut r, "--component");
    push_text(&mut r, "-c");
    push_text(&mut r, "--context");
    assert(texts(r@) =~= destroy_takers());
    r
}

fn push_uninstall_line(out: &mut Vec<String>, indent: &str, release: &str, context: &Option<String>)
    ensures
        texts(final(out)@) == texts(old(out)@).push(
            uninstall_line(indent@, release@, opt_text(*context)),
        ),
{
    let call = Invocation::helm_uninstall(release, context);
    push3(out, indent, "Command: ", call.render().as_str());
}

fn push_infra_lines(out: &mut Vec<String>, keys: &Vec<String>, context: &Option<String>, verbose: bool)
    ensures
        texts(final(out)@) == texts(old(out)@) + infra_lines(
            texts(keys@),
            opt_text(*context),
            verbose,
        ),
{
    let ghost before = texts(out@);
    let ghost all = texts(keys@);
    let mut i: usize = 0;
    assert(texts(out@) =~= before + infra_lines(all.take(0), opt_text(*context), verbose));
    while i < keys.len()
        invariant
            i <= keys.len(),
            all == texts(keys@),
            texts(out@) == before + infra_lines(all.take(i as int), opt_text(*context), verbose),
        decreases keys.len() - i,
    {
        let ghost sofar = texts(out@);
        push2(out, "    - ", keys[i].as_str());
        if verbose {
            push_uninstall_line(out, "      ", keys[i].as_str(), context);
        }
        proof {
            assert(all.take(i as int + 1).drop_last() =~= all.take(i as int));
            assert(all.take(i as int + 1).last() == keys@[i as int]@);
            assert(texts(out@) =~= sofar + seq!["    - "@ + keys@[i as int]@] + (if verbose {
                seq![uninstall_line("      "@, keys@[i as int]@, opt_text(*context))]
            } else {
                seq![]
            }));
        }
        i += 1;
    }
    assert(all.take(keys.len() as int) =~= all);
}

fn push_app_lines(
    out: &mut Vec<String>,
    services: &Vec<String>,
    context: &Option<String>,
    verbose: bool,
)
    ensures
        texts(final(out)@) == texts(old(out)@) + app_lines(
            texts(services@),
            opt_text(*context),
            verbose,
        ),
{
    let ghost before = texts(out@);
    let ghost all = texts(services@);
    let mut i: usize = 0;
    assert(texts(out@) =~= before + app_lines(all.take(0), opt_text(*context), verbose));
    while i < services.len()
        invariant
            i <= services.len(),
            all == texts(services@),
            texts(out@) == before + app_lines(all.take(i as int), opt_text(*context), verbose),
        decreases services.len() - i,
    {
        let ghost sofar = texts(out@);
        let release = release_of(services[i].as_str());
        push5(out, "    - ", services[i].as_str(), " (Helm release: ", release.as_str(), ")");
        if verbose {
            push_uninstall_line(out, "      ", release.as_str(), context);
        }
        proof {
            assert(all.take(i as int + 1).drop_last() =~= all.take(i as int));
            assert(all.take(i as int + 1).last() == services@[i as int]@);
            let name = services@[i as int]@;
            assert(texts(out@) =~= sofar + seq![
                "    - "@ + name + " (Helm release: "@ + service_release(name) + ")"@,
            ] + (if verbose {
                seq![uninstall_line("      "@, service_release(name), opt_text(*context))]
            } else {
                seq![]
            }));
        }
        i += 1;
    }
    assert(all.take(services.len() as int) =~= all);
}

fn push_named_lines(
    out: &mut Vec<String>,
    service: &Option<String>,
    component: &Option<String>,
    context: &Option<String>,
    verbose: bool,
)
    ensures
        texts(final(out)@) == texts(old(out)@) + named_lines(
            DestroyRequest {
                service: opt_text(*service),
                component: opt_text(*component),
                full: false,
                all: false,
                context: opt_text(*context),
            },
            verbose,
        ),
{
    match service {
        Some(s) => {
            let release = release_of(s.as_str());
            push5(out, "  \u{2022} Service: ", s.as_str(), " (Helm release: ", release.as_str(), ")");
            if verbose {
                push_uninstall_line(out, "    - ", release.as_str(), context);
            }
        },
        None => {},
    }
    match component {
        Some(c) => {
            push5(out, "  \u{2022} Component: ", c.as_str(), " (Helm release: ", c.as_str(), ")");
            if verbose {
                push_uninstall_line(out, "    - ", c.as_str(), context);
            }
        },
        None => {},
    }
    assert(texts(out@) =~= texts(old(out)@) + named_lines(
        DestroyRequest {
            service: opt_text(*service),
            component: opt_text(*component),
            full: false,
            all: false,
            context: opt_text(*context),
        },
        verbose,
    ));
}

fn push_full_lines(
    out: &mut Vec<String>,
    full: bool,
    all: bool,
    services: &Vec<String>,
    context: &Option<String>,
    verbose: bool,
)
    ensures
        texts(final(out)@) == texts(old(out)@) + full_lines(
            DestroyRequest {
                service: None,
                component: None,
                full,
                all,
                context: opt_text(*context),
            },
            texts(services@),
            verbose,
        ),
{
    if full || all {
        push_text(out, "  \u{2022} All infrastructure components:");
        let keys = default_destroy_set();
        push_infra_lines(out, &keys, context, verbose);
        push_text(out, "  \u{2022} All application services:");
        push_app_lines(out, services, context, verbose);
        if all {
            push_text(out, "  \u{2022} Local project files (with --all flag):");
            push_text(out, "    - meshstack.yaml");
            push_text(out, "    - services/ directory");
            push_text(out, "    - provision/ directory");
        }
    }
    assert(texts(out@) =~= texts(old(out)@) + full_lines(
        DestroyRequest { service: None, component: None, full, all, context: opt_text(*context) },
        texts(services@),
        verbose,
    ));
}

fn push_destroy_footer(out: &mut Vec<String>, context: &Option<String>)
    ensures
        texts(final(out)@) == texts(old(out)@) + destroy_footer(
            DestroyRequest {
                service: None,
                component: None,
                full: false,
                all: false,
                context: opt_text(*context),
            },
        ),
{
    match context {
        Some(c) => {
            push2(out, "\u{1F3AF} Target Kubernetes context: ", c.as_str());
        },
        None => {},
    }
    push_text(out, "\n\u{26A0}\u{FE0F}  DANGER ZONE:");
    push_text(out, "  \u{2022} This operation will permanently delete resources");
    push_text(out, "  \u{2022} Confirmation will be required unless --confirm flag is used");
    push_text(out, "  \u{2022} Backup important data before proceeding");
    push_text(out, PREREQUISITES);
    push_text(out, "  \u{2022} Helm must be installed and available");
    push_text(out, "  \u{2022} Kubernetes cluster must be accessible");
    push_text(out, "  \u{2022} Sufficient permissions to delete resources");
    assert(texts(out@) =~= texts(old(out)@) + destroy_footer(
        DestroyRequest {
            service: None,
            component: None,
            full: false,
            all: false,
            context: opt_text(*context),
        },
    ));
}

/// Previews `destroy` for the given arguments and what was found at the
/// services root.
pub fn plan_destroy_command(args: &Vec<String>, verbose: bool, root: &ServicesRoot) -> (r: Result<
    Vec<String>,
    MeshstackError,
>)
    ensures
        match r {
            Ok(lines) => destroy_preview(destroy_request(texts(args@)), verbose, root.listing())
                == Ok::<Seq<Seq<char>>, Fault>(texts(lines@)),
            Err(e) => destroy_preview(destroy_request(texts(args@)), verbose, root.listing())
                == Err::<Seq<Seq<char>>, Fault>(e@),
        },
{
    let takers = destroy_takers_list();
    let service = option_of(args, &takers, &list2("--service", "-s"));
    let component = option_of(args, &takers, &list2("--component", "-c"));
    let full = switch_of(args, &takers, "--full");
    let all = switch_of(args, &takers, "--all");
    let context = option_of(args, &takers, &list1("--context"));
    let ghost req = destroy_request(texts(args@));
    match &component {
        Some(c) => {
            match lookup(c.as_str()) {
                Ok(_) => {},
                Err(e) => {
                    return Err(e);
                },
            }
        },
        None => {},
    }
    let services: Vec<String> = match root {
        ServicesRoot::Present(items) => sorted_directories(items),
        ServicesRoot::Absent => Vec::new(),
    };
    assert(texts(services@) =~= services_found(root.listing()));
    let mut out: Vec<String> = Vec::new();
    push_text(&mut out, "\n\u{1F4A5} Planning 'destroy' command execution:");
    push_text(&mut out, "\u{1F3AF} Resources that would be destroyed:");
    assert(texts(out@) =~= seq![
        "\n\u{1F4A5} Planning 'destroy' command execution:"@,
        "\u{1F3AF} Resources that would be destroyed:"@,
    ]);
    push_named_lines(&mut out, &service, &component, &context, verbose);
    push_full_lines(&mut out, full, all, &services, &context, verbose);
    push_destroy_footer(&mut out, &context);
    Ok(out)
}

} // verus!
