//! Deploying application services: build, push and chart upgrade for one
//! service or for every service below the services root.

use vstd::prelude::*;
use vstd::string::*;
use crate::command::{
    docker_build_call, docker_push_call, helm_upgrade_install_call, image_name, image_of, path_of,
    release_of, service_path, service_release, Call, Invocation,
};
use crate::config::{config_required, MeshstackContext, ProjectConfig};
use crate::discovery::{
    artifacts_of, entries_of, find_artifacts, service_names, services_root_missing,
    sorted_directories, DirEntry, Entry, ServicesRoot,
};
use crate::error::{ErrorKind, Fault, MeshstackError};
use crate::install::usable_overlay;
use crate::plan::{
    continued, is_halted, moves, push_call, push_step, push_steps, run_or_preview, say, say_about,
    Move, Step,
};
use crate::profile::{optional_resolution, resolve_optional_profile, ProfileScope};
use crate::text::{opt_text, push_line, texts};

verus! {

/// What a deployment does to each service, and with what.
pub struct DeployOptions {
    pub build: bool,
    pub push: bool,
    pub language: Seq<char>,
    pub values: Option<Seq<char>>,
    pub context: Option<Seq<char>>,
    pub dry_run: bool,
}

/// The failure for a service without a build descriptor.
pub open spec fn dockerfile_missing(service: Seq<char>) -> Fault {
    Fault {
        kind: ErrorKind::ServiceArtifactMissing,
        message: "Dockerfile not found in "@ + service_path(service) + "."@,
    }
}

/// The failure for a service without a chart descriptor.
pub open spec fn chart_missing(service: Seq<char>) -> Fault {
    Fault {
        kind: ErrorKind::ServiceArtifactMissing,
        message: "Helm chart (Chart.yaml) not found in "@ + service_path(service) + "."@,
    }
}

/// The line that announces the build of a service's image.
pub open spec fn building_line(service: Seq<char>, language: Seq<char>) -> Seq<char> {
    "Building Docker image for "@ + service + " (language: "@ + language + ")..."@
}

/// Building the image of a service: only a service with a build descriptor
/// can be built.
pub open spec fn build_steps(
    service: Seq<char>,
    has_dockerfile: bool,
    language: Seq<char>,
    dry_run: bool,
) -> Seq<Move> {
    seq![
        Move::Say(building_line(service, language)),
        if has_dockerfile {
            run_or_preview(
                docker_build_call(service),
                "Successfully built Docker image: "@ + image_name(service),
                dry_run,
            )
        } else {
            Move::Halt(dockerfile_missing(service))
        },
    ]
}

/// Pushing the image of a service.
pub open spec fn push_steps_of(service: Seq<char>, dry_run: bool) -> Seq<Move> {
    seq![
        Move::Say("Pushing Docker image for "@ + service + " to registry..."@),
        run_or_preview(
            docker_push_call(service),
            "Successfully pushed Docker image: "@ + image_name(service),
            dry_run,
        ),
    ]
}

/// Installing or upgrading the release of a service: only a service with a
/// chart descriptor can be deployed.
pub open spec fn chart_steps(
    service: Seq<char>,
    has_chart: bool,
    values: Option<Seq<char>>,
    context: Option<Seq<char>>,
    dry_run: bool,
) -> Seq<Move> {
    seq![
        Move::Say("Deploying Helm chart for service: "@ + service + "..."@),
        if has_chart {
            run_or_preview(
                helm_upgrade_install_call(
                    service_release(service),
                    service_path(service),
                    context,
                    values,
                ),
                "Successfully deployed service: "@ + service,
                dry_run,
            )
        } else {
            Move::Halt(chart_missing(service))
        },
    ]
}

/// The steps for one service: build and push where asked for, then the chart;
/// a missing descriptor ends the plan where it is needed.
pub open spec fn service_steps(service: Seq<char>, artifacts: (bool, bool), o: DeployOptions) -> Seq<
    Move,
> {
    let header = seq![Move::Say("\n--- Deploying service: "@ + service + " ---"@)];
    let built = if o.build {
        header + build_steps(service, artifacts.0, o.language, o.dry_run)
    } else {
        header
    };
    let pushed = if o.push {
        continued(built, push_steps_of(service, o.dry_run))
    } else {
        built
    };
    continued(pushed, chart_steps(service, artifacts.1, o.values, o.context, o.dry_run))
}

/// The steps for a batch of services, one service after the other.
pub open spec fn deploy_batch(services: Seq<Seq<char>>, entries: Seq<Entry>, o: DeployOptions) -> Seq<
    Move,
>
    decreases services.len(),
{
    if services.len() == 0 {
        seq![]
    } else {
        continued(
            deploy_batch(services.drop_last(), entries, o),
            service_steps(services.last(), artifacts_of(entries, services.last()), o),
        )
    }
}

/// The services that a deployment acts on: the one that is named, or every
/// service below the root.
pub open spec fn deploy_targets(service: Option<Seq<char>>, entries: Seq<Entry>) -> Seq<Seq<char>> {
    match service {
        Some(name) => seq![name],
        None => service_names(entries),
    }
}

/// The steps before the batch: what is announced, and the warning for an
/// overlay that is not on disk.
pub open spec fn deploy_preamble(
    service: Option<Seq<char>>,
    env: Option<Seq<char>>,
    context: Option<Seq<char>>,
    values: Option<Seq<char>>,
    overlay_present: bool,
) -> Seq<Move> {
    seq![Move::Say("Deploying service..."@)] + (match env {
        Some(e) => seq![Move::Say("Applying environment profile: "@ + e)],
        None => seq![],
    }) + (match context {
        Some(c) => seq![Move::Say("Targeting Kubernetes context: "@ + c)],
        None => seq![],
    }) + (match values {
        Some(file) => if overlay_present {
            seq![]
        } else {
            seq![Move::Say("Warning: Environment values file "@ + file + " not found. Skipping."@)]
        },
        None => seq![],
    }) + seq![
        match service {
            Some(name) => Move::Say("Deploying specific service: "@ + name),
            None => Move::Say("Deploying all services."@),
        },
    ]
}

/// Why a deployment is refused before any step exists: no configuration, an
/// environment name that does not resolve, or no services root.
pub open spec fn deploy_refusal(
    config: Option<ProjectConfig>,
    env: Option<Seq<char>>,
    listing: Option<Seq<Entry>>,
) -> Option<Fault> {
    if config is None {
        Some(config_required())
    } else {
        match optional_resolution(ProfileScope::Deploy, env) {
            Err(fault) => Some(fault),
            Ok(_) => if listing is None {
                Some(services_root_missing())
            } else {
                None
            },
        }
    }
}

/// The steps of a deployment that is not refused. With no service to act on
/// the plan says so and is done; otherwise the batch follows, and the closing
/// line unless the batch ends in a planned failure.
pub open spec fn deploy_steps(
    service: Option<Seq<char>>,
    env: Option<Seq<char>>,
    entries: Seq<Entry>,
    o: DeployOptions,
    resolved: Option<Seq<char>>,
    overlay_present: bool,
) -> Seq<Move> {
    let preamble = deploy_preamble(service, env, o.context, resolved, overlay_present);
    let targets = deploy_targets(service, entries);
    if targets.len() == 0 {
        preamble.push(Move::Say("No services found to deploy."@))
    } else {
        preamble + continued(
            deploy_batch(targets, entries, o),
            seq![Move::Say("\nDeployment process completed."@)],
        )
    }
}

/// Decides whether a deployment is admitted, and resolves its environment.
pub fn admit_deploy(
    config: &Option<crate::config::MeshstackConfig>,
    env: &Option<String>,
    root: &ServicesRoot,
) -> (r: Result<Option<String>, MeshstackError>)
    ensures
        match r {
            Ok(values) => deploy_refusal(
                crate::config::config_content(*config),
                opt_text(*env),
                root.listing(),
            ) is None && optional_resolution(ProfileScope::Deploy, opt_text(*env)) == Ok::<
                Option<Seq<char>>,
                Fault,
            >(opt_text(values)),
            Err(e) => deploy_refusal(
                crate::config::config_content(*config),
                opt_text(*env),
                root.listing(),
            ) == Some(e@),
        },
{
    if config.is_none() {
        return Err(
            MeshstackError::new(
                ErrorKind::ConfigMissing,
                String::from_str("meshstack.yaml not found or invalid. Run 'meshstack init' first."),
            ),
        );
    }
    let values = match resolve_optional_profile(env, ProfileScope::Deploy) {
        Ok(v) => v,
        Err(e) => {
            return Err(e);
        },
    };
    match root {
        ServicesRoot::Absent => Err(
            MeshstackError::new(
                ErrorKind::PreconditionFailed,
                String::from_str("Services directory not found. Please run `meshstack init` first."),
            ),
        ),
        ServicesRoot::Present(_) => Ok(values),
    }
}

/// The services that a deployment acts on, given a services root that exists.
pub fn resolve_deploy_targets(service_name: &Option<String>, items: &Vec<DirEntry>) -> (r: Vec<
    String,
>)
    ensures
        texts(r@) == deploy_targets(opt_text(*service_name), entries_of(items@)),
{
    match service_name {
        Some(name) => {
            let mut one: Vec<String> = Vec::new();
            push_line(&mut one, name.clone());
            assert(texts(one@) =~= seq![name@]);
            one
        },
        None => sorted_directories(items),
    }
}

/// What `deploy_service` decides: the services acted on, and the steps.
#[derive(Debug)]
pub struct Deployment {
    pub services: Vec<String>,
    pub steps: Vec<Step>,
}

fn plan_service(
    service: &str,
    artifacts: (bool, bool),
    build: bool,
    push: bool,
    language: &str,
    values: &Option<String>,
    context: &Option<String>,
    dry_run: bool,
) -> (plan: Vec<Step>)
    ensures
        moves(plan@) == service_steps(
            service@,
            artifacts,
            DeployOptions {
                build,
                push,
                language: language@,
                values: opt_text(*values),
                context: opt_text(*context),
                dry_run,
            },
        ),
{
    let mut plan: Vec<Step> = Vec::new();
    let mut header = String::from_str("\n--- Deploying service: ");
    header.append(service);
    header.append(" ---");
    push_step(&mut plan, Step::Say(header));
    assert(moves(plan@) =~= seq![Move::Say("\n--- Deploying service: "@ + service@ + " ---"@)]);
    let image = image_of(service);
    if build {
        let ghost before = moves(plan@);
        let mut line = String::from_str("Building Docker image for ");
        line.append(service);
        line.append(" (language: ");
        line.append(language);
        line.append(")...");
        push_step(&mut plan, Step::Say(line));
        if artifacts.0 {
            let mut done = String::from_str("Successfully built Docker image: ");
            done.append(image.as_str());
            push_call(&mut plan, Invocation::docker_build(service), done, dry_run);
        } else {
            let mut message = String::from_str("Dockerfile not found in ");
            message.append(path_of(service).as_str());
            message.append(".");
            push_step(
                &mut plan,
                Step::Halt(MeshstackError::new(ErrorKind::ServiceArtifactMissing, message)),
            );
        }
        assert(moves(plan@) =~= before + build_steps(service@, artifacts.0, language@, dry_run));
    }
    if push && !is_halted(&plan) {
        let ghost before = moves(plan@);
        let mut line = String::from_str("Pushing Docker image for ");
        line.append(service);
        line.append(" to registry...");
        push_step(&mut plan, Step::Say(line));
        let mut done = String::from_str("Successfully pushed Docker image: ");
        done.append(image.as_str());
        push_call(&mut plan, Invocation::docker_push(service), done, dry_run);
        assert(moves(plan@) =~= before + push_steps_of(service@, dry_run));
    }
    if !is_halted(&plan) {
        let ghost before = moves(plan@);
        let mut line = String::from_str("Deploying Helm chart for service: ");
        line.append(service);
        line.append("...");
        push_step(&mut plan, Step::Say(line));
        if artifacts.1 {
            let mut done = String::from_str("Successfully deployed service: ");
            done.append(service);
            let call = Invocation::helm_upgrade_install(
                release_of(service).as_str(),
                path_of(service).as_str(),
                context,
                values,
            );
            push_call(&mut plan, call, done, dry_run);
        } else {
            let mut message = String::from_str("Helm chart (Chart.yaml) not found in ");
            message.append(path_of(service).as_str());
            message.append(".");
            push_step(
                &mut plan,
                Step::Halt(MeshstackError::new(ErrorKind::ServiceArtifactMissing, message)),
            );
        }
        assert(moves(plan@) =~= before + chart_steps(
            service@,
            artifacts.1,
            opt_text(*values),
            opt_text(*context),
            dry_run,
        ));
    }
    plan
}

/// Plans a deployment. `root` is what was found at the services root, and
/// `overlay_present` says whether the overlay file that the environment
/// resolves to is on disk; it is not looked at where no environment is given.
pub fn deploy_service(
    service_name: &Option<String>,
    env: &Option<String>,
    build: bool,
    push: bool,
    ctx: &MeshstackContext,
    root: &ServicesRoot,
    overlay_present: bool,
) -> (r: Result<Deployment, MeshstackError>)
    ensures
        match r {
            Ok(d) => {
                &&& deploy_refusal(ctx.config_view(), opt_text(*env), root.listing()) is None
                &&& texts(d.services@) == deploy_targets(
                    opt_text(*service_name),
                    root.listing()->0,
                )
                &&& moves(d.steps@) == deploy_steps(
                    opt_text(*service_name),
                    opt_text(*env),
                    root.listing()->0,
                    DeployOptions {
                        build,
                        push,
                        language: ctx.config_view()->0.language,
                        values: usable_overlay(
                            optional_resolution(ProfileScope::Deploy, opt_text(*env))->Ok_0,
                            overlay_present,
                        ),
                        context: ctx.context_view(),
                        dry_run: ctx.dry_run,
                    },
                    optional_resolution(ProfileScope::Deploy, opt_text(*env))->Ok_0,
                    overlay_present,
                )
            },
            Err(e) => deploy_refusal(ctx.config_view(), opt_text(*env), root.listing()) == Some(
                e@,
            ),
        },
{
    let config = match ctx.require_config() {
        Ok(c) => c,
        Err(e) => {
            return Err(e);
        },
    };
    let resolved = match resolve_optional_profile(env, ProfileScope::Deploy) {
        Ok(v) => v,
        Err(e) => {
            return Err(e);
        },
    };
    let items = match root {
        ServicesRoot::Absent => {
            return Err(
                MeshstackError::new(
                    ErrorKind::PreconditionFailed,
                    String::from_str(
                        "Services directory not found. Please run `meshstack init` first.",
                    ),
                ),
            );
        },
        ServicesRoot::Present(items) => items,
    };
    let ghost entries = entries_of(items@);
    let mut plan: Vec<Step> = Vec::new();
    say(&mut plan, "Deploying service...");
    match env {
        Some(e) => {
            say_about(&mut plan, "Applying environment profile: ", e.as_str());
        },
        None => {},
    }
    match &ctx.kube_context {
        Some(c) => {
            say_about(&mut plan, "Targeting Kubernetes context: ", c.as_str());
        },
        None => {},
    }
    match &resolved {
        Some(file) => {
            if !overlay_present {
                let mut line = String::from_str("Warning: Environment values file ");
                line.append(file.as_str());
                line.append(" not found. Skipping.");
                push_step(&mut plan, Step::Say(line));
            }
        },
        None => {},
    }
    let services = match service_name {
        Some(name) => {
            say_about(&mut plan, "Deploying specific service: ", name.as_str());
            let mut one: Vec<String> = Vec::new();
            push_line(&mut one, name.clone());
            assert(texts(one@) =~= seq![name@]);
            one
        },
        None => {
            say(&mut plan, "Deploying all services.");
            sorted_directories(items)
        },
    };
    let ghost preamble = deploy_preamble(
        opt_text(*service_name),
        opt_text(*env),
        ctx.context_view(),
        opt_text(resolved),
        overlay_present,
    );
    assert(moves(plan@) =~= preamble);
    if services.len() == 0 {
        say(&mut plan, "No services found to deploy.");
        return Ok(Deployment { services, steps: plan });
    }
    let overlay = if overlay_present {
        resolved
    } else {
        None
    };
    let ghost o = DeployOptions {
        build,
        push,
        language: config.language@,
        values: opt_text(overlay),
        context: ctx.context_view(),
        dry_run: ctx.dry_run,
    };
    let ghost all = texts(services@);
    let mut batch: Vec<Step> = Vec::new();
    let mut i: usize = 0;
    assert(moves(batch@) =~= deploy_batch(all.take(0), entries, o));
    while i < services.len()
        invariant
            i <= services.len(),
            all == texts(services@),
            entries == entries_of(items@),
            o == (DeployOptions {
                build,
                push,
                language: config.language@,
                values: opt_text(overlay),
                context: ctx.context_view(),
                dry_run: ctx.dry_run,
            }),
            moves(batch@) == deploy_batch(all.take(i as int), entries, o),
        decreases services.len() - i,
    {
        proof {
            let next = all.take(i as int + 1);
            assert(next.drop_last() =~= all.take(i as int));
            assert(next.last() == services@[i as int]@);
        }
        if !is_halted(&batch) {
            let name = services[i].as_str();
            let artifacts = find_artifacts(items, name);
            let more = plan_service(
                name,
                artifacts,
                build,
                push,
                config.language.as_str(),
                &overlay,
                &ctx.kube_context,
                ctx.dry_run,
            );
            push_steps(&mut batch, more);
        }
        i += 1;
    }
    assert(all.take(services.len() as int) =~= all);
    if !is_halted(&batch) {
        say(&mut batch, "\nDeployment process completed.");
        assert(moves(batch@) =~= continued(
            deploy_batch(all, entries, o),
            seq![Move::Say("\nDeployment process completed."@)],
        ));
    }
    push_steps(&mut plan, batch);
    Ok(Deployment { services, steps: plan })
}

/// The steps of one service never ask for a process when previewing.
pub proof fn lemma_dry_run_service(service: Seq<char>, artifacts: (bool, bool), o: DeployOptions)
    requires
        o.dry_run,
    ensures
        forall|i: int|
            0 <= i < service_steps(service, artifacts, o).len() ==> !(#[trigger] service_steps(
                service,
                artifacts,
                o,
            )[i]).spawns(),
{
}

/// The steps of a batch never ask for a process when previewing.
pub proof fn lemma_dry_run_deploy_batch(
    services: Seq<Seq<char>>,
    entries: Seq<Entry>,
    o: DeployOptions,
)
    requires
        o.dry_run,
    ensures
        forall|i: int|
            0 <= i < deploy_batch(services, entries, o).len() ==> !(#[trigger] deploy_batch(
                services,
                entries,
                o,
            )[i]).spawns(),
    decreases services.len(),
{
    if services.len() > 0 {
        let head = deploy_batch(services.drop_last(), entries, o);
        let tail = service_steps(services.last(), artifacts_of(entries, services.last()), o);
        let batch = deploy_batch(services, entries, o);
        lemma_dry_run_deploy_batch(services.drop_last(), entries, o);
        lemma_dry_run_service(services.last(), artifacts_of(entries, services.last()), o);
        assert(batch == continued(head, tail));
        assert forall|i: int| 0 <= i < batch.len() implies !(#[trigger] batch[i]).spawns() by {
            if i < head.len() {
                assert(batch[i] == head[i]);
            } else {
                assert(batch[i] == tail[i - head.len()]);
            }
        }
    }
}

/// A previewed deployment spawns no process at all, whatever it is asked to
/// build, push or deploy.
pub proof fn lemma_dry_run_deploy(
    service: Option<Seq<char>>,
    env: Option<Seq<char>>,
    entries: Seq<Entry>,
    o: DeployOptions,
    resolved: Option<Seq<char>>,
    overlay_present: bool,
)
    requires
        o.dry_run,
    ensures
        crate::plan::spawn_count(deploy_steps(service, env, entries, o, resolved, overlay_present))
            == 0,
        crate::plan::spawned(deploy_steps(service, env, entries, o, resolved, overlay_present))
            == Seq::<Call>::empty(),
{
    let plan = deploy_steps(service, env, entries, o, resolved, overlay_present);
    lemma_dry_run_deploy_batch(deploy_targets(service, entries), entries, o);
    assert forall|i: int| 0 <= i < plan.len() implies !(#[trigger] plan[i]).spawns() by {
        let preamble = deploy_preamble(service, env, o.context, resolved, overlay_present);
        let batch = deploy_batch(deploy_targets(service, entries), entries, o);
        if i >= preamble.len() && deploy_targets(service, entries).len() > 0 {
            if i - preamble.len() < batch.len() {
                assert(plan[i] == batch[i - preamble.len()]);
            }
        }
    }
    crate::plan::lemma_quiet_plan(plan);
}

/// A services root without directories is no failure: the deployment of all
/// services says that there is none, and asks for no build, push or deploy
/// call, run or previewed.
pub proof fn lemma_empty_root_deploys_nothing(
    env: Option<Seq<char>>,
    entries: Seq<Entry>,
    o: DeployOptions,
    resolved: Option<Seq<char>>,
    overlay_present: bool,
)
    requires
        crate::discovery::directory_names(entries).len() == 0,
    ensures
        deploy_targets(None, entries).len() == 0,
        deploy_steps(None, env, entries, o, resolved, overlay_present) == deploy_preamble(
            None,
            env,
            o.context,
            resolved,
            overlay_present,
        ).push(Move::Say("No services found to deploy."@)),
        crate::plan::spawn_count(deploy_steps(None, env, entries, o, resolved, overlay_present))
            == 0,
        crate::plan::spawned(deploy_steps(None, env, entries, o, resolved, overlay_present))
            == Seq::<Call>::empty(),
        crate::plan::previews(deploy_steps(None, env, entries, o, resolved, overlay_present))
            == Seq::<Call>::empty(),
{
    crate::discovery::lemma_service_names_complete(entries, seq![]);
    let plan = deploy_steps(None, env, entries, o, resolved, overlay_present);
    crate::plan::lemma_quiet_plan(plan);
    crate::plan::lemma_no_previews(plan);
}

/// A project without a services root cannot be deployed: with a
/// configuration and an environment that resolves, the operation fails for
/// the missing precondition, and no step exists.
pub proof fn lemma_absent_root_is_refused(config: Option<ProjectConfig>, env: Option<Seq<char>>)
    requires
        config is Some,
        optional_resolution(ProfileScope::Deploy, env) is Ok,
    ensures
        deploy_refusal(config, env, None) == Some(services_root_missing()),
        deploy_refusal(config, env, None)->0.kind == ErrorKind::PreconditionFailed,
{
}

/// A deployment with an environment name that is neither allowed nor
/// "custom" is refused as an unknown target.
pub proof fn lemma_deploy_refuses_unknown_environment(
    config: Option<ProjectConfig>,
    name: Seq<char>,
    listing: Option<Seq<Entry>>,
)
    requires
        config is Some,
        !ProfileScope::Deploy.allowed().contains(name),
        name != "custom"@,
    ensures
        deploy_refusal(config, Some(name), listing) == Some(
            crate::profile::unknown_profile(ProfileScope::Deploy, name),
        ),
        deploy_refusal(config, Some(name), listing)->0.kind == ErrorKind::UnknownTarget,
{
}

/// A deployment with the environment "custom" is refused as not implemented.
pub proof fn lemma_deploy_refuses_custom_environment(
    config: Option<ProjectConfig>,
    listing: Option<Seq<Entry>>,
)
    requires
        config is Some,
    ensures
        deploy_refusal(config, Some("custom"@), listing) == Some(crate::profile::custom_profile()),
        deploy_refusal(config, Some("custom"@), listing)->0.kind == ErrorKind::NotImplemented,
{
}

} // verus!
