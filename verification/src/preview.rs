//! Previews of the operations that change no release by themselves being
//! previewed: updating, bootstrapping a local cluster, generating scaffolds.

use vstd::prelude::*;
use vstd::string::*;
use crate::args::{option_of, option_value, switch_given, switch_of};
use crate::catalog::{
    assoc_catalog, default_install_set, install_defaults, lookup, registrations,
    ComponentRegistration,
};
use crate::command::{
    cluster_context, context_of, create_cluster_call, helm_install_call, rendered,
    use_context_call, Invocation, Tool,
};
use crate::config::{config_content, config_required, MeshstackConfig, ProjectConfig};
use crate::error::{ErrorKind, Fault, MeshstackError};
use crate::discovery::{Entry, ServicesRoot};
use crate::planner::{
    deploy_preview, deploy_request, destroy_preview, destroy_request, install_preview,
    install_request, plan_deploy_command, plan_destroy_command, plan_install_command,
    PREREQUISITES,
};
use crate::text::{
    join, joined, list2, opt_text, push2, push3, push_line, push_text, same_text, texts, trim,
    trimmed,
};
use crate::update::update_refusal;

verus! {

/// The flags of `update` that take a value.
pub open spec fn update_takers() -> Seq<Seq<char>> {
    seq!["--component"@, "-c"@]
}

/// What the arguments of `update` ask for.
pub struct UpdateAsk {
    pub check: bool,
    pub apply: bool,
    pub component: Option<Seq<char>>,
    pub template: bool,
    pub infra: bool,
}

/// Reads the arguments of `update`.
pub open spec fn update_ask(args: Seq<Seq<char>>) -> UpdateAsk {
    UpdateAsk {
        check: switch_given(args, update_takers(), "--check"@),
        apply: switch_given(args, update_takers(), "--apply"@),
        component: option_value(args, update_takers(), update_takers()),
        template: switch_given(args, update_takers(), "--template"@),
        infra: switch_given(args, update_takers(), "--infra"@),
    }
}

/// The lines for one thing that an update does: its title, and its details
/// where they are asked for.
pub open spec fn topic(on: bool, title: Seq<char>, details: Seq<Seq<char>>, verbose: bool) -> Seq<
    Seq<char>,
> {
    if on {
        seq![title] + (if verbose {
            details
        } else {
            seq![]
        })
    } else {
        seq![]
    }
}

/// The lines of the preview of an update that is not refused.
pub open spec fn update_lines(ask: UpdateAsk, verbose: bool) -> Seq<Seq<char>> {
    seq![
        "\n\u{1F504} Planning 'update' command execution:"@,
        "\u{1F3AF} Update operations that would be performed:"@,
    ] + topic(
        ask.check,
        "  \u{2022} Check for available updates"@,
        seq![
            "    - Query Helm repositories for latest chart versions"@,
            "    - Compare with currently installed versions"@,
            "    - Check for template updates"@,
        ],
        verbose,
    ) + topic(
        ask.apply,
        "  \u{2022} Apply all available updates automatically"@,
        seq![
            "    - Update Helm charts to latest versions"@,
            "    - Regenerate templates from latest versions"@,
        ],
        verbose,
    ) + (match ask.component {
        Some(c) => topic(
            true,
            "  \u{2022} Update specific component: "@ + c,
            seq![
                "    - Chart: "@ + assoc_catalog(c)->0,
                "    - Command: helm upgrade "@ + c + " "@ + assoc_catalog(c)->0,
            ],
            verbose,
        ),
        None => seq![],
    }) + topic(
        ask.template,
        "  \u{2022} Update project templates"@,
        seq![
            "    - Regenerate Dockerfiles"@,
            "    - Update Helm chart templates"@,
            "    - Refresh CI/CD configurations"@,
        ],
        verbose,
    ) + topic(
        ask.infra,
        "  \u{2022} Update infrastructure charts"@,
        seq![
            "    - Update service mesh components"@,
            "    - Update monitoring stack"@,
            "    - Update ingress controllers"@,
        ],
        verbose,
    ) + topic(
        !ask.check && !ask.apply && ask.component is None && !ask.template && !ask.infra,
        "  \u{2022} Default: Check infrastructure and template updates"@,
        seq![],
        false,
    ) + seq![
        PREREQUISITES@,
        "  \u{2022} meshstack.yaml configuration file must exist"@,
        "  \u{2022} Helm repositories must be up to date"@,
        "  \u{2022} Internet connection for checking latest versions"@,
    ]
}

/// The preview of an update. It fails where the update itself would be
/// refused, and with the same failure.
pub open spec fn update_preview(ask: UpdateAsk, verbose: bool, config: Option<ProjectConfig>) -> Result<
    Seq<Seq<char>>,
    Fault,
> {
    match update_refusal(config, ask.component) {
        Some(fault) => Err(fault),
        None => Ok(update_lines(ask, verbose)),
    }
}

fn push_topic(out: &mut Vec<String>, on: bool, title: String, details: Vec<String>, verbose: bool)
    ensures
        texts(final(out)@) == texts(old(out)@) + topic(on, title@, texts(details@), verbose),
{
    if on {
        push_line(out, title);
        if verbose {
            crate::text::push_all(out, details);
        }
    }
    assert(texts(out@) =~= texts(old(out)@) + topic(on, title@, texts(details@), verbose));
}

fn list3(a: &str, b: &str, c: &str) -> (r: Vec<String>)
    ensures
        texts(r@) == seq![a@, b@, c@],
{
    let mut r: Vec<String> = Vec::new();
    push_text(&mut r, a);
    push_text(&mut r, b);
    push_text(&mut r, c);
    assert(texts(r@) =~= seq![a@, b@, c@]);
    r
}

/// Previews `update` for the given arguments and the configuration of the
/// project (if it has one).
#[verifier::rlimit(80)]
pub fn plan_update_command(args: &Vec<String>, verbose: bool, config: &Option<MeshstackConfig>) -> (r:
    Result<Vec<String>, MeshstackError>)
    ensures
        match r {
            Ok(lines) => update_preview(update_ask(texts(args@)), verbose, config_content(*config))
                == Ok::<Seq<Seq<char>>, Fault>(texts(lines@)),
            Err(e) => update_preview(update_ask(texts(args@)), verbose, config_content(*config))
                == Err::<Seq<Seq<char>>, Fault>(e@),
        },
{
    let takers = list2("--component", "-c");
    let check = switch_of(args, &takers, "--check");
    let apply = switch_of(args, &takers, "--apply");
    let component = option_of(args, &takers, &takers);
    let template = switch_of(args, &takers, "--template");
    let infra = switch_of(args, &takers, "--infra");
    let ghost ask = update_ask(texts(args@));
    if config.is_none() {
        return Err(
            MeshstackError::new(
                ErrorKind::ConfigMissing,
                String::from_str("meshstack.yaml not found or invalid. Run 'meshstack init' first."),
            ),
        );
    }
    let chart = match &component {
        Some(c) => match lookup(c.as_str()) {
            Ok(chart) => Some(chart),
            Err(e) => {
                return Err(e);
            },
        },
        None => None,
    };
    let mut out: Vec<String> = Vec::new();
    push_text(&mut out, "\n\u{1F504} Planning 'update' command execution:");
    push_text(&mut out, "\u{1F3AF} Update operations that would be performed:");
    assert(texts(out@) =~= seq![
        "\n\u{1F504} Planning 'update' command execution:"@,
        "\u{1F3AF} Update operations that would be performed:"@,
    ]);
    push_topic(
        &mut out,
        check,
        String::from_str("  \u{2022} Check for available updates"),
        list3(
            "    - Query Helm repositories for latest chart versions",
            "    - Compare with currently installed versions",
            "    - Check for template updates",
        ),
        verbose,
    );
    push_topic(
        &mut out,
        apply,
        String::from_str("  \u{2022} Apply all available updates automatically"),
        list2(
            "    - Update Helm charts to latest versions",
            "    - Regenerate templates from latest versions",
        ),
        verbose,
    );
    let ghost sofar = texts(out@);
    match (&component, &chart) {
        (Some(c), Some(k)) => {
            let mut title = String::from_str("  \u{2022} Update specific component: ");
            title.append(c.as_str());
            let mut details: Vec<String> = Vec::new();
            push2(&mut details, "    - Chart: ", k.as_str());
            let mut line = String::from_str("    - Command: helm upgrade ");
            line.append(c.as_str());
            line.append(" ");
            line.append(k.as_str());
            push_line(&mut details, line);
            assert(texts(details@) =~= seq![
                "    - Chart: "@ + k@,
                "    - Command: helm upgrade "@ + c@ + " "@ + k@,
            ]);
            push_topic(&mut out, true, title, details, verbose);
        },
        _ => {
            assert(texts(out@) =~= sofar + Seq::<Seq<char>>::empty());
        },
    }
    push_topic(
        &mut out,
        template,
        String::from_str("  \u{2022} Update project templates"),
        list3(
            "    - Regenerate Dockerfiles",
            "    - Update Helm chart templates",
            "    - Refresh CI/CD configurations",
        ),
        verbose,
    );
    push_topic(
        &mut out,
        infra,
        String::from_str("  \u{2022} Update infrastructure charts"),
        list3(
            "    - Update service mesh components",
            "    - Update monitoring stack",
            "    - Update ingress controllers",
        ),
        verbose,
    );
    let none: Vec<String> = Vec::new();
    assert(texts(none@) =~= Seq::<Seq<char>>::empty());
    push_topic(
        &mut out,
        !check && !apply && component.is_none() && !template && !infra,
        String::from_str("  \u{2022} Default: Check infrastructure and template updates"),
        none,
        false,
    );
    let ghost body = texts(out@);
    push_text(&mut out, PREREQUISITES);
    push_text(&mut out, "  \u{2022} meshstack.yaml configuration file must exist");
    push_text(&mut out, "  \u{2022} Helm repositories must be up to date");
    push_text(&mut out, "  \u{2022} Internet connection for checking latest versions");
    assert(texts(out@) =~= body + seq![
        PREREQUISITES@,
        "  \u{2022} meshstack.yaml configuration file must exist"@,
        "  \u{2022} Helm repositories must be up to date"@,
        "  \u{2022} Internet connection for checking latest versions"@,
    ]);
    Ok(out)
}

/// The flags of `bootstrap` that take a value.
pub open spec fn bootstrap_takers() -> Seq<Seq<char>> {
    seq!["--name"@, "-n"@]
}

/// What the arguments of `bootstrap` ask for.
pub struct BootstrapAsk {
    pub k3d: bool,
    pub skip_install: bool,
    pub name: Seq<char>,
}

/// Reads the arguments of `bootstrap`; a cluster without a name is called
/// `meshstack-dev`.
pub open spec fn bootstrap_ask(args: Seq<Seq<char>>) -> BootstrapAsk {
    BootstrapAsk {
        k3d: switch_given(args, bootstrap_takers(), "--k3d"@),
        skip_install: switch_given(args, bootstrap_takers(), "--skip-install"@),
        name: match option_value(args, bootstrap_takers(), bootstrap_takers()) {
            Some(n) => n,
            None => "meshstack-dev"@,
        },
    }
}

/// The lines for the components that a bootstrap installs.
pub open spec fn provision_lines(
    targets: Seq<(Seq<char>, Seq<char>)>,
    context: Seq<char>,
    verbose: bool,
) -> Seq<Seq<char>>
    decreases targets.len(),
{
    if targets.len() == 0 {
        seq![]
    } else {
        provision_lines(targets.drop_last(), context, verbose) + seq![
            "    - "@ + targets.last().0,
        ] + (if verbose {
            seq![
                "      Command: "@ + rendered(
                    helm_install_call(
                        targets.last().0,
                        targets.last().1,
                        false,
                        Some(context),
                        Some("dev-values.yaml"@),
                    ),
                ),
            ]
        } else {
            seq![]
        })
    }
}

/// The lines of the preview of a bootstrap.
pub open spec fn bootstrap_preview(ask: BootstrapAsk, verbose: bool) -> Seq<Seq<char>> {
    let tool = crate::bootstrap::provisioner(ask.k3d);
    let context = cluster_context(tool, ask.name);
    seq![
        "\n\u{1F680} Planning 'bootstrap' command execution:"@,
        "\u{1F3AF} Bootstrap operations that would be performed:"@,
        "  \u{2022} Create local Kubernetes cluster using "@ + tool.name(),
        "  \u{2022} Cluster name: "@ + ask.name,
    ] + (if verbose {
        seq![
            "    - Command: "@ + rendered(create_cluster_call(ask.k3d, ask.name)),
            "    - Context: "@ + context,
            "    - Set kubectl context: "@ + rendered(use_context_call(context)),
        ]
    } else {
        seq![]
    }) + (if ask.skip_install {
        seq!["  \u{2022} Skip infrastructure component installation"@]
    } else {
        seq!["  \u{2022} Install infrastructure components (dev profile):"@] + provision_lines(
            install_defaults(),
            context,
            verbose,
        )
    }) + seq![
        PREREQUISITES@,
        "  \u{2022} "@ + tool.name() + " must be installed and available in PATH"@,
        "  \u{2022} Docker must be running (required by "@ + tool.name() + ")"@,
    ] + (if ask.skip_install {
        seq![]
    } else {
        seq![
            "  \u{2022} Helm must be installed"@,
            "  \u{2022} Required Helm repositories must be added"@,
        ]
    })
}

fn push_provision_lines(
    out: &mut Vec<String>,
    targets: &Vec<ComponentRegistration>,
    context: &str,
    verbose: bool,
)
    ensures
        texts(final(out)@) == texts(old(out)@) + provision_lines(
            registrations(targets@),
            context@,
            verbose,
        ),
{
    let ghost before = texts(out@);
    let ghost all = registrations(targets@);
    let mut i: usize = 0;
    assert(texts(out@) =~= before + provision_lines(all.take(0), context@, verbose));
    while i < targets.len()
        invariant
            i <= targets.len(),
            all == registrations(targets@),
            texts(out@) == before + provision_lines(all.take(i as int), context@, verbose),
        decreases targets.len() - i,
    {
        let ghost sofar = texts(out@);
        let target = &targets[i];
        push2(out, "    - ", target.key.as_str());
        if verbose {
            let call = Invocation::helm_install(
                target.key.as_str(),
                target.chart.as_str(),
                false,
                &Some(String::from_str(context)),
                &Some(String::from_str("dev-values.yaml")),
            );
            push2(out, "      Command: ", call.render().as_str());
        }
        proof {
            assert(all.take(i as int + 1).drop_last() =~= all.take(i as int));
            assert(all.take(i as int + 1).last() == targets@[i as int]@);
            assert(texts(out@) =~= sofar + seq!["    - "@ + target@.0] + (if verbose {
                seq![
                    "      Command: "@ + rendered(
                        helm_install_call(
                            target@.0,
                            target@.1,
                            false,
                            Some(context@),
                            Some("dev-values.yaml"@),
                        ),
                    ),
                ]
            } else {
                seq![]
            }));
        }
        i += 1;
    }
    assert(all.take(targets.len() as int) =~= all);
}

/// Previews `bootstrap` for the given arguments.
pub fn plan_bootstrap_command(args: &Vec<String>, verbose: bool) -> (lines: Vec<String>)
    ensures
        texts(lines@) == bootstrap_preview(bootstrap_ask(texts(args@)), verbose),
{
    let takers = list2("--name", "-n");
    let k3d = switch_of(args, &takers, "--k3d");
    let skip_install = switch_of(args, &takers, "--skip-install");
    let name = match option_of(args, &takers, &takers) {
        Some(n) => n,
        None => String::from_str("meshstack-dev"),
    };
    let ghost ask = bootstrap_ask(texts(args@));
    assert(ask.name == name@);
    let tool = if k3d {
        Tool::K3d
    } else {
        Tool::Kind
    };
    let context = context_of(tool, name.as_str());
    let mut out: Vec<String> = Vec::new();
    push_text(&mut out, "\n\u{1F680} Planning 'bootstrap' command execution:");
    push_text(&mut out, "\u{1F3AF} Bootstrap operations that would be performed:");
    push2(&mut out, "  \u{2022} Create local Kubernetes cluster using ", tool.program());
    push2(&mut out, "  \u{2022} Cluster name: ", name.as_str());
    if verbose {
        push2(
            &mut out,
            "    - Command: ",
            Invocation::create_cluster(k3d, name.as_str()).render().as_str(),
        );
        push2(&mut out, "    - Context: ", context.as_str());
        push2(
            &mut out,
            "    - Set kubectl context: ",
            Invocation::use_context(context.as_str()).render().as_str(),
        );
    }
    let ghost head = texts(out@);
    assert(head =~= seq![
        "\n\u{1F680} Planning 'bootstrap' command execution:"@,
        "\u{1F3AF} Bootstrap operations that would be performed:"@,
        "  \u{2022} Create local Kubernetes cluster using "@ + tool.name(),
        "  \u{2022} Cluster name: "@ + ask.name,
    ] + (if verbose {
        seq![
            "    - Command: "@ + rendered(create_cluster_call(ask.k3d, ask.name)),
            "    - Context: "@ + context@,
            "    - Set kubectl context: "@ + rendered(use_context_call(context@)),
        ]
    } else {
        seq![]
    }));
    if skip_install {
        push_text(&mut out, "  \u{2022} Skip infrastructure component installation");
    } else {
        push_text(&mut out, "  \u{2022} Install infrastructure components (dev profile):");
        let targets = default_install_set();
        push_provision_lines(&mut out, &targets, context.as_str(), verbose);
    }
    let ghost body = texts(out@);
    assert(body =~= head + (if ask.skip_install {
        seq!["  \u{2022} Skip infrastructure component installation"@]
    } else {
        seq!["  \u{2022} Install infrastructure components (dev profile):"@] + provision_lines(
            install_defaults(),
            context@,
            verbose,
        )
    }));
    push_text(&mut out, PREREQUISITES);
    push3(&mut out, "  \u{2022} ", tool.program(), " must be installed and available in PATH");
    push3(&mut out, "  \u{2022} Docker must be running (required by ", tool.program(), ")");
    if !skip_install {
        push_text(&mut out, "  \u{2022} Helm must be installed");
        push_text(&mut out, "  \u{2022} Required Helm repositories must be added");
    }
    assert(texts(out@) =~= body + seq![
        PREREQUISITES@,
        "  \u{2022} "@ + tool.name() + " must be installed and available in PATH"@,
        "  \u{2022} Docker must be running (required by "@ + tool.name() + ")"@,
    ] + (if ask.skip_install {
        seq![]
    } else {
        seq![
            "  \u{2022} Helm must be installed"@,
            "  \u{2022} Required Helm repositories must be added"@,
        ]
    }));
    out
}

/// The flags of `generate` that take a value.
pub open spec fn generate_takers() -> Seq<Seq<char>> {
    seq!["--service"@, "-s"@]
}

/// What the arguments of `generate` ask for.
pub struct GenerateAsk {
    pub service: Option<Seq<char>>,
    pub all: bool,
    pub force: bool,
}

/// Reads the arguments of `generate`.
pub open spec fn generate_ask(args: Seq<Seq<char>>) -> GenerateAsk {
    GenerateAsk {
        service: option_value(args, generate_takers(), generate_takers()),
        all: switch_given(args, generate_takers(), "--all"@),
        force: switch_given(args, generate_takers(), "--force"@),
    }
}

/// The lines that say what a generation covers: a named service comes before
/// everything, everything before the project alone.
pub open spec fn scope_lines(ask: GenerateAsk, verbose: bool) -> Seq<Seq<char>> {
    match ask.service {
        Some(s) => topic(
            true,
            "  \u{2022} Generate scaffold for service: "@ + s,
            seq![
                "    - Create service directory: services/"@ + s,
                "    - Generate Dockerfile (language-specific)"@,
                "    - Generate Helm chart (Chart.yaml, templates/, values.yaml)"@,
                "    - Generate application files (if language-specific)"@,
            ],
            verbose,
        ),
        None => if ask.all {
            topic(
                true,
                "  \u{2022} Re-generate all project scaffolds and configurations"@,
                seq![
                    "    - Update project structure (services/, provision/)"@,
                    "    - Regenerate meshstack.yaml"@,
                    "    - Update CI/CD configurations"@,
                    "    - Generate environment values files"@,
                    "    - Regenerate all existing service scaffolds"@,
                ],
                verbose,
            )
        } else {
            topic(
                true,
                "  \u{2022} Re-generate project-level configurations"@,
                seq![
                    "    - Update project structure"@,
                    "    - Generate CI/CD workflows"@,
                    "    - Generate environment values files"@,
                ],
                verbose,
            )
        },
    }
}

/// The lines of the preview of a generation for a project with the given
/// configuration.
pub open spec fn generate_lines(ask: GenerateAsk, verbose: bool, config: ProjectConfig) -> Seq<
    Seq<char>,
> {
    seq![
        "\n\u{1F527} Planning 'generate' command execution:"@,
        "\u{1F3AF} Generation operations that would be performed:"@,
    ] + scope_lines(ask, verbose) + seq![
        if ask.force {
            "  \u{2022} Force overwrite existing files"@
        } else {
            "  \u{2022} Skip existing files (use --force to overwrite)"@
        },
        "\n\u{1F4CB} Current project configuration:"@,
        "  \u{2022} Project: "@ + config.project_name,
        "  \u{2022} Language: "@ + config.language,
        "  \u{2022} Service Mesh: "@ + config.service_mesh,
        "  \u{2022} CI/CD: "@ + config.ci_cd,
        PREREQUISITES@,
        "  \u{2022} meshstack.yaml configuration file must exist"@,
    ] + (if ask.force {
        seq!["  \u{2022} Existing files will be overwritten without confirmation"@]
    } else {
        seq![]
    })
}

/// The preview of a generation. Like the generation itself it is refused
/// for a project without a configuration.
pub open spec fn generate_preview(ask: GenerateAsk, verbose: bool, config: Option<ProjectConfig>) -> Result<
    Seq<Seq<char>>,
    Fault,
> {
    match config {
        None => Err(config_required()),
        Some(c) => Ok(generate_lines(ask, verbose, c)),
    }
}

fn push_scope_lines(out: &mut Vec<String>, service: &Option<String>, all: bool, verbose: bool)
    ensures
        texts(final(out)@) == texts(old(out)@) + scope_lines(
            GenerateAsk { service: opt_text(*service), all, force: false },
            verbose,
        ),
{
    match service {
        Some(s) => {
            let mut title = String::from_str("  \u{2022} Generate scaffold for service: ");
            title.append(s.as_str());
            let mut details: Vec<String> = Vec::new();
            push2(&mut details, "    - Create service directory: services/", s.as_str());
            push_text(&mut details, "    - Generate Dockerfile (language-specific)");
            push_text(
                &mut details,
                "    - Generate Helm chart (Chart.yaml, templates/, values.yaml)",
            );
            push_text(&mut details, "    - Generate application files (if language-specific)");
            assert(texts(details@) =~= seq![
                "    - Create service directory: services/"@ + s@,
                "    - Generate Dockerfile (language-specific)"@,
                "    - Generate Helm chart (Chart.yaml, templates/, values.yaml)"@,
                "    - Generate application files (if language-specific)"@,
            ]);
            push_topic(out, true, title, details, verbose);
        },
        None => {
            if all {
                let mut details: Vec<String> = Vec::new();
                push_text(&mut details, "    - Update project structure (services/, provision/)");
                push_text(&mut details, "    - Regenerate meshstack.yaml");
                push_text(&mut details, "    - Update CI/CD configurations");
                push_text(&mut details, "    - Generate environment values files");
                push_text(&mut details, "    - Regenerate all existing service scaffolds");
                assert(texts(details@) =~= seq![
                    "    - Update project structure (services/, provision/)"@,
                    "    - Regenerate meshstack.yaml"@,
                    "    - Update CI/CD configurations"@,
                    "    - Generate environment values files"@,
                    "    - Regenerate all existing service scaffolds"@,
                ]);
                push_topic(
                    out,
                    true,
                    String::from_str(
                        "  \u{2022} Re-generate all project scaffolds and configurations",
                    ),
                    details,
                    verbose,
                );
            } else {
                push_topic(
                    out,
                    true,
                    String::from_str("  \u{2022} Re-generate project-level configurations"),
                    list3(
                        "    - Update project structure",
                        "    - Generate CI/CD workflows",
                        "    - Generate environment values files",
                    ),
                    verbose,
                );
            }
        },
    }
}

/// Previews `generate` for the given arguments and the configuration of the
/// project (if it has one).
pub fn plan_generate_command(args: &Vec<String>, verbose: bool, config: &Option<MeshstackConfig>) -> (r:
    Result<Vec<String>, MeshstackError>)
    ensures
        match r {
            Ok(lines) => generate_preview(
                generate_ask(texts(args@)),
                verbose,
                config_content(*config),
            ) == Ok::<Seq<Seq<char>>, Fault>(texts(lines@)),
            Err(e) => generate_preview(
                generate_ask(texts(args@)),
                verbose,
                config_content(*config),
            ) == Err::<Seq<Seq<char>>, Fault>(e@),
        },
{
    let takers = list2("--service", "-s");
    let service = option_of(args, &takers, &takers);
    let all = switch_of(args, &takers, "--all");
    let force = switch_of(args, &takers, "--force");
    let ghost ask = generate_ask(texts(args@));
    let c = match config {
        Some(c) => c,
        None => {
            return Err(
                MeshstackError::new(
                    ErrorKind::ConfigMissing,
                    String::from_str(
                        "meshstack.yaml not found or invalid. Run 'meshstack init' first.",
                    ),
                ),
            );
        },
    };
    let mut out: Vec<String> = Vec::new();
    push_text(&mut out, "\n\u{1F527} Planning 'generate' command execution:");
    push_text(&mut out, "\u{1F3AF} Generation operations that would be performed:");
    assert(texts(out@) =~= seq![
        "\n\u{1F527} Planning 'generate' command execution:"@,
        "\u{1F3AF} Generation operations that would be performed:"@,
    ]);
    push_scope_lines(&mut out, &service, all, verbose);
    let ghost body = texts(out@);
    if force {
        push_text(&mut out, "  \u{2022} Force overwrite existing files");
    } else {
        push_text(&mut out, "  \u{2022} Skip existing files (use --force to overwrite)");
    }
    push_text(&mut out, "\n\u{1F4CB} Current project configuration:");
    push2(&mut out, "  \u{2022} Project: ", c.project_name.as_str());
    push2(&mut out, "  \u{2022} Language: ", c.language.as_str());
    push2(&mut out, "  \u{2022} Service Mesh: ", c.service_mesh.as_str());
    push2(&mut out, "  \u{2022} CI/CD: ", c.ci_cd.as_str());
    push_text(&mut out, PREREQUISITES);
    push_text(&mut out, "  \u{2022} meshstack.yaml configuration file must exist");
    if force {
        push_text(&mut out, "  \u{2022} Existing files will be overwritten without confirmation");
    }
    assert(texts(out@) =~= body + seq![
        if ask.force {
            "  \u{2022} Force overwrite existing files"@
        } else {
            "  \u{2022} Skip existing files (use --force to overwrite)"@
        },
        "\n\u{1F4CB} Current project configuration:"@,
        "  \u{2022} Project: "@ + c@.project_name,
        "  \u{2022} Language: "@ + c@.language,
        "  \u{2022} Service Mesh: "@ + c@.service_mesh,
        "  \u{2022} CI/CD: "@ + c@.ci_cd,
        PREREQUISITES@,
        "  \u{2022} meshstack.yaml configuration file must exist"@,
    ] + (if ask.force {
        seq!["  \u{2022} Existing files will be overwritten without confirmation"@]
    } else {
        seq![]
    }));
    Ok(out)
}

/// The failure for a command that has no preview.
pub open spec fn unknown_command(command: Seq<char>) -> Fault {
    Fault {
        kind: ErrorKind::UnknownTarget,
        message: "Unknown command '"@ + command
            + "' for planning. Supported commands: install, deploy, destroy, update, bootstrap, generate"@,
    }
}

/// The preview of the named command, without the lines around it.
pub open spec fn plan_body(
    command: Seq<char>,
    verbose: bool,
    args: Seq<Seq<char>>,
    config: Option<ProjectConfig>,
    listing: Option<Seq<Entry>>,
) -> Result<Seq<Seq<char>>, Fault> {
    if command == "install"@ {
        install_preview(install_request(args), verbose)
    } else if command == "deploy"@ {
        deploy_preview(deploy_request(args), verbose, config, listing)
    } else if command == "destroy"@ {
        destroy_preview(destroy_request(args), verbose, listing)
    } else if command == "update"@ {
        update_preview(update_ask(args), verbose, config)
    } else if command == "bootstrap"@ {
        Ok(bootstrap_preview(bootstrap_ask(args), verbose))
    } else if command == "generate"@ {
        generate_preview(generate_ask(args), verbose, config)
    } else {
        Err(unknown_command(command))
    }
}

/// The command line that would carry the previewed command out.
pub open spec fn invitation(command: Seq<char>, args: Seq<Seq<char>>) -> Seq<char> {
    "\u{1F4A1} To execute the planned changes, run: meshstack "@ + trimmed(
        command + " "@ + joined(args, " "@),
    )
}

/// The whole preview of a command: announced, detailed, and closed with the
/// command line that would carry it out. A command without a preview, and a
/// command that would itself be refused, give the failure and no line.
pub open spec fn plan_output(
    command: Seq<char>,
    verbose: bool,
    args: Seq<Seq<char>>,
    config: Option<ProjectConfig>,
    listing: Option<Seq<Entry>>,
) -> Result<Seq<Seq<char>>, Fault> {
    match plan_body(command, verbose, args, config, listing) {
        Err(fault) => Err(fault),
        Ok(body) => Ok(
            seq!["\u{1F4CB} Planning execution of '"@ + command + "' command..."@] + (if verbose {
                seq![
                    "\u{1F50D} Verbose mode enabled - showing detailed planning information"@,
                ]
            } else {
                seq![]
            }) + body + seq![
                "\n\u{2705} Planning completed successfully!"@,
                invitation(command, args),
            ],
        ),
    }
}

/// Previews the named command for the given arguments, the configuration of
/// the project (if it has one) and what was found at the services root.
pub fn plan_command(
    command: &str,
    verbose: bool,
    args: &Vec<String>,
    config: &Option<MeshstackConfig>,
    root: &ServicesRoot,
) -> (r: Result<Vec<String>, MeshstackError>)
    ensures
        match r {
            Ok(lines) => plan_output(
                command@,
                verbose,
                texts(args@),
                config_content(*config),
                root.listing(),
            ) == Ok::<Seq<Seq<char>>, Fault>(texts(lines@)),
            Err(e) => plan_output(
                command@,
                verbose,
                texts(args@),
                config_content(*config),
                root.listing(),
            ) == Err::<Seq<Seq<char>>, Fault>(e@),
        },
{
    let body = if same_text(command, "install") {
        plan_install_command(args, verbose)
    } else if same_text(command, "deploy") {
        plan_deploy_command(args, verbose, config, root)
    } else if same_text(command, "destroy") {
        plan_destroy_command(args, verbose, root)
    } else if same_text(command, "update") {
        plan_update_command(args, verbose, config)
    } else if same_text(command, "bootstrap") {
        Ok(plan_bootstrap_command(args, verbose))
    } else if same_text(command, "generate") {
        plan_generate_command(args, verbose, config)
    } else {
        let mut message = String::from_str("Unknown command '");
        message.append(command);
        message.append(
            "' for planning. Supported commands: install, deploy, destroy, update, bootstrap, generate",
        );
        Err(MeshstackError::new(ErrorKind::UnknownTarget, message))
    };
    let body = match body {
        Ok(lines) => lines,
        Err(e) => {
            return Err(e);
        },
    };
    let mut out: Vec<String> = Vec::new();
    push3(&mut out, "\u{1F4CB} Planning execution of '", command, "' command...");
    if verbose {
        push_text(
            &mut out,
            "\u{1F50D} Verbose mode enabled - showing detailed planning information",
        );
    }
    let ghost head = texts(out@);
    assert(head =~= seq!["\u{1F4CB} Planning execution of '"@ + command@ + "' command..."@] + (
    if verbose {
        seq!["\u{1F50D} Verbose mode enabled - showing detailed planning information"@]
    } else {
        seq![]
    }));
    let ghost inner = texts(body@);
    crate::text::push_all(&mut out, body);
    push_text(&mut out, "\n\u{2705} Planning completed successfully!");
    let mut line = String::from_str(command);
    line.append(" ");
    line.append(join(args, " ").as_str());
    push2(
        &mut out,
        "\u{1F4A1} To execute the planned changes, run: meshstack ",
        trim(line.as_str()).as_str(),
    );
    assert(texts(out@) =~= head + inner + seq![
        "\n\u{2705} Planning completed successfully!"@,
        invitation(command@, texts(args@)),
    ]);
    Ok(out)
}

} // verus!
