//! Bootstrapping a local cluster: the provisioner is probed, the cluster is
//! created unless it is there already, the cluster client is pointed at it,
//! and the default components are installed with the dev profile.

use vstd::prelude::*;
use vstd::string::*;
use crate::command::{
    cluster_context, context_of, create_cluster_call, list_clusters_call, use_context_call,
    version_call, Invocation, Tool,
};
use crate::config::MeshstackContext;

use crate::install::{install_component, install_plan};
use crate::plan::{
    moves, push_call, push_step, push_steps, run_or_preview, say, Move, Step,
};
use crate::text::{occurs_in, text_occurs};
use crate::update::Reply;

verus! {

/// The end of the message for a provisioner that cannot be run.
pub const INSTALL_HINTS: &'static str =
    " to proceed.\nInstallation instructions:\n- Kind: https://kind.sigs.k8s.io/docs/user/quick-start/#installation\n- k3d: https://k3d.io/v5.4.6/#installation";

/// The provisioner that a bootstrap uses: k3d where it is asked for, kind
/// otherwise.
pub open spec fn provisioner(use_k3d: bool) -> Tool {
    if use_k3d {
        Tool::K3d
    } else {
        Tool::Kind
    }
}

/// The message for a provisioner that cannot be run.
pub open spec fn tool_missing(tool: Tool) -> Seq<char> {
    tool.name() + " is not installed or not found in PATH. Please install "@ + tool.name()
        + INSTALL_HINTS@
}

/// A line that quotes the cluster's name between two fixed parts.
pub open spec fn quoting(before: Seq<char>, cluster: Seq<char>, after: Seq<char>) -> Move {
    Move::Say(before + cluster + after)
}

/// The first steps of a bootstrap: the provisioner is probed, and the query
/// for the clusters it knows is announced. When previewing, the probe and
/// the query are named and not run.
pub open spec fn probe_steps(use_k3d: bool, cluster: Seq<char>, dry_run: bool) -> Seq<Move> {
    let tool = provisioner(use_k3d);
    seq![
        Move::Say("\u{1F680} Bootstrapping local Kubernetes cluster..."@),
        Move::Say("Using "@ + tool.name() + " for local cluster provisioning"@),
        Move::Say("Checking if "@ + tool.name() + " is installed..."@),
    ] + (if dry_run {
        seq![Move::Preview(version_call(tool))]
    } else {
        seq![
            Move::Check { call: version_call(tool), remedy: tool_missing(tool) },
            Move::Say("\u{2705} "@ + tool.name() + " is installed"@),
        ]
    }) + seq![quoting("Checking if cluster '"@, cluster, "' exists..."@)] + (if dry_run {
        seq![Move::Preview(list_clusters_call(use_k3d))]
    } else {
        seq![]
    })
}

/// Whether the reply to the query for clusters shows the cluster: a query
/// that failed shows none.
pub open spec fn cluster_listed(listing: Option<Seq<char>>, cluster: Seq<char>) -> bool {
    match listing {
        Some(output) => text_occurs(output, cluster),
        None => false,
    }
}

/// The steps that bring the cluster about. When previewing, the cluster is
/// taken not to exist and its creation is named; otherwise what the query
/// showed is reported, and the cluster is created unless it was shown.
pub open spec fn cluster_steps(
    use_k3d: bool,
    cluster: Seq<char>,
    listing: Option<Seq<char>>,
    dry_run: bool,
) -> Seq<Move> {
    let create = seq![
        quoting("\u{1F528} Creating cluster '"@, cluster, "'..."@),
        run_or_preview(
            create_cluster_call(use_k3d, cluster),
            "\u{2705} Successfully created cluster '"@ + cluster + "'"@,
            dry_run,
        ),
    ];
    if dry_run {
        create
    } else if cluster_listed(listing, cluster) {
        seq![
            quoting("\u{2705} Cluster '"@, cluster, "' already exists"@),
            quoting("\u{2705} Cluster '"@, cluster, "' already exists"@),
        ]
    } else {
        seq![
            match listing {
                Some(_) => quoting("\u{1F4CB} Cluster '"@, cluster, "' does not exist"@),
                None => quoting(
                    "\u{1F4CB} Could not list clusters, assuming '"@,
                    cluster,
                    "' does not exist"@,
                ),
            },
        ] + create
    }
}

/// The steps that point the cluster client at the cluster.
pub open spec fn context_steps(use_k3d: bool, cluster: Seq<char>, dry_run: bool) -> Seq<Move> {
    let context = cluster_context(provisioner(use_k3d), cluster);
    seq![
        quoting("\u{1F527} Setting kubectl context to '"@, context, "'..."@),
        if dry_run {
            Move::Preview(use_context_call(context))
        } else {
            Move::Spawn {
                call: use_context_call(context),
                done: "\u{2705} Successfully set kubectl context to '"@ + context + "'"@,
                echo: false,
            }
        },
    ]
}

/// The steps that install the default components into the new cluster with
/// the dev profile, unless that is to be skipped.
pub open spec fn provision_steps(
    use_k3d: bool,
    skip_install: bool,
    cluster: Seq<char>,
    dry_run: bool,
    overlay_present: bool,
) -> Seq<Move> {
    if skip_install {
        seq![Move::Say("\u{23ED}\u{FE0F}  Skipping infrastructure component installation"@)]
    } else {
        seq![Move::Say("\n\u{1F4E6} Installing infrastructure components..."@)] + install_plan(
            None,
            Some("dev"@),
            Some(cluster_context(provisioner(use_k3d), cluster)),
            dry_run,
            overlay_present,
        )->Ok_0
    }
}

/// The lines that sum a bootstrap up.
pub open spec fn summary_steps(use_k3d: bool, skip_install: bool, cluster: Seq<char>) -> Seq<Move> {
    let tool = provisioner(use_k3d);
    seq![
        Move::Say("\n\u{2705} Local cluster bootstrap completed!"@),
        Move::Say("\u{1F527} Cluster name: "@ + cluster),
        Move::Say("\u{1F527} Tool: "@ + tool.name()),
        Move::Say("\u{1F527} Context: "@ + tool.name() + "-"@ + cluster),
    ] + (if skip_install {
        seq![]
    } else {
        seq![Move::Say("\u{1F527} Infrastructure: Installed (dev profile)"@)]
    })
}

/// The steps of a bootstrap behind the probe.
pub open spec fn bootstrap_steps(
    use_k3d: bool,
    skip_install: bool,
    cluster: Seq<char>,
    listing: Option<Seq<char>>,
    dry_run: bool,
    overlay_present: bool,
) -> Seq<Move> {
    cluster_steps(use_k3d, cluster, listing, dry_run) + context_steps(use_k3d, cluster, dry_run)
        + provision_steps(use_k3d, skip_install, cluster, dry_run, overlay_present)
        + summary_steps(use_k3d, skip_install, cluster)
}

fn push_quoting(plan: &mut Vec<Step>, before: &str, cluster: &str, after: &str)
    ensures
        moves(final(plan)@) == moves(old(plan)@).push(quoting(before@, cluster@, after@)),
{
    let mut line = String::from_str(before);
    line.append(cluster);
    line.append(after);
    push_step(plan, Step::Say(line));
}

fn tool_for(use_k3d: bool) -> (r: Tool)
    ensures
        r == provisioner(use_k3d),
{
    if use_k3d {
        Tool::K3d
    } else {
        Tool::Kind
    }
}

/// Plans the first steps of a bootstrap. `use_kind` is the default and
/// changes nothing; `use_k3d` selects k3d. Unless previewing, the caller then
/// runs the provisioner's query for clusters and hands the reply to
/// [`bootstrap_local_cluster`].
pub fn probe_local_cluster(use_kind: bool, use_k3d: bool, cluster_name: &str, dry_run: bool) -> (plan:
    Vec<Step>)
    ensures
        moves(plan@) == probe_steps(use_k3d, cluster_name@, dry_run),
{
    let tool = tool_for(use_k3d);
    let mut plan: Vec<Step> = Vec::new();
    say(&mut plan, "\u{1F680} Bootstrapping local Kubernetes cluster...");
    push_quoting(&mut plan, "Using ", tool.program(), " for local cluster provisioning");
    push_quoting(&mut plan, "Checking if ", tool.program(), " is installed...");
    if dry_run {
        push_step(&mut plan, Step::Preview(Invocation::version(tool)));
    } else {
        let mut remedy = String::from_str(tool.program());
        remedy.append(" is not installed or not found in PATH. Please install ");
        remedy.append(tool.program());
        remedy.append(INSTALL_HINTS);
        push_step(&mut plan, Step::Check { call: Invocation::version(tool), remedy });
        push_quoting(&mut plan, "\u{2705} ", tool.program(), " is installed");
    }
    push_quoting(&mut plan, "Checking if cluster '", cluster_name, "' exists...");
    if dry_run {
        push_step(&mut plan, Step::Preview(Invocation::list_clusters(use_k3d)));
    }
    assert(moves(plan@) =~= probe_steps(use_k3d, cluster_name@, dry_run));
    plan
}

fn plan_cluster(
    plan: &mut Vec<Step>,
    use_k3d: bool,
    cluster_name: &str,
    listing: &Reply,
    dry_run: bool,
)
    ensures
        moves(final(plan)@) == moves(old(plan)@) + cluster_steps(
            use_k3d,
            cluster_name@,
            listing@,
            dry_run,
        ),
{
    let mut exists = false;
    if !dry_run {
        match listing {
            Reply::Output(output) => {
                if occurs_in(output.as_str(), cluster_name) {
                    exists = true;
                    push_quoting(plan, "\u{2705} Cluster '", cluster_name, "' already exists");
                    push_quoting(plan, "\u{2705} Cluster '", cluster_name, "' already exists");
                } else {
                    push_quoting(plan, "\u{1F4CB} Cluster '", cluster_name, "' does not exist");
                }
            },
            Reply::Failed => {
                push_quoting(
                    plan,
                    "\u{1F4CB} Could not list clusters, assuming '",
                    cluster_name,
                    "' does not exist",
                );
            },
        }
    }
    if !exists {
        push_quoting(plan, "\u{1F528} Creating cluster '", cluster_name, "'...");
        let mut done = String::from_str("\u{2705} Successfully created cluster '");
        done.append(cluster_name);
        done.append("'");
        push_call(plan, Invocation::create_cluster(use_k3d, cluster_name), done, dry_run);
    }
    assert(moves(plan@) =~= moves(old(plan)@) + cluster_steps(
        use_k3d,
        cluster_name@,
        listing@,
        dry_run,
    ));
}

fn plan_context(plan: &mut Vec<Step>, use_k3d: bool, cluster_name: &str, dry_run: bool)
    ensures
        moves(final(plan)@) == moves(old(plan)@) + context_steps(use_k3d, cluster_name@, dry_run),
{
    let context = context_of(tool_for(use_k3d), cluster_name);
    push_quoting(plan, "\u{1F527} Setting kubectl context to '", context.as_str(), "'...");
    let call = Invocation::use_context(context.as_str());
    if dry_run {
        push_step(plan, Step::Preview(call));
    } else {
        let mut done = String::from_str("\u{2705} Successfully set kubectl context to '");
        done.append(context.as_str());
        done.append("'");
        push_step(plan, Step::Spawn { call, done, echo: false });
    }
    assert(moves(plan@) =~= moves(old(plan)@) + context_steps(use_k3d, cluster_name@, dry_run));
}

fn plan_summary(plan: &mut Vec<Step>, use_k3d: bool, skip_install: bool, cluster_name: &str)
    ensures
        moves(final(plan)@) == moves(old(plan)@) + summary_steps(
            use_k3d,
            skip_install,
            cluster_name@,
        ),
{
    let tool = tool_for(use_k3d);
    say(plan, "\n\u{2705} Local cluster bootstrap completed!");
    push_quoting(plan, "\u{1F527} Cluster name: ", cluster_name, "");
    push_quoting(plan, "\u{1F527} Tool: ", tool.program(), "");
    let mut line = String::from_str("\u{1F527} Context: ");
    line.append(tool.program());
    line.append("-");
    line.append(cluster_name);
    push_step(plan, Step::Say(line));
    if !skip_install {
        say(plan, "\u{1F527} Infrastructure: Installed (dev profile)");
    }
    proof {
        reveal_strlit("");
        assert("\u{1F527} Cluster name: "@ + cluster_name@ + ""@ =~= "\u{1F527} Cluster name: "@
            + cluster_name@);
        assert("\u{1F527} Tool: "@ + tool.name() + ""@ =~= "\u{1F527} Tool: "@ + tool.name());
    }
    assert(moves(plan@) =~= moves(old(plan)@) + summary_steps(
        use_k3d,
        skip_install,
        cluster_name@,
    ));
}

/// The dev profile resolves for an installation, so the installation that a
/// bootstrap asks for is never refused.
pub proof fn lemma_bootstrap_install_is_admitted(
    context: Option<Seq<char>>,
    dry_run: bool,
    overlay_present: bool,
)
    ensures
        install_plan(None, Some("dev"@), context, dry_run, overlay_present) is Ok,
{
    reveal_strlit("dev");
    reveal_strlit("custom");
    assert("dev"@.len() != "custom"@.len());
    assert(crate::profile::ProfileScope::Install.allowed()[0] == "dev"@);
}

/// Plans a bootstrap behind the probe. `listing` is the reply to the
/// provisioner's query for clusters; it is not looked at when previewing.
/// `overlay_present` says whether the overlay file of the dev profile is on
/// disk.
pub fn bootstrap_local_cluster(
    use_kind: bool,
    use_k3d: bool,
    skip_install: bool,
    cluster_name: &str,
    listing: &Reply,
    dry_run: bool,
    overlay_present: bool,
) -> (plan: Vec<Step>)
    ensures
        moves(plan@) == bootstrap_steps(
            use_k3d,
            skip_install,
            cluster_name@,
            listing@,
            dry_run,
            overlay_present,
        ),
{
    let mut plan: Vec<Step> = Vec::new();
    assert(moves(plan@) =~= Seq::<Move>::empty());
    plan_cluster(&mut plan, use_k3d, cluster_name, listing, dry_run);
    plan_context(&mut plan, use_k3d, cluster_name, dry_run);
    let ghost sofar = moves(plan@);
    if skip_install {
        say(&mut plan, "\u{23ED}\u{FE0F}  Skipping infrastructure component installation");
    } else {
        say(&mut plan, "\n\u{1F4E6} Installing infrastructure components...");
        let ctx = MeshstackContext {
            config: None,
            kube_context: Some(context_of(tool_for(use_k3d), cluster_name)),
            dry_run,
        };
        proof {
            lemma_bootstrap_install_is_admitted(ctx.context_view(), dry_run, overlay_present);
        }
        match install_component(&None, &Some(String::from_str("dev")), &ctx, overlay_present) {
            Ok(steps) => {
                push_steps(&mut plan, steps);
            },
            Err(_) => {
                assert(false);
            },
        }
    }
    assert(moves(plan@) =~= sofar + provision_steps(
        use_k3d,
        skip_install,
        cluster_name@,
        dry_run,
        overlay_present,
    ));
    plan_summary(&mut plan, use_k3d, skip_install, cluster_name);
    plan
}

} // verus!
