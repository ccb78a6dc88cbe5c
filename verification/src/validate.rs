//! Validating a project: its configuration, its cluster and its CI manifests.

use vstd::prelude::*;
use vstd::string::*;
use crate::command::{cluster_info_call, Invocation};
use crate::config::{MeshstackConfig, ProjectConfig};
use crate::error::{Fault, MeshstackError};
use crate::plan::{continued, is_halted, moves, push_call, push_step, run_or_preview, say, Move, Step};

verus! {

/// What loading the configuration came to, as mathematical values.
pub open spec fn loading(loaded: Result<MeshstackConfig, MeshstackError>) -> Result<
    ProjectConfig,
    Fault,
> {
    match loaded {
        Ok(c) => Ok(c@),
        Err(e) => Err(e@),
    }
}

/// The steps that validate the configuration: a configuration that did not
/// load ends the validation with the failure of loading it.
pub open spec fn config_check(on: bool, loaded: Result<ProjectConfig, Fault>) -> Seq<Move> {
    if on {
        seq![
            Move::Say("Validating meshstack.yaml..."@),
            match loaded {
                Ok(_) => Move::Say("meshstack.yaml is valid."@),
                Err(fault) => Move::Halt(fault),
            },
        ]
    } else {
        seq![]
    }
}

/// The steps that check that the cluster can be reached.
pub open spec fn cluster_check(on: bool, dry_run: bool) -> Seq<Move> {
    if on {
        seq![
            Move::Say("Checking Kubernetes cluster connectivity..."@),
            run_or_preview(
                cluster_info_call("current-context"@),
                "Connected to Kubernetes cluster successfully."@,
                dry_run,
            ),
        ]
    } else {
        seq![]
    }
}

/// The steps that look at the CI manifests.
pub open spec fn ci_check(on: bool, workflows_present: bool) -> Seq<Move> {
    if on {
        seq![
            Move::Say("Validating CI/CD manifests..."@),
            if workflows_present {
                Move::Say("GitHub Actions workflows directory found."@)
            } else {
                Move::Say(
                    "GitHub Actions workflows directory not found. Skipping GitHub Actions validation."@,
                )
            },
            Move::Say("ArgoCD manifests validation (placeholder): No issues found."@),
        ]
    } else {
        seq![]
    }
}

/// The steps of a validation: configuration, cluster and CI manifests, each
/// where it is asked for or everything is, and nothing behind a failure.
pub open spec fn validation_steps(
    config: bool,
    cluster: bool,
    ci: bool,
    full: bool,
    loaded: Result<ProjectConfig, Fault>,
    workflows_present: bool,
    dry_run: bool,
) -> Seq<Move> {
    continued(
        continued(
            seq![Move::Say("Validating project..."@)] + config_check(full || config, loaded),
            cluster_check(full || cluster, dry_run),
        ),
        ci_check(full || ci, workflows_present),
    )
}

/// Plans a validation. `loaded` is what loading the configuration came to,
/// `workflows_present` whether the directory of GitHub Actions workflows is
/// there.
pub fn validate_project(
    config: bool,
    cluster: bool,
    ci: bool,
    full: bool,
    loaded: &Result<MeshstackConfig, MeshstackError>,
    workflows_present: bool,
    dry_run: bool,
) -> (plan: Vec<Step>)
    ensures
        moves(plan@) == validation_steps(
            config,
            cluster,
            ci,
            full,
            loading(*loaded),
            workflows_present,
            dry_run,
        ),
{
    let mut plan: Vec<Step> = Vec::new();
    say(&mut plan, "Validating project...");
    let ghost p0 = moves(plan@);
    assert(p0 =~= seq![Move::Say("Validating project..."@)]);
    if full || config {
        say(&mut plan, "Validating meshstack.yaml...");
        match loaded {
            Ok(_) => {
                say(&mut plan, "meshstack.yaml is valid.");
            },
            Err(e) => {
                push_step(&mut plan, Step::Halt(e.duplicate()));
            },
        }
    }
    let ghost p1 = moves(plan@);
    assert(p1 =~= p0 + config_check(full || config, loading(*loaded)));
    if (full || cluster) && !is_halted(&plan) {
        say(&mut plan, "Checking Kubernetes cluster connectivity...");
        push_call(
            &mut plan,
            Invocation::cluster_info("current-context"),
            String::from_str("Connected to Kubernetes cluster successfully."),
            dry_run,
        );
    }
    let ghost p2 = moves(plan@);
    assert(p2 =~= continued(p1, cluster_check(full || cluster, dry_run)));
    if (full || ci) && !is_halted(&plan) {
        say(&mut plan, "Validating CI/CD manifests...");
        if workflows_present {
            say(&mut plan, "GitHub Actions workflows directory found.");
        } else {
            say(
                &mut plan,
                "GitHub Actions workflows directory not found. Skipping GitHub Actions validation.",
            );
        }
        say(&mut plan, "ArgoCD manifests validation (placeholder): No issues found.");
    }
    assert(moves(plan@) =~= continued(p2, ci_check(full || ci, workflows_present)));
    plan
}

} // verus!
