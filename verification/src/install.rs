//! Installing infrastructure components: which components, with which overlay,
//! in which order, and as which calls.

use vstd::prelude::*;
use vstd::string::*;
use crate::catalog::{
    assoc_catalog, catalog, default_install_set, install_defaults, lookup, registrations,
    unknown_component, ComponentRegistration,
};
use crate::command::{helm_install_call, version_call, Call, Invocation, Tool};
use crate::config::MeshstackContext;
use crate::error::{Fault, MeshstackError};
use crate::plan::{
    lemma_previews_add, lemma_spawn_count_add, lemma_spawned_add, moves, previews, push_step, say,
    say_about, spawn_count, spawned, Move, Step,
};
use crate::profile::{optional_resolution, resolve_optional_profile, ProfileScope};
use crate::text::opt_text;

verus! {

/// The message for a chart tool that cannot be run.
pub const HELM_MISSING: &'static str =
    "Helm is not installed or not found in PATH. Please install Helm to proceed. Refer to https://helm.sh/docs/intro/install/ for instructions.";

/// The components that an installation acts on: the one that is named, looked
/// up in the catalog, or the default set where none is named.
pub open spec fn install_targets(component: Option<Seq<char>>) -> Result<
    Seq<(Seq<char>, Seq<char>)>,
    Fault,
> {
    match component {
        None => Ok(install_defaults()),
        Some(key) => match assoc_catalog(key) {
            Some(chart) => Ok(seq![(key, chart)]),
            None => Err(unknown_component(key)),
        },
    }
}

/// The overlay file that is passed on: the resolved one where it is on disk,
/// none otherwise.
pub open spec fn usable_overlay(values: Option<Seq<char>>, overlay_present: bool) -> Option<
    Seq<char>,
> {
    if overlay_present {
        values
    } else {
        None
    }
}

/// The steps for one component: the announcement, then the install call, run
/// or previewed.
pub open spec fn install_target_steps(
    target: (Seq<char>, Seq<char>),
    values: Option<Seq<char>>,
    context: Option<Seq<char>>,
    dry_run: bool,
) -> Seq<Move> {
    let call = helm_install_call(target.0, target.1, dry_run, context, values);
    seq![
        Move::Say("Attempting to install "@ + target.0 + " from chart "@ + target.1),
        if dry_run {
            Move::Preview(call)
        } else {
            Move::Spawn { call, done: "Successfully deployed service: "@ + target.0, echo: true }
        },
    ]
}

/// The steps for a batch of components, one after the other in the order given.
pub open spec fn install_batch(
    targets: Seq<(Seq<char>, Seq<char>)>,
    values: Option<Seq<char>>,
    context: Option<Seq<char>>,
    dry_run: bool,
) -> Seq<Move>
    decreases targets.len(),
{
    if targets.len() == 0 {
        seq![]
    } else {
        install_batch(targets.drop_last(), values, context, dry_run) + install_target_steps(
            targets.last(),
            values,
            context,
            dry_run,
        )
    }
}

/// The steps before the batch: what is announced, the warning for an overlay
/// that is not on disk, and, unless previewing, the probe for the chart tool.
pub open spec fn install_preamble(
    component: Option<Seq<char>>,
    profile: Option<Seq<char>>,
    values: Option<Seq<char>>,
    overlay_present: bool,
    dry_run: bool,
) -> Seq<Move> {
    seq![Move::Say("Installing components..."@)] + (if component is None {
        seq![Move::Say("No component specified, installing default set."@)]
    } else {
        seq![]
    }) + (match profile {
        Some(p) => seq![Move::Say("Applying profile: "@ + p)],
        None => seq![],
    }) + (match values {
        Some(file) => if overlay_present {
            seq![]
        } else {
            seq![Move::Say("Warning: Environment values file "@ + file + " not found. Skipping."@)]
        },
        None => seq![],
    }) + (if dry_run {
        seq![]
    } else {
        seq![Move::Check { call: version_call(Tool::Helm), remedy: HELM_MISSING@ }]
    })
}

/// The whole decision for an installation. The targets are resolved first,
/// then the profile; a name that does not resolve fails the operation before
/// any step exists.
pub open spec fn install_plan(
    component: Option<Seq<char>>,
    profile: Option<Seq<char>>,
    context: Option<Seq<char>>,
    dry_run: bool,
    overlay_present: bool,
) -> Result<Seq<Move>, Fault> {
    match install_targets(component) {
        Err(fault) => Err(fault),
        Ok(targets) => match optional_resolution(ProfileScope::Install, profile) {
            Err(fault) => Err(fault),
            Ok(values) => Ok(
                install_preamble(component, profile, values, overlay_present, dry_run)
                    + install_batch(
                    targets,
                    usable_overlay(values, overlay_present),
                    context,
                    dry_run,
                ),
            ),
        },
    }
}

/// Resolves the components to install: the named one, or the default set.
pub fn resolve_install_targets(component: &Option<String>) -> (r: Result<
    Vec<ComponentRegistration>,
    MeshstackError,
>)
    ensures
        match r {
            Ok(targets) => install_targets(opt_text(*component)) == Ok::<
                Seq<(Seq<char>, Seq<char>)>,
                Fault,
            >(registrations(targets@)),
            Err(e) => install_targets(opt_text(*component)) == Err::<
                Seq<(Seq<char>, Seq<char>)>,
                Fault,
            >(e@),
        },
{
    match component {
        None => Ok(default_install_set()),
        Some(key) => match lookup(key.as_str()) {
            Ok(chart) => {
                let mut targets: Vec<ComponentRegistration> = Vec::new();
                targets.push(ComponentRegistration { key: key.clone(), chart });
                assert(registrations(targets@) =~= seq![(key@, chart@)]);
                Ok(targets)
            },
            Err(e) => Err(e),
        },
    }
}

/// Plans the installation of one component, or of the default set where none
/// is named. `overlay_present` says whether the overlay file that the profile
/// resolves to is on disk; it is not looked at where no profile is given.
pub fn install_component(
    component: &Option<String>,
    profile: &Option<String>,
    ctx: &MeshstackContext,
    overlay_present: bool,
) -> (r: Result<Vec<Step>, MeshstackError>)
    ensures
        match r {
            Ok(plan) => install_plan(
                opt_text(*component),
                opt_text(*profile),
                ctx.context_view(),
                ctx.dry_run,
                overlay_present,
            ) == Ok::<Seq<Move>, Fault>(moves(plan@)),
            Err(e) => install_plan(
                opt_text(*component),
                opt_text(*profile),
                ctx.context_view(),
                ctx.dry_run,
                overlay_present,
            ) == Err::<Seq<Move>, Fault>(e@),
        },
{
    let targets = match resolve_install_targets(component) {
        Ok(t) => t,
        Err(e) => {
            return Err(e);
        },
    };
    let values = match resolve_optional_profile(profile, ProfileScope::Install) {
        Ok(v) => v,
        Err(e) => {
            return Err(e);
        },
    };
    let mut plan: Vec<Step> = Vec::new();
    say(&mut plan, "Installing components...");
    if component.is_none() {
        say(&mut plan, "No component specified, installing default set.");
    }
    match profile {
        Some(p) => {
            say_about(&mut plan, "Applying profile: ", p.as_str());
        },
        None => {},
    }
    match &values {
        Some(file) => {
            if !overlay_present {
                let mut line = String::from_str("Warning: Environment values file ");
                line.append(file.as_str());
                line.append(" not found. Skipping.");
                push_step(&mut plan, Step::Say(line));
            }
        },
        None => {},
    }
    if !ctx.dry_run {
        push_step(
            &mut plan,
            Step::Check {
                call: Invocation::version(Tool::Helm),
                remedy: String::from_str(HELM_MISSING),
            },
        );
    }
    let ghost preamble = install_preamble(
        opt_text(*component),
        opt_text(*profile),
        opt_text(values),
        overlay_present,
        ctx.dry_run,
    );
    assert(moves(plan@) =~= preamble);
    let overlay = if overlay_present {
        values
    } else {
        None
    };
    let ghost all = registrations(targets@);
    let mut i: usize = 0;
    while i < targets.len()
        invariant
            i <= targets.len(),
            all == registrations(targets@),
            moves(plan@) == preamble + install_batch(
                all.take(i as int),
                opt_text(overlay),
                ctx.context_view(),
                ctx.dry_run,
            ),
        decreases targets.len() - i,
    {
        let target = &targets[i];
        let ghost before = moves(plan@);
        let mut line = String::from_str("Attempting to install ");
        line.append(target.key.as_str());
        line.append(" from chart ");
        line.append(target.chart.as_str());
        push_step(&mut plan, Step::Say(line));
        let call = Invocation::helm_install(
            target.key.as_str(),
            target.chart.as_str(),
            ctx.dry_run,
            &ctx.kube_context,
            &overlay,
        );
        if ctx.dry_run {
            push_step(&mut plan, Step::Preview(call));
        } else {
            let mut done = String::from_str("Successfully deployed service: ");
            done.append(target.key.as_str());
            push_step(&mut plan, Step::Spawn { call, done, echo: true });
        }
        proof {
            let next = all.take(i as int + 1);
            assert(next.drop_last() =~= all.take(i as int));
            assert(next.last() == targets@[i as int]@);
            assert(moves(plan@) =~= before + install_target_steps(
                next.last(),
                opt_text(overlay),
                ctx.context_view(),
                ctx.dry_run,
            ));
        }
        i += 1;
    }
    assert(all.take(targets.len() as int) =~= all);
    Ok(plan)
}

/// The install calls of a batch, one per target and in the order of the
/// targets.
pub open spec fn install_calls(
    targets: Seq<(Seq<char>, Seq<char>)>,
    values: Option<Seq<char>>,
    context: Option<Seq<char>>,
    dry_run: bool,
) -> Seq<Call> {
    Seq::new(
        targets.len(),
        |i: int| helm_install_call(targets[i].0, targets[i].1, dry_run, context, values),
    )
}

/// A previewed batch of N targets spawns nothing and previews exactly N calls:
/// the install call of each target, fully resolved, in target order.
pub proof fn lemma_dry_run_batch(
    targets: Seq<(Seq<char>, Seq<char>)>,
    values: Option<Seq<char>>,
    context: Option<Seq<char>>,
)
    ensures
        spawn_count(install_batch(targets, values, context, true)) == 0,
        spawned(install_batch(targets, values, context, true)) == Seq::<Call>::empty(),
        previews(install_batch(targets, values, context, true)) == install_calls(
            targets,
            values,
            context,
            true,
        ),
        previews(install_batch(targets, values, context, true)).len() == targets.len(),
    decreases targets.len(),
{
    reveal_with_fuel(spawn_count, 3);
    reveal_with_fuel(previews, 3);
    reveal_with_fuel(spawned, 3);
    if targets.len() > 0 {
        let head = install_batch(targets.drop_last(), values, context, true);
        let tail = install_target_steps(targets.last(), values, context, true);
        lemma_dry_run_batch(targets.drop_last(), values, context);
        lemma_spawn_count_add(head, tail);
        lemma_previews_add(head, tail);
        lemma_spawned_add(head, tail);
        assert(tail.drop_last() =~= seq![tail[0]]);
        assert(tail.drop_last().drop_last() =~= Seq::<Move>::empty());
        assert(previews(tail) =~= seq![
            helm_install_call(targets.last().0, targets.last().1, true, context, values),
        ]);
        assert(spawned(tail) =~= Seq::<Call>::empty());
        assert(previews(install_batch(targets, values, context, true)) =~= install_calls(
            targets,
            values,
            context,
            true,
        ));
    }
}

/// An applied batch of N targets runs exactly N calls for effect: the install
/// call of each target, in target order, and previews none.
pub proof fn lemma_applied_batch(
    targets: Seq<(Seq<char>, Seq<char>)>,
    values: Option<Seq<char>>,
    context: Option<Seq<char>>,
)
    ensures
        spawned(install_batch(targets, values, context, false)) == install_calls(
            targets,
            values,
            context,
            false,
        ),
        previews(install_batch(targets, values, context, false)) == Seq::<Call>::empty(),
    decreases targets.len(),
{
    reveal_with_fuel(previews, 3);
    reveal_with_fuel(spawned, 3);
    if targets.len() > 0 {
        let head = install_batch(targets.drop_last(), values, context, false);
        let tail = install_target_steps(targets.last(), values, context, false);
        lemma_applied_batch(targets.drop_last(), values, context);
        lemma_previews_add(head, tail);
        lemma_spawned_add(head, tail);
        assert(tail.drop_last() =~= seq![tail[0]]);
        assert(tail.drop_last().drop_last() =~= Seq::<Move>::empty());
        assert(spawned(tail) =~= seq![
            helm_install_call(targets.last().0, targets.last().1, false, context, values),
        ]);
        assert(previews(tail) =~= Seq::<Call>::empty());
        assert(spawned(install_batch(targets, values, context, false)) =~= install_calls(
            targets,
            values,
            context,
            false,
        ));
    }
}

/// Whatever else is asked for, a previewed installation spawns no process at
/// all, and previews exactly one call per resolved component: that
/// component's install call with the flags in their fixed order.
pub proof fn lemma_dry_run_install(
    component: Option<Seq<char>>,
    profile: Option<Seq<char>>,
    context: Option<Seq<char>>,
    overlay_present: bool,
)
    requires
        install_plan(component, profile, context, true, overlay_present) is Ok,
    ensures
        ({
            let plan = install_plan(component, profile, context, true, overlay_present)->Ok_0;
            let targets = install_targets(component)->Ok_0;
            let values = usable_overlay(
                optional_resolution(ProfileScope::Install, profile)->Ok_0,
                overlay_present,
            );
            &&& spawn_count(plan) == 0
            &&& spawned(plan) == Seq::<Call>::empty()
            &&& previews(plan) == install_calls(targets, values, context, true)
            &&& previews(plan).len() == targets.len()
        }),
{
    let targets = install_targets(component)->Ok_0;
    let resolved = optional_resolution(ProfileScope::Install, profile)->Ok_0;
    let values = usable_overlay(resolved, overlay_present);
    let preamble = install_preamble(component, profile, resolved, overlay_present, true);
    let batch = install_batch(targets, values, context, true);
    lemma_dry_run_batch(targets, values, context);
    crate::plan::lemma_quiet_plan(preamble);
    crate::plan::lemma_no_previews(preamble);
    lemma_spawn_count_add(preamble, batch);
    lemma_previews_add(preamble, batch);
    lemma_spawned_add(preamble, batch);
    assert(previews(preamble + batch) =~= previews(batch));
    assert(spawned(preamble + batch) =~= spawned(batch));
}

/// An applied installation runs, for effect, exactly one call per resolved
/// component, in the order of the components.
pub proof fn lemma_applied_install(
    component: Option<Seq<char>>,
    profile: Option<Seq<char>>,
    context: Option<Seq<char>>,
    overlay_present: bool,
)
    requires
        install_plan(component, profile, context, false, overlay_present) is Ok,
    ensures
        ({
            let plan = install_plan(component, profile, context, false, overlay_present)->Ok_0;
            let targets = install_targets(component)->Ok_0;
            let values = usable_overlay(
                optional_resolution(ProfileScope::Install, profile)->Ok_0,
                overlay_present,
            );
            &&& spawned(plan) == install_calls(targets, values, context, false)
            &&& previews(plan) == Seq::<Call>::empty()
        }),
{
    let targets = install_targets(component)->Ok_0;
    let resolved = optional_resolution(ProfileScope::Install, profile)->Ok_0;
    let values = usable_overlay(resolved, overlay_present);
    let preamble = install_preamble(component, profile, resolved, overlay_present, false);
    let batch = install_batch(targets, values, context, false);
    lemma_applied_batch(targets, values, context);
    lemma_preamble_runs_nothing(component, profile, resolved, overlay_present, false);
    lemma_previews_add(preamble, batch);
    lemma_spawned_add(preamble, batch);
    assert(previews(preamble + batch) =~= previews(batch));
    assert(spawned(preamble + batch) =~= spawned(batch));
}

/// The steps before the batch run nothing for effect and preview nothing.
pub proof fn lemma_preamble_runs_nothing(
    component: Option<Seq<char>>,
    profile: Option<Seq<char>>,
    values: Option<Seq<char>>,
    overlay_present: bool,
    dry_run: bool,
)
    ensures
        spawned(install_preamble(component, profile, values, overlay_present, dry_run))
            == Seq::<Call>::empty(),
        previews(install_preamble(component, profile, values, overlay_present, dry_run))
            == Seq::<Call>::empty(),
{
    let preamble = install_preamble(component, profile, values, overlay_present, dry_run);
    crate::plan::lemma_no_previews(preamble);
    crate::plan::lemma_no_effects(preamble);
}

/// With no component named, an installation resolves to the default set: five
/// components in catalog order, vault not among them.
pub proof fn lemma_install_defaults_to_five()
    ensures
        install_targets(None) == Ok::<Seq<(Seq<char>, Seq<char>)>, Fault>(install_defaults()),
        crate::catalog::keys_of(install_defaults()) == seq![
            "istio"@,
            "prometheus"@,
            "grafana"@,
            "cert-manager"@,
            "nginx-ingress"@,
        ],
        !crate::catalog::keys_of(install_defaults()).contains("vault"@),
{
    crate::catalog::lemma_default_sets();
}

/// An installation with a profile name that is neither allowed nor "custom"
/// has no plan: it fails as an unknown target before any step exists.
pub proof fn lemma_install_refuses_unknown_profile(
    component: Option<Seq<char>>,
    name: Seq<char>,
    context: Option<Seq<char>>,
    dry_run: bool,
    overlay_present: bool,
)
    requires
        !ProfileScope::Install.allowed().contains(name),
        name != "custom"@,
    ensures
        install_plan(component, Some(name), context, dry_run, overlay_present) is Err,
        install_plan(component, Some(name), context, dry_run, overlay_present)->Err_0.kind
            == crate::error::ErrorKind::UnknownTarget,
        install_targets(component) is Ok ==> install_plan(
            component,
            Some(name),
            context,
            dry_run,
            overlay_present,
        ) == Err::<Seq<Move>, Fault>(crate::profile::unknown_profile(ProfileScope::Install, name)),
{
}

/// An installation with the profile "custom" has no plan: where its
/// components resolve, it fails as not implemented.
pub proof fn lemma_install_refuses_custom_profile(
    component: Option<Seq<char>>,
    context: Option<Seq<char>>,
    dry_run: bool,
    overlay_present: bool,
)
    requires
        install_targets(component) is Ok,
    ensures
        install_plan(component, Some("custom"@), context, dry_run, overlay_present) == Err::<
            Seq<Move>,
            Fault,
        >(crate::profile::custom_profile()),
{
}

/// An installation of a component that the catalog does not hold has no plan:
/// it fails with the valid keys listed.
pub proof fn lemma_install_refuses_unknown_component(
    key: Seq<char>,
    profile: Option<Seq<char>>,
    context: Option<Seq<char>>,
    dry_run: bool,
    overlay_present: bool,
)
    requires
        !crate::catalog::keys_of(catalog()).contains(key),
    ensures
        install_plan(Some(key), profile, context, dry_run, overlay_present) == Err::<
            Seq<Move>,
            Fault,
        >(unknown_component(key)),
{
    crate::catalog::lemma_lookup_is_membership(key);
}

} // verus!
