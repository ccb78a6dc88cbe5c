//! Tearing down releases: one service, one component, or everything. Nothing
//! is uninstalled without confirmation.

use vstd::prelude::*;
use vstd::string::*;
use crate::catalog::{
    assoc_catalog, default_destroy_set, destroy_defaults, lookup, unknown_component,
};
use crate::command::{helm_uninstall_call, release_of, service_release, Call, Invocation};
use crate::config::MeshstackContext;
use crate::discovery::{service_names, sorted_directories, Entry, ServicesRoot};
use crate::error::{Fault, MeshstackError};
use crate::plan::{
    lemma_previews_add, lemma_spawn_count_add, lemma_spawned_add, moves, previews, push_call,
    push_step, run_or_preview, say, say_about, spawn_count, spawned, Move, Step,
};
use crate::text::{opt_text, push_all, push_line, texts};

verus! {

/// The line that closes a teardown that was asked for and not confirmed.
pub const NOT_CONFIRMED: &'static str =
    "Dry run complete. No resources were destroyed. Use --confirm to proceed.";

/// The line that closes a confirmed teardown.
pub const CONFIRMED: &'static str = "Confirmation received. Proceeding with destruction.";

/// The line on the project's own files, which a teardown leaves in place.
pub const LOCAL_FILES: &'static str =
    "Local project files (meshstack.yaml, services/, provision/) would be removed with --all. This is a placeholder.";

/// The release names of a list of services, in order.
pub open spec fn service_releases(services: Seq<Seq<char>>) -> Seq<Seq<char>> {
    services.map_values(|s: Seq<char>| service_release(s))
}

/// The services that a full teardown finds: those below the root, or none
/// where there is no root.
pub open spec fn services_found(listing: Option<Seq<Entry>>) -> Seq<Seq<char>> {
    match listing {
        Some(entries) => service_names(entries),
        None => seq![],
    }
}

/// Whether a teardown names anything to destroy.
pub open spec fn selects(service: Option<Seq<char>>, component: Option<Seq<char>>, full: bool) -> bool {
    service is Some || component is Some || full
}

/// The releases that a teardown resolves to, in the order they are handled:
/// the named service, the named component, and for a full teardown every
/// component of the catalog followed by every service found.
pub open spec fn destroy_releases(
    service: Option<Seq<char>>,
    component: Option<Seq<char>>,
    full: bool,
    services: Seq<Seq<char>>,
) -> Seq<Seq<char>> {
    (match service {
        Some(s) => seq![service_release(s)],
        None => seq![],
    }) + (match component {
        Some(c) => seq![c],
        None => seq![],
    }) + (if full {
        destroy_defaults() + service_releases(services)
    } else {
        seq![]
    })
}

/// The steps for one release: confirmed, the uninstall call, run or
/// previewed; not confirmed, only a line that says what would be done.
pub open spec fn uninstall_steps(
    release: Seq<char>,
    context: Option<Seq<char>>,
    confirmed: bool,
    dry_run: bool,
) -> Seq<Move> {
    if confirmed {
        seq![
            Move::Say("Uninstalling Helm release: "@ + release + "..."@),
            run_or_preview(
                helm_uninstall_call(release, context),
                "Successfully uninstalled Helm release: "@ + release,
                dry_run,
            ),
        ]
    } else {
        seq![Move::Say("Would uninstall Helm release: "@ + release + " (not confirmed)"@)]
    }
}

/// The steps for a group of releases: each is announced under its name, then
/// handled.
pub open spec fn teardown_batch(
    label: Seq<char>,
    names: Seq<Seq<char>>,
    releases: Seq<Seq<char>>,
    context: Option<Seq<char>>,
    confirmed: bool,
    dry_run: bool,
) -> Seq<Move>
    decreases names.len(),
{
    if names.len() == 0 || releases.len() != names.len() {
        seq![]
    } else {
        teardown_batch(
            label,
            names.drop_last(),
            releases.drop_last(),
            context,
            confirmed,
            dry_run,
        ) + seq![Move::Say(label + names.last())] + uninstall_steps(
            releases.last(),
            context,
            confirmed,
            dry_run,
        )
    }
}

/// The steps for the named service, if one is named.
pub open spec fn service_part(
    service: Option<Seq<char>>,
    context: Option<Seq<char>>,
    confirm: bool,
    dry_run: bool,
) -> Seq<Move> {
    match service {
        Some(s) => seq![Move::Say("Destroying service: "@ + s)] + uninstall_steps(
            service_release(s),
            context,
            confirm,
            dry_run,
        ),
        None => seq![],
    }
}

/// The steps for the named component, if one is named.
pub open spec fn component_part(
    component: Option<Seq<char>>,
    context: Option<Seq<char>>,
    confirm: bool,
    dry_run: bool,
) -> Seq<Move> {
    match component {
        Some(c) => seq![Move::Say("Destroying component: "@ + c)] + uninstall_steps(
            c,
            context,
            confirm,
            dry_run,
        ),
        None => seq![],
    }
}

/// The steps of a full teardown: every component of the catalog, then every
/// service found.
pub open spec fn full_part(
    full: bool,
    services: Seq<Seq<char>>,
    context: Option<Seq<char>>,
    confirm: bool,
    dry_run: bool,
) -> Seq<Move> {
    if full {
        seq![Move::Say("Destroying all resources."@)] + teardown_batch(
            "Uninstalling infrastructure component: "@,
            destroy_defaults(),
            destroy_defaults(),
            context,
            confirm,
            dry_run,
        ) + teardown_batch(
            "Uninstalling service: "@,
            services,
            service_releases(services),
            context,
            confirm,
            dry_run,
        ) + seq![Move::Say(LOCAL_FILES@)]
    } else {
        seq![]
    }
}

/// The closing line: the confirmation is acknowledged, or its absence is
/// pointed out where something was to be destroyed.
pub open spec fn closing_part(selected: bool, confirm: bool) -> Seq<Move> {
    if confirm {
        seq![Move::Say(CONFIRMED@)]
    } else if selected {
        seq![Move::Say(NOT_CONFIRMED@)]
    } else {
        seq![]
    }
}

/// The steps of a teardown.
pub open spec fn destroy_steps(
    service: Option<Seq<char>>,
    component: Option<Seq<char>>,
    full: bool,
    services: Seq<Seq<char>>,
    context: Option<Seq<char>>,
    confirm: bool,
    dry_run: bool,
) -> Seq<Move> {
    seq![Move::Say("Destroying project..."@)] + service_part(service, context, confirm, dry_run)
        + component_part(component, context, confirm, dry_run) + full_part(
        full,
        services,
        context,
        confirm,
        dry_run,
    ) + closing_part(selects(service, component, full), confirm)
}

/// Why a teardown is refused before any step exists: it names a component
/// that the catalog does not hold.
pub open spec fn destroy_refusal(component: Option<Seq<char>>) -> Option<Fault> {
    match component {
        Some(c) => if assoc_catalog(c) is None {
            Some(unknown_component(c))
        } else {
            None
        },
        None => None,
    }
}

/// What `destroy_project` decides: the releases resolved, and the steps.
#[derive(Debug)]
pub struct Destruction {
    pub releases: Vec<String>,
    pub steps: Vec<Step>,
}

fn plan_uninstall(
    plan: &mut Vec<Step>,
    release: &str,
    context: &Option<String>,
    confirmed: bool,
    dry_run: bool,
)
    ensures
        moves(final(plan)@) == moves(old(plan)@) + uninstall_steps(
            release@,
            opt_text(*context),
            confirmed,
            dry_run,
        ),
{
    if confirmed {
        let mut line = String::from_str("Uninstalling Helm release: ");
        line.append(release);
        line.append("...");
        push_step(plan, Step::Say(line));
        let mut done = String::from_str("Successfully uninstalled Helm release: ");
        done.append(release);
        push_call(plan, Invocation::helm_uninstall(release, context), done, dry_run);
    } else {
        let mut line = String::from_str("Would uninstall Helm release: ");
        line.append(release);
        line.append(" (not confirmed)");
        push_step(plan, Step::Say(line));
    }
    assert(moves(plan@) =~= moves(old(plan)@) + uninstall_steps(
        release@,
        opt_text(*context),
        confirmed,
        dry_run,
    ));
}

fn plan_teardown(
    plan: &mut Vec<Step>,
    label: &str,
    names: &Vec<String>,
    releases: &Vec<String>,
    context: &Option<String>,
    confirmed: bool,
    dry_run: bool,
)
    requires
        names.len() == releases.len(),
    ensures
        moves(final(plan)@) == moves(old(plan)@) + teardown_batch(
            label@,
            texts(names@),
            texts(releases@),
            opt_text(*context),
            confirmed,
            dry_run,
        ),
{
    let ghost before = moves(plan@);
    let ghost all = texts(names@);
    let ghost out = texts(releases@);
    let mut i: usize = 0;
    assert(moves(plan@) =~= before + teardown_batch(
        label@,
        all.take(0),
        out.take(0),
        opt_text(*context),
        confirmed,
        dry_run,
    ));
    while i < names.len()
        invariant
            i <= names.len(),
            names.len() == releases.len(),
            all == texts(names@),
            out == texts(releases@),
            moves(plan@) == before + teardown_batch(
                label@,
                all.take(i as int),
                out.take(i as int),
                opt_text(*context),
                confirmed,
                dry_run,
            ),
        decreases names.len() - i,
    {
        let ghost sofar = moves(plan@);
        say_about(plan, label, names[i].as_str());
        plan_uninstall(plan, releases[i].as_str(), context, confirmed, dry_run);
        proof {
            assert(all.take(i as int + 1).drop_last() =~= all.take(i as int));
            assert(out.take(i as int + 1).drop_last() =~= out.take(i as int));
            assert(all.take(i as int + 1).last() == names@[i as int]@);
            assert(out.take(i as int + 1).last() == releases@[i as int]@);
            assert(moves(plan@) =~= sofar + seq![Move::Say(label@ + names@[i as int]@)]
                + uninstall_steps(releases@[i as int]@, opt_text(*context), confirmed, dry_run));
        }
        i += 1;
    }
    assert(all.take(names.len() as int) =~= all);
    assert(out.take(names.len() as int) =~= out);
}

fn releases_of(services: &Vec<String>) -> (r: Vec<String>)
    ensures
        texts(r@) == service_releases(texts(services@)),
        r.len() == services.len(),
{
    let mut r: Vec<String> = Vec::new();
    let mut i: usize = 0;
    while i < services.len()
        invariant
            i <= services.len(),
            r.len() == i,
            texts(r@) == service_releases(texts(services@)).take(i as int),
        decreases services.len() - i,
    {
        push_line(&mut r, release_of(services[i].as_str()));
        assert(texts(r@) =~= service_releases(texts(services@)).take(i as int + 1));
        i += 1;
    }
    assert(service_releases(texts(services@)).take(services.len() as int) =~= service_releases(
        texts(services@),
    ));
    r
}

fn plan_named(
    plan: &mut Vec<Step>,
    releases: &mut Vec<String>,
    service: &Option<String>,
    component: &Option<String>,
    context: &Option<String>,
    confirm: bool,
    dry_run: bool,
)
    ensures
        moves(final(plan)@) == moves(old(plan)@) + service_part(
            opt_text(*service),
            opt_text(*context),
            confirm,
            dry_run,
        ) + component_part(opt_text(*component), opt_text(*context), confirm, dry_run),
        texts(final(releases)@) == texts(old(releases)@) + destroy_releases(
            opt_text(*service),
            opt_text(*component),
            false,
            seq![],
        ),
{
    match service {
        Some(s) => {
            let release = release_of(s.as_str());
            say_about(plan, "Destroying service: ", s.as_str());
            plan_uninstall(plan, release.as_str(), context, confirm, dry_run);
            push_line(releases, release);
        },
        None => {},
    }
    let ghost p1 = moves(plan@);
    assert(p1 =~= moves(old(plan)@) + service_part(
        opt_text(*service),
        opt_text(*context),
        confirm,
        dry_run,
    ));
    match component {
        Some(c) => {
            say_about(plan, "Destroying component: ", c.as_str());
            plan_uninstall(plan, c.as_str(), context, confirm, dry_run);
            push_line(releases, c.clone());
        },
        None => {},
    }
    assert(moves(plan@) =~= p1 + component_part(
        opt_text(*component),
        opt_text(*context),
        confirm,
        dry_run,
    ));
    assert(texts(releases@) =~= texts(old(releases)@) + destroy_releases(
        opt_text(*service),
        opt_text(*component),
        false,
        seq![],
    ));
}

fn plan_full(
    plan: &mut Vec<Step>,
    releases: &mut Vec<String>,
    full: bool,
    services: &Vec<String>,
    context: &Option<String>,
    confirm: bool,
    dry_run: bool,
)
    ensures
        moves(final(plan)@) == moves(old(plan)@) + full_part(
            full,
            texts(services@),
            opt_text(*context),
            confirm,
            dry_run,
        ),
        texts(final(releases)@) == texts(old(releases)@) + (if full {
            destroy_defaults() + service_releases(texts(services@))
        } else {
            seq![]
        }),
{
    if full {
        say(plan, "Destroying all resources.");
        let keys = default_destroy_set();
        assert(keys.len() == texts(keys@).len());
        plan_teardown(
            plan,
            "Uninstalling infrastructure component: ",
            &keys,
            &keys,
            context,
            confirm,
            dry_run,
        );
        let named = releases_of(services);
        plan_teardown(plan, "Uninstalling service: ", services, &named, context, confirm, dry_run);
        say(plan, LOCAL_FILES);
        push_all(releases, keys);
        push_all(releases, named);
        assert(moves(plan@) =~= moves(old(plan)@) + full_part(
            full,
            texts(services@),
            opt_text(*context),
            confirm,
            dry_run,
        ));
        assert(texts(releases@) =~= texts(old(releases)@) + (destroy_defaults() + service_releases(
            texts(services@),
        )));
    } else {
        assert(moves(plan@) =~= moves(old(plan)@) + full_part(
            full,
            texts(services@),
            opt_text(*context),
            confirm,
            dry_run,
        ));
        assert(texts(releases@) =~= texts(old(releases)@) + Seq::<Seq<char>>::empty());
    }
}

/// Plans a teardown. `all` asks for a full teardown as `full` does. `root` is
/// what was found at the services root: a full teardown takes the services
/// from it. Without `confirm` the releases are resolved and reported, and no
/// uninstall call is planned.
pub fn destroy_project(
    service: &Option<String>,
    component: &Option<String>,
    full: bool,
    ctx: &MeshstackContext,
    confirm: bool,
    all: bool,
    root: &ServicesRoot,
) -> (r: Result<Destruction, MeshstackError>)
    ensures
        match r {
            Ok(d) => {
                &&& destroy_refusal(opt_text(*component)) is None
                &&& texts(d.releases@) == destroy_releases(
                    opt_text(*service),
                    opt_text(*component),
                    full || all,
                    services_found(root.listing()),
                )
                &&& moves(d.steps@) == destroy_steps(
                    opt_text(*service),
                    opt_text(*component),
                    full || all,
                    services_found(root.listing()),
                    ctx.context_view(),
                    confirm,
                    ctx.dry_run,
                )
            },
            Err(e) => destroy_refusal(opt_text(*component)) == Some(e@),
        },
{
    match component {
        Some(c) => {
            match lookup(c.as_str()) {
                Ok(_) => {},
                Err(e) => {
                    return Err(e);
                },
            }
        },
        None => {},
    }
    let destroy_full = full || all;
    let services: Vec<String> = match root {
        ServicesRoot::Present(items) => sorted_directories(items),
        ServicesRoot::Absent => Vec::new(),
    };
    assert(texts(services@) =~= services_found(root.listing()));
    let mut releases: Vec<String> = Vec::new();
    let mut plan: Vec<Step> = Vec::new();
    say(&mut plan, "Destroying project...");
    assert(moves(plan@) =~= seq![Move::Say("Destroying project..."@)]);
    assert(texts(releases@) =~= Seq::<Seq<char>>::empty());
    plan_named(
        &mut plan,
        &mut releases,
        service,
        component,
        &ctx.kube_context,
        confirm,
        ctx.dry_run,
    );
    plan_full(
        &mut plan,
        &mut releases,
        destroy_full,
        &services,
        &ctx.kube_context,
        confirm,
        ctx.dry_run,
    );
    let ghost body = moves(plan@);
    let selected = service.is_some() || component.is_some() || destroy_full;
    if confirm {
        say(&mut plan, CONFIRMED);
    } else if selected {
        say(&mut plan, NOT_CONFIRMED);
    }
    assert(moves(plan@) =~= body + closing_part(selected, confirm));
    assert(texts(releases@) =~= destroy_releases(
        opt_text(*service),
        opt_text(*component),
        destroy_full,
        services_found(root.listing()),
    ));
    Ok(Destruction { releases, steps: plan })
}

/// The uninstall calls of a list of releases, one per release and in order.
pub open spec fn uninstall_calls(releases: Seq<Seq<char>>, context: Option<Seq<char>>) -> Seq<Call> {
    Seq::new(releases.len(), |i: int| helm_uninstall_call(releases[i], context))
}

/// The calls that the steps of one confirmed release run and preview.
pub proof fn lemma_uninstall_steps(
    release: Seq<char>,
    context: Option<Seq<char>>,
    confirmed: bool,
    dry_run: bool,
)
    ensures
        spawned(uninstall_steps(release, context, confirmed, dry_run)) == (if confirmed
            && !dry_run {
            seq![helm_uninstall_call(release, context)]
        } else {
            seq![]
        }),
        previews(uninstall_steps(release, context, confirmed, dry_run)) == (if confirmed
            && dry_run {
            seq![helm_uninstall_call(release, context)]
        } else {
            seq![]
        }),
        spawn_count(uninstall_steps(release, context, confirmed, dry_run)) == (if confirmed
            && !dry_run {
            1nat
        } else {
            0nat
        }),
{
    reveal_with_fuel(spawned, 3);
    reveal_with_fuel(previews, 3);
    reveal_with_fuel(spawn_count, 3);
    let steps = uninstall_steps(release, context, confirmed, dry_run);
    if confirmed {
        assert(steps.drop_last() =~= seq![steps[0]]);
        assert(steps.drop_last().drop_last() =~= Seq::<Move>::empty());
    } else {
        assert(steps.drop_last() =~= Seq::<Move>::empty());
    }
    assert(spawned(steps) =~= (if confirmed && !dry_run {
        seq![helm_uninstall_call(release, context)]
    } else {
        seq![]
    }));
    assert(previews(steps) =~= (if confirmed && dry_run {
        seq![helm_uninstall_call(release, context)]
    } else {
        seq![]
    }));
}

/// The calls that a group of releases runs and previews: confirmed and
/// applied, one uninstall call per release; confirmed and previewed, one
/// preview per release; not confirmed, nothing.
pub proof fn lemma_teardown_batch(
    label: Seq<char>,
    names: Seq<Seq<char>>,
    releases: Seq<Seq<char>>,
    context: Option<Seq<char>>,
    confirmed: bool,
    dry_run: bool,
)
    requires
        names.len() == releases.len(),
    ensures
        spawned(teardown_batch(label, names, releases, context, confirmed, dry_run)) == (
        if confirmed && !dry_run {
            uninstall_calls(releases, context)
        } else {
            seq![]
        }),
        previews(teardown_batch(label, names, releases, context, confirmed, dry_run)) == (
        if confirmed && dry_run {
            uninstall_calls(releases, context)
        } else {
            seq![]
        }),
        spawn_count(teardown_batch(label, names, releases, context, confirmed, dry_run)) == (
        if confirmed && !dry_run {
            releases.len()
        } else {
            0nat
        }),
    decreases names.len(),
{
    let batch = teardown_batch(label, names, releases, context, confirmed, dry_run);
    if names.len() == 0 {
        assert(spawned(batch) =~= uninstall_calls(releases, context));
        assert(previews(batch) =~= uninstall_calls(releases, context));
    } else {
        let head = teardown_batch(
            label,
            names.drop_last(),
            releases.drop_last(),
            context,
            confirmed,
            dry_run,
        );
        let line = seq![Move::Say(label + names.last())];
        let tail = uninstall_steps(releases.last(), context, confirmed, dry_run);
        lemma_teardown_batch(
            label,
            names.drop_last(),
            releases.drop_last(),
            context,
            confirmed,
            dry_run,
        );
        lemma_uninstall_steps(releases.last(), context, confirmed, dry_run);
        crate::plan::lemma_no_effects(line);
        crate::plan::lemma_no_previews(line);
        crate::plan::lemma_quiet_plan(line);
        lemma_spawned_add(head, line);
        lemma_spawned_add(head + line, tail);
        lemma_previews_add(head, line);
        lemma_previews_add(head + line, tail);
        lemma_spawn_count_add(head, line);
        lemma_spawn_count_add(head + line, tail);
        if confirmed && !dry_run {
            assert(spawned(batch) =~= uninstall_calls(releases, context));
        } else {
            assert(spawned(batch) =~= Seq::<Call>::empty());
        }
        if confirmed && dry_run {
            assert(previews(batch) =~= uninstall_calls(releases, context));
        } else {
            assert(previews(batch) =~= Seq::<Call>::empty());
        }
    }
}

/// What a teardown runs and previews. Without confirmation: nothing, however
/// much is selected. With confirmation: exactly one uninstall call per
/// resolved release, in the order of the releases; run where changes are
/// applied, previewed where they are not.
pub proof fn lemma_destroy_calls(
    service: Option<Seq<char>>,
    component: Option<Seq<char>>,
    full: bool,
    services: Seq<Seq<char>>,
    context: Option<Seq<char>>,
    confirm: bool,
    dry_run: bool,
)
    ensures
        spawned(destroy_steps(service, component, full, services, context, confirm, dry_run)) == (
        if confirm && !dry_run {
            uninstall_calls(destroy_releases(service, component, full, services), context)
        } else {
            seq![]
        }),
        previews(destroy_steps(service, component, full, services, context, confirm, dry_run)) == (
        if confirm && dry_run {
            uninstall_calls(destroy_releases(service, component, full, services), context)
        } else {
            seq![]
        }),
        spawn_count(destroy_steps(service, component, full, services, context, confirm, dry_run))
            == (if confirm && !dry_run {
            destroy_releases(service, component, full, services).len()
        } else {
            0nat
        }),
{
    let header = seq![Move::Say("Destroying project..."@)];
    let a = service_part(service, context, confirm, dry_run);
    let b = component_part(component, context, confirm, dry_run);
    let c = full_part(full, services, context, confirm, dry_run);
    let d = closing_part(selects(service, component, full), confirm);
    let releases = destroy_releases(service, component, full, services);
    lemma_part_calls(service, component, full, services, context, confirm, dry_run);
    crate::plan::lemma_no_effects(header);
    crate::plan::lemma_no_previews(header);
    crate::plan::lemma_quiet_plan(header);
    crate::plan::lemma_no_effects(d);
    crate::plan::lemma_no_previews(d);
    crate::plan::lemma_quiet_plan(d);
    lemma_spawned_add(header, a);
    lemma_spawned_add(header + a, b);
    lemma_spawned_add(header + a + b, c);
    lemma_spawned_add(header + a + b + c, d);
    lemma_previews_add(header, a);
    lemma_previews_add(header + a, b);
    lemma_previews_add(header + a + b, c);
    lemma_previews_add(header + a + b + c, d);
    lemma_spawn_count_add(header, a);
    lemma_spawn_count_add(header + a, b);
    lemma_spawn_count_add(header + a + b, c);
    lemma_spawn_count_add(header + a + b + c, d);
    let plan = destroy_steps(service, component, full, services, context, confirm, dry_run);
    if confirm && !dry_run {
        assert(spawned(plan) =~= uninstall_calls(releases, context));
    } else {
        assert(spawned(plan) =~= Seq::<Call>::empty());
    }
    if confirm && dry_run {
        assert(previews(plan) =~= uninstall_calls(releases, context));
    } else {
        assert(previews(plan) =~= Seq::<Call>::empty());
    }
}

/// What each part of a teardown runs and previews.
pub proof fn lemma_part_calls(
    service: Option<Seq<char>>,
    component: Option<Seq<char>>,
    full: bool,
    services: Seq<Seq<char>>,
    context: Option<Seq<char>>,
    confirm: bool,
    dry_run: bool,
)
    ensures
        ({
            let a = service_part(service, context, confirm, dry_run);
            let b = component_part(component, context, confirm, dry_run);
            let c = full_part(full, services, context, confirm, dry_run);
            let ra = destroy_releases(service, None, false, seq![]);
            let rb = destroy_releases(None, component, false, seq![]);
            let rc = destroy_releases(None, None, full, services);
            &&& destroy_releases(service, component, full, services) == ra + rb + rc
            &&& spawned(a) == (if confirm && !dry_run {
                uninstall_calls(ra, context)
            } else {
                seq![]
            })
            &&& spawned(b) == (if confirm && !dry_run {
                uninstall_calls(rb, context)
            } else {
                seq![]
            })
            &&& spawned(c) == (if confirm && !dry_run {
                uninstall_calls(rc, context)
            } else {
                seq![]
            })
            &&& previews(a) == (if confirm && dry_run {
                uninstall_calls(ra, context)
            } else {
                seq![]
            })
            &&& previews(b) == (if confirm && dry_run {
                uninstall_calls(rb, context)
            } else {
                seq![]
            })
            &&& previews(c) == (if confirm && dry_run {
                uninstall_calls(rc, context)
            } else {
                seq![]
            })
            &&& spawn_count(a) == (if confirm && !dry_run {
                ra.len()
            } else {
                0nat
            })
            &&& spawn_count(b) == (if confirm && !dry_run {
                rb.len()
            } else {
                0nat
            })
            &&& spawn_count(c) == (if confirm && !dry_run {
                rc.len()
            } else {
                0nat
            })
        }),
{
    let ra = destroy_releases(service, None, false, seq![]);
    let rb = destroy_releases(None, component, false, seq![]);
    let rc = destroy_releases(None, None, full, services);
    assert(destroy_releases(service, component, full, services) =~= ra + rb + rc);
    let a = service_part(service, context, confirm, dry_run);
    let b = component_part(component, context, confirm, dry_run);
    let c = full_part(full, services, context, confirm, dry_run);
    match service {
        Some(s) => {
            let line = seq![Move::Say("Destroying service: "@ + s)];
            let rest = uninstall_steps(service_release(s), context, confirm, dry_run);
            lemma_uninstall_steps(service_release(s), context, confirm, dry_run);
            crate::plan::lemma_no_effects(line);
            crate::plan::lemma_no_previews(line);
            crate::plan::lemma_quiet_plan(line);
            lemma_spawned_add(line, rest);
            lemma_previews_add(line, rest);
            lemma_spawn_count_add(line, rest);
            assert(ra =~= seq![service_release(s)]);
            assert(uninstall_calls(ra, context) =~= seq![
                helm_uninstall_call(service_release(s), context),
            ]);
            assert(spawned(a) =~= spawned(rest));
            assert(previews(a) =~= previews(rest));
        },
        None => {
            assert(ra =~= Seq::<Seq<char>>::empty());
            assert(uninstall_calls(ra, context) =~= Seq::<Call>::empty());
        },
    }
    match component {
        Some(k) => {
            let line = seq![Move::Say("Destroying component: "@ + k)];
            let rest = uninstall_steps(k, context, confirm, dry_run);
            lemma_uninstall_steps(k, context, confirm, dry_run);
            crate::plan::lemma_no_effects(line);
            crate::plan::lemma_no_previews(line);
            crate::plan::lemma_quiet_plan(line);
            lemma_spawned_add(line, rest);
            lemma_previews_add(line, rest);
            lemma_spawn_count_add(line, rest);
            assert(rb =~= seq![k]);
            assert(uninstall_calls(rb, context) =~= seq![helm_uninstall_call(k, context)]);
            assert(spawned(b) =~= spawned(rest));
            assert(previews(b) =~= previews(rest));
        },
        None => {
            assert(rb =~= Seq::<Seq<char>>::empty());
            assert(uninstall_calls(rb, context) =~= Seq::<Call>::empty());
        },
    }
    if full {
        let line = seq![Move::Say("Destroying all resources."@)];
        let infra = teardown_batch(
            "Uninstalling infrastructure component: "@,
            destroy_defaults(),
            destroy_defaults(),
            context,
            confirm,
            dry_run,
        );
        let apps = teardown_batch(
            "Uninstalling service: "@,
            services,
            service_releases(services),
            context,
            confirm,
            dry_run,
        );
        let note = seq![Move::Say(LOCAL_FILES@)];
        lemma_teardown_batch(
            "Uninstalling infrastructure component: "@,
            destroy_defaults(),
            destroy_defaults(),
            context,
            confirm,
            dry_run,
        );
        lemma_teardown_batch(
            "Uninstalling service: "@,
            services,
            service_releases(services),
            context,
            confirm,
            dry_run,
        );
        crate::plan::lemma_no_effects(line);
        crate::plan::lemma_no_previews(line);
        crate::plan::lemma_quiet_plan(line);
        crate::plan::lemma_no_effects(note);
        crate::plan::lemma_no_previews(note);
        crate::plan::lemma_quiet_plan(note);
        lemma_spawned_add(line, infra);
        lemma_spawned_add(line + infra, apps);
        lemma_spawned_add(line + infra + apps, note);
        lemma_previews_add(line, infra);
        lemma_previews_add(line + infra, apps);
        lemma_previews_add(line + infra + apps, note);
        lemma_spawn_count_add(line, infra);
        lemma_spawn_count_add(line + infra, apps);
        lemma_spawn_count_add(line + infra + apps, note);
        assert(rc =~= destroy_defaults() + service_releases(services));
        assert(uninstall_calls(rc, context) =~= uninstall_calls(destroy_defaults(), context)
            + uninstall_calls(service_releases(services), context));
        if confirm && !dry_run {
            assert(spawned(c) =~= uninstall_calls(rc, context));
        } else {
            assert(spawned(c) =~= Seq::<Call>::empty());
        }
        if confirm && dry_run {
            assert(previews(c) =~= uninstall_calls(rc, context));
        } else {
            assert(previews(c) =~= Seq::<Call>::empty());
        }
    } else {
        assert(rc =~= Seq::<Seq<char>>::empty());
        assert(uninstall_calls(rc, context) =~= Seq::<Call>::empty());
    }
}

/// A teardown that selects something and is not confirmed ends with the
/// notice that nothing was destroyed.
pub proof fn lemma_unconfirmed_destroy_says_so(
    service: Option<Seq<char>>,
    component: Option<Seq<char>>,
    full: bool,
    services: Seq<Seq<char>>,
    context: Option<Seq<char>>,
    dry_run: bool,
)
    requires
        selects(service, component, full),
    ensures
        destroy_steps(service, component, full, services, context, false, dry_run).last()
            == Move::Say(NOT_CONFIRMED@),
{
}

/// A full teardown resolves to every component of the catalog, all six and
/// vault among them, followed by the release of every service found.
pub proof fn lemma_full_teardown_covers_catalog(services: Seq<Seq<char>>)
    ensures
        destroy_releases(None, None, true, services) == destroy_defaults() + service_releases(
            services,
        ),
        destroy_defaults() == seq![
            "istio"@,
            "prometheus"@,
            "grafana"@,
            "cert-manager"@,
            "nginx-ingress"@,
            "vault"@,
        ],
{
    crate::catalog::lemma_default_sets();
    assert(destroy_releases(None, None, true, services) =~= destroy_defaults() + service_releases(
        services,
    ));
}

} // verus!
