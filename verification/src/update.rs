//! Finding and applying updates: installed charts are held against what the
//! repositories offer, the project's templates against their source.

use vstd::prelude::*;
use vstd::string::*;
use crate::catalog::{
    assoc_catalog, default_install_set, install_defaults, lookup, registrations,
    unknown_component, ComponentRegistration,
};
use crate::command::{helm_upgrade_version_call, Invocation};
use crate::config::{config_required, MeshstackConfig, MeshstackContext, ProjectConfig};
use crate::error::{ErrorKind, Fault, MeshstackError};
use crate::plan::{moves, push_call, push_step, push_steps, run_or_preview, say, Move, Step};
use crate::text::{copy_opt, is_space, only_spaces, opt_text, push_line, same_text, space, texts};

verus! {

/// What an update replaces.
#[derive(Clone, Copy, Debug, PartialEq, Eq, Structural)]
pub enum UpdateType {
    /// An installed chart.
    HelmChart,
    /// The project's templates.
    Template,
}

/// One available update.
#[derive(Debug)]
pub struct UpdateInfo {
    pub name: String,
    pub current_version: String,
    pub latest_version: String,
    pub update_type: UpdateType,
    /// The chart coordinate, for a chart.
    pub chart_name: Option<String>,
}

/// The mathematical content of an [`UpdateInfo`].
pub struct Update {
    pub name: Seq<char>,
    pub current_version: Seq<char>,
    pub latest_version: Seq<char>,
    pub update_type: UpdateType,
    pub chart_name: Option<Seq<char>>,
}

impl View for UpdateInfo {
    type V = Update;

    open spec fn view(&self) -> Update {
        Update {
            name: self.name@,
            current_version: self.current_version@,
            latest_version: self.latest_version@,
            update_type: self.update_type,
            chart_name: opt_text(self.chart_name),
        }
    }
}

impl UpdateInfo {
    /// A copy of this update.
    pub fn duplicate(&self) -> (r: UpdateInfo)
        ensures
            r@ == self@,
    {
        UpdateInfo {
            name: self.name.clone(),
            current_version: self.current_version.clone(),
            latest_version: self.latest_version.clone(),
            update_type: self.update_type,
            chart_name: copy_opt(&self.chart_name),
        }
    }
}

/// The content of a list of updates, in order.
pub open spec fn updates_of(items: Seq<UpdateInfo>) -> Seq<Update> {
    items.map_values(|u: UpdateInfo| u@)
}

/// What a query of the chart tool came back with.
#[derive(Debug)]
pub enum Reply {
    /// The query could not be made, or failed.
    Failed,
    /// The query succeeded and printed this.
    Output(String),
}

impl View for Reply {
    type V = Option<Seq<char>>;

    open spec fn view(&self) -> Option<Seq<char>> {
        match *self {
            Reply::Failed => None,
            Reply::Output(text) => Some(text@),
        }
    }
}

/// What was found out about one component's chart: the reply to the query for
/// the installed release, the reply to the query for the versions on offer
/// (`Failed` also where it was not made), and the two versions read from them.
#[derive(Debug)]
pub struct ChartObservation {
    pub component: String,
    pub listing: Reply,
    pub search: Reply,
    pub current_version: String,
    pub latest_version: String,
}

/// The mathematical content of a [`ChartObservation`].
pub struct Sighting {
    pub component: Seq<char>,
    pub listing: Option<Seq<char>>,
    pub search: Option<Seq<char>>,
    pub current_version: Seq<char>,
    pub latest_version: Seq<char>,
}

impl View for ChartObservation {
    type V = Sighting;

    open spec fn view(&self) -> Sighting {
        Sighting {
            component: self.component@,
            listing: self.listing@,
            search: self.search@,
            current_version: self.current_version@,
            latest_version: self.latest_version@,
        }
    }
}

/// The content of a list of observations, in order.
pub open spec fn sightings(items: Seq<ChartObservation>) -> Seq<Sighting> {
    items.map_values(|o: ChartObservation| o@)
}

/// Whether a text is the empty list `[]`, with nothing but white space around it.
pub open spec fn is_empty_list(s: Seq<char>) -> bool {
    exists|i: int|
        0 <= i && i + 2 <= s.len() && only_spaces(#[trigger] s.take(i)) && s[i] == '[' && s[i + 1]
            == ']' && only_spaces(s.skip(i + 2))
}

/// Whether the output of a query reports nothing: it is blank, or an empty list.
pub open spec fn reports_nothing(output: Seq<char>) -> bool {
    only_spaces(output) || is_empty_list(output)
}

/// Whether the reply to the query for a release shows that it is installed.
pub open spec fn shows_release(listing: Option<Seq<char>>) -> bool {
    match listing {
        Some(output) => !reports_nothing(output),
        None => false,
    }
}

/// The update that an observation amounts to. A component that is not
/// installed is not out of date; a repository that cannot be asked, or that
/// offers nothing, gives no update; otherwise there is one exactly when the
/// installed version differs from the latest.
pub open spec fn chart_update(component: Seq<char>, chart: Seq<char>, seen: Sighting) -> Option<
    Update,
> {
    if !shows_release(seen.listing) {
        None
    } else {
        match seen.search {
            None => None,
            Some(output) => if !reports_nothing(output) && seen.current_version
                != seen.latest_version {
                Some(
                    Update {
                        name: component,
                        current_version: seen.current_version,
                        latest_version: seen.latest_version,
                        update_type: UpdateType::HelmChart,
                        chart_name: Some(chart),
                    },
                )
            } else {
                None
            },
        }
    }
}

/// The warning that an observation amounts to: the release is installed and
/// the repository could not be asked. This is no failure.
pub open spec fn chart_warning(component: Seq<char>, seen: Sighting) -> Option<Seq<char>> {
    if shows_release(seen.listing) && seen.search is None {
        Some(
            "Warning: Could not check updates for "@ + component
                + " - repository might not be added"@,
        )
    } else {
        None
    }
}

/// Whether the output of a query reports nothing.
pub fn is_silent(output: &str) -> (r: bool)
    ensures
        r == reports_nothing(output@),
{
    let n = output.unicode_len();
    let mut i: usize = 0;
    while i < n && space(output.get_char(i))
        invariant
            i <= n,
            n == output@.len(),
            only_spaces(output@.take(i as int)),
        decreases n - i,
    {
        assert(output@.take(i as int + 1) =~= output@.take(i as int).push(output@[i as int]));
        i += 1;
    }
    if i == n {
        assert(output@.take(n as int) =~= output@);
        return true;
    }
    assert(!only_spaces(output@));
    proof {
        // a witness of an empty list can only start where the white space ends
        assert forall|j: int|
            0 <= j && j + 2 <= output@.len() && only_spaces(#[trigger] output@.take(j))
                && output@[j] == '[' implies j == i by {
            if j > i {
                assert(output@.take(j)[i as int] == output@[i as int]);
            } else if j < i {
                assert(output@.take(i as int)[j] == output@[j]);
                assert(!is_space('['));
            }
        }
    }
    if n - i < 2 {
        return false;
    }
    if output.get_char(i) != '[' || output.get_char(i + 1) != ']' {
        return false;
    }
    let mut k: usize = i + 2;
    while k < n
        invariant
            i + 2 <= k <= n,
            n == output@.len(),
            !only_spaces(output@),
            forall|j: int|
                0 <= j && j + 2 <= output@.len() && only_spaces(#[trigger] output@.take(j))
                    && output@[j] == '[' ==> j == i,
            forall|j: int| i + 2 <= j < k ==> is_space(#[trigger] output@[j]),
        decreases n - k,
    {
        if !space(output.get_char(k)) {
            assert(!only_spaces(output@.skip(i as int + 2))) by {
                assert(output@.skip(i as int + 2)[k - i - 2] == output@[k as int]);
            }
            return false;
        }
        k += 1;
    }
    assert(only_spaces(output@.skip(i as int + 2))) by {
        assert forall|j: int| 0 <= j < output@.skip(i as int + 2).len() implies is_space(
            #[trigger] output@.skip(i as int + 2)[j],
        ) by {
            assert(output@.skip(i as int + 2)[j] == output@[j + i + 2]);
        }
    }
    true
}

/// Whether the reply to the query for a release shows that it is installed.
/// Only then is the repository worth asking.
pub fn release_installed(listing: &Reply) -> (r: bool)
    ensures
        r == shows_release(listing@),
{
    match listing {
        Reply::Output(text) => !is_silent(text.as_str()),
        Reply::Failed => false,
    }
}

/// What an observation of one chart amounts to.
#[derive(Debug)]
pub struct ChartVerdict {
    pub update: Option<UpdateInfo>,
    pub warning: Option<String>,
}

/// Holds an observation of a component's chart against what is installed.
pub fn check_helm_chart_update(
    component: &str,
    chart_name: &str,
    observation: &ChartObservation,
) -> (r: ChartVerdict)
    ensures
        match r.update {
            Some(u) => chart_update(component@, chart_name@, observation@) == Some(u@),
            None => chart_update(component@, chart_name@, observation@) is None,
        },
        opt_text(r.warning) == chart_warning(component@, observation@),
{
    if !release_installed(&observation.listing) {
        return ChartVerdict { update: None, warning: None };
    }
    match &observation.search {
        Reply::Failed => {
            let mut warning = String::from_str("Warning: Could not check updates for ");
            warning.append(component);
            warning.append(" - repository might not be added");
            ChartVerdict { update: None, warning: Some(warning) }
        },
        Reply::Output(output) => {
            if !is_silent(output.as_str()) && !same_text(
                observation.current_version.as_str(),
                observation.latest_version.as_str(),
            ) {
                ChartVerdict {
                    update: Some(
                        UpdateInfo {
                            name: String::from_str(component),
                            current_version: observation.current_version.clone(),
                            latest_version: observation.latest_version.clone(),
                            update_type: UpdateType::HelmChart,
                            chart_name: Some(String::from_str(chart_name)),
                        },
                    ),
                    warning: None,
                }
            } else {
                ChartVerdict { update: None, warning: None }
            }
        },
    }
}

/// The first observation of `component` among `seen`.
pub open spec fn sighting_of(seen: Seq<Sighting>, component: Seq<char>) -> Option<Sighting>
    decreases seen.len(),
{
    if seen.len() == 0 {
        None
    } else if seen[0].component == component {
        Some(seen[0])
    } else {
        sighting_of(seen.subrange(1, seen.len() as int), component)
    }
}

fn find_observation<'a>(observations: &'a Vec<ChartObservation>, component: &str) -> (r: Option<
    &'a ChartObservation,
>)
    ensures
        match r {
            Some(o) => sighting_of(sightings(observations@), component@) == Some(o@),
            None => sighting_of(sightings(observations@), component@) is None,
        },
{
    let ghost all = sightings(observations@);
    assert(all.subrange(0, all.len() as int) =~= all);
    let mut i: usize = 0;
    while i < observations.len()
        invariant
            i <= observations.len(),
            all == sightings(observations@),
            sighting_of(all, component@) == sighting_of(
                all.subrange(i as int, all.len() as int),
                component@,
            ),
        decreases observations.len() - i,
    {
        let ghost rest = all.subrange(i as int, all.len() as int);
        assert(rest[0] == observations@[i as int]@);
        assert(rest.subrange(1, rest.len() as int) =~= all.subrange(i as int + 1, all.len() as int));
        if same_text(observations[i].component.as_str(), component) {
            return Some(&observations[i]);
        }
        i += 1;
    }
    assert(all.subrange(observations.len() as int, all.len() as int).len() == 0);
    None
}

/// What a check found: the updates, and the warnings to show with them.
#[derive(Debug)]
pub struct UpdateReport {
    pub updates: Vec<UpdateInfo>,
    pub warnings: Vec<String>,
}

/// The updates for one target, given everything that was observed: none where
/// the target was not observed.
pub open spec fn target_updates(target: (Seq<char>, Seq<char>), seen: Seq<Sighting>) -> Seq<Update> {
    match sighting_of(seen, target.0) {
        Some(s) => match chart_update(target.0, target.1, s) {
            Some(u) => seq![u],
            None => seq![],
        },
        None => seq![],
    }
}

/// The warnings for one target, given everything that was observed.
pub open spec fn target_warnings(target: (Seq<char>, Seq<char>), seen: Seq<Sighting>) -> Seq<
    Seq<char>,
> {
    match sighting_of(seen, target.0) {
        Some(s) => match chart_warning(target.0, s) {
            Some(w) => seq![w],
            None => seq![],
        },
        None => seq![],
    }
}

/// The updates for a list of targets, in the order of the targets.
pub open spec fn batch_updates(targets: Seq<(Seq<char>, Seq<char>)>, seen: Seq<Sighting>) -> Seq<
    Update,
>
    decreases targets.len(),
{
    if targets.len() == 0 {
        seq![]
    } else {
        batch_updates(targets.drop_last(), seen) + target_updates(targets.last(), seen)
    }
}

/// The warnings for a list of targets, in the order of the targets.
pub open spec fn batch_warnings(targets: Seq<(Seq<char>, Seq<char>)>, seen: Seq<Sighting>) -> Seq<
    Seq<char>,
>
    decreases targets.len(),
{
    if targets.len() == 0 {
        seq![]
    } else {
        batch_warnings(targets.drop_last(), seen) + target_warnings(targets.last(), seen)
    }
}

fn check_targets(targets: &Vec<ComponentRegistration>, observations: &Vec<ChartObservation>) -> (r:
    UpdateReport)
    ensures
        updates_of(r.updates@) == batch_updates(registrations(targets@), sightings(observations@)),
        texts(r.warnings@) == batch_warnings(registrations(targets@), sightings(observations@)),
{
    let ghost all = registrations(targets@);
    let ghost seen = sightings(observations@);
    let mut updates: Vec<UpdateInfo> = Vec::new();
    let mut warnings: Vec<String> = Vec::new();
    let mut i: usize = 0;
    assert(updates_of(updates@) =~= batch_updates(all.take(0), seen));
    assert(texts(warnings@) =~= batch_warnings(all.take(0), seen));
    while i < targets.len()
        invariant
            i <= targets.len(),
            all == registrations(targets@),
            seen == sightings(observations@),
            updates_of(updates@) == batch_updates(all.take(i as int), seen),
            texts(warnings@) == batch_warnings(all.take(i as int), seen),
        decreases targets.len() - i,
    {
        proof {
            assert(all.take(i as int + 1).drop_last() =~= all.take(i as int));
            assert(all.take(i as int + 1).last() == targets@[i as int]@);
        }
        let ghost u0 = updates_of(updates@);
        let ghost w0 = texts(warnings@);
        match find_observation(observations, targets[i].key.as_str()) {
            Some(o) => {
                let verdict = check_helm_chart_update(
                    targets[i].key.as_str(),
                    targets[i].chart.as_str(),
                    o,
                );
                match verdict.update {
                    Some(u) => {
                        updates.push(u);
                        assert(updates_of(updates@) =~= u0 + seq![u@]);
                    },
                    None => {
                        assert(updates_of(updates@) =~= u0 + Seq::<Update>::empty());
                    },
                }
                match verdict.warning {
                    Some(w) => {
                        push_line(&mut warnings, w);
                        assert(texts(warnings@) =~= w0 + seq![w@]);
                    },
                    None => {
                        assert(texts(warnings@) =~= w0 + Seq::<Seq<char>>::empty());
                    },
                }
            },
            None => {
                assert(updates_of(updates@) =~= u0 + Seq::<Update>::empty());
                assert(texts(warnings@) =~= w0 + Seq::<Seq<char>>::empty());
            },
        }
        i += 1;
    }
    assert(all.take(targets.len() as int) =~= all);
    UpdateReport { updates, warnings }
}

/// The chart updates for one named component, given what was observed. A
/// component that the catalog does not hold is refused.
pub fn check_component_updates(component: &str, observations: &Vec<ChartObservation>) -> (r: Result<
    UpdateReport,
    MeshstackError,
>)
    ensures
        match r {
            Ok(report) => assoc_catalog(component@) is Some && updates_of(report.updates@)
                == target_updates(
                (component@, assoc_catalog(component@)->0),
                sightings(observations@),
            ) && texts(report.warnings@) == target_warnings(
                (component@, assoc_catalog(component@)->0),
                sightings(observations@),
            ),
            Err(e) => assoc_catalog(component@) is None && e@ == unknown_component(component@),
        },
{
    let chart = match lookup(component) {
        Ok(c) => c,
        Err(e) => {
            return Err(e);
        },
    };
    let mut targets: Vec<ComponentRegistration> = Vec::new();
    targets.push(ComponentRegistration { key: String::from_str(component), chart });
    proof {
        let all = registrations(targets@);
        assert(all =~= seq![(component@, chart@)]);
        assert(all.drop_last() =~= Seq::<(Seq<char>, Seq<char>)>::empty());
        let seen = sightings(observations@);
        reveal_with_fuel(batch_updates, 2);
        reveal_with_fuel(batch_warnings, 2);
        assert(batch_updates(all, seen) =~= target_updates(all.last(), seen));
        assert(batch_warnings(all, seen) =~= target_warnings(all.last(), seen));
    }
    Ok(check_targets(&targets, observations))
}

/// The chart updates for the default installation set, in catalog order,
/// given what was observed.
pub fn check_infrastructure_updates(observations: &Vec<ChartObservation>) -> (r: UpdateReport)
    ensures
        updates_of(r.updates@) == batch_updates(install_defaults(), sightings(observations@)),
        texts(r.warnings@) == batch_warnings(install_defaults(), sightings(observations@)),
{
    let targets = default_install_set();
    check_targets(&targets, observations)
}

/// What is known of the source of the project's templates.
#[derive(Debug)]
pub struct TemplateSource {
    /// Whether the source is there at all.
    pub present: bool,
    /// The version that the project's templates were taken from.
    pub current_version: String,
    /// The version that the source holds now.
    pub latest_version: String,
}

/// The template update that a source amounts to: one where the source is
/// there and the project's templates are stale.
pub open spec fn template_updates(
    present: bool,
    current_version: Seq<char>,
    latest_version: Seq<char>,
) -> Seq<Update> {
    if present && current_version != latest_version {
        seq![
            Update {
                name: "base-templates"@,
                current_version,
                latest_version,
                update_type: UpdateType::Template,
                chart_name: None,
            },
        ]
    } else {
        seq![]
    }
}

/// Holds the project's templates against their source.
pub fn check_template_updates(_config: &MeshstackConfig, source: &TemplateSource) -> (r: Vec<
    UpdateInfo,
>)
    ensures
        updates_of(r@) == template_updates(
            source.present,
            source.current_version@,
            source.latest_version@,
        ),
{
    let mut updates: Vec<UpdateInfo> = Vec::new();
    if source.present && !same_text(
        source.current_version.as_str(),
        source.latest_version.as_str(),
    ) {
        updates.push(
            UpdateInfo {
                name: String::from_str("base-templates"),
                current_version: source.current_version.clone(),
                latest_version: source.latest_version.clone(),
                update_type: UpdateType::Template,
                chart_name: None,
            },
        );
    }
    assert(updates_of(updates@) =~= template_updates(
        source.present,
        source.current_version@,
        source.latest_version@,
    ));
    updates
}

/// What an update operation is asked to do.
pub struct UpdateRequest {
    pub check: bool,
    pub apply: bool,
    pub component: Option<Seq<char>>,
    pub template: bool,
    pub infra: bool,
}

/// The line that lists one update.
pub open spec fn update_line(u: Update) -> Seq<char> {
    "  \u{2022} "@ + u.name + ": "@ + u.current_version + " \u{2192} "@ + u.latest_version
}

/// The lines that list the updates found, one per update.
pub open spec fn listing(updates: Seq<Update>) -> Seq<Move> {
    updates.map_values(|u: Update| Move::Say(update_line(u)))
}

/// The lines that show warnings, one per warning.
pub open spec fn cautions(warnings: Seq<Seq<char>>) -> Seq<Move> {
    warnings.map_values(|w: Seq<char>| Move::Say(w))
}

/// The failure for a chart update that does not say which chart it is for.
pub open spec fn chart_unnamed(name: Seq<char>) -> Fault {
    Fault {
        kind: ErrorKind::PreconditionFailed,
        message: "Chart name not specified for "@ + name,
    }
}

/// The steps that apply one update. A chart is upgraded to the latest
/// version; the templates are copied from their source. When previewing, the
/// upgrade is named and the copy is only announced.
pub open spec fn apply_steps(u: Update, context: Option<Seq<char>>, dry_run: bool) -> Seq<Move> {
    match u.update_type {
        UpdateType::HelmChart => seq![
            Move::Say(
                "\u{1F4E6} Updating "@ + u.name + " from "@ + u.current_version + " to "@
                    + u.latest_version + "..."@,
            ),
            match u.chart_name {
                Some(chart) => run_or_preview(
                    helm_upgrade_version_call(u.name, chart, u.latest_version, context),
                    "\u{2705} Successfully updated "@ + u.name,
                    dry_run,
                ),
                None => Move::Halt(chart_unnamed(u.name)),
            },
        ],
        UpdateType::Template => seq![
            Move::Say(
                "\u{1F4C4} Updating templates: "@ + u.name + " from "@ + u.current_version
                    + " to "@ + u.latest_version + "..."@,
            ),
            if dry_run {
                Move::Say("DRY RUN: Would copy the base templates into the project"@)
            } else {
                Move::SyncTemplates
            },
            Move::Say("\u{2705} Successfully updated base templates"@),
        ],
    }
}

/// The steps that apply a list of updates, one update after the other.
pub open spec fn apply_batch(updates: Seq<Update>, context: Option<Seq<char>>, dry_run: bool) -> Seq<
    Move,
>
    decreases updates.len(),
{
    if updates.len() == 0 {
        seq![]
    } else {
        crate::plan::continued(
            apply_batch(updates.drop_last(), context, dry_run),
            apply_steps(updates.last(), context, dry_run),
        )
    }
}

/// Whether a request without a component looks at the infrastructure charts:
/// when asked to, and when neither charts nor templates are singled out.
pub open spec fn wants_infra(req: UpdateRequest) -> bool {
    req.infra || (!req.template && !req.infra)
}

/// Whether a request without a component looks at the templates: when asked
/// to, and when neither charts nor templates are singled out.
pub open spec fn wants_templates(req: UpdateRequest) -> bool {
    req.template || (!req.template && !req.infra)
}

/// The updates that a checking request finds: those of the named component,
/// or else those of the infrastructure charts and of the templates, as far as
/// each is wanted.
pub open spec fn found_updates(req: UpdateRequest, seen: Seq<Sighting>, templates: Seq<Update>) -> Seq<
    Update,
> {
    match req.component {
        Some(c) => target_updates((c, assoc_catalog(c)->0), seen),
        None => (if wants_infra(req) {
            batch_updates(install_defaults(), seen)
        } else {
            seq![]
        }) + (if wants_templates(req) {
            templates
        } else {
            seq![]
        }),
    }
}

/// The warnings that a checking request meets.
pub open spec fn found_warnings(req: UpdateRequest, seen: Seq<Sighting>) -> Seq<Seq<char>> {
    match req.component {
        Some(c) => target_warnings((c, assoc_catalog(c)->0), seen),
        None => if wants_infra(req) {
            batch_warnings(install_defaults(), seen)
        } else {
            seq![]
        },
    }
}

/// The steps of a request that checks, and applies what it found if asked to.
pub open spec fn checked_steps(
    req: UpdateRequest,
    seen: Seq<Sighting>,
    templates: Seq<Update>,
    context: Option<Seq<char>>,
    dry_run: bool,
) -> Seq<Move> {
    let found = found_updates(req, seen, templates);
    seq![Move::Say("Checking for available updates..."@)] + cautions(found_warnings(req, seen)) + (
    if found.len() == 0 {
        seq![Move::Say("\u{2705} All components are up to date!"@)]
    } else {
        seq![Move::Say("\n\u{1F4CB} Available Updates:"@)] + listing(found) + (if req.apply {
            seq![Move::Say("\n\u{1F680} Applying updates..."@)] + crate::plan::continued(
                apply_batch(found, context, dry_run),
                seq![Move::Say("\u{2705} All updates applied successfully!"@)],
            )
        } else {
            seq![]
        })
    })
}

/// The steps for the named component of a request that neither checks nor
/// applies everything.
pub open spec fn component_section(
    req: UpdateRequest,
    seen: Seq<Sighting>,
    context: Option<Seq<char>>,
    dry_run: bool,
) -> Seq<Move> {
    match req.component {
        Some(c) => seq![Move::Say("Updating component: "@ + c)] + cautions(
            target_warnings((c, assoc_catalog(c)->0), seen),
        ) + apply_batch(target_updates((c, assoc_catalog(c)->0), seen), context, dry_run),
        None => seq![],
    }
}

/// The steps for the templates of a request that neither checks nor applies
/// everything.
pub open spec fn template_section(
    req: UpdateRequest,
    templates: Seq<Update>,
    context: Option<Seq<char>>,
    dry_run: bool,
) -> Seq<Move> {
    if req.template {
        seq![Move::Say("Updating project templates..."@)] + apply_batch(
            templates,
            context,
            dry_run,
        )
    } else {
        seq![]
    }
}

/// The steps for the infrastructure charts of a request that neither checks
/// nor applies everything.
pub open spec fn infra_section(
    req: UpdateRequest,
    seen: Seq<Sighting>,
    context: Option<Seq<char>>,
    dry_run: bool,
) -> Seq<Move> {
    if req.infra {
        seq![Move::Say("Updating infrastructure charts..."@)] + cautions(
            batch_warnings(install_defaults(), seen),
        ) + apply_batch(batch_updates(install_defaults(), seen), context, dry_run)
    } else {
        seq![]
    }
}

/// The steps of an update operation that is not refused.
pub open spec fn update_steps(
    req: UpdateRequest,
    seen: Seq<Sighting>,
    templates: Seq<Update>,
    context: Option<Seq<char>>,
    dry_run: bool,
) -> Seq<Move> {
    seq![Move::Say("Updating project..."@)] + (if req.check || req.apply {
        checked_steps(req, seen, templates, context, dry_run)
    } else {
        crate::plan::continued(
            crate::plan::continued(
                component_section(req, seen, context, dry_run),
                template_section(req, templates, context, dry_run),
            ),
            infra_section(req, seen, context, dry_run),
        )
    })
}

/// Why an update operation is refused before any step exists: no
/// configuration, or a component that the catalog does not hold.
pub open spec fn update_refusal(config: Option<ProjectConfig>, component: Option<Seq<char>>) -> Option<
    Fault,
> {
    if config is None {
        Some(config_required())
    } else {
        match component {
            Some(c) => if assoc_catalog(c) is None {
                Some(unknown_component(c))
            } else {
                None
            },
            None => None,
        }
    }
}

fn push_cautions(plan: &mut Vec<Step>, warnings: &Vec<String>)
    ensures
        moves(final(plan)@) == moves(old(plan)@) + cautions(texts(warnings@)),
{
    let ghost before = moves(plan@);
    let ghost all = cautions(texts(warnings@));
    let mut i: usize = 0;
    assert(moves(plan@) =~= before + all.take(0));
    while i < warnings.len()
        invariant
            i <= warnings.len(),
            all == cautions(texts(warnings@)),
            moves(plan@) == before + all.take(i as int),
        decreases warnings.len() - i,
    {
        push_step(plan, Step::Say(warnings[i].clone()));
        assert(moves(plan@) =~= before + all.take(i as int + 1));
        i += 1;
    }
    assert(all.take(warnings.len() as int) =~= all);
}

fn push_listing(plan: &mut Vec<Step>, updates: &Vec<UpdateInfo>)
    ensures
        moves(final(plan)@) == moves(old(plan)@) + listing(updates_of(updates@)),
{
    let ghost before = moves(plan@);
    let ghost all = listing(updates_of(updates@));
    let mut i: usize = 0;
    assert(moves(plan@) =~= before + all.take(0));
    while i < updates.len()
        invariant
            i <= updates.len(),
            all == listing(updates_of(updates@)),
            moves(plan@) == before + all.take(i as int),
        decreases updates.len() - i,
    {
        let u = &updates[i];
        let mut line = String::from_str("  \u{2022} ");
        line.append(u.name.as_str());
        line.append(": ");
        line.append(u.current_version.as_str());
        line.append(" \u{2192} ");
        line.append(u.latest_version.as_str());
        push_step(plan, Step::Say(line));
        assert(moves(plan@) =~= before + all.take(i as int + 1));
        i += 1;
    }
    assert(all.take(updates.len() as int) =~= all);
}

fn plan_apply_one(update: &UpdateInfo, context: &Option<String>, dry_run: bool) -> (plan: Vec<Step>)
    ensures
        moves(plan@) == apply_steps(update@, opt_text(*context), dry_run),
{
    let mut plan: Vec<Step> = Vec::new();
    match update.update_type {
        UpdateType::HelmChart => {
            let mut line = String::from_str("\u{1F4E6} Updating ");
            line.append(update.name.as_str());
            line.append(" from ");
            line.append(update.current_version.as_str());
            line.append(" to ");
            line.append(update.latest_version.as_str());
            line.append("...");
            push_step(&mut plan, Step::Say(line));
            match &update.chart_name {
                Some(chart) => {
                    let mut done = String::from_str("\u{2705} Successfully updated ");
                    done.append(update.name.as_str());
                    let call = Invocation::helm_upgrade_version(
                        update.name.as_str(),
                        chart.as_str(),
                        update.latest_version.as_str(),
                        context,
                    );
                    push_call(&mut plan, call, done, dry_run);
                },
                None => {
                    let mut message = String::from_str("Chart name not specified for ");
                    message.append(update.name.as_str());
                    push_step(
                        &mut plan,
                        Step::Halt(MeshstackError::new(ErrorKind::PreconditionFailed, message)),
                    );
                },
            }
        },
        UpdateType::Template => {
            let mut line = String::from_str("\u{1F4C4} Updating templates: ");
            line.append(update.name.as_str());
            line.append(" from ");
            line.append(update.current_version.as_str());
            line.append(" to ");
            line.append(update.latest_version.as_str());
            line.append("...");
            push_step(&mut plan, Step::Say(line));
            if dry_run {
                say(&mut plan, "DRY RUN: Would copy the base templates into the project");
            } else {
                push_step(&mut plan, Step::SyncTemplates);
            }
            say(&mut plan, "\u{2705} Successfully updated base templates");
        },
    }
    assert(moves(plan@) =~= apply_steps(update@, opt_text(*context), dry_run));
    plan
}

/// Plans the application of a list of updates, one after the other.
pub fn plan_apply(updates: &Vec<UpdateInfo>, context: &Option<String>, dry_run: bool) -> (plan: Vec<
    Step,
>)
    ensures
        moves(plan@) == apply_batch(updates_of(updates@), opt_text(*context), dry_run),
{
    let ghost all = updates_of(updates@);
    let mut plan: Vec<Step> = Vec::new();
    let mut i: usize = 0;
    assert(moves(plan@) =~= apply_batch(all.take(0), opt_text(*context), dry_run));
    while i < updates.len()
        invariant
            i <= updates.len(),
            all == updates_of(updates@),
            moves(plan@) == apply_batch(all.take(i as int), opt_text(*context), dry_run),
        decreases updates.len() - i,
    {
        proof {
            assert(all.take(i as int + 1).drop_last() =~= all.take(i as int));
            assert(all.take(i as int + 1).last() == updates@[i as int]@);
        }
        if !crate::plan::is_halted(&plan) {
            let more = plan_apply_one(&updates[i], context, dry_run);
            push_steps(&mut plan, more);
        }
        i += 1;
    }
    assert(all.take(updates.len() as int) =~= all);
    plan
}

fn chain(plan: &mut Vec<Step>, more: Vec<Step>)
    ensures
        moves(final(plan)@) == crate::plan::continued(moves(old(plan)@), moves(more@)),
{
    if !crate::plan::is_halted(plan) {
        push_steps(plan, more);
    }
}

fn plan_checked(
    apply: bool,
    found: &Vec<UpdateInfo>,
    warnings: &Vec<String>,
    context: &Option<String>,
    dry_run: bool,
) -> (plan: Vec<Step>)
    ensures
        moves(plan@) == seq![Move::Say("Checking for available updates..."@)] + cautions(
            texts(warnings@),
        ) + (if found.len() == 0 {
            seq![Move::Say("\u{2705} All components are up to date!"@)]
        } else {
            seq![Move::Say("\n\u{1F4CB} Available Updates:"@)] + listing(updates_of(found@)) + (
            if apply {
                seq![Move::Say("\n\u{1F680} Applying updates..."@)] + crate::plan::continued(
                    apply_batch(updates_of(found@), opt_text(*context), dry_run),
                    seq![Move::Say("\u{2705} All updates applied successfully!"@)],
                )
            } else {
                seq![]
            })
        }),
{
    let mut plan: Vec<Step> = Vec::new();
    say(&mut plan, "Checking for available updates...");
    push_cautions(&mut plan, warnings);
    let ghost head = moves(plan@);
    assert(head =~= seq![Move::Say("Checking for available updates..."@)] + cautions(
        texts(warnings@),
    ));
    if found.len() == 0 {
        say(&mut plan, "\u{2705} All components are up to date!");
        assert(moves(plan@) =~= head + seq![Move::Say("\u{2705} All components are up to date!"@)]);
        return plan;
    }
    say(&mut plan, "\n\u{1F4CB} Available Updates:");
    push_listing(&mut plan, found);
    let ghost listed = moves(plan@);
    if apply {
        say(&mut plan, "\n\u{1F680} Applying updates...");
        let mut batch = plan_apply(found, context, dry_run);
        let mut closing: Vec<Step> = Vec::new();
        say(&mut closing, "\u{2705} All updates applied successfully!");
        assert(moves(closing@) =~= seq![
            Move::Say("\u{2705} All updates applied successfully!"@),
        ]);
        chain(&mut batch, closing);
        push_steps(&mut plan, batch);
        assert(moves(plan@) =~= listed + (seq![Move::Say("\n\u{1F680} Applying updates..."@)]
            + crate::plan::continued(
            apply_batch(updates_of(found@), opt_text(*context), dry_run),
            seq![Move::Say("\u{2705} All updates applied successfully!"@)],
        )));
    } else {
        assert(moves(plan@) =~= listed + Seq::<Move>::empty());
    }
    plan
}

fn plan_section(
    heading: String,
    warnings: &Vec<String>,
    updates: &Vec<UpdateInfo>,
    context: &Option<String>,
    dry_run: bool,
) -> (plan: Vec<Step>)
    ensures
        moves(plan@) == seq![Move::Say(heading@)] + cautions(texts(warnings@)) + apply_batch(
            updates_of(updates@),
            opt_text(*context),
            dry_run,
        ),
{
    let mut plan: Vec<Step> = Vec::new();
    push_step(&mut plan, Step::Say(heading));
    push_cautions(&mut plan, warnings);
    let batch = plan_apply(updates, context, dry_run);
    push_steps(&mut plan, batch);
    assert(moves(plan@) =~= seq![Move::Say(heading@)] + cautions(texts(warnings@)) + apply_batch(
        updates_of(updates@),
        opt_text(*context),
        dry_run,
    ));
    plan
}

/// Plans an update operation from what was observed of the charts and of the
/// template source. Checking lists what is out of date; applying upgrades it.
/// Without either, the named component, the templates and the infrastructure
/// charts are each updated where they are asked for.
pub fn update_project(
    check: bool,
    apply: bool,
    component: &Option<String>,
    template: bool,
    infra: bool,
    ctx: &MeshstackContext,
    observations: &Vec<ChartObservation>,
    source: &TemplateSource,
) -> (r: Result<Vec<Step>, MeshstackError>)
    ensures
        match r {
            Ok(plan) => update_refusal(ctx.config_view(), opt_text(*component)) is None && moves(
                plan@,
            ) == update_steps(
                UpdateRequest { check, apply, component: opt_text(*component), template, infra },
                sightings(observations@),
                template_updates(
                    source.present,
                    source.current_version@,
                    source.latest_version@,
                ),
                ctx.context_view(),
                ctx.dry_run,
            ),
            Err(e) => update_refusal(ctx.config_view(), opt_text(*component)) == Some(e@),
        },
{
    let config = match ctx.require_config() {
        Ok(c) => c,
        Err(e) => {
            return Err(e);
        },
    };
    let named = match component {
        Some(c) => match check_component_updates(c.as_str(), observations) {
            Ok(report) => Some(report),
            Err(e) => {
                return Err(e);
            },
        },
        None => None,
    };
    let ghost req = UpdateRequest {
        check,
        apply,
        component: opt_text(*component),
        template,
        infra,
    };
    let ghost seen = sightings(observations@);
    let ghost stale = template_updates(
        source.present,
        source.current_version@,
        source.latest_version@,
    );
    let context = &ctx.kube_context;
    let mut plan: Vec<Step> = Vec::new();
    say(&mut plan, "Updating project...");
    assert(moves(plan@) =~= seq![Move::Say("Updating project..."@)]);
    if check || apply {
        let mut found: Vec<UpdateInfo> = Vec::new();
        let mut warnings: Vec<String> = Vec::new();
        match named {
            Some(report) => {
                found = report.updates;
                warnings = report.warnings;
            },
            None => {
                if infra || (!template && !infra) {
                    let report = check_infrastructure_updates(observations);
                    found = report.updates;
                    warnings = report.warnings;
                }
                if template || (!template && !infra) {
                    let ghost before = updates_of(found@);
                    let mut more = check_template_updates(config, source);
                    let ghost added = updates_of(more@);
                    found.append(&mut more);
                    assert(updates_of(found@) =~= before + added);
                }
            },
        }
        assert(updates_of(found@) =~= found_updates(req, seen, stale));
        assert(texts(warnings@) =~= found_warnings(req, seen));
        let body = plan_checked(apply, &found, &warnings, context, ctx.dry_run);
        assert(found.len() == updates_of(found@).len());
        push_steps(&mut plan, body);
    } else {
        let mut body: Vec<Step> = Vec::new();
        match (component, named) {
            (Some(c), Some(report)) => {
                let mut heading = String::from_str("Updating component: ");
                heading.append(c.as_str());
                body = plan_section(heading, &report.warnings, &report.updates, context, ctx.dry_run);
            },
            _ => {},
        }
        assert(moves(body@) =~= component_section(req, seen, opt_text(*context), ctx.dry_run));
        if template {
            let updates = check_template_updates(config, source);
            let none: Vec<String> = Vec::new();
            assert(cautions(texts(none@)) =~= Seq::<Move>::empty());
            let section = plan_section(
                String::from_str("Updating project templates..."),
                &none,
                &updates,
                context,
                ctx.dry_run,
            );
            assert(moves(section@) =~= template_section(req, stale, opt_text(*context), ctx.dry_run));
            chain(&mut body, section);
        }
        if infra {
            let report = check_infrastructure_updates(observations);
            let section = plan_section(
                String::from_str("Updating infrastructure charts..."),
                &report.warnings,
                &report.updates,
                context,
                ctx.dry_run,
            );
            chain(&mut body, section);
        }
        assert(moves(body@) =~= crate::plan::continued(
            crate::plan::continued(
                component_section(req, seen, opt_text(*context), ctx.dry_run),
                template_section(req, stale, opt_text(*context), ctx.dry_run),
            ),
            infra_section(req, seen, opt_text(*context), ctx.dry_run),
        ));
        push_steps(&mut plan, body);
    }
    Ok(plan)
}

/// A component that is not installed is not out of date: whatever the
/// repository offers, there is no update for it and nothing to warn of.
pub proof fn lemma_absent_release_has_no_update(
    component: Seq<char>,
    chart: Seq<char>,
    seen: Sighting,
)
    requires
        !shows_release(seen.listing),
    ensures
        chart_update(component, chart, seen) is None,
        chart_warning(component, seen) is None,
{
}

/// A repository that cannot be asked is no failure: for an installed
/// component it gives no update, and a warning.
pub proof fn lemma_silent_repository_warns(component: Seq<char>, chart: Seq<char>, seen: Sighting)
    requires
        shows_release(seen.listing),
        seen.search is None,
    ensures
        chart_update(component, chart, seen) is None,
        chart_warning(component, seen) is Some,
{
}

/// For an installed component whose repository answers, there is an update
/// exactly when the installed version differs from the latest, and it is a
/// chart update from the one to the other.
pub proof fn lemma_update_iff_versions_differ(
    component: Seq<char>,
    chart: Seq<char>,
    seen: Sighting,
)
    requires
        shows_release(seen.listing),
        seen.search is Some,
        !reports_nothing(seen.search->0),
    ensures
        chart_update(component, chart, seen) is Some <==> seen.current_version
            != seen.latest_version,
        chart_update(component, chart, seen) is Some ==> {
            let u = chart_update(component, chart, seen)->0;
            &&& u.update_type == UpdateType::HelmChart
            &&& u.name == component
            &&& u.current_version == seen.current_version
            &&& u.latest_version == seen.latest_version
            &&& u.chart_name == Some(chart)
        },
{
}

} // verus!
