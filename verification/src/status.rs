//! Reporting what the project holds: its mesh, its services, its lock file
//! and the cluster context it is pointed at.

use vstd::prelude::*;
use vstd::string::*;
use crate::config::{MeshstackContext, ProjectConfig};
use crate::discovery::{service_names, sorted_directories, Entry, ServicesRoot};
use crate::text::{opt_text, push2, push3, push_text, texts};

verus! {

/// The lines on the installed components.
pub open spec fn component_report(on: bool, config: Option<ProjectConfig>) -> Seq<Seq<char>> {
    if on {
        seq!["\n--- Installed Infrastructure Components ---"@] + (match config {
            Some(c) => seq![
                "Service Mesh: "@ + c.service_mesh,
                "Other components (placeholder): Prometheus, Grafana, Cert-Manager"@,
            ],
            None => seq!["No meshstack.yaml found. Cannot determine installed components."@],
        })
    } else {
        seq![]
    }
}

/// One line per service, in order.
pub open spec fn service_report_lines(services: Seq<Seq<char>>) -> Seq<Seq<char>> {
    services.map_values(|s: Seq<char>| "Service: "@ + s + " (Status: Running - placeholder)"@)
}

/// The lines on the services below the services root.
pub open spec fn service_report(on: bool, listing: Option<Seq<Entry>>) -> Seq<Seq<char>> {
    if on {
        seq!["\n--- Running App Services ---"@] + (match listing {
            Some(entries) => if service_names(entries).len() == 0 {
                seq!["No services found in the 'services/' directory."@]
            } else {
                service_report_lines(service_names(entries))
            },
            None => seq!["'services/' directory not found."@],
        })
    } else {
        seq![]
    }
}

/// The lines on the lock file, given its content if it exists.
pub open spec fn lock_report(on: bool, lock: Option<Seq<char>>) -> Seq<Seq<char>> {
    if on {
        seq![
            "\n--- meshstack.lock Status ---"@,
            match lock {
                Some(content) => "Content of meshstack.lock:\n"@ + content,
                None => "meshstack.lock not found."@,
            },
        ]
    } else {
        seq![]
    }
}

/// The lines on the cluster context, if one is targeted.
pub open spec fn context_report(context: Option<Seq<char>>) -> Seq<Seq<char>> {
    match context {
        Some(c) => seq![
            "\n--- Kubernetes Context Status ---"@,
            "Targeting Kubernetes context: "@ + c,
            "Kubernetes context status (placeholder): Connected"@,
        ],
        None => seq![],
    }
}

/// The whole status report.
pub open spec fn status_report(
    components: bool,
    services: bool,
    lockfile: bool,
    config: Option<ProjectConfig>,
    context: Option<Seq<char>>,
    listing: Option<Seq<Entry>>,
    lock: Option<Seq<char>>,
) -> Seq<Seq<char>> {
    seq!["Showing project status..."@] + component_report(components, config) + service_report(
        services,
        listing,
    ) + lock_report(lockfile, lock) + context_report(context)
}

fn push_service_report(out: &mut Vec<String>, on: bool, root: &ServicesRoot)
    ensures
        texts(final(out)@) == texts(old(out)@) + service_report(on, root.listing()),
{
    let ghost before = texts(out@);
    if on {
        push_text(out, "\n--- Running App Services ---");
        let ghost head = texts(out@);
        match root {
            ServicesRoot::Present(items) => {
                let names = sorted_directories(items);
                let ghost all = service_report_lines(texts(names@));
                if names.len() == 0 {
                    push_text(out, "No services found in the 'services/' directory.");
                    assert(texts(names@).len() == 0);
                } else {
                    let mut i: usize = 0;
                    assert(texts(out@) =~= head + all.take(0));
                    while i < names.len()
                        invariant
                            i <= names.len(),
                            all == service_report_lines(texts(names@)),
                            texts(out@) == head + all.take(i as int),
                        decreases names.len() - i,
                    {
                        push3(
                            out,
                            "Service: ",
                            names[i].as_str(),
                            " (Status: Running - placeholder)",
                        );
                        assert(texts(out@) =~= head + all.take(i as int + 1));
                        i += 1;
                    }
                    assert(all.take(names.len() as int) =~= all);
                    assert(texts(names@).len() == names.len());
                }
            },
            ServicesRoot::Absent => {
                push_text(out, "'services/' directory not found.");
            },
        }
    }
    assert(texts(out@) =~= before + service_report(on, root.listing()));
}

/// Reports the status of the project. `root` is what was found at the
/// services root, `lock` the content of the lock file if there is one.
pub fn status_project(
    components: bool,
    services: bool,
    lockfile: bool,
    ctx: &MeshstackContext,
    root: &ServicesRoot,
    lock: &Option<String>,
) -> (lines: Vec<String>)
    ensures
        texts(lines@) == status_report(
            components,
            services,
            lockfile,
            ctx.config_view(),
            ctx.context_view(),
            root.listing(),
            opt_text(*lock),
        ),
{
    let mut out: Vec<String> = Vec::new();
    push_text(&mut out, "Showing project status...");
    let ghost p0 = texts(out@);
    assert(p0 =~= seq!["Showing project status..."@]);
    if components {
        push_text(&mut out, "\n--- Installed Infrastructure Components ---");
        match &ctx.config {
            Some(c) => {
                push2(&mut out, "Service Mesh: ", c.service_mesh.as_str());
                push_text(
                    &mut out,
                    "Other components (placeholder): Prometheus, Grafana, Cert-Manager",
                );
            },
            None => {
                push_text(
                    &mut out,
                    "No meshstack.yaml found. Cannot determine installed components.",
                );
            },
        }
    }
    let ghost p1 = texts(out@);
    assert(p1 =~= p0 + component_report(components, ctx.config_view()));
    push_service_report(&mut out, services, root);
    let ghost p2 = texts(out@);
    if lockfile {
        push_text(&mut out, "\n--- meshstack.lock Status ---");
        match lock {
            Some(content) => {
                push2(&mut out, "Content of meshstack.lock:\n", content.as_str());
            },
            None => {
                push_text(&mut out, "meshstack.lock not found.");
            },
        }
    }
    let ghost p3 = texts(out@);
    assert(p3 =~= p2 + lock_report(lockfile, opt_text(*lock)));
    match &ctx.kube_context {
        Some(c) => {
            push_text(&mut out, "\n--- Kubernetes Context Status ---");
            push2(&mut out, "Targeting Kubernetes context: ", c.as_str());
            push_text(&mut out, "Kubernetes context status (placeholder): Connected");
        },
        None => {},
    }
    assert(texts(out@) =~= p3 + context_report(ctx.context_view()));
    out
}

} // verus!
