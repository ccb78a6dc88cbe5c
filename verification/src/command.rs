//! Argument vectors for the external tools, in the fixed order each tool expects.
//! Nothing here spawns a process or reads the file system.

use vstd::prelude::*;
use vstd::string::*;
use crate::text::{join, joined, opt_text, push_line, push_text, texts};

verus! {

/// The external tools that operations invoke.
#[derive(Clone, Copy, Debug, PartialEq, Eq, Structural)]
pub enum Tool {
    /// The chart installer.
    Helm,
    /// The container build tool.
    Docker,
    /// The cluster API client.
    Kubectl,
    /// A local cluster provisioner.
    Kind,
    /// A local cluster provisioner.
    K3d,
}

impl Tool {
    /// The program name of the tool.
    pub open spec fn name(self) -> Seq<char> {
        match self {
            Tool::Helm => "helm"@,
            Tool::Docker => "docker"@,
            Tool::Kubectl => "kubectl"@,
            Tool::Kind => "kind"@,
            Tool::K3d => "k3d"@,
        }
    }

    /// The program name of the tool.
    pub fn program(self) -> (r: &'static str)
        ensures
            r@ == self.name(),
    {
        match self {
            Tool::Helm => "helm",
            Tool::Docker => "docker",
            Tool::Kubectl => "kubectl",
            Tool::Kind => "kind",
            Tool::K3d => "k3d",
        }
    }
}

/// One call of an external tool: the tool, its arguments in order, and the
/// short name under which a failure of the call is reported.
#[derive(Debug)]
pub struct Invocation {
    pub tool: Tool,
    pub args: Vec<String>,
    pub label: String,
}

/// The mathematical content of an [`Invocation`].
pub struct Call {
    pub tool: Tool,
    pub args: Seq<Seq<char>>,
    pub label: Seq<char>,
}

impl View for Invocation {
    type V = Call;

    open spec fn view(&self) -> Call {
        Call { tool: self.tool, args: texts(self.args@), label: self.label@ }
    }
}

/// The flag that selects a cluster context, when one is given.
pub open spec fn context_args(context: Option<Seq<char>>) -> Seq<Seq<char>> {
    match context {
        Some(c) => seq!["--kube-context"@, c],
        None => seq![],
    }
}

/// The flag that names an overlay file, when one is given.
pub open spec fn values_args(values: Option<Seq<char>>) -> Seq<Seq<char>> {
    match values {
        Some(file) => seq!["--values"@, file],
        None => seq![],
    }
}

/// The flag that asks the chart tool to print instead of apply.
pub open spec fn dry_run_args(dry_run: bool) -> Seq<Seq<char>> {
    if dry_run {
        seq!["--dry-run"@]
    } else {
        seq![]
    }
}

/// The image reference of a service in the project's registry.
pub open spec fn image_name(service: Seq<char>) -> Seq<char> {
    "meshstack/"@ + service + ":latest"@
}

/// The release name under which a service is deployed.
pub open spec fn service_release(service: Seq<char>) -> Seq<char> {
    "meshstack-"@ + service
}

/// The directory of a service below the services root.
pub open spec fn service_path(service: Seq<char>) -> Seq<char> {
    "services/"@ + service
}

/// The context that a provisioner gives to the cluster it creates.
pub open spec fn cluster_context(tool: Tool, cluster: Seq<char>) -> Seq<char> {
    match tool {
        Tool::Kind => "kind-"@ + cluster,
        Tool::K3d => "k3d-"@ + cluster,
        _ => cluster,
    }
}

/// `install <release> <coordinate> [--dry-run] [--kube-context <ctx>] [--values <file>]`
pub open spec fn helm_install_call(
    release: Seq<char>,
    chart: Seq<char>,
    dry_run: bool,
    context: Option<Seq<char>>,
    values: Option<Seq<char>>,
) -> Call {
    Call {
        tool: Tool::Helm,
        args: seq!["install"@, release, chart] + dry_run_args(dry_run) + context_args(context)
            + values_args(values),
        label: "helm install "@ + release,
    }
}

/// `upgrade --install <release> <path> [--kube-context <ctx>] [--values <file>]`
pub open spec fn helm_upgrade_install_call(
    release: Seq<char>,
    path: Seq<char>,
    context: Option<Seq<char>>,
    values: Option<Seq<char>>,
) -> Call {
    Call {
        tool: Tool::Helm,
        args: seq!["upgrade"@, "--install"@, release, path] + context_args(context) + values_args(
            values,
        ),
        label: "helm upgrade --install "@ + release,
    }
}

/// `uninstall <release> [--kube-context <ctx>]`
pub open spec fn helm_uninstall_call(release: Seq<char>, context: Option<Seq<char>>) -> Call {
    Call {
        tool: Tool::Helm,
        args: seq!["uninstall"@, release] + context_args(context),
        label: "helm uninstall "@ + release,
    }
}

/// `upgrade <release> <coordinate> --version <version> [--kube-context <ctx>]`
pub open spec fn helm_upgrade_version_call(
    release: Seq<char>,
    chart: Seq<char>,
    version: Seq<char>,
    context: Option<Seq<char>>,
) -> Call {
    Call {
        tool: Tool::Helm,
        args: seq!["upgrade"@, release, chart, "--version"@, version] + context_args(context),
        label: "helm upgrade "@ + release,
    }
}

/// `list --filter <name> --output json`
pub open spec fn helm_list_call(name: Seq<char>) -> Call {
    Call {
        tool: Tool::Helm,
        args: seq!["list"@, "--filter"@, name, "--output"@, "json"@],
        label: "helm list"@,
    }
}

/// `search repo <coordinate> --output json`
pub open spec fn helm_search_call(chart: Seq<char>) -> Call {
    Call {
        tool: Tool::Helm,
        args: seq!["search"@, "repo"@, chart, "--output"@, "json"@],
        label: "helm search repo"@,
    }
}

/// `<tool> version`
pub open spec fn version_call(tool: Tool) -> Call {
    Call { tool, args: seq!["version"@], label: tool.name() + " version"@ }
}

/// `build -t <registry>/<name>:latest <path>`
pub open spec fn docker_build_call(service: Seq<char>) -> Call {
    Call {
        tool: Tool::Docker,
        args: seq!["build"@, "-t"@, image_name(service), service_path(service)],
        label: "docker build"@,
    }
}

/// `push <registry>/<name>:latest`
pub open spec fn docker_push_call(service: Seq<char>) -> Call {
    Call { tool: Tool::Docker, args: seq!["push"@, image_name(service)], label: "docker push"@ }
}

/// `cluster-info --context <ctx>`
pub open spec fn cluster_info_call(context: Seq<char>) -> Call {
    Call {
        tool: Tool::Kubectl,
        args: seq!["cluster-info"@, "--context"@, context],
        label: "kubectl cluster-info"@,
    }
}

/// `config use-context <ctx>`
pub open spec fn use_context_call(context: Seq<char>) -> Call {
    Call {
        tool: Tool::Kubectl,
        args: seq!["config"@, "use-context"@, context],
        label: "kubectl config use-context"@,
    }
}

/// The provisioner's call that creates a cluster: `create cluster --name <n>` for
/// kind; for k3d `cluster create <n>` with the two load-balancer port mappings.
pub open spec fn create_cluster_call(k3d: bool, cluster: Seq<char>) -> Call {
    if k3d {
        Call {
            tool: Tool::K3d,
            args: seq![
                "cluster"@,
                "create"@,
                cluster,
                "--port"@,
                "80:80@loadbalancer"@,
                "--port"@,
                "443:443@loadbalancer"@,
            ],
            label: "k3d create cluster"@,
        }
    } else {
        Call {
            tool: Tool::Kind,
            args: seq!["create"@, "cluster"@, "--name"@, cluster],
            label: "kind create cluster"@,
        }
    }
}

/// The provisioner's call that lists clusters: `get clusters` for kind,
/// `cluster list --output json` for k3d.
pub open spec fn list_clusters_call(k3d: bool) -> Call {
    if k3d {
        Call {
            tool: Tool::K3d,
            args: seq!["cluster"@, "list"@, "--output"@, "json"@],
            label: "k3d list clusters"@,
        }
    } else {
        Call { tool: Tool::Kind, args: seq!["get"@, "clusters"@], label: "kind list clusters"@ }
    }
}

/// The command line of a call: the program, then each argument after a space.
pub open spec fn rendered(call: Call) -> Seq<char> {
    call.tool.name() + " "@ + joined(call.args, " "@)
}

/// The line that names a call in place of running it.
pub open spec fn preview_line(call: Call) -> Seq<char> {
    "DRY RUN: Would execute "@ + call.tool.name() + " command: "@ + rendered(call)
}

fn labelled(prefix: &str, subject: &str) -> (r: String)
    ensures
        r@ == prefix@ + subject@,
{
    let mut r = String::from_str(prefix);
    r.append(subject);
    r
}

fn push_context(args: &mut Vec<String>, context: &Option<String>)
    ensures
        texts(final(args)@) == texts(old(args)@) + context_args(opt_text(*context)),
{
    match context {
        Some(c) => {
            push_text(args, "--kube-context");
            push_line(args, c.clone());
            assert(texts(args@) =~= texts(old(args)@) + context_args(opt_text(*context)));
        },
        None => {
            assert(texts(args@) =~= texts(old(args)@) + context_args(opt_text(*context)));
        },
    }
}

fn push_values(args: &mut Vec<String>, values: &Option<String>)
    ensures
        texts(final(args)@) == texts(old(args)@) + values_args(opt_text(*values)),
{
    match values {
        Some(file) => {
            push_text(args, "--values");
            push_line(args, file.clone());
            assert(texts(args@) =~= texts(old(args)@) + values_args(opt_text(*values)));
        },
        None => {
            assert(texts(args@) =~= texts(old(args)@) + values_args(opt_text(*values)));
        },
    }
}

/// The image reference of a service.
pub fn image_of(service: &str) -> (r: String)
    ensures
        r@ == image_name(service@),
{
    let mut r = String::from_str("meshstack/");
    r.append(service);
    r.append(":latest");
    r
}

/// The release name of a service.
pub fn release_of(service: &str) -> (r: String)
    ensures
        r@ == service_release(service@),
{
    labelled("meshstack-", service)
}

/// The directory of a service.
pub fn path_of(service: &str) -> (r: String)
    ensures
        r@ == service_path(service@),
{
    labelled("services/", service)
}

/// The context of a cluster made by a provisioner.
pub fn context_of(tool: Tool, cluster: &str) -> (r: String)
    ensures
        r@ == cluster_context(tool, cluster@),
{
    match tool {
        Tool::Kind => labelled("kind-", cluster),
        Tool::K3d => labelled("k3d-", cluster),
        _ => String::from_str(cluster),
    }
}

impl Invocation {
    /// The chart tool's install call.
    pub fn helm_install(
        release: &str,
        chart: &str,
        dry_run: bool,
        context: &Option<String>,
        values: &Option<String>,
    ) -> (r: Invocation)
        ensures
            r@ == helm_install_call(
                release@,
                chart@,
                dry_run,
                opt_text(*context),
                opt_text(*values),
            ),
    {
        let mut args: Vec<String> = Vec::new();
        push_text(&mut args, "install");
        push_text(&mut args, release);
        push_text(&mut args, chart);
        if dry_run {
            push_text(&mut args, "--dry-run");
        }
        assert(texts(args@) =~= seq!["install"@, release@, chart@] + dry_run_args(dry_run));
        push_context(&mut args, context);
        push_values(&mut args, values);
        Invocation { tool: Tool::Helm, args, label: labelled("helm install ", release) }
    }

    /// The chart tool's upgrade-or-install call for a chart directory.
    pub fn helm_upgrade_install(
        release: &str,
        path: &str,
        context: &Option<String>,
        values: &Option<String>,
    ) -> (r: Invocation)
        ensures
            r@ == helm_upgrade_install_call(
                release@,
                path@,
                opt_text(*context),
                opt_text(*values),
            ),
    {
        let mut args: Vec<String> = Vec::new();
        push_text(&mut args, "upgrade");
        push_text(&mut args, "--install");
        push_text(&mut args, release);
        push_text(&mut args, path);
        assert(texts(args@) =~= seq!["upgrade"@, "--install"@, release@, path@]);
        push_context(&mut args, context);
        push_values(&mut args, values);
        Invocation { tool: Tool::Helm, args, label: labelled("helm upgrade --install ", release) }
    }

    /// The chart tool's uninstall call.
    pub fn helm_uninstall(release: &str, context: &Option<String>) -> (r: Invocation)
        ensures
            r@ == helm_uninstall_call(release@, opt_text(*context)),
    {
        let mut args: Vec<String> = Vec::new();
        push_text(&mut args, "uninstall");
        push_text(&mut args, release);
        assert(texts(args@) =~= seq!["uninstall"@, release@]);
        push_context(&mut args, context);
        Invocation { tool: Tool::Helm, args, label: labelled("helm uninstall ", release) }
    }

    /// The chart tool's upgrade of a release to a given chart version.
    pub fn helm_upgrade_version(
        release: &str,
        chart: &str,
        version: &str,
        context: &Option<String>,
    ) -> (r: Invocation)
        ensures
            r@ == helm_upgrade_version_call(release@, chart@, version@, opt_text(*context)),
    {
        let mut args: Vec<String> = Vec::new();
        push_text(&mut args, "upgrade");
        push_text(&mut args, release);
        push_text(&mut args, chart);
        push_text(&mut args, "--version");
        push_text(&mut args, version);
        assert(texts(args@) =~= seq!["upgrade"@, release@, chart@, "--version"@, version@]);
        push_context(&mut args, context);
        Invocation { tool: Tool::Helm, args, label: labelled("helm upgrade ", release) }
    }

    /// The chart tool's query for an installed release.
    pub fn helm_list(name: &str) -> (r: Invocation)
        ensures
            r@ == helm_list_call(name@),
    {
        let mut args: Vec<String> = Vec::new();
        push_text(&mut args, "list");
        push_text(&mut args, "--filter");
        push_text(&mut args, name);
        push_text(&mut args, "--output");
        push_text(&mut args, "json");
        assert(texts(args@) =~= helm_list_call(name@).args);
        Invocation { tool: Tool::Helm, args, label: String::from_str("helm list") }
    }

    /// The chart tool's query for the versions a repository offers.
    pub fn helm_search(chart: &str) -> (r: Invocation)
        ensures
            r@ == helm_search_call(chart@),
    {
        let mut args: Vec<String> = Vec::new();
        push_text(&mut args, "search");
        push_text(&mut args, "repo");
        push_text(&mut args, chart);
        push_text(&mut args, "--output");
        push_text(&mut args, "json");
        assert(texts(args@) =~= helm_search_call(chart@).args);
        Invocation { tool: Tool::Helm, args, label: String::from_str("helm search repo") }
    }

    /// The call that asks a tool for its version, used to find out whether it is installed.
    pub fn version(tool: Tool) -> (r: Invocation)
        ensures
            r@ == version_call(tool),
    {
        let mut args: Vec<String> = Vec::new();
        push_text(&mut args, "version");
        assert(texts(args@) =~= seq!["version"@]);
        Invocation { tool, args, label: labelled(tool.program(), " version") }
    }

    /// The build tool's call that builds the image of a service.
    pub fn docker_build(service: &str) -> (r: Invocation)
        ensures
            r@ == docker_build_call(service@),
    {
        let mut args: Vec<String> = Vec::new();
        push_text(&mut args, "build");
        push_text(&mut args, "-t");
        push_line(&mut args, image_of(service));
        push_line(&mut args, path_of(service));
        assert(texts(args@) =~= docker_build_call(service@).args);
        Invocation { tool: Tool::Docker, args, label: String::from_str("docker build") }
    }

    /// The build tool's call that pushes the image of a service.
    pub fn docker_push(service: &str) -> (r: Invocation)
        ensures
            r@ == docker_push_call(service@),
    {
        let mut args: Vec<String> = Vec::new();
        push_text(&mut args, "push");
        push_line(&mut args, image_of(service));
        assert(texts(args@) =~= docker_push_call(service@).args);
        Invocation { tool: Tool::Docker, args, label: String::from_str("docker push") }
    }

    /// The cluster client's connectivity check.
    pub fn cluster_info(context: &str) -> (r: Invocation)
        ensures
            r@ == cluster_info_call(context@),
    {
        let mut args: Vec<String> = Vec::new();
        push_text(&mut args, "cluster-info");
        push_text(&mut args, "--context");
        push_text(&mut args, context);
        assert(texts(args@) =~= cluster_info_call(context@).args);
        Invocation { tool: Tool::Kubectl, args, label: String::from_str("kubectl cluster-info") }
    }

    /// The cluster client's switch to another context.
    pub fn use_context(context: &str) -> (r: Invocation)
        ensures
            r@ == use_context_call(context@),
    {
        let mut args: Vec<String> = Vec::new();
        push_text(&mut args, "config");
        push_text(&mut args, "use-context");
        push_text(&mut args, context);
        assert(texts(args@) =~= use_context_call(context@).args);
        Invocation {
            tool: Tool::Kubectl,
            args,
            label: String::from_str("kubectl config use-context"),
        }
    }

    /// The provisioner's call that creates a cluster.
    pub fn create_cluster(k3d: bool, cluster: &str) -> (r: Invocation)
        ensures
            r@ == create_cluster_call(k3d, cluster@),
    {
        let mut args: Vec<String> = Vec::new();
        if k3d {
            push_text(&mut args, "cluster");
            push_text(&mut args, "create");
            push_text(&mut args, cluster);
            push_text(&mut args, "--port");
            push_text(&mut args, "80:80@loadbalancer");
            push_text(&mut args, "--port");
            push_text(&mut args, "443:443@loadbalancer");
            assert(texts(args@) =~= create_cluster_call(k3d, cluster@).args);
            Invocation { tool: Tool::K3d, args, label: String::from_str("k3d create cluster") }
        } else {
            push_text(&mut args, "create");
            push_text(&mut args, "cluster");
            push_text(&mut args, "--name");
            push_text(&mut args, cluster);
            assert(texts(args@) =~= create_cluster_call(k3d, cluster@).args);
            Invocation { tool: Tool::Kind, args, label: String::from_str("kind create cluster") }
        }
    }

    /// The provisioner's call that lists the clusters it knows.
    pub fn list_clusters(k3d: bool) -> (r: Invocation)
        ensures
            r@ == list_clusters_call(k3d),
    {
        let mut args: Vec<String> = Vec::new();
        if k3d {
            push_text(&mut args, "cluster");
            push_text(&mut args, "list");
            push_text(&mut args, "--output");
            push_text(&mut args, "json");
            assert(texts(args@) =~= list_clusters_call(k3d).args);
            Invocation { tool: Tool::K3d, args, label: String::from_str("k3d list clusters") }
        } else {
            push_text(&mut args, "get");
            push_text(&mut args, "clusters");
            assert(texts(args@) =~= list_clusters_call(k3d).args);
            Invocation { tool: Tool::Kind, args, label: String::from_str("kind list clusters") }
        }
    }

    /// The command line of this call.
    pub fn render(&self) -> (r: String)
        ensures
            r@ == rendered(self@),
    {
        let mut r = String::from_str(self.tool.program());
        r.append(" ");
        let words = join(&self.args, " ");
        r.append(words.as_str());
        r
    }

    /// The line that names this call in place of running it.
    pub fn preview(&self) -> (r: String)
        ensures
            r@ == preview_line(self@),
    {
        let mut r = String::from_str("DRY RUN: Would execute ");
        r.append(self.tool.program());
        r.append(" command: ");
        let line = self.render();
        r.append(line.as_str());
        r
    }
}

} // verus!
