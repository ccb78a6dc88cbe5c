//! Generating scaffolds: which directories to make and which files to write,
//! for one service or for the project. Nothing here touches the file system;
//! existing paths are given, and a file that exists is written only when
//! forced.

use vstd::prelude::*;
use vstd::string::*;
use crate::command::{path_of, service_path};
use crate::config::{MeshstackConfig, ProjectConfig};
use crate::scaffold::{
    argocd_application, cargo_toml, chart_yaml, deployment_yaml, dockerfile_for,
    generate_argocd_application, generate_cargo_toml, generate_chart_yaml,
    generate_deployment_yaml, generate_dockerfile_content, generate_overlay_yaml,
    generate_package_json, generate_service_yaml, generate_values_yaml, generate_workflow_yaml,
    overlay_yaml, package_json, service_yaml, values_yaml, workflow_yaml, Environment, INDEX_JS,
    MAIN_RS,
};
use crate::text::{contains_text, push_line, same_text, texts};

verus! {

/// One file of a scaffold.
#[derive(Debug)]
pub struct ScaffoldFile {
    pub path: String,
    pub content: String,
}

impl View for ScaffoldFile {
    type V = (Seq<char>, Seq<char>);

    open spec fn view(&self) -> (Seq<char>, Seq<char>) {
        (self.path@, self.content@)
    }
}

/// The (path, content) pairs held by a list of files, in order.
pub open spec fn files_of(items: Seq<ScaffoldFile>) -> Seq<(Seq<char>, Seq<char>)> {
    items.map_values(|f: ScaffoldFile| f@)
}

/// Whether a file is written: always when forced, else only where it does
/// not exist yet.
pub open spec fn writes(present: bool, force: bool) -> bool {
    !present || force
}

/// Whether a file is written.
pub fn should_write_file(present: bool, force: bool) -> (r: bool)
    ensures
        r == writes(present, force),
{
    !present || force
}

/// The files among `candidates` that are written, in order.
pub open spec fn kept(
    candidates: Seq<(Seq<char>, Seq<char>)>,
    existing: Seq<Seq<char>>,
    force: bool,
) -> Seq<(Seq<char>, Seq<char>)>
    decreases candidates.len(),
{
    if candidates.len() == 0 {
        seq![]
    } else {
        let rest = kept(candidates.drop_last(), existing, force);
        if writes(existing.contains(candidates.last().0), force) {
            rest.push(candidates.last())
        } else {
            rest
        }
    }
}

/// Keeps the files among `candidates` that are written.
pub fn keep_writable(candidates: Vec<ScaffoldFile>, existing: &Vec<String>, force: bool) -> (r: Vec<
    ScaffoldFile,
>)
    ensures
        files_of(r@) == kept(files_of(candidates@), texts(existing@), force),
{
    let ghost all = files_of(candidates@);
    let mut rest = candidates;
    let mut out: Vec<ScaffoldFile> = Vec::new();
    let n = rest.len();
    let mut i: usize = 0;
    assert(files_of(out@) =~= kept(all.take(0), texts(existing@), force));
    while i < n
        invariant
            i <= n,
            n == rest.len(),
            all.len() == n,
            forall|j: int| i <= j < n ==> (#[trigger] rest@[j])@ == all[j],
            files_of(out@) == kept(all.take(i as int), texts(existing@), force),
        decreases n - i,
    {
        proof {
            assert(all.take(i as int + 1).drop_last() =~= all.take(i as int));
            assert(all.take(i as int + 1).last() == all[i as int]);
        }
        let present = contains_text(existing, rest[i].path.as_str());
        if should_write_file(present, force) {
            let mut file = ScaffoldFile { path: String::new(), content: String::new() };
            std::mem::swap(&mut file, &mut rest[i]);
            let ghost before = files_of(out@);
            out.push(file);
            assert(files_of(out@) =~= before.push(all[i as int]));
        }
        i += 1;
    }
    assert(all.take(n as int) =~= all);
    out
}

/// The path of a file inside the directory of a service.
pub open spec fn inside(service: Seq<char>, file: Seq<char>) -> Seq<char> {
    service_path(service) + "/"@ + file
}

fn file_in(service: &str, file: &str, content: String) -> (r: ScaffoldFile)
    ensures
        r@ == (inside(service@, file@), content@),
{
    let mut path = path_of(service);
    path.append("/");
    path.append(file);
    ScaffoldFile { path, content }
}

/// The chart of a service: descriptor, deployment and service templates, and
/// default values.
pub open spec fn chart_files(service: Seq<char>, config: ProjectConfig) -> Seq<
    (Seq<char>, Seq<char>),
> {
    seq![
        (inside(service, "Chart.yaml"@), chart_yaml(service)),
        (inside(service, "templates/deployment.yaml"@), deployment_yaml(service, config.service_mesh)),
        (inside(service, "templates/service.yaml"@), service_yaml(service)),
        (inside(service, "values.yaml"@), values_yaml(service)),
    ]
}

/// The starter sources of a service, for the languages that have any.
pub open spec fn app_files(service: Seq<char>, config: ProjectConfig) -> Seq<(Seq<char>, Seq<char>)> {
    if config.language == "rust"@ {
        seq![
            (inside(service, "Cargo.toml"@), cargo_toml(service)),
            (inside(service, "src/main.rs"@), MAIN_RS@),
        ]
    } else if config.language == "node"@ || config.language == "javascript"@ {
        seq![
            (inside(service, "package.json"@), package_json(service)),
            (inside(service, "index.js"@), INDEX_JS@),
        ]
    } else {
        seq![]
    }
}

/// Every file of the scaffold of a service, in the order of generation: the
/// build descriptor, the chart, and the starter sources unless the project is
/// language-agnostic.
pub open spec fn service_files(service: Seq<char>, config: ProjectConfig) -> Seq<
    (Seq<char>, Seq<char>),
> {
    seq![(inside(service, "Dockerfile"@), dockerfile_for(config.language))] + chart_files(
        service,
        config,
    ) + (if config.language == "generic"@ {
        seq![]
    } else {
        app_files(service, config)
    })
}

/// The files of the chart of a service.
pub fn generate_helm_chart(service_name: &str, config: &MeshstackConfig) -> (r: Vec<ScaffoldFile>)
    ensures
        files_of(r@) == chart_files(service_name@, config@),
{
    let mut r: Vec<ScaffoldFile> = Vec::new();
    r.push(file_in(service_name, "Chart.yaml", generate_chart_yaml(service_name)));
    r.push(
        file_in(
            service_name,
            "templates/deployment.yaml",
            generate_deployment_yaml(service_name, config),
        ),
    );
    r.push(file_in(service_name, "templates/service.yaml", generate_service_yaml(service_name)));
    r.push(file_in(service_name, "values.yaml", generate_values_yaml(service_name, config)));
    assert(files_of(r@) =~= chart_files(service_name@, config@));
    r
}

/// The starter sources of a service.
pub fn generate_app_files(service_name: &str, config: &MeshstackConfig) -> (r: Vec<ScaffoldFile>)
    ensures
        files_of(r@) == app_files(service_name@, config@),
{
    let mut r: Vec<ScaffoldFile> = Vec::new();
    let language = config.language.as_str();
    if same_text(language, "rust") {
        r.push(file_in(service_name, "Cargo.toml", generate_cargo_toml(service_name)));
        r.push(file_in(service_name, "src/main.rs", String::from_str(MAIN_RS)));
    } else if same_text(language, "node") || same_text(language, "javascript") {
        r.push(file_in(service_name, "package.json", generate_package_json(service_name)));
        r.push(file_in(service_name, "index.js", String::from_str(INDEX_JS)));
    }
    assert(files_of(r@) =~= app_files(service_name@, config@));
    r
}

/// The files of the scaffold of a service that are written, given the paths
/// that exist.
pub fn generate_service_scaffold(
    service_name: &str,
    config: &MeshstackConfig,
    force: bool,
    existing: &Vec<String>,
) -> (r: Vec<ScaffoldFile>)
    ensures
        files_of(r@) == kept(service_files(service_name@, config@), texts(existing@), force),
{
    let mut all: Vec<ScaffoldFile> = Vec::new();
    all.push(file_in(service_name, "Dockerfile", generate_dockerfile_content(config)));
    let ghost f0 = files_of(all@);
    assert(f0 =~= seq![(inside(service_name@, "Dockerfile"@), dockerfile_for(config@.language))]);
    let mut chart = generate_helm_chart(service_name, config);
    let ghost c = files_of(chart@);
    all.append(&mut chart);
    assert(files_of(all@) =~= f0 + c);
    if !same_text(config.language.as_str(), "generic") {
        let ghost f1 = files_of(all@);
        let mut app = generate_app_files(service_name, config);
        let ghost a = files_of(app@);
        all.append(&mut app);
        assert(files_of(all@) =~= f1 + a);
    }
    assert(files_of(all@) =~= service_files(service_name@, config@));
    keep_writable(all, existing, force)
}

/// The CI manifest of a project: a workflow for GitHub, an application for
/// ArgoCD, nothing for a system that is not known.
pub open spec fn ci_files(config: ProjectConfig) -> Seq<(Seq<char>, Seq<char>)> {
    if config.ci_cd == "github"@ {
        seq![(".github/workflows/meshstack.yml"@, workflow_yaml(config.service_mesh))]
    } else if config.ci_cd == "argo"@ {
        seq![("argocd/application.yaml"@, argocd_application(config.project_name))]
    } else {
        seq![]
    }
}

/// The overlay of each environment.
pub open spec fn overlay_files() -> Seq<(Seq<char>, Seq<char>)> {
    seq![
        (Environment::Development.file(), overlay_yaml(Environment::Development)),
        (Environment::Production.file(), overlay_yaml(Environment::Production)),
        (Environment::Staging.file(), overlay_yaml(Environment::Staging)),
    ]
}

/// Every file of the project's own scaffold, in the order of generation: the
/// configuration as `yaml` renders it, the CI manifest, and the overlays.
pub open spec fn project_files(config: ProjectConfig, yaml: Seq<char>) -> Seq<(Seq<char>, Seq<char>)> {
    seq![("meshstack.yaml"@, yaml)] + ci_files(config) + overlay_files()
}

/// The GitHub Actions workflow of the project.
pub fn generate_github_actions_workflow(config: &MeshstackConfig) -> (r: ScaffoldFile)
    ensures
        r@ == (".github/workflows/meshstack.yml"@, workflow_yaml(config@.service_mesh)),
{
    ScaffoldFile {
        path: String::from_str(".github/workflows/meshstack.yml"),
        content: generate_workflow_yaml(config.service_mesh.as_str()),
    }
}

/// The ArgoCD application of the project.
pub fn generate_argocd_manifests(config: &MeshstackConfig) -> (r: ScaffoldFile)
    ensures
        r@ == ("argocd/application.yaml"@, argocd_application(config@.project_name)),
{
    ScaffoldFile {
        path: String::from_str("argocd/application.yaml"),
        content: generate_argocd_application(config.project_name.as_str()),
    }
}

fn overlay_file(env: Environment) -> (r: ScaffoldFile)
    ensures
        r@ == (env.file(), overlay_yaml(env)),
{
    ScaffoldFile { path: String::from_str(env.file_name()), content: generate_overlay_yaml(env) }
}

/// The overlay file of each environment.
pub fn generate_values_files() -> (r: Vec<ScaffoldFile>)
    ensures
        files_of(r@) == overlay_files(),
{
    let mut r: Vec<ScaffoldFile> = Vec::new();
    r.push(overlay_file(Environment::Development));
    r.push(overlay_file(Environment::Production));
    r.push(overlay_file(Environment::Staging));
    assert(files_of(r@) =~= overlay_files());
    r
}

/// The files of the project's own scaffold that are written, given the
/// rendered configuration and the paths that exist.
pub fn generate_project_structure(
    config: &MeshstackConfig,
    yaml: String,
    force: bool,
    existing: &Vec<String>,
) -> (r: Vec<ScaffoldFile>)
    ensures
        files_of(r@) == kept(project_files(config@, yaml@), texts(existing@), force),
{
    let mut all: Vec<ScaffoldFile> = Vec::new();
    all.push(ScaffoldFile { path: String::from_str("meshstack.yaml"), content: yaml });
    let ci = config.ci_cd.as_str();
    if same_text(ci, "github") {
        all.push(generate_github_actions_workflow(config));
    } else if same_text(ci, "argo") {
        all.push(generate_argocd_manifests(config));
    }
    let ghost f0 = files_of(all@);
    assert(f0 =~= seq![("meshstack.yaml"@, yaml@)] + ci_files(config@));
    let mut overlays = generate_values_files();
    let ghost o = files_of(overlays@);
    all.append(&mut overlays);
    assert(files_of(all@) =~= f0 + o);
    keep_writable(all, existing, force)
}

/// One thing to do for a generation.
#[derive(Debug)]
pub enum Task {
    /// Write a line to standard output.
    Say(String),
    /// Make a directory.
    MakeDir(String),
    /// Write a file, making the directories above it.
    Write(ScaffoldFile),
    /// Copy the base templates into the project.
    CopyTemplates,
}

/// The mathematical content of a [`Task`].
pub enum Chore {
    Say(Seq<char>),
    MakeDir(Seq<char>),
    Write(Seq<char>, Seq<char>),
    CopyTemplates,
}

impl View for Task {
    type V = Chore;

    open spec fn view(&self) -> Chore {
        match *self {
            Task::Say(line) => Chore::Say(line@),
            Task::MakeDir(path) => Chore::MakeDir(path@),
            Task::Write(file) => Chore::Write(file.path@, file.content@),
            Task::CopyTemplates => Chore::CopyTemplates,
        }
    }
}

/// The chores held by a list of tasks, in order.
pub open spec fn chores(tasks: Seq<Task>) -> Seq<Chore> {
    tasks.map_values(|t: Task| t@)
}

/// A directory is made, and reported, where it does not exist yet.
pub open spec fn dir_chores(path: Seq<char>, existing: Seq<Seq<char>>, label: Seq<char>) -> Seq<
    Chore,
> {
    if existing.contains(path) {
        seq![]
    } else {
        seq![Chore::MakeDir(path), Chore::Say(label + path)]
    }
}

/// One write per file, in order.
pub open spec fn write_chores(files: Seq<(Seq<char>, Seq<char>)>) -> Seq<Chore> {
    files.map_values(|f: (Seq<char>, Seq<char>)| Chore::Write(f.0, f.1))
}

/// Whether a language has starter sources.
pub open spec fn has_starter(language: Seq<char>) -> bool {
    language == "rust"@ || language == "node"@ || language == "javascript"@
}

/// What is done for the scaffold of one service.
pub open spec fn service_chores(
    service: Seq<char>,
    config: ProjectConfig,
    force: bool,
    existing: Seq<Seq<char>>,
) -> Seq<Chore> {
    dir_chores(service_path(service), existing, "Created service directory: "@) + write_chores(
        kept(service_files(service, config), existing, force),
    ) + (if config.language != "generic"@ && !has_starter(config.language) {
        seq![Chore::Say("Language-specific files not implemented for: "@ + config.language)]
    } else {
        seq![]
    })
}

/// What is done for the scaffolds of a list of services, each announced.
pub open spec fn services_chores(
    services: Seq<Seq<char>>,
    config: ProjectConfig,
    force: bool,
    existing: Seq<Seq<char>>,
) -> Seq<Chore>
    decreases services.len(),
{
    if services.len() == 0 {
        seq![]
    } else {
        services_chores(services.drop_last(), config, force, existing) + seq![
            Chore::Say("Re-generating scaffold for existing service: "@ + services.last()),
        ] + service_chores(services.last(), config, force, existing)
    }
}

/// What is done for the project's own scaffold.
pub open spec fn project_chores(
    config: ProjectConfig,
    yaml: Seq<char>,
    force: bool,
    existing: Seq<Seq<char>>,
    templates_present: bool,
) -> Seq<Chore> {
    dir_chores("services"@, existing, "Created directory: "@) + dir_chores(
        "provision"@,
        existing,
        "Created directory: "@,
    ) + write_chores(kept(project_files(config, yaml), existing, force)) + (if config.ci_cd
        != "github"@ && config.ci_cd != "argo"@ {
        seq![
            Chore::Say(
                "Unknown CI/CD system: "@ + config.ci_cd + ". Skipping CI/CD generation."@,
            ),
        ]
    } else {
        seq![]
    }) + (if templates_present {
        seq![Chore::CopyTemplates]
    } else {
        seq![]
    })
}

/// What a list of chores produces: the path of each file written, and the
/// base templates where they are copied.
pub open spec fn produced(work: Seq<Chore>) -> Seq<Seq<char>>
    decreases work.len(),
{
    if work.len() == 0 {
        seq![]
    } else {
        match work.last() {
            Chore::Write(path, _) => produced(work.drop_last()).push(path),
            Chore::CopyTemplates => produced(work.drop_last()).push("base templates"@),
            _ => produced(work.drop_last()),
        }
    }
}

/// One line per produced name.
pub open spec fn produced_lines(names: Seq<Seq<char>>) -> Seq<Chore> {
    names.map_values(|n: Seq<char>| Chore::Say("  \u{2022} "@ + n))
}

/// The lines that sum a generation up.
pub open spec fn summary(names: Seq<Seq<char>>) -> Seq<Chore> {
    if names.len() == 0 {
        seq![Chore::Say("\u{2705} No files needed to be generated or updated."@)]
    } else {
        seq![Chore::Say("\n\u{1F4CB} Generated/Updated Files:"@)] + produced_lines(names) + seq![
            Chore::Say(
                "\n\u{2705} Successfully generated "@ + crate::text::decimal(names.len())
                    + " files!"@,
            ),
        ]
    }
}

/// What a generation does before it sums up: a named service comes before
/// everything, everything before the project alone.
pub open spec fn generation_body(
    service: Option<Seq<char>>,
    all: bool,
    force: bool,
    config: ProjectConfig,
    yaml: Seq<char>,
    services: Seq<Seq<char>>,
    existing: Seq<Seq<char>>,
    templates_present: bool,
) -> Seq<Chore> {
    match service {
        Some(s) => seq![Chore::Say("Generating scaffold for service: "@ + s)] + service_chores(
            s,
            config,
            force,
            existing,
        ),
        None => if all {
            seq![Chore::Say("Re-generating all project scaffolds and configurations..."@)]
                + project_chores(config, yaml, force, existing, templates_present)
                + services_chores(services, config, force, existing)
        } else {
            seq![Chore::Say("Re-generating project-level configurations..."@)] + project_chores(
                config,
                yaml,
                force,
                existing,
                templates_present,
            )
        },
    }
}

/// Everything a generation does.
pub open spec fn generation(
    service: Option<Seq<char>>,
    all: bool,
    force: bool,
    config: ProjectConfig,
    yaml: Seq<char>,
    services: Seq<Seq<char>>,
    existing: Seq<Seq<char>>,
    templates_present: bool,
) -> Seq<Chore> {
    let body = generation_body(
        service,
        all,
        force,
        config,
        yaml,
        services,
        existing,
        templates_present,
    );
    seq![Chore::Say("\u{1F527} Generating scaffolds and configuration files..."@)] + body
        + summary(produced(body))
}

fn push_task(out: &mut Vec<Task>, task: Task)
    ensures
        chores(final(out)@) == chores(old(out)@).push(task@),
{
    out.push(task);
    assert(chores(out@) =~= chores(old(out)@).push(task@));
}

fn push_say(out: &mut Vec<Task>, a: &str, b: &str)
    ensures
        chores(final(out)@) == chores(old(out)@).push(Chore::Say(a@ + b@)),
{
    let mut line = String::from_str(a);
    line.append(b);
    push_task(out, Task::Say(line));
}

fn push_dir(out: &mut Vec<Task>, path: &str, existing: &Vec<String>, label: &str)
    ensures
        chores(final(out)@) == chores(old(out)@) + dir_chores(path@, texts(existing@), label@),
{
    if !contains_text(existing, path) {
        push_task(out, Task::MakeDir(String::from_str(path)));
        push_say(out, label, path);
    }
    assert(chores(out@) =~= chores(old(out)@) + dir_chores(path@, texts(existing@), label@));
}

fn push_writes(out: &mut Vec<Task>, files: Vec<ScaffoldFile>)
    ensures
        chores(final(out)@) == chores(old(out)@) + write_chores(files_of(files@)),
{
    let ghost before = chores(out@);
    let ghost all = write_chores(files_of(files@));
    let mut rest = files;
    let n = rest.len();
    let mut i: usize = 0;
    assert(chores(out@) =~= before + all.take(0));
    while i < n
        invariant
            i <= n,
            n == rest.len(),
            all.len() == n,
            forall|j: int|
                i <= j < n ==> Chore::Write((#[trigger] rest@[j]).path@, rest@[j].content@)
                    == all[j],
            chores(out@) == before + all.take(i as int),
        decreases n - i,
    {
        let mut file = ScaffoldFile { path: String::new(), content: String::new() };
        std::mem::swap(&mut file, &mut rest[i]);
        push_task(out, Task::Write(file));
        assert(chores(out@) =~= before + all.take(i as int + 1));
        i += 1;
    }
    assert(all.take(n as int) =~= all);
}

fn plan_service_scaffold(
    out: &mut Vec<Task>,
    service: &str,
    config: &MeshstackConfig,
    force: bool,
    existing: &Vec<String>,
)
    ensures
        chores(final(out)@) == chores(old(out)@) + service_chores(
            service@,
            config@,
            force,
            texts(existing@),
        ),
{
    push_dir(out, path_of(service).as_str(), existing, "Created service directory: ");
    push_writes(out, generate_service_scaffold(service, config, force, existing));
    let language = config.language.as_str();
    if !same_text(language, "generic") && !(same_text(language, "rust") || same_text(
        language,
        "node",
    ) || same_text(language, "javascript")) {
        push_say(out, "Language-specific files not implemented for: ", language);
    }
    assert(chores(out@) =~= chores(old(out)@) + service_chores(
        service@,
        config@,
        force,
        texts(existing@),
    ));
}

fn plan_project_structure(
    out: &mut Vec<Task>,
    config: &MeshstackConfig,
    yaml: String,
    force: bool,
    existing: &Vec<String>,
    templates_present: bool,
)
    ensures
        chores(final(out)@) == chores(old(out)@) + project_chores(
            config@,
            yaml@,
            force,
            texts(existing@),
            templates_present,
        ),
{
    push_dir(out, "services", existing, "Created directory: ");
    push_dir(out, "provision", existing, "Created directory: ");
    push_writes(out, generate_project_structure(config, yaml, force, existing));
    let ci = config.ci_cd.as_str();
    if !same_text(ci, "github") && !same_text(ci, "argo") {
        let mut line = String::from_str("Unknown CI/CD system: ");
        line.append(ci);
        line.append(". Skipping CI/CD generation.");
        push_task(out, Task::Say(line));
    }
    if templates_present {
        push_task(out, Task::CopyTemplates);
    }
    assert(chores(out@) =~= chores(old(out)@) + project_chores(
        config@,
        yaml@,
        force,
        texts(existing@),
        templates_present,
    ));
}

fn plan_services_scaffolds(
    out: &mut Vec<Task>,
    services: &Vec<String>,
    config: &MeshstackConfig,
    force: bool,
    existing: &Vec<String>,
)
    ensures
        chores(final(out)@) == chores(old(out)@) + services_chores(
            texts(services@),
            config@,
            force,
            texts(existing@),
        ),
{
    let ghost before = chores(out@);
    let ghost all = texts(services@);
    let mut i: usize = 0;
    assert(chores(out@) =~= before + services_chores(all.take(0), config@, force, texts(existing@)));
    while i < services.len()
        invariant
            i <= services.len(),
            all == texts(services@),
            chores(out@) == before + services_chores(
                all.take(i as int),
                config@,
                force,
                texts(existing@),
            ),
        decreases services.len() - i,
    {
        let ghost sofar = chores(out@);
        push_say(out, "Re-generating scaffold for existing service: ", services[i].as_str());
        plan_service_scaffold(out, services[i].as_str(), config, force, existing);
        proof {
            assert(all.take(i as int + 1).drop_last() =~= all.take(i as int));
            assert(all.take(i as int + 1).last() == services@[i as int]@);
            let name = services@[i as int]@;
            assert(chores(out@) =~= sofar + seq![
                Chore::Say("Re-generating scaffold for existing service: "@ + name),
            ] + service_chores(name, config@, force, texts(existing@)));
        }
        i += 1;
    }
    assert(all.take(services.len() as int) =~= all);
}

fn names_produced(tasks: &Vec<Task>) -> (names: Vec<String>)
    ensures
        texts(names@) == produced(chores(tasks@)),
{
    let ghost all = chores(tasks@);
    let mut names: Vec<String> = Vec::new();
    let mut i: usize = 0;
    assert(texts(names@) =~= produced(all.take(0)));
    while i < tasks.len()
        invariant
            i <= tasks.len(),
            all == chores(tasks@),
            texts(names@) == produced(all.take(i as int)),
        decreases tasks.len() - i,
    {
        proof {
            assert(all.take(i as int + 1).drop_last() =~= all.take(i as int));
            assert(all.take(i as int + 1).last() == tasks@[i as int]@);
        }
        match &tasks[i] {
            Task::Write(file) => {
                push_line(&mut names, file.path.clone());
            },
            Task::CopyTemplates => {
                push_line(&mut names, String::from_str("base templates"));
            },
            _ => {},
        }
        i += 1;
    }
    assert(all.take(tasks.len() as int) =~= all);
    names
}

fn plan_summary(out: &mut Vec<Task>, names: &Vec<String>)
    ensures
        chores(final(out)@) == chores(old(out)@) + summary(texts(names@)),
{
    let ghost before = chores(out@);
    if names.len() == 0 {
        push_say(out, "\u{2705} No files needed to be generated or updated.", "");
        proof {
            reveal_strlit("");
            assert("\u{2705} No files needed to be generated or updated."@ + ""@
                =~= "\u{2705} No files needed to be generated or updated."@);
        }
        assert(texts(names@).len() == 0);
        assert(chores(out@) =~= before + summary(texts(names@)));
        return ;
    }
    let mut heading = String::from_str("\n\u{1F4CB} Generated/Updated Files:");
    push_task(out, Task::Say(heading));
    let ghost head = chores(out@);
    let ghost all = produced_lines(texts(names@));
    let mut i: usize = 0;
    assert(chores(out@) =~= head + all.take(0));
    while i < names.len()
        invariant
            i <= names.len(),
            all == produced_lines(texts(names@)),
            chores(out@) == head + all.take(i as int),
        decreases names.len() - i,
    {
        push_say(out, "  \u{2022} ", names[i].as_str());
        assert(chores(out@) =~= head + all.take(i as int + 1));
        i += 1;
    }
    assert(all.take(names.len() as int) =~= all);
    let mut line = String::from_str("\n\u{2705} Successfully generated ");
    line.append(crate::text::numeral(names.len()).as_str());
    line.append(" files!");
    push_task(out, Task::Say(line));
    assert(texts(names@).len() == names.len());
    assert(chores(out@) =~= before + summary(texts(names@)));
}

/// Plans a generation for a project with the given configuration. `yaml` is
/// the configuration as it is persisted, `services` the services found below
/// the services root, `existing` the paths that exist, and `templates_present`
/// whether the source of the base templates is there.
pub fn plan_generation(
    service: &Option<String>,
    all: bool,
    force: bool,
    config: &MeshstackConfig,
    yaml: String,
    services: &Vec<String>,
    existing: &Vec<String>,
    templates_present: bool,
) -> (tasks: Vec<Task>)
    ensures
        chores(tasks@) == generation(
            crate::text::opt_text(*service),
            all,
            force,
            config@,
            yaml@,
            texts(services@),
            texts(existing@),
            templates_present,
        ),
{
    let mut body: Vec<Task> = Vec::new();
    match service {
        Some(s) => {
            push_say(&mut body, "Generating scaffold for service: ", s.as_str());
            plan_service_scaffold(&mut body, s.as_str(), config, force, existing);
        },
        None => {
            if all {
                push_task(
                    &mut body,
                    Task::Say(
                        String::from_str(
                            "Re-generating all project scaffolds and configurations...",
                        ),
                    ),
                );
                plan_project_structure(&mut body, config, yaml, force, existing, templates_present);
                plan_services_scaffolds(&mut body, services, config, force, existing);
            } else {
                push_task(
                    &mut body,
                    Task::Say(String::from_str("Re-generating project-level configurations...")),
                );
                plan_project_structure(&mut body, config, yaml, force, existing, templates_present);
            }
        },
    }
    let ghost inner = chores(body@);
    assert(inner =~= generation_body(
        crate::text::opt_text(*service),
        all,
        force,
        config@,
        yaml@,
        texts(services@),
        texts(existing@),
        templates_present,
    ));
    let names = names_produced(&body);
    let mut out: Vec<Task> = Vec::new();
    push_task(
        &mut out,
        Task::Say(String::from_str("\u{1F527} Generating scaffolds and configuration files...")),
    );
    let ghost head = chores(out@);
    out.append(&mut body);
    assert(chores(out@) =~= head + inner);
    plan_summary(&mut out, &names);
    out
}

/// Plans a generation for the project of the context. A project without a
/// configuration is refused, and so is one whose configuration cannot be
/// rendered for persisting.
pub fn generate_scaffolds(
    service: &Option<String>,
    all: bool,
    force: bool,
    ctx: &crate::config::MeshstackContext,
    services: &Vec<String>,
    existing: &Vec<String>,
    templates_present: bool,
) -> (r: Result<Vec<Task>, crate::error::MeshstackError>)
    ensures
        match r {
            Ok(tasks) => ctx.config is Some && crate::config::yaml_rendering(
                ctx.config->0@.entries(),
            ) is Some && chores(tasks@) == generation(
                crate::text::opt_text(*service),
                all,
                force,
                ctx.config->0@,
                crate::config::yaml_rendering(ctx.config->0@.entries())->0,
                texts(services@),
                texts(existing@),
                templates_present,
            ),
            Err(e) => match ctx.config {
                None => e@ == crate::config::config_required(),
                Some(c) => crate::config::yaml_rendering(c@.entries()) is None && e@.kind
                    == crate::error::ErrorKind::ConfigInvalid,
            },
        },
{
    let config = match ctx.require_config() {
        Ok(c) => c,
        Err(e) => {
            return Err(e);
        },
    };
    let yaml = match config.to_yaml() {
        Ok(text) => text,
        Err(e) => {
            return Err(e);
        },
    };
    Ok(plan_generation(service, all, force, config, yaml, services, existing, templates_present))
}

} // verus!
