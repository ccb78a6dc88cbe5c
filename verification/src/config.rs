//! The project configuration record and the per-invocation context built on it.

use vstd::prelude::*;
use vstd::string::*;
use crate::command::context_args;
use crate::error::{ErrorKind, Fault, MeshstackError};
use crate::text::{assoc, find_entry, opt_text, pairs, push_line, push_text, texts};

verus! {

/// `serde_yaml::Error`, the failure of the YAML library, carried through
/// unread.
#[verifier::external_type_specification]
#[verifier::external_body]
pub struct ExYamlError(serde_yaml::Error);

/// What `serde_yaml::from_str` reads from a text as a mapping from strings to
/// strings: its entries in key order, or nothing where it refuses the text.
/// Nothing but this is known of it: that the same text always reads the same.
pub uninterp spec fn yaml_document(text: Seq<char>) -> Option<Seq<(Seq<char>, Seq<char>)>>;

/// What `serde_yaml::to_string` writes for a mapping built from the given
/// string entries in order: the text, or nothing where it fails. Nothing but
/// this is known of it: that the same entries always give the same text.
pub uninterp spec fn yaml_rendering(entries: Seq<(Seq<char>, Seq<char>)>) -> Option<Seq<char>>;

/// Calls `serde_yaml::from_str` for a `BTreeMap<String, String>` and hands the
/// entries out as pairs. Trusted, not proved: the contract only names the
/// outcome, which is `yaml_document` of the text.
#[verifier::external_body]
fn parse_yaml_mapping(text: &str) -> (r: Result<Vec<(String, String)>, serde_yaml::Error>)
    ensures
        match r {
            Ok(entries) => yaml_document(text@) == Some(pairs(entries@)),
            Err(_) => yaml_document(text@) is None,
        },
{
    let map: std::collections::BTreeMap<String, String> = serde_yaml::from_str(text)?;
    Ok(map.into_iter().collect())
}

/// Collects the pairs into a `serde_yaml::Mapping` of string values and calls
/// `serde_yaml::to_string` on it. Trusted, not proved: the contract only names
/// the outcome, which is `yaml_rendering` of the pairs.
#[verifier::external_body]
fn render_yaml_mapping(entries: &Vec<(String, String)>) -> (r: Result<String, serde_yaml::Error>)
    ensures
        match r {
            Ok(text) => yaml_rendering(pairs(entries@)) == Some(text@),
            Err(_) => yaml_rendering(pairs(entries@)) is None,
        },
{
    let mapping: serde_yaml::Mapping = entries.iter().map(
        |e| (serde_yaml::Value::String(e.0.clone()), serde_yaml::Value::String(e.1.clone())),
    ).collect();
    serde_yaml::to_string(&mapping)
}

/// The message of a `serde_yaml::Error`, from its `Display` impl. Nothing is
/// claimed of the text.
#[verifier::external_body]
fn yaml_error_text(e: &serde_yaml::Error) -> String {
    e.to_string()
}

/// The project configuration: four string fields.
#[derive(Debug)]
pub struct MeshstackConfig {
    pub project_name: String,
    pub language: String,
    pub service_mesh: String,
    pub ci_cd: String,
}

/// The mathematical content of a [`MeshstackConfig`].
pub struct ProjectConfig {
    pub project_name: Seq<char>,
    pub language: Seq<char>,
    pub service_mesh: Seq<char>,
    pub ci_cd: Seq<char>,
}

impl View for MeshstackConfig {
    type V = ProjectConfig;

    open spec fn view(&self) -> ProjectConfig {
        ProjectConfig {
            project_name: self.project_name@,
            language: self.language@,
            service_mesh: self.service_mesh@,
            ci_cd: self.ci_cd@,
        }
    }
}

impl ProjectConfig {
    /// A configuration is valid when none of its four fields is empty.
    pub open spec fn valid(self) -> bool {
        &&& self.project_name.len() > 0
        &&& self.language.len() > 0
        &&& self.service_mesh.len() > 0
        &&& self.ci_cd.len() > 0
    }

    /// The record as (field name, value) entries, in the order they are persisted.
    pub open spec fn entries(self) -> Seq<(Seq<char>, Seq<char>)> {
        seq![
            ("project_name"@, self.project_name),
            ("language"@, self.language),
            ("service_mesh"@, self.service_mesh),
            ("ci_cd"@, self.ci_cd),
        ]
    }
}

/// The configuration that `init` writes: a default stands in for each value not given.
pub open spec fn initial_config(
    name: Option<Seq<char>>,
    mesh: Option<Seq<char>>,
    ci: Option<Seq<char>>,
) -> ProjectConfig {
    ProjectConfig {
        project_name: match name {
            Some(n) => n,
            None => "my-app"@,
        },
        language: "generic"@,
        service_mesh: match mesh {
            Some(m) => m,
            None => "istio"@,
        },
        ci_cd: match ci {
            Some(c) => c,
            None => "github"@,
        },
    }
}

/// Whether `entries` gives `field` no value, or an empty one.
pub open spec fn lacks(entries: Seq<(Seq<char>, Seq<char>)>, field: Seq<char>) -> bool {
    match assoc(entries, field) {
        Some(value) => value.len() == 0,
        None => true,
    }
}

/// The failure for a configuration without a usable value for `field`.
pub open spec fn invalid_field(field: Seq<char>) -> Fault {
    Fault {
        kind: ErrorKind::ConfigInvalid,
        message: "meshstack.yaml is invalid: missing or empty field `"@ + field + "`"@,
    }
}

/// The configuration that a list of entries stands for: all four fields must be
/// present and non-empty; the first one that is not is reported. Other entries
/// are ignored.
pub open spec fn config_of(entries: Seq<(Seq<char>, Seq<char>)>) -> Result<ProjectConfig, Fault> {
    if lacks(entries, "project_name"@) {
        Err(invalid_field("project_name"@))
    } else if lacks(entries, "language"@) {
        Err(invalid_field("language"@))
    } else if lacks(entries, "service_mesh"@) {
        Err(invalid_field("service_mesh"@))
    } else if lacks(entries, "ci_cd"@) {
        Err(invalid_field("ci_cd"@))
    } else {
        Ok(
            ProjectConfig {
                project_name: assoc(entries, "project_name"@)->0,
                language: assoc(entries, "language"@)->0,
                service_mesh: assoc(entries, "service_mesh"@)->0,
                ci_cd: assoc(entries, "ci_cd"@)->0,
            },
        )
    }
}

/// The failure reported where an operation needs a configuration and has none.
pub open spec fn config_required() -> Fault {
    Fault {
        kind: ErrorKind::ConfigMissing,
        message: "meshstack.yaml not found or invalid. Run 'meshstack init' first."@,
    }
}

/// The failure reported where the configuration file does not exist.
pub open spec fn config_not_found() -> Fault {
    Fault { kind: ErrorKind::ConfigMissing, message: "meshstack.yaml not found."@ }
}

fn required_field(entries: &Vec<(String, String)>, field: &str) -> (r: Result<
    String,
    MeshstackError,
>)
    ensures
        match r {
            Ok(value) => !lacks(pairs(entries@), field@) && assoc(pairs(entries@), field@) == Some(
                value@,
            ),
            Err(e) => lacks(pairs(entries@), field@) && e@ == invalid_field(field@),
        },
{
    match find_entry(entries, field) {
        Some(value) => {
            if value.as_str().unicode_len() > 0 {
                return Ok(value);
            }
        },
        None => {},
    }
    let mut message = String::from_str("meshstack.yaml is invalid: missing or empty field `");
    message.append(field);
    message.append("`");
    Err(MeshstackError::new(ErrorKind::ConfigInvalid, message))
}

impl MeshstackConfig {
    /// Whether none of the four fields is empty.
    pub fn is_valid(&self) -> (r: bool)
        ensures
            r == self@.valid(),
    {
        self.project_name.as_str().unicode_len() > 0 && self.language.as_str().unicode_len() > 0
            && self.service_mesh.as_str().unicode_len() > 0 && self.ci_cd.as_str().unicode_len()
            > 0
    }

    /// A copy of this configuration.
    pub fn duplicate(&self) -> (r: MeshstackConfig)
        ensures
            r@ == self@,
    {
        MeshstackConfig {
            project_name: self.project_name.clone(),
            language: self.language.clone(),
            service_mesh: self.service_mesh.clone(),
            ci_cd: self.ci_cd.clone(),
        }
    }

    /// The configuration of a new project, with defaults for what is not given.
    pub fn initial(name: &Option<String>, mesh: &Option<String>, ci: &Option<String>) -> (r:
        MeshstackConfig)
        ensures
            r@ == initial_config(opt_text(*name), opt_text(*mesh), opt_text(*ci)),
    {
        MeshstackConfig {
            project_name: match name {
                Some(n) => n.clone(),
                None => String::from_str("my-app"),
            },
            language: String::from_str("generic"),
            service_mesh: match mesh {
                Some(m) => m.clone(),
                None => String::from_str("istio"),
            },
            ci_cd: match ci {
                Some(c) => c.clone(),
                None => String::from_str("github"),
            },
        }
    }

    /// The record as (field name, value) entries, in the order they are persisted.
    pub fn entries(&self) -> (r: Vec<(String, String)>)
        ensures
            pairs(r@) == self@.entries(),
    {
        let mut r: Vec<(String, String)> = Vec::new();
        r.push((String::from_str("project_name"), self.project_name.clone()));
        r.push((String::from_str("language"), self.language.clone()));
        r.push((String::from_str("service_mesh"), self.service_mesh.clone()));
        r.push((String::from_str("ci_cd"), self.ci_cd.clone()));
        assert(pairs(r@) =~= self@.entries());
        r
    }

    /// The configuration that a list of entries stands for.
    pub fn from_entries(entries: &Vec<(String, String)>) -> (r: Result<
        MeshstackConfig,
        MeshstackError,
    >)
        ensures
            match r {
                Ok(c) => config_of(pairs(entries@)) == Ok::<ProjectConfig, Fault>(c@),
                Err(e) => config_of(pairs(entries@)) == Err::<ProjectConfig, Fault>(e@),
            },
    {
        let project_name = match required_field(entries, "project_name") {
            Ok(v) => v,
            Err(e) => {
                return Err(e);
            },
        };
        let language = match required_field(entries, "language") {
            Ok(v) => v,
            Err(e) => {
                return Err(e);
            },
        };
        let service_mesh = match required_field(entries, "service_mesh") {
            Ok(v) => v,
            Err(e) => {
                return Err(e);
            },
        };
        let ci_cd = match required_field(entries, "ci_cd") {
            Ok(v) => v,
            Err(e) => {
                return Err(e);
            },
        };
        Ok(MeshstackConfig { project_name, language, service_mesh, ci_cd })
    }

    /// Reads a configuration from YAML text. The text must be one that the YAML
    /// library reads as a mapping of strings, and its entries must make a valid
    /// configuration; a text that the library refuses is `ConfigInvalid`.
    pub fn from_yaml(text: &str) -> (r: Result<MeshstackConfig, MeshstackError>)
        ensures
            match r {
                Ok(c) => yaml_document(text@) is Some && config_of(yaml_document(text@)->0) == Ok::<
                    ProjectConfig,
                    Fault,
                >(c@),
                Err(e) => e@.kind == ErrorKind::ConfigInvalid && match yaml_document(text@) {
                    Some(entries) => config_of(entries) == Err::<ProjectConfig, Fault>(e@),
                    None => true,
                },
            },
    {
        match parse_yaml_mapping(text) {
            Ok(entries) => MeshstackConfig::from_entries(&entries),
            Err(e) => Err(MeshstackError::new(ErrorKind::ConfigInvalid, yaml_error_text(&e))),
        }
    }

    /// Writes the configuration as YAML text: the four entries in persisted
    /// order, as the YAML library renders them.
    pub fn to_yaml(&self) -> (r: Result<String, MeshstackError>)
        ensures
            match r {
                Ok(text) => yaml_rendering(self@.entries()) == Some(text@),
                Err(e) => yaml_rendering(self@.entries()) is None && e@.kind
                    == ErrorKind::ConfigInvalid,
            },
    {
        let entries = self.entries();
        match render_yaml_mapping(&entries) {
            Ok(text) => Ok(text),
            Err(e) => Err(MeshstackError::new(ErrorKind::ConfigInvalid, yaml_error_text(&e))),
        }
    }
}

/// What loading gives for the content of the configuration file, where `None`
/// stands for a file that is not there.
pub fn load_config(source: &Option<String>) -> (r: Result<MeshstackConfig, MeshstackError>)
    ensures
        match r {
            Ok(c) => source is Some && yaml_document(source->0@) is Some && config_of(
                yaml_document(source->0@)->0,
            ) == Ok::<ProjectConfig, Fault>(c@),
            Err(e) => match *source {
                None => e@ == config_not_found(),
                Some(text) => e@.kind == ErrorKind::ConfigInvalid && match yaml_document(text@) {
                    Some(entries) => config_of(entries) == Err::<ProjectConfig, Fault>(e@),
                    None => true,
                },
            },
        },
{
    match source {
        None => Err(
            MeshstackError::new(
                ErrorKind::ConfigMissing,
                String::from_str("meshstack.yaml not found."),
            ),
        ),
        Some(text) => MeshstackConfig::from_yaml(text.as_str()),
    }
}

/// The configuration that a context holds for a given file content: the one
/// that loading gives, or none where loading fails.
pub open spec fn loaded(source: Option<String>) -> Option<ProjectConfig> {
    match source {
        None => None,
        Some(text) => match yaml_document(text@) {
            None => None,
            Some(entries) => match config_of(entries) {
                Ok(c) => Some(c),
                Err(_) => None,
            },
        },
    }
}

/// The content of an optional configuration.
pub open spec fn config_content(config: Option<MeshstackConfig>) -> Option<ProjectConfig> {
    match config {
        Some(c) => Some(c@),
        None => None,
    }
}

/// The values shared by every step of one invocation. Built once, never changed.
#[derive(Debug)]
pub struct MeshstackContext {
    pub config: Option<MeshstackConfig>,
    pub kube_context: Option<String>,
    pub dry_run: bool,
}

impl MeshstackContext {
    /// The configuration held, as a mathematical value.
    pub open spec fn config_view(&self) -> Option<ProjectConfig> {
        match self.config {
            Some(c) => Some(c@),
            None => None,
        }
    }

    /// The cluster context held, as a mathematical value.
    pub open spec fn context_view(&self) -> Option<Seq<char>> {
        opt_text(self.kube_context)
    }

    /// A context that applies changes, for the given cluster context and the
    /// content of the configuration file (`None` where there is no file).
    pub fn new(kube_context: Option<String>, source: &Option<String>) -> (ctx: MeshstackContext)
        ensures
            ctx.config_view() == loaded(*source),
            ctx.context_view() == opt_text(kube_context),
            !ctx.dry_run,
    {
        let config = match load_config(source) {
            Ok(c) => Some(c),
            Err(_) => None,
        };
        MeshstackContext { config, kube_context, dry_run: false }
    }

    /// A context that only previews, for the given cluster context and the
    /// content of the configuration file (`None` where there is no file).
    pub fn new_dry_run(kube_context: Option<String>, source: &Option<String>) -> (ctx:
        MeshstackContext)
        ensures
            ctx.config_view() == loaded(*source),
            ctx.context_view() == opt_text(kube_context),
            ctx.dry_run,
    {
        let config = match load_config(source) {
            Ok(c) => Some(c),
            Err(_) => None,
        };
        MeshstackContext { config, kube_context, dry_run: true }
    }

    /// The configuration, or `ConfigMissing` where the context holds none.
    pub fn require_config(&self) -> (r: Result<&MeshstackConfig, MeshstackError>)
        ensures
            match r {
                Ok(c) => self.config == Some(*c),
                Err(e) => self.config is None && e@ == config_required(),
            },
    {
        match &self.config {
            Some(c) => Ok(c),
            None => Err(
                MeshstackError::new(
                    ErrorKind::ConfigMissing,
                    String::from_str(
                        "meshstack.yaml not found or invalid. Run 'meshstack init' first.",
                    ),
                ),
            ),
        }
    }

    /// Appends the flag that selects the cluster context, where one is held.
    pub fn add_kube_context_args(&self, args: &mut Vec<String>)
        ensures
            texts(final(args)@) == texts(old(args)@) + context_args(self.context_view()),
    {
        match &self.kube_context {
            Some(c) => {
                push_text(args, "--kube-context");
                push_line(args, c.clone());
                assert(texts(args@) =~= texts(old(args)@) + context_args(self.context_view()));
            },
            None => {
                assert(texts(args@) =~= texts(old(args)@) + context_args(self.context_view()));
            },
        }
    }
}

/// The four field names are pairwise distinct.
pub proof fn lemma_field_names_distinct()
    ensures
        "project_name"@ != "language"@,
        "project_name"@ != "service_mesh"@,
        "project_name"@ != "ci_cd"@,
        "language"@ != "service_mesh"@,
        "language"@ != "ci_cd"@,
        "service_mesh"@ != "ci_cd"@,
{
    reveal_strlit("project_name");
    reveal_strlit("language");
    reveal_strlit("service_mesh");
    reveal_strlit("ci_cd");
    assert("project_name"@.len() == 12);
    assert("language"@.len() == 8);
    assert("service_mesh"@.len() == 12);
    assert("ci_cd"@.len() == 5);
    assert("project_name"@[0] == 'p');
    assert("service_mesh"@[0] == 's');
}

/// Taking a valid configuration apart into its entries and putting the
/// entries together again gives the same configuration, field for field.
pub proof fn lemma_entries_round_trip(c: ProjectConfig)
    requires
        c.valid(),
    ensures
        config_of(c.entries()) == Ok::<ProjectConfig, Fault>(c),
{
    lemma_field_names_distinct();
    reveal_with_fuel(assoc, 5);
    let e = c.entries();
    let e1 = e.subrange(1, e.len() as int);
    let e2 = e1.subrange(1, e1.len() as int);
    let e3 = e2.subrange(1, e2.len() as int);
    assert(e1[0] == e[1]);
    assert(e2[0] == e[2]);
    assert(e3[0] == e[3]);
    assert(assoc(e, "project_name"@) == Some(c.project_name));
    assert(assoc(e, "language"@) == Some(c.language));
    assert(assoc(e, "service_mesh"@) == Some(c.service_mesh));
    assert(assoc(e, "ci_cd"@) == Some(c.ci_cd));
}

/// The configuration of a new project is valid where the values given for it
/// are not empty: each default is a name of its own.
pub proof fn lemma_initial_config_valid(
    name: Option<Seq<char>>,
    mesh: Option<Seq<char>>,
    ci: Option<Seq<char>>,
)
    requires
        name is Some ==> name->0.len() > 0,
        mesh is Some ==> mesh->0.len() > 0,
        ci is Some ==> ci->0.len() > 0,
    ensures
        initial_config(name, mesh, ci).valid(),
{
    reveal_strlit("my-app");
    reveal_strlit("generic");
    reveal_strlit("istio");
    reveal_strlit("github");
    assert("my-app"@.len() == 6);
    assert("generic"@.len() == 7);
    assert("istio"@.len() == 5);
    assert("github"@.len() == 6);
}

} // verus!
