//! Profile and environment names, and the overlay file each one selects.

use vstd::prelude::*;
use vstd::string::*;
use crate::error::{ErrorKind, Fault, MeshstackError};
use crate::text::{contains_text, join, joined, push_text, same_text, texts};

verus! {

/// The operation on whose behalf a profile name is resolved.
#[derive(Clone, Copy, Debug, PartialEq, Eq, Structural)]
pub enum ProfileScope {
    /// Installing infrastructure components.
    Install,
    /// Deploying application services.
    Deploy,
}

impl ProfileScope {
    /// The names that resolve to an overlay file.
    pub open spec fn allowed(self) -> Seq<Seq<char>> {
        match self {
            ProfileScope::Install => seq!["dev"@, "prod"@],
            ProfileScope::Deploy => seq!["dev"@, "prod"@, "staging"@],
        }
    }

    /// What a name is called in messages.
    pub open spec fn noun(self) -> Seq<char> {
        match self {
            ProfileScope::Install => "profile"@,
            ProfileScope::Deploy => "environment"@,
        }
    }

    /// The names recited when a name is not recognised.
    pub open spec fn recited(self) -> Seq<Seq<char>> {
        match self {
            ProfileScope::Install => self.allowed().push("custom"@),
            ProfileScope::Deploy => self.allowed(),
        }
    }

    /// The allowed names, in order.
    pub fn allowed_names(self) -> (names: Vec<String>)
        ensures
            texts(names@) == self.allowed(),
    {
        let mut names: Vec<String> = Vec::new();
        push_text(&mut names, "dev");
        push_text(&mut names, "prod");
        match self {
            ProfileScope::Install => {},
            ProfileScope::Deploy => {
                push_text(&mut names, "staging");
            },
        }
        assert(texts(names@) =~= self.allowed());
        names
    }
}

/// The overlay file that a name selects by convention.
pub open spec fn values_file(name: Seq<char>) -> Seq<char> {
    name + "-values.yaml"@
}

/// The failure for the profile "custom", which no operation offers.
pub open spec fn custom_profile() -> Fault {
    Fault { kind: ErrorKind::NotImplemented, message: "Custom profile not yet implemented."@ }
}

/// The failure for a name that is neither allowed nor "custom".
pub open spec fn unknown_profile(scope: ProfileScope, name: Seq<char>) -> Fault {
    Fault {
        kind: ErrorKind::UnknownTarget,
        message: "Unknown "@ + scope.noun() + ": "@ + name + ". Valid "@ + scope.noun() + "s are: "@
            + joined(scope.recited(), ", "@),
    }
}

/// What a name resolves to: "custom" is refused first, an allowed name gives its
/// overlay file, any other name is unknown.
pub open spec fn resolution(scope: ProfileScope, name: Seq<char>) -> Result<Seq<char>, Fault> {
    if name == "custom"@ {
        Err(custom_profile())
    } else if scope.allowed().contains(name) {
        Ok(values_file(name))
    } else {
        Err(unknown_profile(scope, name))
    }
}

/// What an optional name resolves to: no name selects no overlay file.
pub open spec fn optional_resolution(scope: ProfileScope, name: Option<Seq<char>>) -> Result<
    Option<Seq<char>>,
    Fault,
> {
    match name {
        None => Ok(None),
        Some(n) => match resolution(scope, n) {
            Ok(file) => Ok(Some(file)),
            Err(fault) => Err(fault),
        },
    }
}

/// Resolves a profile or environment name to its overlay file name. Whether the
/// file exists is for the caller to find out.
pub fn resolve_profile(name: &str, scope: ProfileScope) -> (r: Result<String, MeshstackError>)
    ensures
        match r {
            Ok(file) => resolution(scope, name@) == Ok::<Seq<char>, Fault>(file@),
            Err(e) => resolution(scope, name@) == Err::<Seq<char>, Fault>(e@),
        },
{
    if same_text(name, "custom") {
        return Err(
            MeshstackError::new(
                ErrorKind::NotImplemented,
                String::from_str("Custom profile not yet implemented."),
            ),
        );
    }
    let names = scope.allowed_names();
    if contains_text(&names, name) {
        let mut file = String::from_str(name);
        file.append("-values.yaml");
        return Ok(file);
    }
    let mut recited = names;
    let noun = match scope {
        ProfileScope::Install => {
            push_text(&mut recited, "custom");
            "profile"
        },
        ProfileScope::Deploy => "environment",
    };
    assert(texts(recited@) == scope.recited());
    let listed = join(&recited, ", ");
    let mut message = String::from_str("Unknown ");
    message.append(noun);
    message.append(": ");
    message.append(name);
    message.append(". Valid ");
    message.append(noun);
    message.append("s are: ");
    message.append(listed.as_str());
    Err(MeshstackError::new(ErrorKind::UnknownTarget, message))
}

/// Resolves an optional name; none given selects no overlay file.
pub fn resolve_optional_profile(name: &Option<String>, scope: ProfileScope) -> (r: Result<
    Option<String>,
    MeshstackError,
>)
    ensures
        match r {
            Ok(file) => optional_resolution(scope, crate::text::opt_text(*name)) == Ok::<
                Option<Seq<char>>,
                Fault,
            >(crate::text::opt_text(file)),
            Err(e) => optional_resolution(scope, crate::text::opt_text(*name)) == Err::<
                Option<Seq<char>>,
                Fault,
            >(e@),
        },
{
    match name {
        None => Ok(None),
        Some(n) => match resolve_profile(n.as_str(), scope) {
            Ok(file) => Ok(Some(file)),
            Err(e) => Err(e),
        },
    }
}

/// A name that is neither allowed for the operation nor "custom" is refused
/// as an unknown target.
pub proof fn lemma_unlisted_name_is_unknown(scope: ProfileScope, name: Seq<char>)
    requires
        !scope.allowed().contains(name),
        name != "custom"@,
    ensures
        resolution(scope, name) == Err::<Seq<char>, Fault>(unknown_profile(scope, name)),
        resolution(scope, name)->Err_0.kind == ErrorKind::UnknownTarget,
{
}

/// The name "custom" is refused as not implemented, whatever the operation.
pub proof fn lemma_custom_is_not_implemented(scope: ProfileScope)
    ensures
        resolution(scope, "custom"@) == Err::<Seq<char>, Fault>(custom_profile()),
        resolution(scope, "custom"@)->Err_0.kind == ErrorKind::NotImplemented,
{
}

/// An allowed name resolves to the file named after it.
pub proof fn lemma_allowed_name_resolves(scope: ProfileScope, name: Seq<char>)
    requires
        scope.allowed().contains(name),
    ensures
        resolution(scope, name) == Ok::<Seq<char>, Fault>(name + "-values.yaml"@),
{
    reveal_strlit("custom");
    reveal_strlit("dev");
    reveal_strlit("prod");
    reveal_strlit("staging");
    assert(name.len() == 3 || name.len() == 4 || name.len() == 7);
    assert("custom"@.len() == 6);
}

} // verus!
