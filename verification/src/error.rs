//! The error taxonomy shared by every operation.

use vstd::prelude::*;

verus! {

/// The category of a failure.
#[derive(Clone, Copy, Debug, PartialEq, Eq, Structural)]
pub enum ErrorKind {
    /// The project configuration is absent.
    ConfigMissing,
    /// The project configuration fails its structural checks.
    ConfigInvalid,
    /// A component, profile, environment or operation name is outside the allowed set.
    UnknownTarget,
    /// The request names a feature that is recognised but not offered.
    NotImplemented,
    /// A required external tool was not found.
    ToolUnavailable,
    /// An external tool ran and exited with a failure status.
    ToolInvocationFailed,
    /// A descriptor file that the operation needs is absent.
    ServiceArtifactMissing,
    /// Something the operation depends on has not been set up.
    PreconditionFailed,
}

/// A failure: its category and the message shown to the operator.
#[derive(Debug)]
pub struct MeshstackError {
    pub kind: ErrorKind,
    pub message: String,
}

/// The mathematical content of a [`MeshstackError`].
pub struct Fault {
    pub kind: ErrorKind,
    pub message: Seq<char>,
}

impl View for MeshstackError {
    type V = Fault;

    open spec fn view(&self) -> Fault {
        Fault { kind: self.kind, message: self.message@ }
    }
}

impl MeshstackError {
    /// A failure of category `kind` with the given message.
    pub fn new(kind: ErrorKind, message: String) -> (e: MeshstackError)
        ensures
            e@ == (Fault { kind, message: message@ }),
    {
        MeshstackError { kind, message }
    }

    /// A copy of this failure.
    pub fn duplicate(&self) -> (e: MeshstackError)
        ensures
            e@ == self@,
    {
        MeshstackError { kind: self.kind, message: self.message.clone() }
    }
}

} // verus!
