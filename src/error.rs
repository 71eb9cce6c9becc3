use vstd::prelude::*;

use crate::provider::ResourceKind;

verus! {

/// A member of a protocol document that the protocol itself reads.
#[derive(PartialEq, Eq, Structural, Clone, Copy, Debug)]
pub enum Field {
    Type,
    InputProperties,
    OutputProperties,
}

/// How a document on the wire breaks the protocol.
#[derive(Debug, PartialEq)]
pub enum Violation {
    /// The provider exited successfully without writing a response.
    NoOutput,
    /// The line is not valid JSON; the decoder's message.
    Malformed(String),
    /// The document is valid JSON but not an object.
    NotAnObject,
    /// A member that the protocol needs is absent.
    MissingField(Field),
    /// A member that the protocol needs has the wrong JSON type.
    WrongType(Field),
}

/// An input property that a resource type reads.
#[derive(PartialEq, Eq, Structural, Clone, Copy, Debug)]
pub enum InputField {
    Name,
    Contents,
    Executable,
    Args,
    Stdin,
}

/// What is wrong with an input property.
#[derive(PartialEq, Eq, Structural, Clone, Copy, Debug)]
pub enum FieldProblem {
    Missing,
    WrongType,
}

/// Everything that can end a create operation without a result.
#[derive(Debug, PartialEq)]
pub enum ProviderError {
    /// The provider executable could not be started.
    SpawnFailure { executable: String, message: String },
    /// Sending the request to the provider failed.
    TransportWriteFailure { message: String },
    /// Reading the response from the provider failed.
    TransportReadFailure { message: String },
    /// What came over the wire breaks the protocol.
    ProtocolViolation(Violation),
    /// The provider exited with a failure status, given as text.
    ProviderExitFailure { status: String },
    /// The provider knows no resource type of this name.
    UnknownResourceType(String),
    /// The input properties do not fit the resource type's typed shape.
    InputValidationFailure { kind: ResourceKind, field: InputField, problem: FieldProblem },
    /// The resource type's own work failed.
    HandlerFailure { message: String },
}

} // verus!
