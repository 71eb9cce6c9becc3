//! Host and provider sides of a one-request, one-response protocol by which
//! a host delegates the creation of a resource to a provider process.
//!
//! The library holds the decisions of the protocol: how a request line is
//! built, how a response line is decoded, how the provider's exit status is
//! reconciled with what it wrote, how a provider dispatches a request to a
//! resource type and decodes that type's input properties.  Spawning
//! processes and moving bytes through pipes is left to the caller.

mod json;
mod error;
mod wire;
mod runner;
mod provider;

pub use error::{Field, FieldProblem, InputField, ProviderError, Violation};
pub use json::Json;
pub use provider::{
    decode_exec_input, decode_file_input, exec_outcome, exec_output, file_output, plan_request,
    select_handler, ExecInput, FileInput, Plan, ResourceKind,
};
pub use runner::{
    on_exit, on_read, ExitReport, Pending, ReadDecision, ReadOutcome, ResourceProviderClient,
    ResourceProviderConfig,
};
pub use wire::{
    create_request_line, decode_request, decode_response, encode_response_line, lookup,
    parse_request_line, parse_response_line,
};
