use vstd::prelude::*;

use crate::error::{ProviderError, Violation};
use crate::json::{parsed_json, Json};
use crate::wire::{is_line_of, is_request_doc, create_request_line, parse_response_line, response_spec};

verus! {

/// How to launch a provider process: an executable and its arguments.
#[derive(Debug, PartialEq)]
pub struct ResourceProviderConfig {
    pub provider_executable: String,
    pub provider_args: Vec<String>,
}

/// The host's handle on one provider.  Every create operation runs a fresh
/// provider process from this configuration.
#[derive(Debug, PartialEq)]
pub struct ResourceProviderClient {
    provider_config: ResourceProviderConfig,
}

/// What reading the provider's one response line gave.
#[derive(Debug, PartialEq)]
pub enum ReadOutcome {
    /// Reading failed; the I/O error's message.
    Failed(String),
    /// The provider closed its output without writing anything.
    Eof,
    /// One line of text.
    Line(String),
}

/// How the provider process ended.
#[derive(Debug, PartialEq)]
pub struct ExitReport {
    pub success: bool,
    /// The exit status as text, for the error that reports it.
    pub status: String,
}

/// What the host holds while it waits for the provider to exit.
#[derive(Debug, PartialEq)]
pub enum Pending {
    /// The provider wrote nothing.
    NoOutput,
    /// The provider wrote a well-formed response with these output properties.
    Response(Vec<(String, Json)>),
}

/// What the host does once the response line has been read.
#[derive(Debug, PartialEq)]
pub enum ReadDecision {
    /// Fail at once, without waiting for the provider to exit.
    Fail(ProviderError),
    /// Wait for the provider to exit, then settle with `on_exit`.
    Wait(Pending),
}

impl ResourceProviderClient {
    /// The configuration this client launches providers with.
    pub closed spec fn config(&self) -> ResourceProviderConfig {
        self.provider_config
    }

    pub fn new(provider_config: ResourceProviderConfig) -> (r: Self)
        ensures
            r.config() == provider_config,
    {
        ResourceProviderClient { provider_config }
    }

    /// The configuration this client launches providers with.
    pub fn provider_config(&self) -> (r: &ResourceProviderConfig)
        ensures
            *r == self.config(),
    {
        &self.provider_config
    }

    /// The line that the host writes to a provider to create a resource of
    /// type `type_` with the given input properties.
    pub fn request_line(&self, type_: &str, inputs: Vec<(String, Json)>) -> (r: String)
        ensures
            exists|d: Json| is_request_doc(d, type_@, inputs) && is_line_of(r@, d),
    {
        create_request_line(type_, inputs)
    }
}

/// `d` is what the host decides after reading `read`: a failed read fails at
/// once; end of input waits for the exit status; a line that is not JSON
/// fails at once with a decode error; a line that is JSON but not a
/// response fails at once; a response waits for the exit status.
pub open spec fn read_decided(read: ReadOutcome, d: ReadDecision) -> bool {
    match read {
        ReadOutcome::Failed(m) => d == ReadDecision::Fail(
            ProviderError::TransportReadFailure { message: m },
        ),
        ReadOutcome::Eof => d == ReadDecision::Wait(Pending::NoOutput),
        ReadOutcome::Line(s) => match parsed_json(s@) {
            None => d matches ReadDecision::Fail(
                ProviderError::ProtocolViolation(Violation::Malformed(_)),
            ),
            Some(doc) => match response_spec(doc) {
                Ok(p) => d == ReadDecision::Wait(Pending::Response(p)),
                Err(v) => d == ReadDecision::Fail(ProviderError::ProtocolViolation(v)),
            },
        },
    }
}

/// The result of a create operation once the provider has exited: a failed
/// exit status wins over anything read; a successful one needs a response.
pub open spec fn exit_spec(p: Pending, e: ExitReport) -> Result<Vec<(String, Json)>, ProviderError> {
    if !e.success {
        Err(ProviderError::ProviderExitFailure { status: e.status })
    } else {
        match p {
            Pending::NoOutput => Err(ProviderError::ProtocolViolation(Violation::NoOutput)),
            Pending::Response(v) => Ok(v),
        }
    }
}

/// `r` is a result that a create operation can end with, given what was
/// read and how the provider exited.
pub open spec fn is_create_result(
    read: ReadOutcome,
    e: ExitReport,
    r: Result<Vec<(String, Json)>, ProviderError>,
) -> bool {
    exists|d: ReadDecision|
        read_decided(read, d) && match d {
            ReadDecision::Fail(err) => r == Err::<Vec<(String, Json)>, ProviderError>(err),
            ReadDecision::Wait(p) => r == exit_spec(p, e),
        }
}

/// Decides what to do once the response line has been read.
pub fn on_read(read: ReadOutcome) -> (d: ReadDecision)
    ensures
        read_decided(read, d),
{
    match read {
        ReadOutcome::Failed(m) => ReadDecision::Fail(
            ProviderError::TransportReadFailure { message: m },
        ),
        ReadOutcome::Eof => ReadDecision::Wait(Pending::NoOutput),
        ReadOutcome::Line(s) => match parse_response_line(s.as_str()) {
            Ok(p) => ReadDecision::Wait(Pending::Response(p)),
            Err(v) => ReadDecision::Fail(ProviderError::ProtocolViolation(v)),
        },
    }
}

/// Settles a create operation once the provider has exited.
pub fn on_exit(p: Pending, e: ExitReport) -> (r: Result<Vec<(String, Json)>, ProviderError>)
    ensures
        r == exit_spec(p, e),
{
    if !e.success {
        Err(ProviderError::ProviderExitFailure { status: e.status })
    } else {
        match p {
            Pending::NoOutput => Err(ProviderError::ProtocolViolation(Violation::NoOutput)),
            Pending::Response(v) => Ok(v),
        }
    }
}


/// A failed exit status overrides a response that was read and decoded: the
/// operation fails with that status, not with the response.
pub proof fn lemma_exit_status_overrides_response(
    s: String,
    e: ExitReport,
    r: Result<Vec<(String, Json)>, ProviderError>,
)
    requires
        parsed_json(s@) matches Some(doc) && response_spec(doc) is Ok,
        !e.success,
        is_create_result(ReadOutcome::Line(s), e, r),
    ensures
        r == Err::<Vec<(String, Json)>, ProviderError>(
            ProviderError::ProviderExitFailure { status: e.status },
        ),
{
}

/// A provider that exits successfully without writing anything breaks the
/// protocol: the operation fails with the no-output violation.
pub proof fn lemma_silent_success_is_violation(
    e: ExitReport,
    r: Result<Vec<(String, Json)>, ProviderError>,
)
    requires
        e.success,
        is_create_result(ReadOutcome::Eof, e, r),
    ensures
        r == Err::<Vec<(String, Json)>, ProviderError>(
            ProviderError::ProtocolViolation(Violation::NoOutput),
        ),
{
}

/// A response line that is not valid JSON fails the operation with a decode
/// error, whatever the exit status, and never with the exit failure.
pub proof fn lemma_malformed_response_is_decode_error(
    s: String,
    e: ExitReport,
    r: Result<Vec<(String, Json)>, ProviderError>,
)
    requires
        parsed_json(s@) is None,
        is_create_result(ReadOutcome::Line(s), e, r),
    ensures
        r matches Err(ProviderError::ProtocolViolation(Violation::Malformed(_))),
        !(r matches Err(ProviderError::ProviderExitFailure { .. })),
{
}

} // verus!
