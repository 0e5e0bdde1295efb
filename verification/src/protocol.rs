//! The values exchanged with the protocol layer: commands, flows, responses
//! and errors.
//!
//! The protocol layer decodes requests into [`Command`]s, routes them here
//! wrapped in a [`FlowType`], and encodes the [`Response`] that comes back in a
//! [`RetFlowType`]. Each type has a view in which byte buffers and strings
//! appear as sequences, so that contracts can speak of their contents.

use bytes::Bytes;
use bytes::BytesMut;
use crate::buffers::buffer_contents;
use crate::buffers::bytes_contents;
use vstd::prelude::*;

verus! {

/// A decoded client instruction.
#[derive(Debug)]
pub enum Command {
    /// Read the value stored under `key`.
    Get { key: String },
    /// Store `value` under `key`, replacing any earlier value.
    SetValue { key: String, value: Bytes },
    /// Report server, machine and data information.
    Info {  },
}

/// The mathematical content of a [`Command`].
pub enum CommandView {
    Get { key: Seq<char> },
    SetValue { key: Seq<char>, value: Seq<u8> },
    Info,
}

impl View for Command {
    type V = CommandView;

    open spec fn view(&self) -> CommandView {
        match *self {
            Command::Get { key } => CommandView::Get { key: key@ },
            Command::SetValue { key, value } => CommandView::SetValue {
                key: key@,
                value: bytes_contents(value),
            },
            Command::Info {  } => CommandView::Info,
        }
    }
}

/// Why a response reports an error.
#[derive(Debug, Clone, Copy, PartialEq, Eq)]
pub enum ErrorType {
    InvalidSyntax,
    NonExistentKey,
}

/// The payload handed back to the caller.
#[derive(Debug)]
pub enum Response {
    /// The command was carried out; `message` is its result.
    Valid { message: Bytes },
    /// The command was answered with an error of the protocol.
    Error { error_type: ErrorType, message: Bytes },
}

/// The mathematical content of a [`Response`].
pub enum ResponseView {
    Valid { message: Seq<u8> },
    Error { error_type: ErrorType, message: Seq<u8> },
}

impl View for Response {
    type V = ResponseView;

    open spec fn view(&self) -> ResponseView {
        match *self {
            Response::Valid { message } => ResponseView::Valid { message: bytes_contents(message) },
            Response::Error { error_type, message } => ResponseView::Error {
                error_type,
                message: bytes_contents(message),
            },
        }
    }
}

/// An instruction routed from one stage of the server to the next.
#[derive(Debug)]
pub enum FlowType {
    /// Raw socket input, meant for the stage that decodes commands.
    HandleSocketBuffer { buffer: BytesMut },
    /// A decoded command, meant for the stage that executes it.
    ExecuteCommand { command: Command },
}

/// The mathematical content of a [`FlowType`].
pub enum FlowView {
    HandleSocketBuffer { buffer: Seq<u8> },
    ExecuteCommand { command: CommandView },
}

impl View for FlowType {
    type V = FlowView;

    open spec fn view(&self) -> FlowView {
        match *self {
            FlowType::HandleSocketBuffer { buffer } => FlowView::HandleSocketBuffer {
                buffer: buffer_contents(buffer),
            },
            FlowType::ExecuteCommand { command } => FlowView::ExecuteCommand { command: command@ },
        }
    }
}

/// What a stage hands back to the stage that called it.
#[derive(Debug)]
pub enum RetFlowType {
    /// Send `response` to the client.
    SendResponse { response: Response },
    /// Return `response` to the stage that asked for the command.
    ReturnResponse { response: Response },
    /// Nothing is to be done.
    DoNothing {  },
}

/// The mathematical content of a [`RetFlowType`].
pub enum RetFlowView {
    SendResponse { response: ResponseView },
    ReturnResponse { response: ResponseView },
    DoNothing,
}

impl View for RetFlowType {
    type V = RetFlowView;

    open spec fn view(&self) -> RetFlowView {
        match *self {
            RetFlowType::SendResponse { response } => RetFlowView::SendResponse {
                response: response@,
            },
            RetFlowType::ReturnResponse { response } => RetFlowView::ReturnResponse {
                response: response@,
            },
            RetFlowType::DoNothing {  } => RetFlowView::DoNothing,
        }
    }
}

/// The failures that executing a flow can end in.
#[derive(Debug, Clone, Copy, PartialEq, Eq)]
pub enum ServerError {
    /// The storage engine refused an operation.
    StorageFailure,
    /// A flow other than the execution of a command reached the server.
    InvalidFlow,
}

impl ServerError {
    /// The text of the error.
    pub open spec fn spec_message(&self) -> Seq<char> {
        match *self {
            ServerError::StorageFailure => "Storage failure."@,
            ServerError::InvalidFlow => "Invalid flow."@,
        }
    }

    /// The text of the error, for callers that report it.
    pub fn message(&self) -> (text: &'static str)
        ensures
            text@ == self.spec_message(),
    {
        match self {
            ServerError::StorageFailure => "Storage failure.",
            ServerError::InvalidFlow => "Invalid flow.",
        }
    }
}

/// The outcome of executing a flow, as a value of its own.
pub type FlowResult = Result<RetFlowType, ServerError>;

/// The mathematical content of a [`FlowResult`].
pub open spec fn result_view(r: FlowResult) -> Result<RetFlowView, ServerError> {
    match r {
        Ok(flow) => Ok(flow@),
        Err(e) => Err(e),
    }
}

} // verus!
