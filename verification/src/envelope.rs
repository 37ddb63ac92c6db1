//! The data model of the three operations: process metadata, scan and kill
//! payloads, the failure taxonomy, and the uniform
//! success/error/suggestion envelope.

use vstd::prelude::*;

verus! {

/// Enriched description of the process owning a port.
#[derive(Debug, Clone)]
pub struct ProcessInfo {
    pub name: String,
    pub pid: u32,
    /// Executable path; empty when the OS denies or lacks it.
    pub path: String,
    /// Full command line: the argument list joined with single spaces.
    pub command: String,
    /// Owning user identifier, when resolvable.
    pub user: Option<String>,
    /// Heuristic runtime label from the classifier.
    pub framework: Option<String>,
    pub is_docker: bool,
}

/// One port's scan outcome.
#[derive(Debug, Clone)]
pub struct PortScanResult {
    pub port: u16,
    pub in_use: bool,
    pub process: Option<ProcessInfo>,
}

impl PortScanResult {
    /// The payload invariant: a process is present exactly when the port
    /// is in use.
    pub open spec fn wf(self) -> bool {
        self.in_use <==> self.process is Some
    }
}

/// Outcome of a termination request.
#[derive(Debug, Clone)]
pub struct KillProcessResult {
    pub killed: bool,
    pub port: u16,
    /// Present only on success.
    pub pid: Option<u32>,
}

/// The failure taxonomy shared by every operation.
#[derive(Clone, Copy, Debug, PartialEq, Eq, Structural)]
pub enum ErrorType {
    PermissionDenied,
    /// Declared in the taxonomy; no operation currently produces it.
    PortFree,
    PortInvalid,
    ProcessNotFound,
    UnknownError,
}

impl ErrorType {
    /// The fixed uppercase token under which the error kind crosses the
    /// operation boundary.
    pub open spec fn code_spec(self) -> Seq<char> {
        match self {
            ErrorType::PermissionDenied => "PERMISSION_DENIED"@,
            ErrorType::PortFree => "PORT_FREE"@,
            ErrorType::PortInvalid => "PORT_INVALID"@,
            ErrorType::ProcessNotFound => "PROCESS_NOT_FOUND"@,
            ErrorType::UnknownError => "UNKNOWN_ERROR"@,
        }
    }

    pub fn code(&self) -> (r: String)
        ensures
            r@ == self.code_spec(),
    {
        match self {
            ErrorType::PermissionDenied => String::from_str("PERMISSION_DENIED"),
            ErrorType::PortFree => String::from_str("PORT_FREE"),
            ErrorType::PortInvalid => String::from_str("PORT_INVALID"),
            ErrorType::ProcessNotFound => String::from_str("PROCESS_NOT_FOUND"),
            ErrorType::UnknownError => String::from_str("UNKNOWN_ERROR"),
        }
    }
}

/// The uniform envelope every operation returns.
#[derive(Debug)]
pub struct OperationResponse<T> {
    pub success: bool,
    pub data: Option<T>,
    pub error: Option<ErrorType>,
    pub message: Option<String>,
    pub suggestion: Option<String>,
}

impl<T> OperationResponse<T> {
    /// The envelope invariant: success carries data and no error; failure
    /// carries an error and no data.
    pub open spec fn wf(self) -> bool {
        &&& self.success ==> self.error is None && self.data is Some
        &&& !self.success ==> self.data is None && self.error is Some
    }

    /// A successful envelope around `data`, with no commentary.
    pub fn ok(data: T) -> (r: Self)
        ensures
            r.success,
            r.data == Some(data),
            r.error is None,
            r.message is None,
            r.suggestion is None,
    {
        OperationResponse { success: true, data: Some(data), error: None, message: None, suggestion: None }
    }

    /// A failure envelope carrying the error kind, a message and a
    /// suggestion.
    pub fn fail(error: ErrorType, message: String, suggestion: String) -> (r: Self)
        ensures
            !r.success,
            r.data is None,
            r.error == Some(error),
            r.message == Some(message),
            r.suggestion == Some(suggestion),
    {
        OperationResponse {
            success: false,
            data: None,
            error: Some(error),
            message: Some(message),
            suggestion: Some(suggestion),
        }
    }
}

} // verus!
