//! Errors of the control plane and how they are reported to clients.

use vstd::prelude::*;

verus! {

/// What can go wrong in the control plane; each variant carries its detail.
#[derive(Debug)]
pub enum DaemonError {
    NotFound(String),
    InvalidManifest(String),
    ToolError(String),
    SandboxError(String),
    ReasoningError(String),
    InternalSyncError(String),
}

/// The mathematical content of a `DaemonError`.
pub enum DaemonErrorView {
    NotFound(Seq<char>),
    InvalidManifest(Seq<char>),
    ToolError(Seq<char>),
    SandboxError(Seq<char>),
    ReasoningError(Seq<char>),
    InternalSyncError(Seq<char>),
}

impl View for DaemonError {
    type V = DaemonErrorView;

    open spec fn view(&self) -> DaemonErrorView {
        match self {
            DaemonError::NotFound(m) => DaemonErrorView::NotFound(m@),
            DaemonError::InvalidManifest(m) => DaemonErrorView::InvalidManifest(m@),
            DaemonError::ToolError(m) => DaemonErrorView::ToolError(m@),
            DaemonError::SandboxError(m) => DaemonErrorView::SandboxError(m@),
            DaemonError::ReasoningError(m) => DaemonErrorView::ReasoningError(m@),
            DaemonError::InternalSyncError(m) => DaemonErrorView::InternalSyncError(m@),
        }
    }
}

/// The result of a control-plane operation.
pub type DaemonResult<T> = Result<T, DaemonError>;

/// The detail that an error carries.
pub open spec fn error_detail(e: DaemonErrorView) -> Seq<char> {
    match e {
        DaemonErrorView::NotFound(m) => m,
        DaemonErrorView::InvalidManifest(m) => m,
        DaemonErrorView::ToolError(m) => m,
        DaemonErrorView::SandboxError(m) => m,
        DaemonErrorView::ReasoningError(m) => m,
        DaemonErrorView::InternalSyncError(m) => m,
    }
}

/// The human-readable text of an error: a phrase naming its kind, then its detail.
pub open spec fn error_text(e: DaemonErrorView) -> Seq<char> {
    match e {
        DaemonErrorView::NotFound(m) => "Environment not found: "@ + m,
        DaemonErrorView::InvalidManifest(m) => "Invalid manifest: "@ + m,
        DaemonErrorView::ToolError(m) => "Tool error: "@ + m,
        DaemonErrorView::SandboxError(m) => "Sandbox error: "@ + m,
        DaemonErrorView::ReasoningError(m) => "Reasoning engine error: "@ + m,
        DaemonErrorView::InternalSyncError(m) => "Internal state error: "@ + m,
    }
}

/// The status classes of the client protocol.
#[derive(Debug, PartialEq, Eq, Structural, Clone, Copy)]
pub enum StatusCode {
    NotFound,
    InvalidArgument,
    Internal,
}

/// The status class under which an error reaches a client.
pub open spec fn error_status(e: DaemonErrorView) -> StatusCode {
    match e {
        DaemonErrorView::NotFound(_) => StatusCode::NotFound,
        DaemonErrorView::InvalidManifest(_) => StatusCode::InvalidArgument,
        _ => StatusCode::Internal,
    }
}

impl DaemonError {
    /// The error's text, as its `Display` shows it.
    pub fn message(&self) -> (r: String)
        ensures
            r@ == error_text(self@),
    {
        let (prefix, m) = match self {
            DaemonError::NotFound(m) => ("Environment not found: ", m),
            DaemonError::InvalidManifest(m) => ("Invalid manifest: ", m),
            DaemonError::ToolError(m) => ("Tool error: ", m),
            DaemonError::SandboxError(m) => ("Sandbox error: ", m),
            DaemonError::ReasoningError(m) => ("Reasoning engine error: ", m),
            DaemonError::InternalSyncError(m) => ("Internal state error: ", m),
        };
        let mut r = String::from_str(prefix);
        r.append(m.as_str());
        r
    }

    /// The status under which the error reaches a client: its class and its
    /// detail (without the kind phrase).
    pub fn to_status(&self) -> (r: (StatusCode, String))
        ensures
            r.0 == error_status(self@),
            r.1@ == error_detail(self@),
    {
        match self {
            DaemonError::NotFound(m) => (StatusCode::NotFound, m.clone()),
            DaemonError::InvalidManifest(m) => (StatusCode::InvalidArgument, m.clone()),
            DaemonError::ToolError(m) => (StatusCode::Internal, m.clone()),
            DaemonError::SandboxError(m) => (StatusCode::Internal, m.clone()),
            DaemonError::ReasoningError(m) => (StatusCode::Internal, m.clone()),
            DaemonError::InternalSyncError(m) => (StatusCode::Internal, m.clone()),
        }
    }
}

} // verus!
