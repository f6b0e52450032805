//! Errors of the SDKMAN! server, their message texts, and the error codes
//! reported to MCP clients.
use vstd::prelude::*;

verus! {

/// MCP error code: SDKMAN! is not installed.
pub const SDKMAN_NOT_INSTALLED_CODE: i32 = -40001;

/// MCP error code: internal error (JSON-RPC).
pub const INTERNAL_ERROR_CODE: i32 = -32603;

/// MCP error code: the platform is not supported.
pub const UNSUPPORTED_PLATFORM_CODE: i32 = -1000;

/// MCP error code: the installer could not be downloaded.
pub const NETWORK_ERROR_CODE: i32 = -1002;

/// MCP error code: the installer lacked permissions.
pub const PERMISSION_ERROR_CODE: i32 = -1003;

/// Errors that can occur in the SDKMAN! MCP server.
#[derive(Debug, Clone)]
pub enum SdkmanError {
    /// SDKMAN! is not installed; the files that were looked for.
    NotInstalled { checked_paths: Vec<String> },
    /// The platform cannot run SDKMAN!.
    UnsupportedPlatform { details: String, recovery: String },
    /// The installer could not be downloaded.
    NetworkError { details: String, recovery: String },
    /// The installer lacked permissions.
    PermissionError { details: String, recovery: String },
    /// No bash shell is available.
    BashNotAvailable { details: String, recovery: String },
    /// Any other failure.
    Internal(String),
    /// An I/O failure, with the text of the underlying error.
    Io(String),
}

/// Mathematical model of an `SdkmanError`.
pub enum ErrorView {
    NotInstalled { checked_paths: Seq<Seq<char>> },
    UnsupportedPlatform { details: Seq<char>, recovery: Seq<char> },
    NetworkError { details: Seq<char>, recovery: Seq<char> },
    PermissionError { details: Seq<char>, recovery: Seq<char> },
    BashNotAvailable { details: Seq<char>, recovery: Seq<char> },
    Internal(Seq<char>),
    Io(Seq<char>),
}

impl View for SdkmanError {
    type V = ErrorView;

    open spec fn view(&self) -> ErrorView {
        match self {
            SdkmanError::NotInstalled { checked_paths } => ErrorView::NotInstalled {
                checked_paths: checked_paths.deep_view(),
            },
            SdkmanError::UnsupportedPlatform { details, recovery } =>
                ErrorView::UnsupportedPlatform { details: details@, recovery: recovery@ },
            SdkmanError::NetworkError { details, recovery } => ErrorView::NetworkError {
                details: details@,
                recovery: recovery@,
            },
            SdkmanError::PermissionError { details, recovery } => ErrorView::PermissionError {
                details: details@,
                recovery: recovery@,
            },
            SdkmanError::BashNotAvailable { details, recovery } => ErrorView::BashNotAvailable {
                details: details@,
                recovery: recovery@,
            },
            SdkmanError::Internal(m) => ErrorView::Internal(m@),
            SdkmanError::Io(m) => ErrorView::Io(m@),
        }
    }
}

/// The human-readable text of an error.
pub open spec fn error_message(e: ErrorView) -> Seq<char> {
    match e {
        ErrorView::NotInstalled { .. } => "SDKMAN! not installed"@,
        ErrorView::UnsupportedPlatform { .. } =>
            "SDKMAN! installation not supported on native Windows"@,
        ErrorView::NetworkError { details, .. } => "Failed to download SDKMAN! installer: "@
            + details,
        ErrorView::PermissionError { details, .. } => "Permission denied: "@ + details,
        ErrorView::BashNotAvailable { details, .. } => "Bash not available: "@ + details,
        ErrorView::Internal(m) => "Internal error: "@ + m,
        ErrorView::Io(m) => "IO error: "@ + m,
    }
}

impl SdkmanError {
    /// The human-readable text of this error.
    pub fn message(&self) -> (m: String)
        ensures
            m@ == error_message(self@),
    {
        match self {
            SdkmanError::NotInstalled { .. } => "SDKMAN! not installed".to_owned(),
            SdkmanError::UnsupportedPlatform { .. } =>
                "SDKMAN! installation not supported on native Windows".to_owned(),
            SdkmanError::NetworkError { details, .. } => {
                let mut m = "Failed to download SDKMAN! installer: ".to_owned();
                m.append(details.as_str());
                m
            },
            SdkmanError::PermissionError { details, .. } => {
                let mut m = "Permission denied: ".to_owned();
                m.append(details.as_str());
                m
            },
            SdkmanError::BashNotAvailable { details, .. } => {
                let mut m = "Bash not available: ".to_owned();
                m.append(details.as_str());
                m
            },
            SdkmanError::Internal(d) => {
                let mut m = "Internal error: ".to_owned();
                m.append(d.as_str());
                m
            },
            SdkmanError::Io(d) => {
                let mut m = "IO error: ".to_owned();
                m.append(d.as_str());
                m
            },
        }
    }
}

/// A result whose error is an `SdkmanError`, with both sides taken by their views.
pub open spec fn result_view<T: View>(r: Result<T, SdkmanError>) -> Result<T::V, ErrorView> {
    match r {
        Ok(t) => Ok(t@),
        Err(e) => Err(e@),
    }
}

} // verus!
