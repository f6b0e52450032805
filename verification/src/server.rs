//! What the MCP tools answer: the text of a successful call, and the error
//! (code, message, data) a failure is reported with.
use vstd::prelude::*;
use crate::error::{
    SdkmanError, ErrorView, error_message, SDKMAN_NOT_INSTALLED_CODE, INTERNAL_ERROR_CODE,
    UNSUPPORTED_PLATFORM_CODE, NETWORK_ERROR_CODE, PERMISSION_ERROR_CODE,
};
use crate::versions::{SdkmanVersion, version_text};
use crate::installation::{InstallationView, install_actions, install_outcome};
use crate::utils::platform::install_platform_outcome;

verus! {

/// Structured data attached to a tool error.
#[derive(Debug, Clone)]
pub enum ToolErrorData {
    /// The paths that were looked for.
    CheckedPaths(Vec<String>),
    /// What went wrong and how to recover.
    DetailsRecovery { details: String, recovery: String },
}

/// Mathematical model of `ToolErrorData`.
pub enum ToolErrorDataView {
    CheckedPaths(Seq<Seq<char>>),
    DetailsRecovery { details: Seq<char>, recovery: Seq<char> },
}

impl View for ToolErrorData {
    type V = ToolErrorDataView;

    open spec fn view(&self) -> ToolErrorDataView {
        match self {
            ToolErrorData::CheckedPaths(p) => ToolErrorDataView::CheckedPaths(p.deep_view()),
            ToolErrorData::DetailsRecovery { details, recovery } => ToolErrorDataView::DetailsRecovery {
                details: details@,
                recovery: recovery@,
            },
        }
    }
}

/// The error a tool call answers with.
#[derive(Debug, Clone)]
pub struct ToolError {
    pub code: i32,
    pub message: String,
    pub data: Option<ToolErrorData>,
}

/// Mathematical model of a `ToolError`.
pub struct ToolErrorView {
    pub code: i32,
    pub message: Seq<char>,
    pub data: Option<ToolErrorDataView>,
}

impl View for ToolError {
    type V = ToolErrorView;

    open spec fn view(&self) -> ToolErrorView {
        ToolErrorView {
            code: self.code,
            message: self.message@,
            data: match self.data {
                Some(d) => Some(d@),
                None => None,
            },
        }
    }
}

/// The internal error that reports any other failure by its text.
pub open spec fn internal_tool_error(e: ErrorView) -> ToolErrorView {
    ToolErrorView { code: INTERNAL_ERROR_CODE, message: "Internal error: "@ + error_message(e), data: None }
}

/// How `get_sdkman_version` reports a failure: a missing installation with the
/// paths that were checked, anything else as an internal error.
pub open spec fn version_tool_error_view(e: ErrorView) -> ToolErrorView {
    match e {
        ErrorView::NotInstalled { checked_paths } => ToolErrorView {
            code: SDKMAN_NOT_INSTALLED_CODE,
            message: "SDKMAN! not installed"@,
            data: Some(ToolErrorDataView::CheckedPaths(checked_paths)),
        },
        _ => internal_tool_error(e),
    }
}

/// How `install_sdkman` reports a failure: platform, network and permission
/// errors with their own codes, details and recovery advice; anything else as
/// an internal error.
pub open spec fn install_tool_error_view(e: ErrorView) -> ToolErrorView {
    match e {
        ErrorView::UnsupportedPlatform { details, recovery } => ToolErrorView {
            code: UNSUPPORTED_PLATFORM_CODE,
            message: "SDKMAN! installation not supported on native Windows"@,
            data: Some(ToolErrorDataView::DetailsRecovery { details, recovery }),
        },
        ErrorView::NetworkError { details, recovery } => ToolErrorView {
            code: NETWORK_ERROR_CODE,
            message: "Failed to download SDKMAN! installer"@,
            data: Some(ToolErrorDataView::DetailsRecovery { details, recovery }),
        },
        ErrorView::PermissionError { details, recovery } => ToolErrorView {
            code: PERMISSION_ERROR_CODE,
            message: "Permission denied"@,
            data: Some(ToolErrorDataView::DetailsRecovery { details, recovery }),
        },
        _ => internal_tool_error(e),
    }
}

fn internal_error(e: &SdkmanError) -> (t: ToolError)
    ensures
        t@ == internal_tool_error(e@),
{
    let mut message = "Internal error: ".to_owned();
    let text = e.message();
    message.append(text.as_str());
    ToolError { code: INTERNAL_ERROR_CODE, message, data: None }
}

/// The error `get_sdkman_version` answers with.
pub fn version_tool_error(e: SdkmanError) -> (t: ToolError)
    ensures
        t@ == version_tool_error_view(e@),
{
    match e {
        SdkmanError::NotInstalled { checked_paths } => ToolError {
            code: SDKMAN_NOT_INSTALLED_CODE,
            message: "SDKMAN! not installed".to_owned(),
            data: Some(ToolErrorData::CheckedPaths(checked_paths)),
        },
        _ => internal_error(&e),
    }
}

/// The error `install_sdkman` answers with.
pub fn install_tool_error(e: SdkmanError) -> (t: ToolError)
    ensures
        t@ == install_tool_error_view(e@),
{
    match e {
        SdkmanError::UnsupportedPlatform { details, recovery } => ToolError {
            code: UNSUPPORTED_PLATFORM_CODE,
            message: "SDKMAN! installation not supported on native Windows".to_owned(),
            data: Some(ToolErrorData::DetailsRecovery { details, recovery }),
        },
        SdkmanError::NetworkError { details, recovery } => ToolError {
            code: NETWORK_ERROR_CODE,
            message: "Failed to download SDKMAN! installer".to_owned(),
            data: Some(ToolErrorData::DetailsRecovery { details, recovery }),
        },
        SdkmanError::PermissionError { details, recovery } => ToolError {
            code: PERMISSION_ERROR_CODE,
            message: "Permission denied".to_owned(),
            data: Some(ToolErrorData::DetailsRecovery { details, recovery }),
        },
        _ => internal_error(&e),
    }
}

/// The answer of `get_sdkman_version`: the formatted versions, or the error.
pub fn get_sdkman_version_response(read: Result<SdkmanVersion, SdkmanError>) -> (r: Result<String, ToolError>)
    ensures
        match read {
            Ok(v) => r matches Ok(text) && text@ == version_text(v@),
            Err(e) => r matches Err(t) && t@ == version_tool_error_view(e@),
        },
{
    match read {
        Ok(v) => Ok(v.format()),
        Err(e) => Err(version_tool_error(e)),
    }
}

/// The error when a successful installation result could not be written as
/// JSON.
pub fn serialization_tool_error(reason: &str) -> (t: ToolError)
    ensures
        t@ == (ToolErrorView {
            code: INTERNAL_ERROR_CODE,
            message: "Failed to serialize result: "@ + reason@,
            data: None,
        }),
{
    let mut message = "Failed to serialize result: ".to_owned();
    message.append(reason);
    ToolError { code: INTERNAL_ERROR_CODE, message, data: None }
}

/// Every failure of either tool is reported with one of the server's error
/// codes, and an error of a kind a tool does not single out is reported as an
/// internal error carrying the error's text.
pub proof fn lemma_tool_error_codes(e: ErrorView)
    ensures
        version_tool_error_view(e).code == SDKMAN_NOT_INSTALLED_CODE || version_tool_error_view(e).code == INTERNAL_ERROR_CODE,
        ({
            let c = install_tool_error_view(e).code;
            c == UNSUPPORTED_PLATFORM_CODE || c == NETWORK_ERROR_CODE || c == PERMISSION_ERROR_CODE
                || c == INTERNAL_ERROR_CODE
        }),
        version_tool_error_view(e).code == INTERNAL_ERROR_CODE ==> version_tool_error_view(e) == internal_tool_error(e),
        install_tool_error_view(e).code == INTERNAL_ERROR_CODE ==> install_tool_error_view(e) == internal_tool_error(e),
        version_tool_error_view(e).code == SDKMAN_NOT_INSTALLED_CODE <==> e is NotInstalled,
{
}

/// Native Windows without bash (and any platform without a supported target
/// triple) is refused before anything else happens: the installation stops at
/// the platform check, nothing is downloaded or run, and `install_sdkman`
/// answers with code -1000 and "SDKMAN! installation not supported on native
/// Windows".
pub proof fn lemma_native_windows_refused(
    arch: Seq<char>,
    update_rc_files: bool,
    installer_url: Option<Seq<char>>,
    bash: Result<(), ErrorView>,
    detected: Result<InstallationView, ErrorView>,
    rc_readonly: bool,
    downloaded: Result<Seq<char>, ErrorView>,
    executed: Result<(), ErrorView>,
    verified: Result<(), ErrorView>,
)
    ensures
        ({
            let platform = install_platform_outcome("windows"@, arch, false);
            let acts = install_actions(update_rc_files, installer_url, platform, bash, detected, rc_readonly, downloaded, executed, verified);
            let outcome = install_outcome(update_rc_files, platform, bash, detected, rc_readonly, downloaded, executed, verified);
            &&& acts.len() == 2
            &&& outcome is Err
            &&& install_tool_error_view(outcome->Err_0).code == UNSUPPORTED_PLATFORM_CODE
            &&& install_tool_error_view(outcome->Err_0).message == "SDKMAN! installation not supported on native Windows"@
        }),
{
}

} // verus!
