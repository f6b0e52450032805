//! Platform gate for the installer: native Windows is refused unless a bash
//! shell is available.
use vstd::prelude::*;
use crate::error::{SdkmanError, ErrorView};

verus! {

/// Why a platform without bash is refused.
pub open spec fn missing_bash_details() -> Seq<char> {
    "SDKMAN! requires bash shell to be available"@
}

/// How to recover on a platform without bash.
pub open spec fn missing_bash_recovery() -> Seq<char> {
    "Please ensure bash is installed and available in your PATH.\n\nSupported environments:\n  \u{2022} Linux\n  \u{2022} macOS\n  \u{2022} Windows Subsystem for Linux (WSL)\n  \u{2022} Git Bash for Windows"@
}

/// Check platform compatibility - reject native Windows: only Windows without
/// bash is refused.
pub fn check_platform_compatibility(is_windows: bool, has_bash: bool) -> (r: Result<(), SdkmanError>)
    ensures
        r is Ok <==> !is_windows || has_bash,
        r matches Err(e) ==> e@ == (ErrorView::UnsupportedPlatform {
            details: missing_bash_details(),
            recovery: missing_bash_recovery(),
        }),
{
    if is_windows && !has_bash {
        return Err(
            SdkmanError::UnsupportedPlatform {
                details: "SDKMAN! requires bash shell to be available".to_owned(),
                recovery: "Please ensure bash is installed and available in your PATH.\n\nSupported environments:\n  \u{2022} Linux\n  \u{2022} macOS\n  \u{2022} Windows Subsystem for Linux (WSL)\n  \u{2022} Git Bash for Windows".to_owned(),
            },
        );
    }
    Ok(())
}

} // verus!
