//! Platform identification: the Rust target triples that SDKMAN! supports,
//! and the checks that gate the installer.
use vstd::prelude::*;
use crate::error::{SdkmanError, ErrorView, result_view};
use crate::platform::{missing_bash_details, missing_bash_recovery};
use crate::text::same_text;

verus! {

/// Platform information including OS and architecture.
#[derive(Debug, Clone)]
pub struct PlatformInfo {
    pub os: String,
    pub arch: String,
    pub triple: Option<String>,
}

/// The target triple SDKMAN! uses for an operating system and architecture,
/// when that platform is supported.
pub open spec fn platform_triple(os: Seq<char>, arch: Seq<char>) -> Option<Seq<char>> {
    if os == "linux"@ && arch == "aarch64"@ {
        Some("aarch64-unknown-linux-gnu"@)
    } else if os == "linux"@ && arch == "x86_64"@ {
        Some("x86_64-unknown-linux-gnu"@)
    } else if os == "linux"@ && arch == "x86"@ {
        Some("i686-unknown-linux-gnu"@)
    } else if os == "macos"@ && arch == "aarch64"@ {
        Some("aarch64-apple-darwin"@)
    } else if os == "macos"@ && arch == "x86_64"@ {
        Some("x86_64-apple-darwin"@)
    } else if os == "windows"@ && arch == "x86_64"@ {
        Some("x86_64-pc-windows-msvc"@)
    } else {
        None
    }
}

/// Get the platform triple identifier: one of the triples SDKMAN! supports, or
/// none for an unsupported platform.
pub fn get_platform_triple(os: &str, arch: &str) -> (r: Option<String>)
    ensures
        r is None <==> platform_triple(os@, arch@) is None,
        r matches Some(t) ==> platform_triple(os@, arch@) == Some(t@),
        r is Some <==> ((os@ == "linux"@ && (arch@ == "aarch64"@ || arch@ == "x86_64"@ || arch@ == "x86"@)) || (os@ == "macos"@ && (
            arch@ == "aarch64"@ || arch@ == "x86_64"@)) || (os@ == "windows"@ && arch@ == "x86_64"@)),
{
    if same_text(os, "linux") && same_text(arch, "aarch64") {
        Some("aarch64-unknown-linux-gnu".to_owned())
    } else if same_text(os, "linux") && same_text(arch, "x86_64") {
        Some("x86_64-unknown-linux-gnu".to_owned())
    } else if same_text(os, "linux") && same_text(arch, "x86") {
        Some("i686-unknown-linux-gnu".to_owned())
    } else if same_text(os, "macos") && same_text(arch, "aarch64") {
        Some("aarch64-apple-darwin".to_owned())
    } else if same_text(os, "macos") && same_text(arch, "x86_64") {
        Some("x86_64-apple-darwin".to_owned())
    } else if same_text(os, "windows") && same_text(arch, "x86_64") {
        Some("x86_64-pc-windows-msvc".to_owned())
    } else {
        None
    }
}

impl PlatformInfo {
    /// Platform information for an operating system and architecture, with the
    /// matching target triple.
    pub fn new(os: &str, arch: &str) -> (p: PlatformInfo)
        ensures
            p.os@ == os@,
            p.arch@ == arch@,
            p.triple is None <==> platform_triple(os@, arch@) is None,
            p.triple matches Some(t) ==> platform_triple(os@, arch@) == Some(t@),
    {
        PlatformInfo { os: os.to_owned(), arch: arch.to_owned(), triple: get_platform_triple(os, arch) }
    }
}

/// Why an unsupported platform is refused.
pub open spec fn unsupported_platform_details(os: Seq<char>, arch: Seq<char>) -> Seq<char> {
    "Platform '"@ + os + "/"@ + arch + "' is not supported by SDKMAN!"@
}

/// The platforms SDKMAN! supports, as recovery advice.
pub open spec fn supported_platforms_recovery() -> Seq<char> {
    "SDKMAN! is only supported on the following platforms:\n  \u{2022} Linux aarch64\n  \u{2022} Linux x86_64\n  \u{2022} Linux i686\n  \u{2022} macOS aarch64 (Apple Silicon)\n  \u{2022} macOS x86_64 (Intel)\n  \u{2022} Windows x86_64 (WSL/Git Bash)"@
}

/// Check platform compatibility - only allow supported platform triples.
pub fn check_platform_compatibility(platform: &PlatformInfo) -> (r: Result<(), SdkmanError>)
    ensures
        r is Ok <==> platform.triple is Some,
        r matches Err(e) ==> e@ == (ErrorView::UnsupportedPlatform {
            details: unsupported_platform_details(platform.os@, platform.arch@),
            recovery: supported_platforms_recovery(),
        }),
{
    match &platform.triple {
        Some(_) => Ok(()),
        None => {
            let mut details = "Platform '".to_owned();
            details.append(platform.os.as_str());
            details.append("/");
            details.append(platform.arch.as_str());
            details.append("' is not supported by SDKMAN!");
            Err(
                SdkmanError::UnsupportedPlatform {
                    details,
                    recovery: "SDKMAN! is only supported on the following platforms:\n  \u{2022} Linux aarch64\n  \u{2022} Linux x86_64\n  \u{2022} Linux i686\n  \u{2022} macOS aarch64 (Apple Silicon)\n  \u{2022} macOS x86_64 (Intel)\n  \u{2022} Windows x86_64 (WSL/Git Bash)".to_owned(),
                },
            )
        },
    }
}

/// Why a missing bash shell stops the installer.
pub open spec fn bash_required_details() -> Seq<char> {
    "SDKMAN! requires bash shell to be available"@
}

/// How to provide a bash shell.
pub open spec fn bash_required_recovery() -> Seq<char> {
    "Please ensure bash is installed and available in your PATH.\nOn Windows, consider installing Git Bash or WSL to provide bash support."@
}

/// Check if bash is available in the environment, given whether running
/// `bash --version` could be started.
pub fn check_bash_available(has_bash: bool) -> (r: Result<(), SdkmanError>)
    ensures
        r is Ok <==> has_bash,
        r matches Err(e) ==> e@ == (ErrorView::BashNotAvailable {
            details: bash_required_details(),
            recovery: bash_required_recovery(),
        }),
{
    if !has_bash {
        return Err(
            SdkmanError::BashNotAvailable {
                details: "SDKMAN! requires bash shell to be available".to_owned(),
                recovery: "Please ensure bash is installed and available in your PATH.\nOn Windows, consider installing Git Bash or WSL to provide bash support.".to_owned(),
            },
        );
    }
    Ok(())
}

/// The platform check made before installing: the platform must have a
/// supported target triple, and native Windows must have bash; both refusals
/// are unsupported-platform errors.
pub open spec fn install_platform_outcome(os: Seq<char>, arch: Seq<char>, has_bash: bool) -> Result<(), ErrorView> {
    if platform_triple(os, arch) is None {
        Err(ErrorView::UnsupportedPlatform {
            details: unsupported_platform_details(os, arch),
            recovery: supported_platforms_recovery(),
        })
    } else if os == "windows"@ && !has_bash {
        Err(ErrorView::UnsupportedPlatform {
            details: missing_bash_details(),
            recovery: missing_bash_recovery(),
        })
    } else {
        Ok(())
    }
}

/// Check that SDKMAN! can be installed here: a supported platform, and on
/// Windows a bash shell (WSL or Git Bash), given whether bash could be started.
pub fn check_install_platform(platform: &PlatformInfo, has_bash: bool) -> (r: Result<(), SdkmanError>)
    requires
        platform.triple is None <==> platform_triple(platform.os@, platform.arch@) is None,
    ensures
        result_view(r) == install_platform_outcome(platform.os@, platform.arch@, has_bash),
{
    check_platform_compatibility(platform)?;
    let is_windows = same_text(platform.os.as_str(), "windows");
    crate::platform::check_platform_compatibility(is_windows, has_bash)
}

/// Exactly six platforms can install SDKMAN!: Linux on aarch64, x86_64 and
/// x86, macOS on aarch64 and x86_64, and Windows on x86_64 (there only with a
/// bash shell). Every other operating system and architecture is refused as an
/// unsupported platform naming both.
pub proof fn lemma_only_supported_platforms_install(os: Seq<char>, arch: Seq<char>, has_bash: bool)
    ensures
        ({
            let supported = (os == "linux"@ && (arch == "aarch64"@ || arch == "x86_64"@ || arch == "x86"@)) || (os
                == "macos"@ && (arch == "aarch64"@ || arch == "x86_64"@)) || (os == "windows"@ && arch == "x86_64"@);
            let r = install_platform_outcome(os, arch, has_bash);
            &&& r is Ok <==> supported && (os != "windows"@ || has_bash)
            &&& !supported ==> (r matches Err(ErrorView::UnsupportedPlatform { details, .. }) && details
                == "Platform '"@ + os + "/"@ + arch + "' is not supported by SDKMAN!"@)
            &&& supported && os == "windows"@ && !has_bash ==> r is Err && r->Err_0 is UnsupportedPlatform
        }),
{
}

} // verus!
