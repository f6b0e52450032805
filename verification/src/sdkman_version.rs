//! SDKMAN! version information read from the version files under
//! `$HOME/.sdkman`.
use vstd::prelude::*;
use crate::error::{SdkmanError, ErrorView};
use crate::paths::{join, join_path, has_dir_prefix, lemma_join_under_base};
use crate::text::{trim, trimmed};
use crate::versions::{VersionView, version_text, format_versions, version_texts, version_read_outcome, read_view};

verus! {

/// SDKMAN! version information.
#[derive(Debug, Clone)]
pub struct SdkmanVersion {
    pub script_version: String,
    pub native_version: String,
}

impl View for SdkmanVersion {
    type V = VersionView;

    open spec fn view(&self) -> VersionView {
        VersionView { script_version: self.script_version@, native_version: self.native_version@ }
    }
}

impl SdkmanVersion {
    /// Format version information as text.
    pub fn format(&self) -> (s: String)
        ensures
            s@ == version_text(self@),
    {
        format_versions(self.script_version.as_str(), self.native_version.as_str())
    }

    /// The versions held by the two version files, each with surrounding white
    /// space removed.
    pub fn from_file_contents(script_contents: &str, native_contents: &str) -> (v: SdkmanVersion)
        ensures
            v.script_version@ == trimmed(script_contents@),
            v.native_version@ == trimmed(native_contents@),
    {
        SdkmanVersion { script_version: trim(script_contents), native_version: trim(native_contents) }
    }

    /// Read version information from what was observed of the version files
    /// under `<home>/.sdkman` (see `versions::version_texts`).
    pub fn from_observations(
        home: &str,
        script_path: &str,
        native_path: &str,
        script_exists: bool,
        native_exists: bool,
        script_read: Option<Result<String, String>>,
        native_read: Option<Result<String, String>>,
    ) -> (r: Result<SdkmanVersion, SdkmanError>)
        requires
            script_exists && native_exists ==> script_read is Some,
            script_exists && native_exists && (script_read matches Some(Ok(_))) ==> native_read is Some,
        ensures
            match r {
                Ok(v) => version_read_outcome(home@, script_path@, native_path@, script_exists, native_exists, read_view(script_read), read_view(native_read)) == Ok::<(Seq<char>, Seq<char>), ErrorView>((v.script_version@, v.native_version@)),
                Err(e) => version_read_outcome(home@, script_path@, native_path@, script_exists, native_exists, read_view(script_read), read_view(native_read)) == Err::<(Seq<char>, Seq<char>), ErrorView>(e@),
            },
    {
        let (script_version, native_version) = version_texts(
            home,
            script_path,
            native_path,
            script_exists,
            native_exists,
            script_read,
            native_read,
        )?;
        Ok(SdkmanVersion { script_version, native_version })
    }
}

/// The home directory, or an internal error carrying the reason it is unknown.
pub fn home_dir(home_var: Result<String, String>) -> (r: Result<String, SdkmanError>)
    ensures
        match home_var {
            Ok(h) => r matches Ok(p) && p@ == h@,
            Err(e) => r matches Err(err) && err@ == ErrorView::Internal(
                "Failed to get HOME directory: "@ + e@,
            ),
        },
{
    match home_var {
        Ok(h) => Ok(h),
        Err(e) => {
            let mut m = "Failed to get HOME directory: ".to_owned();
            m.append(e.as_str());
            Err(SdkmanError::Internal(m))
        },
    }
}

/// The script and native version files under `<home>/.sdkman`; both lie under
/// the home directory.
pub fn version_file_paths(home: &str) -> (r: (String, String))
    ensures
        r.0@ == join_path(home@, ".sdkman/var/version"@),
        r.1@ == join_path(home@, ".sdkman/var/version_native"@),
        has_dir_prefix(r.0@, home@),
        has_dir_prefix(r.1@, home@),
{
    proof {
        lemma_join_under_base(home@, ".sdkman/var/version"@);
        lemma_join_under_base(home@, ".sdkman/var/version_native"@);
    }
    (join(home, ".sdkman/var/version"), join(home, ".sdkman/var/version_native"))
}

} // verus!
