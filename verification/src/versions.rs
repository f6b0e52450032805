//! SDKMAN! version information, read from the version files of the SDKMAN!
//! directory (`$SDKMAN_DIR`, or `$HOME/.sdkman`).
use vstd::prelude::*;
use crate::error::{SdkmanError, ErrorView, result_view};
use crate::paths::{join, join_path, has_dir_prefix, starts_with_dir, lemma_join_under_base};
use crate::text::{trim, trimmed, contains, contains_seq};

verus! {

/// SDKMAN! version information.
#[derive(Debug, Clone)]
pub struct SdkmanVersion {
    pub script_version: String,
    pub native_version: String,
}

/// Mathematical model of an `SdkmanVersion`.
pub struct VersionView {
    pub script_version: Seq<char>,
    pub native_version: Seq<char>,
}

impl View for SdkmanVersion {
    type V = VersionView;

    open spec fn view(&self) -> VersionView {
        VersionView { script_version: self.script_version@, native_version: self.native_version@ }
    }
}

/// The text that reports both versions.
pub open spec fn version_text(v: VersionView) -> Seq<char> {
    "SDKMAN! Versions: Script: "@ + v.script_version + "; Native: "@ + v.native_version
}

/// `"SDKMAN! Versions: Script: <script>; Native: <native>"`.
pub fn format_versions(script_version: &str, native_version: &str) -> (s: String)
    ensures
        s@ == version_text(VersionView { script_version: script_version@, native_version: native_version@ }),
{
    let mut s = "SDKMAN! Versions: Script: ".to_owned();
    s.append(script_version);
    s.append("; Native: ");
    s.append(native_version);
    s
}

impl SdkmanVersion {
    /// Format version information as text.
    pub fn format(&self) -> (s: String)
        ensures
            s@ == version_text(self@),
    {
        format_versions(self.script_version.as_str(), self.native_version.as_str())
    }

    /// The versions held by the two version files, each with surrounding white
    /// space removed.
    pub fn from_file_contents(script_contents: &str, native_contents: &str) -> (v: SdkmanVersion)
        ensures
            v.script_version@ == trimmed(script_contents@),
            v.native_version@ == trimmed(native_contents@),
    {
        SdkmanVersion { script_version: trim(script_contents), native_version: trim(native_contents) }
    }
}

/// The home directory's `.sdkman`, or an internal error carrying the reason the
/// home directory is unknown.
pub open spec fn default_version_dir(home_var: Result<Seq<char>, Seq<char>>) -> Result<Seq<char>, ErrorView> {
    match home_var {
        Ok(h) => Ok(join_path(h, ".sdkman"@)),
        Err(e) => Err(ErrorView::Internal("Failed to get HOME directory: "@ + e)),
    }
}

/// A `Result<String, String>` taken by the views of both sides.
pub open spec fn text_result(r: Result<String, String>) -> Result<Seq<char>, Seq<char>> {
    match r {
        Ok(t) => Ok(t@),
        Err(e) => Err(e@),
    }
}

/// The SDKMAN! directory: `SDKMAN_DIR` as given when it is set and free of
/// `..`, else `.sdkman` under the home directory; without a home directory, an
/// internal error carrying the reason.
pub fn get_sdkman_dir(sdkman_dir_var: Option<String>, home_var: Result<String, String>) -> (r: Result<String, SdkmanError>)
    ensures
        sdkman_dir_var matches Some(d) && !contains_seq(d@, seq!['.', '.']) ==> (r is Ok && r->Ok_0@
            == sdkman_dir_var->Some_0@),
        !(sdkman_dir_var matches Some(d) && !contains_seq(d@, seq!['.', '.'])) ==> result_view(r)
            == default_version_dir(text_result(home_var)),
{
    if let Some(d) = sdkman_dir_var {
        let has_parent_ref = contains(d.as_str(), "..");
        proof {
            reveal_strlit("..");
            assert(".."@ =~= seq!['.', '.']);
        }
        if !has_parent_ref {
            return Ok(d);
        }
    }
    match home_var {
        Ok(h) => Ok(join(h.as_str(), ".sdkman")),
        Err(e) => {
            let mut m = "Failed to get HOME directory: ".to_owned();
            m.append(e.as_str());
            Err(SdkmanError::Internal(m))
        },
    }
}

/// The script and native version files under the SDKMAN! directory; both lie
/// under that directory.
pub fn version_file_paths(sdkman_dir: &str) -> (r: (String, String))
    ensures
        r.0@ == join_path(sdkman_dir@, "var/version"@),
        r.1@ == join_path(sdkman_dir@, "var/version_native"@),
        has_dir_prefix(r.0@, sdkman_dir@),
        has_dir_prefix(r.1@, sdkman_dir@),
{
    proof {
        lemma_join_under_base(sdkman_dir@, "var/version"@);
        lemma_join_under_base(sdkman_dir@, "var/version_native"@);
    }
    (join(sdkman_dir, "var/version"), join(sdkman_dir, "var/version_native"))
}

/// Guard against directory traversal: both version files must lie under `base`.
pub fn check_paths_within(base: &str, script_path: &str, native_path: &str) -> (r: Result<(), SdkmanError>)
    ensures
        r is Ok <==> has_dir_prefix(script_path@, base@) && has_dir_prefix(native_path@, base@),
        r matches Err(e) ==> e@ == ErrorView::Internal("Invalid path detected"@),
{
    if !starts_with_dir(script_path, base) || !starts_with_dir(native_path, base) {
        return Err(SdkmanError::Internal("Invalid path detected".to_owned()));
    }
    Ok(())
}

/// SDKMAN! counts as installed when both version files exist; otherwise the
/// error lists the two paths that were checked, script file first.
pub fn check_version_files_present(
    script_path: String,
    native_path: String,
    script_exists: bool,
    native_exists: bool,
) -> (r: Result<(), SdkmanError>)
    ensures
        r is Ok <==> script_exists && native_exists,
        r matches Err(e) ==> e@ == (ErrorView::NotInstalled {
            checked_paths: seq![script_path@, native_path@],
        }),
{
    if !script_exists || !native_exists {
        let mut checked_paths: Vec<String> = Vec::new();
        checked_paths.push(script_path);
        checked_paths.push(native_path);
        let ghost cp = checked_paths;
        assert(cp.deep_view() =~= seq![script_path@, native_path@]);
        return Err(SdkmanError::NotInstalled { checked_paths });
    }
    Ok(())
}

/// Reading the version files: the files must lie under `base`, both must exist,
/// and both must be readable; the versions are their contents without
/// surrounding white space. Each read is `None` when it was not made.
pub open spec fn version_read_outcome(
    base: Seq<char>,
    script_path: Seq<char>,
    native_path: Seq<char>,
    script_exists: bool,
    native_exists: bool,
    script_read: Option<Result<Seq<char>, Seq<char>>>,
    native_read: Option<Result<Seq<char>, Seq<char>>>,
) -> Result<(Seq<char>, Seq<char>), ErrorView> {
    if !(has_dir_prefix(script_path, base) && has_dir_prefix(native_path, base)) {
        Err(ErrorView::Internal("Invalid path detected"@))
    } else if !(script_exists && native_exists) {
        Err(ErrorView::NotInstalled { checked_paths: seq![script_path, native_path] })
    } else if script_read is Some && script_read->Some_0 is Err {
        Err(ErrorView::Io(script_read->Some_0->Err_0))
    } else if native_read is Some && native_read->Some_0 is Err {
        Err(ErrorView::Io(native_read->Some_0->Err_0))
    } else {
        Ok((trimmed(script_read->Some_0->Ok_0), trimmed(native_read->Some_0->Ok_0)))
    }
}

/// An optional read taken by its views.
pub open spec fn read_view(r: Option<Result<String, String>>) -> Option<Result<Seq<char>, Seq<char>>> {
    match r {
        Some(x) => Some(text_result(x)),
        None => None,
    }
}

/// The two version texts from what was observed of the version files, in the
/// order the checks are made: the path check, then existence, then the script
/// file's read, then the native file's read. The script file is read only when
/// both exist, and the native file only when the script file was read.
pub fn version_texts(
    base: &str,
    script_path: &str,
    native_path: &str,
    script_exists: bool,
    native_exists: bool,
    script_read: Option<Result<String, String>>,
    native_read: Option<Result<String, String>>,
) -> (r: Result<(String, String), SdkmanError>)
    requires
        script_exists && native_exists ==> script_read is Some,
        script_exists && native_exists && (script_read matches Some(Ok(_))) ==> native_read is Some,
    ensures
        match r {
            Ok((s, n)) => version_read_outcome(base@, script_path@, native_path@, script_exists, native_exists, read_view(script_read), read_view(native_read)) == Ok::<(Seq<char>, Seq<char>), ErrorView>((s@, n@)),
            Err(e) => version_read_outcome(base@, script_path@, native_path@, script_exists, native_exists, read_view(script_read), read_view(native_read)) == Err::<(Seq<char>, Seq<char>), ErrorView>(e@),
        },
{
    check_paths_within(base, script_path, native_path)?;
    check_version_files_present(script_path.to_owned(), native_path.to_owned(), script_exists, native_exists)?;
    let script = match script_read {
        Some(Ok(t)) => t,
        Some(Err(e)) => return Err(SdkmanError::Io(e)),
        None => return Err(SdkmanError::Io(String::new())),
    };
    let native = match native_read {
        Some(Ok(t)) => t,
        Some(Err(e)) => return Err(SdkmanError::Io(e)),
        None => return Err(SdkmanError::Io(String::new())),
    };
    Ok((trim(script.as_str()), trim(native.as_str())))
}

impl SdkmanVersion {
    /// Read version information from what was observed of the version files
    /// (see `version_texts`).
    pub fn from_observations(
        base: &str,
        script_path: &str,
        native_path: &str,
        script_exists: bool,
        native_exists: bool,
        script_read: Option<Result<String, String>>,
        native_read: Option<Result<String, String>>,
    ) -> (r: Result<SdkmanVersion, SdkmanError>)
        requires
            script_exists && native_exists ==> script_read is Some,
            script_exists && native_exists && (script_read matches Some(Ok(_))) ==> native_read is Some,
        ensures
            match r {
                Ok(v) => version_read_outcome(base@, script_path@, native_path@, script_exists, native_exists, read_view(script_read), read_view(native_read)) == Ok::<(Seq<char>, Seq<char>), ErrorView>((v.script_version@, v.native_version@)),
                Err(e) => version_read_outcome(base@, script_path@, native_path@, script_exists, native_exists, read_view(script_read), read_view(native_read)) == Err::<(Seq<char>, Seq<char>), ErrorView>(e@),
            },
    {
        let (script_version, native_version) = version_texts(
            base,
            script_path,
            native_path,
            script_exists,
            native_exists,
            script_read,
            native_read,
        )?;
        Ok(SdkmanVersion { script_version, native_version })
    }
}

} // verus!
