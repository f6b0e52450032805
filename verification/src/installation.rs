//! Installing SDKMAN!: detection of an existing installation, the download of
//! the official installer with retries, the run of the installer, the check of
//! what it produced, and the order in which these steps are taken.
use vstd::prelude::*;
use crate::error::{SdkmanError, ErrorView, result_view};
use crate::paths::{join, join_path};
use vstd::arithmetic::power2::{pow2, lemma2_to64};
use crate::text::{trim, trimmed, bool_to_text, bool_text, u64_to_decimal, decimal, i64_to_decimal, signed_decimal, contains, contains_seq};

verus! {

/// Seconds the installer may run.
pub const INSTALLER_TIMEOUT_SECS: u64 = 60;

/// Seconds a download request may take.
pub const DOWNLOAD_TIMEOUT_SECS: u64 = 30;

/// Number of download attempts.
pub const MAX_RETRIES: u32 = 3;

/// Base delay between download attempts, in milliseconds.
pub const RETRY_DELAY_MS: u64 = 1000;

/// The official installer.
pub open spec fn default_installer_url() -> Seq<char> {
    "https://get.sdkman.io"@
}

/// The versions found in an installation; either may be missing.
#[derive(Debug, Clone)]
pub struct SdkmanVersions {
    pub script_version: Option<String>,
    pub native_version: Option<String>,
}

/// Mathematical model of `SdkmanVersions`.
pub struct VersionsView {
    pub script_version: Option<Seq<char>>,
    pub native_version: Option<Seq<char>>,
}

/// An optional text taken by its view.
pub open spec fn opt_text(t: Option<String>) -> Option<Seq<char>> {
    match t {
        Some(s) => Some(s@),
        None => None,
    }
}

impl View for SdkmanVersions {
    type V = VersionsView;

    open spec fn view(&self) -> VersionsView {
        VersionsView {
            script_version: opt_text(self.script_version),
            native_version: opt_text(self.native_version),
        }
    }
}

/// Installation state representation.
#[derive(Debug, Clone)]
pub struct SdkmanInstallation {
    pub dir: String,
    pub is_installed: bool,
    /// The versions of an existing installation.
    pub versions: Option<SdkmanVersions>,
}

/// Mathematical model of an `SdkmanInstallation`.
pub struct InstallationView {
    pub dir: Seq<char>,
    pub is_installed: bool,
    pub versions: Option<VersionsView>,
}

impl View for SdkmanInstallation {
    type V = InstallationView;

    open spec fn view(&self) -> InstallationView {
        InstallationView {
            dir: self.dir@,
            is_installed: self.is_installed,
            versions: match self.versions {
                Some(v) => Some(v@),
                None => None,
            },
        }
    }
}

/// Result of installation operation.
#[derive(Debug, Clone)]
pub struct InstallationResult {
    pub installed: bool,
    pub sdkman_dir: String,
    pub message: String,
    pub shell_restart_required: bool,
    /// Whether the installer was allowed to update the shell configuration files.
    pub rc_files_updated: bool,
}

/// Mathematical model of an `InstallationResult`.
pub struct InstallationResultView {
    pub installed: bool,
    pub sdkman_dir: Seq<char>,
    pub message: Seq<char>,
    pub shell_restart_required: bool,
    pub rc_files_updated: bool,
}

impl View for InstallationResult {
    type V = InstallationResultView;

    open spec fn view(&self) -> InstallationResultView {
        InstallationResultView {
            installed: self.installed,
            sdkman_dir: self.sdkman_dir@,
            message: self.message@,
            shell_restart_required: self.shell_restart_required,
            rc_files_updated: self.rc_files_updated,
        }
    }
}

/// The init script whose presence marks an installation.
pub open spec fn init_script_of(dir: Seq<char>) -> Seq<char> {
    join_path(dir, "bin/sdkman-init.sh"@)
}

/// The init script under the SDKMAN! directory.
pub fn init_script_path(dir: &str) -> (r: String)
    ensures
        r@ == init_script_of(dir@),
{
    join(dir, "bin/sdkman-init.sh")
}

/// An optional file content without surrounding white space.
pub open spec fn trimmed_opt(t: Option<Seq<char>>) -> Option<Seq<char>> {
    match t {
        Some(s) => Some(trimmed(s)),
        None => None,
    }
}

fn trim_opt(t: &Option<String>) -> (r: Option<String>)
    ensures
        opt_text(r) == trimmed_opt(opt_text(*t)),
{
    match t {
        Some(s) => Some(trim(s.as_str())),
        None => None,
    }
}

impl SdkmanInstallation {
    /// Detect existing SDKMAN! installation: installed exactly when the init
    /// script exists, with the versions held by the script and native version
    /// files (each `None` when the file could not be read), without surrounding
    /// white space.
    pub fn from_probe(
        dir: String,
        init_script_exists: bool,
        script_contents: Option<String>,
        native_contents: Option<String>,
    ) -> (r: SdkmanInstallation)
        ensures
            r.dir@ == dir@,
            r.is_installed == init_script_exists,
            r@.versions == if init_script_exists {
                Some(
                    VersionsView {
                        script_version: trimmed_opt(opt_text(script_contents)),
                        native_version: trimmed_opt(opt_text(native_contents)),
                    },
                )
            } else {
                None
            },
    {
        let versions = if init_script_exists {
            Some(
                SdkmanVersions {
                    script_version: trim_opt(&script_contents),
                    native_version: trim_opt(&native_contents),
                },
            )
        } else {
            None
        };
        SdkmanInstallation { dir, is_installed: init_script_exists, versions }
    }
}

/// The address the installer is downloaded from: the given installer address
/// (the official one by default) with the `rcupdate` flag appended.
pub open spec fn download_url(installer_url: Option<Seq<char>>, update_rc_files: bool) -> Seq<char> {
    let base = match installer_url {
        Some(u) => u,
        None => default_installer_url(),
    };
    base + "?rcupdate="@ + bool_text(update_rc_files)
}

/// The address the installer is downloaded from.
pub fn installer_download_url(installer_url: &Option<String>, update_rc_files: bool) -> (r: String)
    ensures
        r@ == download_url(opt_text(*installer_url), update_rc_files),
{
    let mut r = match installer_url {
        Some(u) => u.clone(),
        None => "https://get.sdkman.io".to_owned(),
    };
    r.append("?rcupdate=");
    let flag = bool_to_text(update_rc_files);
    r.append(flag.as_str());
    r
}

/// The versions of an existing installation as reported: `" (script: X,
/// native: Y)"` when both are known, only the known one otherwise, and nothing
/// when neither is.
pub open spec fn versions_note(versions: Option<VersionsView>) -> Seq<char> {
    match versions {
        Some(v) => match (v.script_version, v.native_version) {
            (Some(s), Some(n)) => " (script: "@ + s + ", native: "@ + n + ")"@,
            (Some(s), None) => " (script: "@ + s + ")"@,
            (None, Some(n)) => " (native: "@ + n + ")"@,
            (None, None) => seq![],
        },
        None => seq![],
    }
}

/// The message when SDKMAN! was already installed, with its versions.
pub open spec fn already_installed_message(dir: Seq<char>, versions: Option<VersionsView>) -> Seq<char> {
    "SDKMAN! is already installed at "@ + dir + versions_note(versions)
}

/// The message after a fresh installation: the shell configuration was updated,
/// or the caller asked to leave it, or it was read-only; the last two tell how
/// to load SDKMAN! by hand.
pub open spec fn installed_message(dir: Seq<char>, update_rc_files: bool, rc_readonly: bool) -> Seq<char> {
    if update_rc_files && !rc_readonly {
        "SDKMAN! installed successfully at "@ + dir
            + ". Shell configuration updated. Please restart your terminal or run: source "@ + dir
            + "/bin/sdkman-init.sh"@
    } else if update_rc_files {
        "SDKMAN! installed successfully at "@ + dir
            + ". Shell RC files are read-only and were not modified. Add this to your shell profile manually: [ -f "@
            + dir + "/bin/sdkman-init.sh ] && source "@ + dir + "/bin/sdkman-init.sh"@
    } else {
        "SDKMAN! installed successfully at "@ + dir
            + ". Shell RC files were not modified. Add this to your shell profile manually: [ -f "@
            + dir + "/bin/sdkman-init.sh ] && source "@ + dir + "/bin/sdkman-init.sh"@
    }
}

/// The result reported when SDKMAN! was already installed.
pub open spec fn already_installed_view(inst: InstallationView) -> InstallationResultView {
    InstallationResultView {
        installed: true,
        sdkman_dir: inst.dir,
        message: already_installed_message(inst.dir, inst.versions),
        shell_restart_required: false,
        rc_files_updated: false,
    }
}

/// The result reported after a fresh installation: the shell configuration is
/// updated, and a restart needed, exactly when the caller asked for it and the
/// files are writable.
pub open spec fn installed_view(dir: Seq<char>, update_rc_files: bool, rc_readonly: bool) -> InstallationResultView {
    InstallationResultView {
        installed: true,
        sdkman_dir: dir,
        message: installed_message(dir, update_rc_files, rc_readonly),
        shell_restart_required: update_rc_files && !rc_readonly,
        rc_files_updated: update_rc_files && !rc_readonly,
    }
}

/// The result reported when SDKMAN! was already installed.
pub fn already_installed_result(inst: &SdkmanInstallation) -> (r: InstallationResult)
    ensures
        r@ == already_installed_view(inst@),
{
    let mut message = "SDKMAN! is already installed at ".to_owned();
    message.append(inst.dir.as_str());
    match &inst.versions {
        Some(v) => match (&v.script_version, &v.native_version) {
            (Some(s), Some(n)) => {
                message.append(" (script: ");
                message.append(s.as_str());
                message.append(", native: ");
                message.append(n.as_str());
                message.append(")");
            },
            (Some(s), None) => {
                message.append(" (script: ");
                message.append(s.as_str());
                message.append(")");
            },
            (None, Some(n)) => {
                message.append(" (native: ");
                message.append(n.as_str());
                message.append(")");
            },
            (None, None) => {},
        },
        None => {},
    }
    proof {
        assert(message@ =~= already_installed_message(inst@.dir, inst@.versions));
    }
    InstallationResult {
        installed: true,
        sdkman_dir: inst.dir.clone(),
        message,
        shell_restart_required: false,
        rc_files_updated: false,
    }
}

/// The result reported after SDKMAN! was installed in `dir`.
pub fn installed_result(dir: &str, update_rc_files: bool, rc_readonly: bool) -> (r: InstallationResult)
    ensures
        r@ == installed_view(dir@, update_rc_files, rc_readonly),
{
    let mut message = "SDKMAN! installed successfully at ".to_owned();
    message.append(dir);
    if update_rc_files && !rc_readonly {
        message.append(
            ". Shell configuration updated. Please restart your terminal or run: source ",
        );
        message.append(dir);
        message.append("/bin/sdkman-init.sh");
    } else {
        if update_rc_files {
            message.append(
                ". Shell RC files are read-only and were not modified. Add this to your shell profile manually: [ -f ",
            );
        } else {
            message.append(
                ". Shell RC files were not modified. Add this to your shell profile manually: [ -f ",
            );
        }
        message.append(dir);
        message.append("/bin/sdkman-init.sh ] && source ");
        message.append(dir);
        message.append("/bin/sdkman-init.sh");
    }
    let updated = update_rc_files && !rc_readonly;
    InstallationResult {
        installed: true,
        sdkman_dir: dir.to_owned(),
        message,
        shell_restart_required: updated,
        rc_files_updated: updated,
    }
}

/// The error when no HTTP client could be built.
pub fn http_client_error(reason: &str) -> (e: SdkmanError)
    ensures
        e@ == ErrorView::Internal("Failed to create HTTP client: "@ + reason@),
{
    let mut m = "Failed to create HTTP client: ".to_owned();
    m.append(reason);
    SdkmanError::Internal(m)
}

/// Whether an HTTP status code reports success (200 to 299).
pub open spec fn is_success_status(status: u16) -> bool {
    200 <= status < 300
}

/// Whether an HTTP status code reports success (200 to 299).
pub fn status_is_success(status: u16) -> (b: bool)
    ensures
        b == is_success_status(status),
        b <==> 200 <= status && status <= 299,
{
    200 <= status && status < 300
}

/// An HTTP status as it is displayed: its code and its canonical reason.
pub open spec fn status_text(status: u16, reason: Option<Seq<char>>) -> Seq<char> {
    decimal(status as nat) + " "@ + match reason {
        Some(r) => r,
        None => "<unknown status code>"@,
    }
}

/// How to recover when the installer cannot be downloaded.
pub open spec fn network_recovery() -> Seq<char> {
    "Check your internet connection and try again. Visit https://sdkman.io/install for manual installation or check service status at https://sdkman.io/status"@
}

/// Where a download stands.
#[derive(Debug, Clone, Copy, PartialEq, Eq, Structural)]
pub enum DownloadPhase {
    /// A request was sent and its response is awaited.
    AwaitResponse,
    /// A successful response arrived and its body is being read.
    AwaitBody,
    /// The download is over.
    Finished,
}

/// The download of the installer, retried up to `MAX_RETRIES` times.
#[derive(Debug, Clone, Copy)]
pub struct DownloadRetry {
    /// The current attempt, counted from 1.
    pub attempt: u32,
    pub phase: DownloadPhase,
}

/// What one step of a download observed.
#[derive(Debug)]
pub enum DownloadEvent {
    /// The request could not be sent or failed; the error text.
    SendFailed(String),
    /// A response arrived with this status code and its canonical reason.
    Responded { status: u16, reason: Option<String> },
    /// The body of a successful response was read, or the error text.
    BodyRead(Result<String, String>),
}

/// Mathematical model of a `DownloadEvent`.
pub enum DownloadEventView {
    SendFailed(Seq<char>),
    Responded { status: u16, reason: Option<Seq<char>> },
    BodyRead(Result<Seq<char>, Seq<char>>),
}

impl View for DownloadEvent {
    type V = DownloadEventView;

    open spec fn view(&self) -> DownloadEventView {
        match self {
            DownloadEvent::SendFailed(m) => DownloadEventView::SendFailed(m@),
            DownloadEvent::Responded { status, reason } => DownloadEventView::Responded {
                status: *status,
                reason: match reason {
                    Some(r) => Some(r@),
                    None => None,
                },
            },
            DownloadEvent::BodyRead(r) => DownloadEventView::BodyRead(
                match r {
                    Ok(b) => Ok(b@),
                    Err(m) => Err(m@),
                },
            ),
        }
    }
}

/// What the download asks for next.
#[derive(Debug)]
pub enum DownloadAction {
    /// Send the request.
    Send,
    /// Read the body of the response.
    ReadBody,
    /// Wait this many milliseconds, then send the request again.
    SleepThenSend { millis: u64 },
    /// The download is over: the installer script, or why it failed.
    Finish(Result<String, SdkmanError>),
}

/// Mathematical model of a `DownloadAction`.
pub enum DownloadActionView {
    Send,
    ReadBody,
    SleepThenSend { millis: u64 },
    Finish(Result<Seq<char>, ErrorView>),
}

impl View for DownloadAction {
    type V = DownloadActionView;

    open spec fn view(&self) -> DownloadActionView {
        match self {
            DownloadAction::Send => DownloadActionView::Send,
            DownloadAction::ReadBody => DownloadActionView::ReadBody,
            DownloadAction::SleepThenSend { millis } => DownloadActionView::SleepThenSend {
                millis: *millis,
            },
            DownloadAction::Finish(r) => DownloadActionView::Finish(result_view(*r)),
        }
    }
}

/// The error once every attempt failed, the last with `last_error`.
pub open spec fn download_gave_up(last_error: Seq<char>) -> ErrorView {
    ErrorView::NetworkError {
        details: "Connection failed after "@ + decimal(MAX_RETRIES as nat) + " attempts: "@
            + last_error,
        recovery: network_recovery(),
    }
}

/// After a failed attempt: wait `RETRY_DELAY_MS` times the attempt number and
/// try again, unless this was the last attempt.
pub open spec fn download_failed(attempt: u32, error: Seq<char>) -> (DownloadRetry, DownloadActionView) {
    if attempt < MAX_RETRIES {
        (
            DownloadRetry { attempt: (attempt + 1) as u32, phase: DownloadPhase::AwaitResponse },
            DownloadActionView::SleepThenSend { millis: (RETRY_DELAY_MS * attempt) as u64 },
        )
    } else {
        (
            DownloadRetry { attempt, phase: DownloadPhase::Finished },
            DownloadActionView::Finish(Err(download_gave_up(error))),
        )
    }
}

/// One step of the download.
pub open spec fn download_step(s: DownloadRetry, e: DownloadEventView) -> (DownloadRetry, DownloadActionView) {
    match e {
        DownloadEventView::SendFailed(m) => download_failed(s.attempt, m),
        DownloadEventView::Responded { status, reason } => if is_success_status(status) {
            (DownloadRetry { attempt: s.attempt, phase: DownloadPhase::AwaitBody }, DownloadActionView::ReadBody)
        } else {
            download_failed(s.attempt, "HTTP error: "@ + status_text(status, reason))
        },
        DownloadEventView::BodyRead(Ok(body)) => (
            DownloadRetry { attempt: s.attempt, phase: DownloadPhase::Finished },
            DownloadActionView::Finish(Ok(body)),
        ),
        DownloadEventView::BodyRead(Err(m)) => download_failed(
            s.attempt,
            "Failed to read response body: "@ + m,
        ),
    }
}

/// Whether `e` is what the download at `s` is waiting for.
pub open spec fn download_expects(s: DownloadRetry, e: DownloadEventView) -> bool {
    match e {
        DownloadEventView::BodyRead(_) => s.phase == DownloadPhase::AwaitBody,
        _ => s.phase == DownloadPhase::AwaitResponse,
    }
}

/// The state at the start of a download.
pub open spec fn download_start() -> DownloadRetry {
    DownloadRetry { attempt: 1, phase: DownloadPhase::AwaitResponse }
}

impl DownloadRetry {
    /// Attempts are counted from 1 and never pass `MAX_RETRIES`.
    pub open spec fn wf(&self) -> bool {
        1 <= self.attempt <= MAX_RETRIES
    }

    /// Start a download: the first request is sent.
    pub fn start() -> (r: (DownloadRetry, DownloadAction))
        ensures
            r.0 == download_start(),
            r.1@ == DownloadActionView::Send,
    {
        (DownloadRetry { attempt: 1, phase: DownloadPhase::AwaitResponse }, DownloadAction::Send)
    }

    fn fail(attempt: u32, error: String) -> (r: (DownloadRetry, DownloadAction))
        requires
            1 <= attempt <= MAX_RETRIES,
        ensures
            r.0 == download_failed(attempt, error@).0,
            r.1@ == download_failed(attempt, error@).1,
            r.0.wf(),
    {
        if attempt < MAX_RETRIES {
            (
                DownloadRetry { attempt: attempt + 1, phase: DownloadPhase::AwaitResponse },
                DownloadAction::SleepThenSend { millis: RETRY_DELAY_MS * (attempt as u64) },
            )
        } else {
            let mut details = "Connection failed after ".to_owned();
            let count = u64_to_decimal(MAX_RETRIES as u64);
            details.append(count.as_str());
            details.append(" attempts: ");
            details.append(error.as_str());
            let recovery = "Check your internet connection and try again. Visit https://sdkman.io/install for manual installation or check service status at https://sdkman.io/status".to_owned();
            (
                DownloadRetry { attempt, phase: DownloadPhase::Finished },
                DownloadAction::Finish(Err(SdkmanError::NetworkError { details, recovery })),
            )
        }
    }

    /// Take one observation of the download and say what to do next.
    pub fn step(self, event: DownloadEvent) -> (r: (DownloadRetry, DownloadAction))
        requires
            self.wf(),
            download_expects(self, event@),
        ensures
            r.0 == download_step(self, event@).0,
            r.1@ == download_step(self, event@).1,
            r.0.wf(),
    {
        match event {
            DownloadEvent::SendFailed(m) => DownloadRetry::fail(self.attempt, m),
            DownloadEvent::Responded { status, reason } => {
                if status_is_success(status) {
                    (DownloadRetry { attempt: self.attempt, phase: DownloadPhase::AwaitBody }, DownloadAction::ReadBody)
                } else {
                    let mut m = "HTTP error: ".to_owned();
                    let code = u64_to_decimal(status as u64);
                    m.append(code.as_str());
                    m.append(" ");
                    match &reason {
                        Some(r) => m.append(r.as_str()),
                        None => m.append("<unknown status code>"),
                    }
                    assert(m@ =~= "HTTP error: "@ + status_text(
                        status,
                        match reason {
                            Some(r) => Some(r@),
                            None => None,
                        },
                    ));
                    DownloadRetry::fail(self.attempt, m)
                }
            },
            DownloadEvent::BodyRead(Ok(body)) => (
                DownloadRetry { attempt: self.attempt, phase: DownloadPhase::Finished },
                DownloadAction::Finish(Ok(body)),
            ),
            DownloadEvent::BodyRead(Err(e)) => {
                let mut m = "Failed to read response body: ".to_owned();
                m.append(e.as_str());
                DownloadRetry::fail(self.attempt, m)
            },
        }
    }
}

/// How the run of the installer ended: at the first step that failed, or with
/// the exit of the installer and what it printed.
#[derive(Debug)]
pub enum InstallerEvent {
    /// `bash` could not be started; the error text.
    SpawnFailed(String),
    /// The script could not be written to the shell; the error text.
    StdinFailed(String),
    /// The installer did not finish within `INSTALLER_TIMEOUT_SECS`.
    TimedOut,
    /// Waiting for the installer failed; the error text.
    WaitFailed(String),
    /// The installer exited: whether successfully, its exit code if any, and its
    /// standard output and error.
    Exited { success: bool, code: Option<i32>, stdout: String, stderr: String },
}

/// An optional exit code as it is debug-printed: `Some(<code>)` or `None`.
pub open spec fn exit_code_text(code: Option<i32>) -> Seq<char> {
    match code {
        Some(c) => "Some("@ + signed_decimal(c as int) + ")"@,
        None => "None"@,
    }
}

/// An optional exit code as it is debug-printed.
pub fn exit_code_to_text(code: Option<i32>) -> (s: String)
    ensures
        s@ == exit_code_text(code),
{
    match code {
        Some(c) => {
            let mut s = "Some(".to_owned();
            let digits = i64_to_decimal(c as i64);
            s.append(digits.as_str());
            s.append(")");
            s
        },
        None => "None".to_owned(),
    }
}

/// The result of running the installer.
pub open spec fn installer_outcome(
    spawn: Result<(), Seq<char>>,
    stdin: Result<(), Seq<char>>,
    timed_out: bool,
    wait: Result<(), Seq<char>>,
    success: bool,
    code: Option<i32>,
    stdout: Seq<char>,
    stderr: Seq<char>,
) -> Result<(), ErrorView> {
    if spawn is Err {
        Err(ErrorView::PermissionError {
            details: "Failed to spawn bash process: "@ + spawn->Err_0,
            recovery: "Ensure bash is installed and you have permission to execute it."@,
        })
    } else if stdin is Err {
        Err(ErrorView::Internal("Failed to write installer script to stdin: "@ + stdin->Err_0))
    } else if timed_out {
        Err(ErrorView::Internal("Installer execution timed out after 60 seconds"@))
    } else if wait is Err {
        Err(ErrorView::Internal("Failed to execute installer: "@ + wait->Err_0))
    } else if success {
        Ok(())
    } else if contains_seq(stderr, "Permission denied"@) || contains_seq(stdout, "Permission denied"@) {
        Err(ErrorView::PermissionError {
            details: "Insufficient permissions to install SDKMAN!"@,
            recovery: "Ensure you have write permissions to your home directory. Do not use sudo."@,
        })
    } else {
        Err(ErrorView::Internal(
            "Installer failed with exit code "@ + exit_code_text(code) + "\nStdout: "@ + stdout
                + "\nStderr: "@ + stderr,
        ))
    }
}

/// The model of how the run of the installer ended, as the outcomes of its steps.
pub open spec fn installer_event_outcome(e: InstallerEvent) -> Result<(), ErrorView> {
    match e {
        InstallerEvent::SpawnFailed(m) => installer_outcome(Err(m@), Ok(()), false, Ok(()), false, None, seq![], seq![]),
        InstallerEvent::StdinFailed(m) => installer_outcome(Ok(()), Err(m@), false, Ok(()), false, None, seq![], seq![]),
        InstallerEvent::TimedOut => installer_outcome(Ok(()), Ok(()), true, Ok(()), false, None, seq![], seq![]),
        InstallerEvent::WaitFailed(m) => installer_outcome(Ok(()), Ok(()), false, Err(m@), false, None, seq![], seq![]),
        InstallerEvent::Exited { success, code, stdout, stderr } => installer_outcome(
            Ok(()),
            Ok(()),
            false,
            Ok(()),
            success,
            code,
            stdout@,
            stderr@,
        ),
    }
}

/// Execute installer script: decide the result from how its run ended. A
/// failing run whose output mentions `Permission denied` is a permission error.
pub fn installer_result(event: &InstallerEvent) -> (r: Result<(), SdkmanError>)
    ensures
        result_view(r) == installer_event_outcome(*event),
        r is Ok <==> (*event matches InstallerEvent::Exited { success: true, .. }),
{
    match event {
        InstallerEvent::SpawnFailed(m) => {
            let mut details = "Failed to spawn bash process: ".to_owned();
            details.append(m.as_str());
            Err(
                SdkmanError::PermissionError {
                    details,
                    recovery: "Ensure bash is installed and you have permission to execute it.".to_owned(),
                },
            )
        },
        InstallerEvent::StdinFailed(m) => {
            let mut d = "Failed to write installer script to stdin: ".to_owned();
            d.append(m.as_str());
            Err(SdkmanError::Internal(d))
        },
        InstallerEvent::TimedOut => Err(
            SdkmanError::Internal("Installer execution timed out after 60 seconds".to_owned()),
        ),
        InstallerEvent::WaitFailed(m) => {
            let mut d = "Failed to execute installer: ".to_owned();
            d.append(m.as_str());
            Err(SdkmanError::Internal(d))
        },
        InstallerEvent::Exited { success, code, stdout, stderr } => {
            if *success {
                return Ok(());
            }
            if contains(stderr.as_str(), "Permission denied") || contains(
                stdout.as_str(),
                "Permission denied",
            ) {
                return Err(
                    SdkmanError::PermissionError {
                        details: "Insufficient permissions to install SDKMAN!".to_owned(),
                        recovery: "Ensure you have write permissions to your home directory. Do not use sudo.".to_owned(),
                    },
                );
            }
            let mut d = "Installer failed with exit code ".to_owned();
            let code_text = exit_code_to_text(*code);
            d.append(code_text.as_str());
            d.append("\nStdout: ");
            d.append(stdout.as_str());
            d.append("\nStderr: ");
            d.append(stderr.as_str());
            Err(SdkmanError::Internal(d))
        },
    }
}

/// The files an installation must have produced: the init script, the
/// candidates directory and the version file.
pub fn verification_paths(dir: &str) -> (r: (String, String, String))
    ensures
        r.0@ == join_path(dir@, "bin/sdkman-init.sh"@),
        r.1@ == join_path(dir@, "candidates"@),
        r.2@ == join_path(dir@, "var/version"@),
{
    (join(dir, "bin/sdkman-init.sh"), join(dir, "candidates"), join(dir, "var/version"))
}

/// The result of checking an installation.
pub open spec fn verification_outcome(init_exists: bool, candidates_exists: bool, version_exists: bool) -> Result<(), ErrorView> {
    if !init_exists {
        Err(ErrorView::Internal("Installation verification failed: sdkman-init.sh not found"@))
    } else if !candidates_exists {
        Err(ErrorView::Internal("Installation verification failed: candidates directory not found"@))
    } else if !version_exists {
        Err(ErrorView::Internal("Installation verification failed: version file not found"@))
    } else {
        Ok(())
    }
}

/// Verify installation completed successfully, given which of the expected
/// files exist; the first missing one is reported.
pub fn verification_result(init_exists: bool, candidates_exists: bool, version_exists: bool) -> (r: Result<(), SdkmanError>)
    ensures
        result_view(r) == verification_outcome(init_exists, candidates_exists, version_exists),
        r is Ok <==> init_exists && candidates_exists && version_exists,
{
    if !init_exists {
        return Err(
            SdkmanError::Internal(
                "Installation verification failed: sdkman-init.sh not found".to_owned(),
            ),
        );
    }
    if !candidates_exists {
        return Err(
            SdkmanError::Internal(
                "Installation verification failed: candidates directory not found".to_owned(),
            ),
        );
    }
    if !version_exists {
        return Err(
            SdkmanError::Internal(
                "Installation verification failed: version file not found".to_owned(),
            ),
        );
    }
    Ok(())
}

/// Where an installation stands: the step whose outcome is awaited.
#[derive(Debug, Clone, Copy, PartialEq, Eq, Structural)]
pub enum InstallPhase {
    Platform,
    Bash,
    Detect,
    RcFiles,
    Download,
    Execute,
    Verify,
    Finished,
}

/// An installation of SDKMAN! in progress.
#[derive(Debug)]
pub struct InstallFlow {
    pub update_rc_files: bool,
    pub installer_url: Option<String>,
    pub phase: InstallPhase,
    /// The SDKMAN! directory, once detected.
    pub dir: String,
    /// Whether the shell configuration files were found read-only.
    pub rc_readonly: bool,
}

/// Mathematical model of an `InstallFlow`.
pub struct InstallFlowView {
    pub update_rc_files: bool,
    pub installer_url: Option<Seq<char>>,
    pub phase: InstallPhase,
    pub dir: Seq<char>,
    pub rc_readonly: bool,
}

impl View for InstallFlow {
    type V = InstallFlowView;

    open spec fn view(&self) -> InstallFlowView {
        InstallFlowView {
            update_rc_files: self.update_rc_files,
            installer_url: opt_text(self.installer_url),
            phase: self.phase,
            dir: self.dir@,
            rc_readonly: self.rc_readonly,
        }
    }
}

/// The outcome of one step of an installation.
#[derive(Debug)]
pub enum InstallEvent {
    PlatformChecked(Result<(), SdkmanError>),
    BashChecked(Result<(), SdkmanError>),
    Detected(Result<SdkmanInstallation, SdkmanError>),
    /// Whether some shell configuration file is read-only.
    RcFilesChecked(bool),
    /// The installer script, or why it could not be downloaded.
    Downloaded(Result<String, SdkmanError>),
    Executed(Result<(), SdkmanError>),
    Verified(Result<(), SdkmanError>),
}

/// Mathematical model of an `InstallEvent`.
pub enum InstallEventView {
    PlatformChecked(Result<(), ErrorView>),
    BashChecked(Result<(), ErrorView>),
    Detected(Result<InstallationView, ErrorView>),
    RcFilesChecked(bool),
    Downloaded(Result<Seq<char>, ErrorView>),
    Executed(Result<(), ErrorView>),
    Verified(Result<(), ErrorView>),
}

impl View for InstallEvent {
    type V = InstallEventView;

    open spec fn view(&self) -> InstallEventView {
        match self {
            InstallEvent::PlatformChecked(r) => InstallEventView::PlatformChecked(result_view(*r)),
            InstallEvent::BashChecked(r) => InstallEventView::BashChecked(result_view(*r)),
            InstallEvent::Detected(r) => InstallEventView::Detected(result_view(*r)),
            InstallEvent::RcFilesChecked(b) => InstallEventView::RcFilesChecked(*b),
            InstallEvent::Downloaded(r) => InstallEventView::Downloaded(result_view(*r)),
            InstallEvent::Executed(r) => InstallEventView::Executed(result_view(*r)),
            InstallEvent::Verified(r) => InstallEventView::Verified(result_view(*r)),
        }
    }
}

/// What an installation asks for next.
#[derive(Debug)]
pub enum InstallAction {
    /// Check that the platform is supported (native Windows needs bash).
    CheckPlatform,
    /// Check that bash is available.
    CheckBash,
    /// Detect an existing installation.
    Detect,
    /// Check whether the shell configuration files are read-only.
    CheckRcFiles,
    /// Download the installer from this address.
    Download { url: String },
    /// Run this installer script; whether it may update the shell configuration.
    Execute { script: String, update_rc_files: bool },
    /// Check what the installer produced in this directory.
    Verify { dir: String },
    /// The installation is over.
    Finish(Result<InstallationResult, SdkmanError>),
}

/// Mathematical model of an `InstallAction`.
pub enum InstallActionView {
    CheckPlatform,
    CheckBash,
    Detect,
    CheckRcFiles,
    Download { url: Seq<char> },
    Execute { script: Seq<char>, update_rc_files: bool },
    Verify { dir: Seq<char> },
    Finish(Result<InstallationResultView, ErrorView>),
}

impl View for InstallAction {
    type V = InstallActionView;

    open spec fn view(&self) -> InstallActionView {
        match self {
            InstallAction::CheckPlatform => InstallActionView::CheckPlatform,
            InstallAction::CheckBash => InstallActionView::CheckBash,
            InstallAction::Detect => InstallActionView::Detect,
            InstallAction::CheckRcFiles => InstallActionView::CheckRcFiles,
            InstallAction::Download { url } => InstallActionView::Download { url: url@ },
            InstallAction::Execute { script, update_rc_files } => InstallActionView::Execute {
                script: script@,
                update_rc_files: *update_rc_files,
            },
            InstallAction::Verify { dir } => InstallActionView::Verify { dir: dir@ },
            InstallAction::Finish(r) => InstallActionView::Finish(result_view(*r)),
        }
    }
}

/// `s` moved on to phase `p`.
pub open spec fn with_phase(s: InstallFlowView, p: InstallPhase) -> InstallFlowView {
    InstallFlowView { phase: p, ..s }
}

/// `s` finished with the error `e`.
pub open spec fn finish_with(s: InstallFlowView, e: ErrorView) -> (InstallFlowView, InstallActionView) {
    (with_phase(s, InstallPhase::Finished), InstallActionView::Finish(Err(e)))
}

/// Whether the installer may update the shell configuration: the caller asked
/// for it and the files are writable.
pub open spec fn rc_update(s: InstallFlowView) -> bool {
    s.update_rc_files && !s.rc_readonly
}

/// One step of an installation: a failed step ends it with that step's error;
/// an existing installation ends it without downloading anything; read-only
/// shell configuration files turn the `rcupdate` flag off.
pub open spec fn install_step(s: InstallFlowView, e: InstallEventView) -> (InstallFlowView, InstallActionView) {
    match e {
        InstallEventView::PlatformChecked(Ok(_)) => (with_phase(s, InstallPhase::Bash), InstallActionView::CheckBash),
        InstallEventView::BashChecked(Ok(_)) => (with_phase(s, InstallPhase::Detect), InstallActionView::Detect),
        InstallEventView::Detected(Ok(inst)) => if inst.is_installed {
            (with_phase(s, InstallPhase::Finished), InstallActionView::Finish(Ok(already_installed_view(inst))))
        } else {
            (InstallFlowView { phase: InstallPhase::RcFiles, dir: inst.dir, ..s }, InstallActionView::CheckRcFiles)
        },
        InstallEventView::RcFilesChecked(readonly) => {
            let t = InstallFlowView { phase: InstallPhase::Download, rc_readonly: readonly, ..s };
            (t, InstallActionView::Download { url: download_url(s.installer_url, rc_update(t)) })
        },
        InstallEventView::Downloaded(Ok(script)) => (
            with_phase(s, InstallPhase::Execute),
            InstallActionView::Execute { script, update_rc_files: rc_update(s) },
        ),
        InstallEventView::Executed(Ok(_)) => (with_phase(s, InstallPhase::Verify), InstallActionView::Verify { dir: s.dir }),
        InstallEventView::Verified(Ok(_)) => (
            with_phase(s, InstallPhase::Finished),
            InstallActionView::Finish(Ok(installed_view(s.dir, s.update_rc_files, s.rc_readonly))),
        ),
        InstallEventView::PlatformChecked(Err(err)) => finish_with(s, err),
        InstallEventView::BashChecked(Err(err)) => finish_with(s, err),
        InstallEventView::Detected(Err(err)) => finish_with(s, err),
        InstallEventView::Downloaded(Err(err)) => finish_with(s, err),
        InstallEventView::Executed(Err(err)) => finish_with(s, err),
        InstallEventView::Verified(Err(err)) => finish_with(s, err),
    }
}

/// Whether `e` is the outcome the installation at `s` is waiting for.
pub open spec fn install_expects(s: InstallFlowView, e: InstallEventView) -> bool {
    match e {
        InstallEventView::PlatformChecked(_) => s.phase == InstallPhase::Platform,
        InstallEventView::BashChecked(_) => s.phase == InstallPhase::Bash,
        InstallEventView::Detected(_) => s.phase == InstallPhase::Detect,
        InstallEventView::RcFilesChecked(_) => s.phase == InstallPhase::RcFiles,
        InstallEventView::Downloaded(_) => s.phase == InstallPhase::Download,
        InstallEventView::Executed(_) => s.phase == InstallPhase::Execute,
        InstallEventView::Verified(_) => s.phase == InstallPhase::Verify,
    }
}

/// The state at the start of an installation.
pub open spec fn install_start(update_rc_files: bool, installer_url: Option<Seq<char>>) -> InstallFlowView {
    InstallFlowView { update_rc_files, installer_url, phase: InstallPhase::Platform, dir: seq![], rc_readonly: false }
}

impl InstallFlow {
    /// Install SDKMAN! using official installer: start with the platform check.
    pub fn start(update_rc_files: bool, installer_url: Option<String>) -> (r: (InstallFlow, InstallAction))
        ensures
            r.0@ == install_start(update_rc_files, opt_text(installer_url)),
            r.1@ == InstallActionView::CheckPlatform,
    {
        (
            InstallFlow {
                update_rc_files,
                installer_url,
                phase: InstallPhase::Platform,
                dir: String::new(),
                rc_readonly: false,
            },
            InstallAction::CheckPlatform,
        )
    }

    /// Take the outcome of the step in progress and say what to do next.
    pub fn step(self, event: InstallEvent) -> (r: (InstallFlow, InstallAction))
        requires
            install_expects(self@, event@),
        ensures
            r.0@ == install_step(self@, event@).0,
            r.1@ == install_step(self@, event@).1,
    {
        let InstallFlow { update_rc_files, installer_url, phase, dir, rc_readonly } = self;
        match event {
            InstallEvent::PlatformChecked(Ok(())) => (
                InstallFlow { update_rc_files, installer_url, phase: InstallPhase::Bash, dir, rc_readonly },
                InstallAction::CheckBash,
            ),
            InstallEvent::BashChecked(Ok(())) => (
                InstallFlow { update_rc_files, installer_url, phase: InstallPhase::Detect, dir, rc_readonly },
                InstallAction::Detect,
            ),
            InstallEvent::Detected(Ok(inst)) => {
                if inst.is_installed {
                    let result = already_installed_result(&inst);
                    (
                        InstallFlow { update_rc_files, installer_url, phase: InstallPhase::Finished, dir, rc_readonly },
                        InstallAction::Finish(Ok(result)),
                    )
                } else {
                    (
                        InstallFlow { update_rc_files, installer_url, phase: InstallPhase::RcFiles, dir: inst.dir, rc_readonly },
                        InstallAction::CheckRcFiles,
                    )
                }
            },
            InstallEvent::RcFilesChecked(readonly) => {
                let url = installer_download_url(&installer_url, update_rc_files && !readonly);
                (
                    InstallFlow { update_rc_files, installer_url, phase: InstallPhase::Download, dir, rc_readonly: readonly },
                    InstallAction::Download { url },
                )
            },
            InstallEvent::Downloaded(Ok(script)) => (
                InstallFlow { update_rc_files, installer_url, phase: InstallPhase::Execute, dir, rc_readonly },
                InstallAction::Execute { script, update_rc_files: update_rc_files && !rc_readonly },
            ),
            InstallEvent::Executed(Ok(())) => {
                let verify_dir = dir.clone();
                (
                    InstallFlow { update_rc_files, installer_url, phase: InstallPhase::Verify, dir, rc_readonly },
                    InstallAction::Verify { dir: verify_dir },
                )
            },
            InstallEvent::Verified(Ok(())) => {
                let result = installed_result(dir.as_str(), update_rc_files, rc_readonly);
                (
                    InstallFlow { update_rc_files, installer_url, phase: InstallPhase::Finished, dir, rc_readonly },
                    InstallAction::Finish(Ok(result)),
                )
            },
            InstallEvent::PlatformChecked(Err(e))
            | InstallEvent::BashChecked(Err(e))
            | InstallEvent::Detected(Err(e))
            | InstallEvent::Downloaded(Err(e))
            | InstallEvent::Executed(Err(e))
            | InstallEvent::Verified(Err(e)) => (
                InstallFlow { update_rc_files, installer_url, phase: InstallPhase::Finished, dir, rc_readonly },
                InstallAction::Finish(Err(e)),
            ),
        }
    }
}

/// Install SDKMAN! as a function of what each step reported: the first failed
/// step decides the error; an existing installation is reported as such, with
/// its versions, without going further; otherwise the installation in the
/// detected directory, with the shell configuration updated only when asked
/// for and writable.
pub open spec fn install_outcome(
    update_rc_files: bool,
    platform: Result<(), ErrorView>,
    bash: Result<(), ErrorView>,
    detected: Result<InstallationView, ErrorView>,
    rc_readonly: bool,
    downloaded: Result<Seq<char>, ErrorView>,
    executed: Result<(), ErrorView>,
    verified: Result<(), ErrorView>,
) -> Result<InstallationResultView, ErrorView> {
    if platform is Err {
        Err(platform->Err_0)
    } else if bash is Err {
        Err(bash->Err_0)
    } else if detected is Err {
        Err(detected->Err_0)
    } else if detected->Ok_0.is_installed {
        Ok(already_installed_view(detected->Ok_0))
    } else if downloaded is Err {
        Err(downloaded->Err_0)
    } else if executed is Err {
        Err(executed->Err_0)
    } else if verified is Err {
        Err(verified->Err_0)
    } else {
        Ok(installed_view(detected->Ok_0.dir, update_rc_files, rc_readonly))
    }
}

/// The actions an installation asks for when its steps report these outcomes,
/// up to and including the one that finishes it.
pub open spec fn install_actions(
    update_rc_files: bool,
    installer_url: Option<Seq<char>>,
    platform: Result<(), ErrorView>,
    bash: Result<(), ErrorView>,
    detected: Result<InstallationView, ErrorView>,
    rc_readonly: bool,
    downloaded: Result<Seq<char>, ErrorView>,
    executed: Result<(), ErrorView>,
    verified: Result<(), ErrorView>,
) -> Seq<InstallActionView> {
    let s0 = install_start(update_rc_files, installer_url);
    let (s1, a1) = install_step(s0, InstallEventView::PlatformChecked(platform));
    let (s2, a2) = install_step(s1, InstallEventView::BashChecked(bash));
    let (s3, a3) = install_step(s2, InstallEventView::Detected(detected));
    let (s4, a4) = install_step(s3, InstallEventView::RcFilesChecked(rc_readonly));
    let (s5, a5) = install_step(s4, InstallEventView::Downloaded(downloaded));
    let (s6, a6) = install_step(s5, InstallEventView::Executed(executed));
    let (s7, a7) = install_step(s6, InstallEventView::Verified(verified));
    let a0 = InstallActionView::CheckPlatform;
    if a1 is Finish {
        seq![a0, a1]
    } else if a2 is Finish {
        seq![a0, a1, a2]
    } else if a3 is Finish {
        seq![a0, a1, a2, a3]
    } else if a5 is Finish {
        seq![a0, a1, a2, a3, a4, a5]
    } else if a6 is Finish {
        seq![a0, a1, a2, a3, a4, a5, a6]
    } else {
        seq![a0, a1, a2, a3, a4, a5, a6, a7]
    }
}

/// Driving an installation step by step, each step being given the outcome of
/// the action asked for, always feeds each step the outcome it waits for, and
/// ends with the result of `install_outcome`: checks run in order and the first
/// failure is reported, an existing installation stops the run before anything
/// is downloaded, the shell configuration files are checked before the
/// download, the installer comes from the address with the `rcupdate` flag
/// that is on only when asked for and the files are writable, the downloaded
/// script is the one run, and the detected directory is the one verified.
pub proof fn lemma_install_runs_in_order(
    update_rc_files: bool,
    installer_url: Option<Seq<char>>,
    platform: Result<(), ErrorView>,
    bash: Result<(), ErrorView>,
    detected: Result<InstallationView, ErrorView>,
    rc_readonly: bool,
    downloaded: Result<Seq<char>, ErrorView>,
    executed: Result<(), ErrorView>,
    verified: Result<(), ErrorView>,
)
    ensures
        ({
            let acts = install_actions(update_rc_files, installer_url, platform, bash, detected, rc_readonly, downloaded, executed, verified);
            let s0 = install_start(update_rc_files, installer_url);
            let (s1, a1) = install_step(s0, InstallEventView::PlatformChecked(platform));
            let (s2, a2) = install_step(s1, InstallEventView::BashChecked(bash));
            let (s3, a3) = install_step(s2, InstallEventView::Detected(detected));
            let (s4, a4) = install_step(s3, InstallEventView::RcFilesChecked(rc_readonly));
            let (s5, a5) = install_step(s4, InstallEventView::Downloaded(downloaded));
            let (s6, a6) = install_step(s5, InstallEventView::Executed(executed));
            let update = update_rc_files && !rc_readonly;
            &&& acts.last() == InstallActionView::Finish(install_outcome(update_rc_files, platform, bash, detected, rc_readonly, downloaded, executed, verified))
            &&& forall|i: int| 0 <= i < acts.len() - 1 ==> !(#[trigger] acts[i] is Finish)
            &&& install_expects(s0, InstallEventView::PlatformChecked(platform))
            &&& acts.len() > 2 ==> install_expects(s1, InstallEventView::BashChecked(bash))
            &&& acts.len() > 3 ==> install_expects(s2, InstallEventView::Detected(detected))
            &&& acts.len() > 4 ==> install_expects(s3, InstallEventView::RcFilesChecked(rc_readonly))
            &&& acts.len() > 4 ==> install_expects(s4, InstallEventView::Downloaded(downloaded))
            &&& acts.len() > 6 ==> install_expects(s5, InstallEventView::Executed(executed))
            &&& acts.len() > 7 ==> install_expects(s6, InstallEventView::Verified(verified))
            &&& acts.len() > 4 <==> (platform is Ok && bash is Ok && detected is Ok && !detected->Ok_0.is_installed)
            &&& acts.len() > 4 ==> acts[3] == InstallActionView::CheckRcFiles
            &&& acts.len() > 4 ==> acts[4] == InstallActionView::Download { url: download_url(installer_url, update) }
            &&& acts.len() > 6 ==> acts[5] == InstallActionView::Execute { script: downloaded->Ok_0, update_rc_files: update }
            &&& acts.len() > 7 ==> acts[6] == InstallActionView::Verify { dir: detected->Ok_0.dir }
        }),
{
}

/// Unless another installer address is given, the installer is fetched over
/// HTTPS from the official address.
pub proof fn lemma_default_download_is_https(update_rc_files: bool)
    ensures
        download_url(None, update_rc_files).len() >= 8,
        download_url(None, update_rc_files).subrange(0, 8) == "https://"@,
        download_url(None, update_rc_files).subrange(0, 21) == default_installer_url(),
{
    reveal_strlit("https://get.sdkman.io");
    reveal_strlit("https://");
    let u = download_url(None, update_rc_files);
    assert(u.subrange(0, 21) =~= default_installer_url());
    assert(u.subrange(0, 8) =~= "https://"@);
}

/// An existing installation is reported as already installed, with its script
/// and native versions and no shell restart needed, whatever the later steps
/// would have reported: nothing is downloaded or run.
pub proof fn lemma_install_is_idempotent(
    update_rc_files: bool,
    installer_url: Option<Seq<char>>,
    inst: InstallationView,
    rc_readonly: bool,
    downloaded: Result<Seq<char>, ErrorView>,
    executed: Result<(), ErrorView>,
    verified: Result<(), ErrorView>,
)
    requires
        inst.is_installed,
    ensures
        install_actions(update_rc_files, installer_url, Ok(()), Ok(()), Ok(inst), rc_readonly, downloaded, executed, verified)
            == seq![
            InstallActionView::CheckPlatform,
            InstallActionView::CheckBash,
            InstallActionView::Detect,
            InstallActionView::Finish(Ok(already_installed_view(inst))),
        ],
        already_installed_view(inst).installed,
        !already_installed_view(inst).shell_restart_required,
        !already_installed_view(inst).rc_files_updated,
        already_installed_view(inst).message == "SDKMAN! is already installed at "@ + inst.dir
            + versions_note(inst.versions),
{
    let acts = install_actions(update_rc_files, installer_url, Ok(()), Ok(()), Ok(inst), rc_readonly, downloaded, executed, verified);
    assert(acts =~= seq![
        InstallActionView::CheckPlatform,
        InstallActionView::CheckBash,
        InstallActionView::Detect,
        InstallActionView::Finish(Ok(already_installed_view(inst))),
    ]);
}

/// Installing twice: after any run that succeeded, SDKMAN!'s init script
/// exists in the detected directory (it was found there, or the verification
/// found it after installing). A second run whose detection observes that same
/// init script in that directory reports an existing installation, needs no
/// restart, and downloads and runs nothing.
pub proof fn lemma_install_twice(
    update_rc_files: bool,
    first: InstallationView,
    rc_readonly: bool,
    downloaded: Result<Seq<char>, ErrorView>,
    executed: Result<(), ErrorView>,
    init_exists: bool,
    candidates_exists: bool,
    version_exists: bool,
    versions: Option<VersionsView>,
    update2: bool,
    url2: Option<Seq<char>>,
    rc2: bool,
    downloaded2: Result<Seq<char>, ErrorView>,
    executed2: Result<(), ErrorView>,
    verified2: Result<(), ErrorView>,
)
    requires
        install_outcome(
            update_rc_files,
            Ok(()),
            Ok(()),
            Ok(first),
            rc_readonly,
            downloaded,
            executed,
            verification_outcome(init_exists, candidates_exists, version_exists),
        ) is Ok,
    ensures
        first.is_installed || init_exists,
        ({
            let second = InstallationView { dir: first.dir, is_installed: first.is_installed || init_exists, versions };
            let acts = install_actions(update2, url2, Ok(()), Ok(()), Ok(second), rc2, downloaded2, executed2, verified2);
            &&& acts.len() == 4
            &&& forall|i: int| 0 <= i < acts.len() ==> !(#[trigger] acts[i] is Download) && !(acts[i] is Execute)
            &&& acts.last() matches InstallActionView::Finish(Ok(r)) && r.installed && !r.shell_restart_required
                && r.sdkman_dir == first.dir
        }),
{
    let second = InstallationView { dir: first.dir, is_installed: first.is_installed || init_exists, versions };
    lemma_install_is_idempotent(update2, url2, second, rc2, downloaded2, executed2, verified2);
}

/// A successful installation reports SDKMAN! as installed in the detected
/// directory; after a fresh installation a shell restart is needed, and the
/// shell configuration was updated, exactly when the caller asked for it and
/// the files were writable.
pub proof fn lemma_install_success_reports(
    update_rc_files: bool,
    platform: Result<(), ErrorView>,
    bash: Result<(), ErrorView>,
    detected: Result<InstallationView, ErrorView>,
    rc_readonly: bool,
    downloaded: Result<Seq<char>, ErrorView>,
    executed: Result<(), ErrorView>,
    verified: Result<(), ErrorView>,
)
    ensures
        install_outcome(update_rc_files, platform, bash, detected, rc_readonly, downloaded, executed, verified) matches Ok(r) ==> {
            &&& r.installed
            &&& detected is Ok
            &&& r.sdkman_dir == detected->Ok_0.dir
            &&& !detected->Ok_0.is_installed ==> r.shell_restart_required == (update_rc_files && !rc_readonly)
            &&& !detected->Ok_0.is_installed ==> r.rc_files_updated == (update_rc_files && !rc_readonly)
        },
{
}

/// Read-only shell configuration files (as on NixOS) turn the installer's
/// `rcupdate` flag off, and the result says that the files were read-only and
/// how to load SDKMAN! by hand.
pub proof fn lemma_readonly_rc_files(
    installer_url: Option<Seq<char>>,
    dir: Seq<char>,
    script: Seq<char>,
)
    ensures
        ({
            let acts = install_actions(
                true,
                installer_url,
                Ok(()),
                Ok(()),
                Ok(InstallationView { dir, is_installed: false, versions: None }),
                true,
                Ok(script),
                Ok(()),
                Ok(()),
            );
            &&& acts[4] == InstallActionView::Download { url: download_url(installer_url, false) }
            &&& acts[5] == InstallActionView::Execute { script, update_rc_files: false }
            &&& acts.last() == InstallActionView::Finish(Ok(installed_view(dir, true, true)))
            &&& !installed_view(dir, true, true).rc_files_updated
            &&& installed_view(dir, true, true).message == "SDKMAN! installed successfully at "@ + dir
                + ". Shell RC files are read-only and were not modified. Add this to your shell profile manually: [ -f "@
                + dir + "/bin/sdkman-init.sh ] && source "@ + dir + "/bin/sdkman-init.sh"@
        }),
{
}

/// One step of a download: attempts never pass `MAX_RETRIES`; a retry comes
/// after `RETRY_DELAY_MS` times the number of the failed attempt, which for the
/// allowed attempts is a delay that doubles from one retry to the next, and
/// moves to the next attempt; a finished download ends with the body that was read, or
/// with the error of the last attempt once it was the last allowed.
pub proof fn lemma_download_step_bounds(s: DownloadRetry, e: DownloadEventView)
    requires
        s.wf(),
        download_expects(s, e),
    ensures
        ({
            let (t, a) = download_step(s, e);
            &&& t.wf()
            &&& t.attempt >= s.attempt
            &&& !(a is Send)
            &&& a is SleepThenSend ==> s.attempt < MAX_RETRIES && t.attempt == s.attempt + 1
                && a->millis == RETRY_DELAY_MS * s.attempt && t.phase == DownloadPhase::AwaitResponse
                && a->millis == RETRY_DELAY_MS * pow2((s.attempt - 1) as nat)
            &&& a is ReadBody ==> t.attempt == s.attempt && t.phase == DownloadPhase::AwaitBody
            &&& a is Finish ==> t.phase == DownloadPhase::Finished
            &&& a matches DownloadActionView::Finish(Ok(b)) ==> e == DownloadEventView::BodyRead(Ok(b))
            &&& a matches DownloadActionView::Finish(Err(_)) ==> s.attempt == MAX_RETRIES
        }),
{
    lemma2_to64();
}

/// What a failed attempt reports about its failure.
pub open spec fn failure_text(e: DownloadEventView) -> Seq<char> {
    match e {
        DownloadEventView::SendFailed(m) => m,
        DownloadEventView::Responded { status, reason } => "HTTP error: "@ + status_text(status, reason),
        DownloadEventView::BodyRead(Err(m)) => "Failed to read response body: "@ + m,
        DownloadEventView::BodyRead(Ok(_)) => seq![],
    }
}

/// Whether `e` makes a request fail before any body is read.
pub open spec fn fails_request(e: DownloadEventView) -> bool {
    match e {
        DownloadEventView::SendFailed(_) => true,
        DownloadEventView::Responded { status, .. } => !is_success_status(status),
        DownloadEventView::BodyRead(_) => false,
    }
}

/// When every request fails, the download makes exactly three attempts, waits
/// one second and then two seconds between them, and gives up with a network
/// error naming the last failure.
pub proof fn lemma_download_gives_up(e1: DownloadEventView, e2: DownloadEventView, e3: DownloadEventView)
    requires
        fails_request(e1),
        fails_request(e2),
        fails_request(e3),
    ensures
        ({
            let (s1, a1) = download_step(download_start(), e1);
            let (s2, a2) = download_step(s1, e2);
            let (s3, a3) = download_step(s2, e3);
            &&& download_expects(download_start(), e1)
            &&& a1 == DownloadActionView::SleepThenSend { millis: 1000 }
            &&& download_expects(s1, e2)
            &&& a2 == DownloadActionView::SleepThenSend { millis: 2000 }
            &&& download_expects(s2, e3)
            &&& a3 == DownloadActionView::Finish(Err(download_gave_up(failure_text(e3))))
            &&& s3.phase == DownloadPhase::Finished
        }),
{
}

/// A successful response followed by its body ends the download with that
/// body, at whichever attempt it arrives.
pub proof fn lemma_download_returns_body(s: DownloadRetry, status: u16, reason: Option<Seq<char>>, body: Seq<char>)
    requires
        s.wf(),
        s.phase == DownloadPhase::AwaitResponse,
        is_success_status(status),
    ensures
        ({
            let (t, a) = download_step(s, DownloadEventView::Responded { status, reason });
            let (u, b) = download_step(t, DownloadEventView::BodyRead(Ok(body)));
            &&& a == DownloadActionView::ReadBody
            &&& download_expects(t, DownloadEventView::BodyRead(Ok(body)))
            &&& b == DownloadActionView::Finish(Ok(body))
        }),
{
}

/// A run of the installer that exited successfully is a successful
/// installation, whatever it printed on its standard output and error (the
/// installer's download progress goes to standard error on every run); every
/// other way the run can end is a failure.
pub proof fn lemma_successful_exit_is_success(
    spawn: Result<(), Seq<char>>,
    stdin: Result<(), Seq<char>>,
    timed_out: bool,
    wait: Result<(), Seq<char>>,
    success: bool,
    code: Option<i32>,
    stdout: Seq<char>,
    stderr: Seq<char>,
)
    ensures
        installer_outcome(Ok(()), Ok(()), false, Ok(()), true, code, stdout, stderr) == Ok::<(), ErrorView>(()),
        installer_outcome(spawn, stdin, timed_out, wait, success, code, stdout, stderr) is Ok <==> (spawn is Ok
            && stdin is Ok && !timed_out && wait is Ok && success),
{
}

/// A response whose status is outside 200..=299 is never read as the
/// installer: the attempt fails with "HTTP error: <code> <reason>", and the
/// download waits 1000 ms times the attempt number and sends again, or after
/// the third attempt gives up with a network error naming that status. A
/// status inside 200..=299 has its body read.
pub proof fn lemma_error_status_is_retried(s: DownloadRetry, status: u16, reason: Option<Seq<char>>)
    requires
        s.wf(),
    ensures
        ({
            let (t, a) = download_step(s, DownloadEventView::Responded { status, reason });
            let shown = decimal(status as nat) + " "@ + match reason {
                Some(r) => r,
                None => "<unknown status code>"@,
            };
            &&& (200 <= status <= 299) <==> a == DownloadActionView::ReadBody
            &&& (200 <= status <= 299) ==> t == DownloadRetry { attempt: s.attempt, phase: DownloadPhase::AwaitBody }
            &&& !(200 <= status <= 299) && s.attempt < 3 ==> t == DownloadRetry {
                attempt: (s.attempt + 1) as u32,
                phase: DownloadPhase::AwaitResponse,
            } && a == DownloadActionView::SleepThenSend { millis: (1000 * s.attempt) as u64 }
            &&& !(200 <= status <= 299) && s.attempt == 3 ==> t.phase == DownloadPhase::Finished
                && a == DownloadActionView::Finish(
                Err(
                    ErrorView::NetworkError {
                        details: "Connection failed after 3 attempts: HTTP error: "@ + shown,
                        recovery: "Check your internet connection and try again. Visit https://sdkman.io/install for manual installation or check service status at https://sdkman.io/status"@,
                    },
                ),
            )
        }),
{
    reveal_strlit("3");
    reveal_strlit("Connection failed after ");
    reveal_strlit(" attempts: ");
    reveal_strlit("Connection failed after 3 attempts: HTTP error: ");
    reveal_strlit("HTTP error: ");
    assert(decimal(3nat) =~= "3"@) by {
        reveal_with_fuel(decimal, 2);
    }
    let shown = decimal(status as nat) + " "@ + match reason {
        Some(r) => r,
        None => "<unknown status code>"@,
    };
    assert("Connection failed after "@ + decimal(3nat) + " attempts: "@ + ("HTTP error: "@ + status_text(status, reason))
        =~= "Connection failed after 3 attempts: HTTP error: "@ + shown);
}

/// A fresh installation that succeeds reports SDKMAN! installed in the detected
/// directory. When the caller asked for the shell configuration to be updated
/// and the files are writable, it was updated, a restart is needed, and the
/// message says so and how to load SDKMAN! now; otherwise nothing was updated,
/// no restart is needed, and the message says why and how to load SDKMAN! by
/// hand.
pub proof fn lemma_fresh_install_reports(s: InstallFlowView)
    requires
        s.phase == InstallPhase::Verify,
    ensures
        ({
            let a = install_step(s, InstallEventView::Verified(Ok(()))).1;
            let dir = s.dir;
            let updated = s.update_rc_files && !s.rc_readonly;
            &&& a is Finish
            &&& a->Finish_0 is Ok
            &&& a->Finish_0->Ok_0.installed
            &&& a->Finish_0->Ok_0.sdkman_dir == dir
            &&& a->Finish_0->Ok_0.rc_files_updated == updated
            &&& a->Finish_0->Ok_0.shell_restart_required == updated
            &&& updated ==> a->Finish_0->Ok_0.message == "SDKMAN! installed successfully at "@ + dir
                + ". Shell configuration updated. Please restart your terminal or run: source "@ + dir
                + "/bin/sdkman-init.sh"@
            &&& s.update_rc_files && s.rc_readonly ==> a->Finish_0->Ok_0.message
                == "SDKMAN! installed successfully at "@ + dir
                + ". Shell RC files are read-only and were not modified. Add this to your shell profile manually: [ -f "@
                + dir + "/bin/sdkman-init.sh ] && source "@ + dir + "/bin/sdkman-init.sh"@
            &&& !s.update_rc_files ==> a->Finish_0->Ok_0.message == "SDKMAN! installed successfully at "@ + dir
                + ". Shell RC files were not modified. Add this to your shell profile manually: [ -f "@
                + dir + "/bin/sdkman-init.sh ] && source "@ + dir + "/bin/sdkman-init.sh"@
        }),
{
}

/// The same report as the result of a whole fresh installation whose steps all
/// succeeded.
pub proof fn lemma_fresh_install_outcome(
    update_rc_files: bool,
    dir: Seq<char>,
    versions: Option<VersionsView>,
    rc_readonly: bool,
    script: Seq<char>,
)
    ensures
        ({
            let o = install_outcome(
                update_rc_files,
                Ok(()),
                Ok(()),
                Ok(InstallationView { dir, is_installed: false, versions }),
                rc_readonly,
                Ok(script),
                Ok(()),
                Ok(()),
            );
            let updated = update_rc_files && !rc_readonly;
            &&& o is Ok
            &&& o->Ok_0.installed
            &&& o->Ok_0.sdkman_dir == dir
            &&& o->Ok_0.rc_files_updated == updated
            &&& o->Ok_0.shell_restart_required == updated
            &&& updated ==> o->Ok_0.message == "SDKMAN! installed successfully at "@ + dir
                + ". Shell configuration updated. Please restart your terminal or run: source "@ + dir
                + "/bin/sdkman-init.sh"@
            &&& update_rc_files && rc_readonly ==> o->Ok_0.message == "SDKMAN! installed successfully at "@ + dir
                + ". Shell RC files are read-only and were not modified. Add this to your shell profile manually: [ -f "@
                + dir + "/bin/sdkman-init.sh ] && source "@ + dir + "/bin/sdkman-init.sh"@
            &&& !update_rc_files ==> o->Ok_0.message == "SDKMAN! installed successfully at "@ + dir
                + ". Shell RC files were not modified. Add this to your shell profile manually: [ -f "@
                + dir + "/bin/sdkman-init.sh ] && source "@ + dir + "/bin/sdkman-init.sh"@
        }),
{
}

} // verus!
