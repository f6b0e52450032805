//! The user's shell, and whether its configuration files can be written.
use vstd::prelude::*;
use crate::paths::{join, join_path, path_file_name, file_name};

verus! {

/// The shell named by the `SHELL` variable: the final component of its path,
/// or `bash` when the variable is unset or names no file.
pub open spec fn shell_name(shell_var: Option<Seq<char>>) -> Seq<char> {
    match shell_var {
        Some(s) => match file_name(s) {
            Some(n) => n,
            None => "bash"@,
        },
        None => "bash"@,
    }
}

/// Detect current shell from the value of the `SHELL` environment variable.
///
/// Note: SDKMAN! officially supports bash and zsh. Other POSIX-compatible shells
/// that source .bashrc/.zshrc may work, but fish and other non-POSIX shells are
/// not supported as they use different initialization mechanisms.
pub fn detect_shell(shell_var: Option<String>) -> (r: String)
    ensures
        r@ == shell_name(
            match shell_var {
                Some(s) => Some(s@),
                None => None,
            },
        ),
{
    match shell_var {
        Some(s) => match path_file_name(s.as_str()) {
            Some(n) => n,
            None => "bash".to_owned(),
        },
        None => "bash".to_owned(),
    }
}

/// The shell configuration files that are checked, in order.
pub open spec fn rc_file_names() -> Seq<Seq<char>> {
    seq![".bashrc"@, ".zshrc"@, ".bash_profile"@, ".profile"@]
}

/// The paths of the shell configuration files under the home directory, in the
/// order of `rc_file_names`.
pub fn rc_file_paths(home: &str) -> (r: Vec<String>)
    ensures
        r@.len() == rc_file_names().len(),
        forall|i: int| 0 <= i < r@.len() ==> #[trigger] r@[i]@ == join_path(home@, rc_file_names()[i]),
{
    let mut r: Vec<String> = Vec::new();
    r.push(join(home, ".bashrc"));
    r.push(join(home, ".zshrc"));
    r.push(join(home, ".bash_profile"));
    r.push(join(home, ".profile"));
    r
}

/// Metadata of a configuration file itself, not following a symbolic link.
#[derive(Debug, Clone, Copy)]
pub struct LinkMetadata {
    pub is_symlink: bool,
    pub readonly: bool,
}

/// What was observed of one configuration file: whether it exists, its own
/// metadata when that could be read, and whether the target of a symbolic link
/// is read-only when that could be read.
#[derive(Debug, Clone, Copy)]
pub struct RcFileProbe {
    pub exists: bool,
    pub link_metadata: Option<LinkMetadata>,
    pub target_readonly: Option<bool>,
}

/// A configuration file counts as read-only when it exists and either is a
/// symbolic link whose target is read-only, or is not a link and is read-only
/// itself.
pub open spec fn probe_readonly(p: RcFileProbe) -> bool {
    p.exists && match p.link_metadata {
        Some(m) => if m.is_symlink {
            p.target_readonly == Some(true)
        } else {
            m.readonly
        },
        None => false,
    }
}

/// Whether one observed configuration file counts as read-only.
pub fn rc_file_readonly(p: &RcFileProbe) -> (r: bool)
    ensures
        r == probe_readonly(*p),
{
    if !p.exists {
        return false;
    }
    match p.link_metadata {
        Some(m) => if m.is_symlink {
            match p.target_readonly {
                Some(t) => t,
                None => false,
            }
        } else {
            m.readonly
        },
        None => false,
    }
}

/// Check if shell RC files are read-only (e.g., NixOS, where they are often
/// symbolic links into the read-only Nix store), given the observations of the
/// files, or none when the home directory is unknown.
///
/// Returns `true` if any RC file exists and is read-only, `false` otherwise.
pub fn check_rc_files_readonly(probes: Option<Vec<RcFileProbe>>) -> (r: bool)
    ensures
        r == match probes {
            Some(ps) => exists|i: int| 0 <= i < ps@.len() && probe_readonly(#[trigger] ps@[i]),
            None => false,
        },
{
    match &probes {
        None => false,
        Some(ps) => {
            let mut i: usize = 0;
            while i < ps.len()
                invariant
                    probes == Some(*ps),
                    i <= ps@.len(),
                    forall|k: int| 0 <= k < i ==> !probe_readonly(#[trigger] ps@[k]),
                decreases ps.len() - i,
            {
                if rc_file_readonly(&ps[i]) {
                    assert(probe_readonly(ps@[i as int]));
                    assert(probes matches Some(q) && q == *ps);
                    return true;
                }
                i = i + 1;
            }
            false
        },
    }
}

} // verus!
