//! Shell configuration files that cannot be written (e.g. on NixOS).
use vstd::prelude::*;
use crate::shell::{RcFileProbe, probe_readonly};

verus! {

/// Check if shell RC files are read-only, given the observations of the files,
/// or none when the home directory is unknown.
///
/// Returns `true` if any RC file exists and is read-only, `false` otherwise.
/// Never panics.
pub fn check_rc_files_readonly(probes: Option<Vec<RcFileProbe>>) -> (r: bool)
    ensures
        r == match probes {
            Some(ps) => exists|i: int| 0 <= i < ps@.len() && probe_readonly(#[trigger] ps@[i]),
            None => false,
        },
{
    crate::shell::check_rc_files_readonly(probes)
}

} // verus!
