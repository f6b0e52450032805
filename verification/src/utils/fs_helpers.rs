//! Where SDKMAN! lives: `$SDKMAN_DIR` when it is a safe absolute path, else
//! `.sdkman` under the home directory.
use vstd::prelude::*;
use crate::paths::{join, join_path, path_is_absolute, absolute_shape, lemma_join_keeps_absolute_shape};
use crate::text::{contains, contains_seq, occurs_at};

verus! {

/// `SDKMAN_DIR` is accepted when it is absolute and holds no `..`.
pub open spec fn acceptable_sdkman_dir(dir: Seq<char>, is_absolute: bool) -> bool {
    is_absolute && !contains_seq(dir, seq!['.', '.'])
}

/// The SDKMAN! directory given whether `SDKMAN_DIR` is an absolute path: the
/// variable itself when acceptable, else `.sdkman` under the home directory,
/// and nothing when that directory is needed but unknown.
pub fn select_sdkman_dir(
    sdkman_dir_var: Option<String>,
    var_is_absolute: bool,
    home: Option<String>,
) -> (r: Option<String>)
    ensures
        sdkman_dir_var matches Some(d) && acceptable_sdkman_dir(d@, var_is_absolute) ==> r
            == sdkman_dir_var,
        !(sdkman_dir_var matches Some(d) && acceptable_sdkman_dir(d@, var_is_absolute)) ==> match home {
            Some(h) => r matches Some(p) && p@ == join_path(h@, ".sdkman"@),
            None => r is None,
        },
{
    if let Some(d) = sdkman_dir_var {
        let has_parent_ref = contains(d.as_str(), "..");
        proof {
            reveal_strlit("..");
            assert(".."@ =~= seq!['.', '.']);
        }
        if var_is_absolute && !has_parent_ref {
            return Some(d);
        }
    }
    match home {
        Some(h) => Some(join(h.as_str(), ".sdkman")),
        None => None,
    }
}

/// `.sdkman` under a directory free of `..` is free of `..`.
pub proof fn lemma_default_dir_has_no_parent_ref(home: Seq<char>)
    requires
        !contains_seq(home, seq!['.', '.']),
    ensures
        !contains_seq(join_path(home, ".sdkman"@), seq!['.', '.']),
{
    reveal_strlit(".sdkman");
    let pat = seq!['.', '.'];
    let p = join_path(home, ".sdkman"@);
    let rel = ".sdkman"@;
    let sep: Seq<char> = if home.len() == 0 || home.last() == '/' { seq![] } else { seq!['/'] };
    assert(p =~= home + sep + rel);
    assert forall|i: int| !occurs_at(p, pat, i) by {
        if occurs_at(p, pat, i) {
            assert(p.subrange(i, i + 2)[0] == p[i]);
            assert(p.subrange(i, i + 2)[1] == p[i + 1]);
            assert(p[i] == '.' && p[i + 1] == '.');
            let n = home.len() as int;
            let m = sep.len() as int;
            if i + 2 <= n {
                assert(home.subrange(i, i + 2) =~= p.subrange(i, i + 2));
                assert(occurs_at(home, pat, i));
            } else if i + 1 == n {
                assert(p[i] == home.last());
                if m == 1 {
                    assert(p[i + 1] == '/');
                } else {
                    assert(home.last() == '/');
                }
            } else if i < n + m {
                assert(p[i] == '/');
            } else {
                assert(p[i + 1] == rel[i + 1 - n - m]);
                assert(i + 1 - n - m >= 1);
            }
        }
    }
}

/// Get SDKMAN! directory from environment or default: `SDKMAN_DIR` when it is
/// an absolute path free of `..`, else `.sdkman` under the home directory (none
/// when that is unknown). A directory taken from the environment is absolute
/// in shape and never holds `..`; with a home directory that is absolute and free of `..`, the result is
/// always absolute in shape and free of `..`.
pub fn get_sdkman_dir(sdkman_dir_var: Option<String>, home: Option<String>) -> (r: Option<String>)
    ensures
        sdkman_dir_var matches Some(d) && contains_seq(d@, seq!['.', '.']) ==> match home {
            Some(h) => r matches Some(p) && p@ == join_path(h@, ".sdkman"@),
            None => r is None,
        },
        sdkman_dir_var is None ==> match home {
            Some(h) => r matches Some(p) && p@ == join_path(h@, ".sdkman"@),
            None => r is None,
        },
        r matches Some(p) ==> (sdkman_dir_var matches Some(d) && p@ == d@ && absolute_shape(d@)
            && !contains_seq(d@, seq!['.', '.'])) || (home matches Some(h) && p@ == join_path(
            h@,
            ".sdkman"@,
        )),
        r is None ==> home is None,
        home matches Some(h) && absolute_shape(h@) && !contains_seq(h@, seq!['.', '.']) ==> (r matches Some(
            p,
        ) && absolute_shape(p@) && !contains_seq(p@, seq!['.', '.'])),
{
    proof {
        if home is Some {
            let h = home->Some_0;
            if absolute_shape(h@) {
                lemma_join_keeps_absolute_shape(h@, ".sdkman"@);
            }
            if !contains_seq(h@, seq!['.', '.']) {
                lemma_default_dir_has_no_parent_ref(h@);
            }
        }
    }
    let is_absolute = match &sdkman_dir_var {
        Some(d) => path_is_absolute(d.as_str()),
        None => false,
    };
    select_sdkman_dir(sdkman_dir_var, is_absolute, home)
}

} // verus!
