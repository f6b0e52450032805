//! Path text handled with `/` as separator: joining a relative path onto a
//! directory, the final component of a path, and component-wise prefixes.
use vstd::prelude::*;
use crate::text::{to_chars, push_char, string_from_range};

verus! {

/// `base` with the relative path `rel` appended, a separator `/` being inserted
/// when `base` is not empty and does not already end with one (`PathBuf::push`
/// for a relative path on Unix).
pub open spec fn join_path(base: Seq<char>, rel: Seq<char>) -> Seq<char> {
    if base.len() == 0 {
        rel
    } else if base.last() == '/' {
        base + rel
    } else {
        base + seq!['/'] + rel
    }
}

/// Whether the components of `base` are a prefix of the components of `p`, for
/// paths written without `.` components or repeated separators.
pub open spec fn has_dir_prefix(p: Seq<char>, base: Seq<char>) -> bool {
    &&& base.len() <= p.len()
    &&& p.subrange(0, base.len() as int) == base
    &&& (base.len() == 0 || base.len() == p.len() || base.last() == '/' || p[base.len() as int]
        == '/')
}

/// A joined path always lies under the directory it was joined onto.
pub proof fn lemma_join_under_base(base: Seq<char>, rel: Seq<char>)
    ensures
        has_dir_prefix(join_path(base, rel), base),
{
    let p = join_path(base, rel);
    if base.len() > 0 {
        assert(p.subrange(0, base.len() as int) =~= base);
        if base.last() != '/' && p.len() > base.len() {
            assert(p[base.len() as int] == '/');
        }
    } else {
        assert(p.subrange(0, 0) =~= base);
    }
}

/// The characters after the last `/` of `s`.
pub open spec fn last_segment(s: Seq<char>) -> Seq<char>
    decreases s.len(),
{
    if s.len() == 0 || s.last() == '/' {
        seq![]
    } else {
        last_segment(s.drop_last()).push(s.last())
    }
}

/// The final component of the path `s` (`Path::file_name` on Unix): trailing
/// separators and `.` components are skipped, and there is none when the path is
/// empty, is a root, or ends in `.` or `..`.
pub open spec fn file_name(s: Seq<char>) -> Option<Seq<char>>
    decreases s.len(),
{
    if s.len() == 0 {
        None
    } else if s.last() == '/' {
        file_name(s.drop_last())
    } else if s.len() >= 2 && s.last() == '.' && s[s.len() - 2] == '/' {
        file_name(s.subrange(0, s.len() - 2))
    } else {
        let seg = last_segment(s);
        if seg == seq!['.'] || seg == seq!['.', '.'] {
            None
        } else {
            Some(seg)
        }
    }
}

/// `rel` joined onto `base` (see `join_path`).
pub fn join(base: &str, rel: &str) -> (r: String)
    ensures
        r@ == join_path(base@, rel@),
{
    let bv = to_chars(base);
    let mut r = base.to_owned();
    if bv.len() > 0 && bv[bv.len() - 1] != '/' {
        push_char(&mut r, '/');
    }
    let rv = to_chars(rel);
    let mut i: usize = 0;
    let ghost start = r@;
    while i < rv.len()
        invariant
            i <= rv.len(),
            rv@ == rel@,
            r@ == start + rv@.take(i as int),
        decreases rv.len() - i,
    {
        push_char(&mut r, rv[i]);
        assert(rv@.take(i + 1) =~= rv@.take(i as int).push(rv@[i as int]));
        i = i + 1;
    }
    assert(rv@.take(rv.len() as int) =~= rv@);
    proof {
        if base@.len() > 0 && base@.last() != '/' {
            assert(r@ =~= base@ + seq!['/'] + rel@);
        } else {
            assert(r@ =~= base@ + rel@);
        }
    }
    r
}

/// Whether `p` lies under the directory `base` (see `has_dir_prefix`).
pub fn starts_with_dir(p: &str, base: &str) -> (b: bool)
    ensures
        b == has_dir_prefix(p@, base@),
{
    let pv = to_chars(p);
    let bv = to_chars(base);
    if bv.len() > pv.len() {
        return false;
    }
    let mut i: usize = 0;
    while i < bv.len()
        invariant
            bv.len() <= pv.len(),
            i <= bv.len(),
            pv@ == p@,
            bv@ == base@,
            forall|k: int| 0 <= k < i ==> pv@[k] == bv@[k],
        decreases bv.len() - i,
    {
        if pv[i] != bv[i] {
            assert(pv@.subrange(0, bv.len() as int)[i as int] != bv@[i as int]);
            return false;
        }
        i = i + 1;
    }
    assert(pv@.subrange(0, bv.len() as int) =~= bv@);
    bv.len() == 0 || bv.len() == pv.len() || bv[bv.len() - 1] == '/' || pv[bv.len()] == '/'
}

fn last_segment_start(v: &Vec<char>, n: usize) -> (k: usize)
    requires
        n <= v.len(),
    ensures
        k <= n,
        v@.subrange(k as int, n as int) == last_segment(v@.take(n as int)),
    decreases n,
{
    if n == 0 || v[n - 1] == '/' {
        assert(v@.subrange(n as int, n as int) =~= last_segment(v@.take(n as int)));
        n
    } else {
        let k = last_segment_start(v, n - 1);
        assert(v@.take(n as int).drop_last() =~= v@.take(n - 1));
        assert(v@.subrange(k as int, n as int) =~= v@.subrange(k as int, n - 1).push(v@[n - 1]));
        k
    }
}

fn file_name_range(v: &Vec<char>, n: usize) -> (r: Option<(usize, usize)>)
    requires
        n <= v.len(),
    ensures
        match r {
            None => file_name(v@.take(n as int)) is None,
            Some((a, b)) => a <= b <= n && file_name(v@.take(n as int)) == Some(
                v@.subrange(a as int, b as int),
            ),
        },
    decreases n,
{
    let ghost s = v@.take(n as int);
    if n == 0 {
        None
    } else if v[n - 1] == '/' {
        assert(s.drop_last() =~= v@.take(n - 1));
        file_name_range(v, n - 1)
    } else if n >= 2 && v[n - 1] == '.' && v[n - 2] == '/' {
        assert(s.subrange(0, s.len() - 2) =~= v@.take(n - 2));
        file_name_range(v, n - 2)
    } else {
        let k = last_segment_start(v, n);
        let ghost seg = v@.subrange(k as int, n as int);
        let len = n - k;
        if (len == 1 && v[k] == '.') || (len == 2 && v[k] == '.' && v[k + 1] == '.') {
            assert(len == 1 ==> seg =~= seq!['.']);
            assert(len == 2 ==> seg =~= seq!['.', '.']);
            None
        } else {
            assert(seg.len() == 1 ==> (seg == seq!['.'] <==> seg[0] == '.'));
            assert(seg.len() == 2 ==> (seg == seq!['.', '.'] <==> (seg[0] == '.' && seg[1] == '.')));
            Some((k, n))
        }
    }
}

/// The final component of the path `p` (see `file_name`).
pub fn path_file_name(p: &str) -> (r: Option<String>)
    ensures
        r is None <==> file_name(p@) is None,
        r matches Some(name) ==> file_name(p@) == Some(name@),
{
    let v = to_chars(p);
    assert(v@.take(v.len() as int) =~= p@);
    match file_name_range(&v, v.len()) {
        None => None,
        Some((a, b)) => Some(string_from_range(&v, a, b)),
    }
}

/// The shape every absolute path has on every platform: it starts with a
/// separator (a slash, or a backslash on Windows), or it names a drive or a
/// scheme with `:`.
pub open spec fn absolute_shape(p: Seq<char>) -> bool {
    p.len() > 0 && (p[0] == '/' || p[0] == '\\' || p.contains(':'))
}

/// Joining onto a directory keeps its absolute shape.
pub proof fn lemma_join_keeps_absolute_shape(base: Seq<char>, rel: Seq<char>)
    requires
        absolute_shape(base),
    ensures
        absolute_shape(join_path(base, rel)),
{
    let p = join_path(base, rel);
    assert(p[0] == base[0]);
    if base.contains(':') {
        let k = choose|k: int| 0 <= k < base.len() && base[k] == ':';
        assert(p[k] == ':');
    }
}

/// Whether `p` is an absolute path on this platform (`Path::is_absolute`).
/// An absolute path has the absolute shape; which paths of that shape are
/// absolute depends on the target platform, and that rule is left unstated.
#[verifier::external_body]
pub(crate) fn path_is_absolute(p: &str) -> (b: bool)
    ensures
        b ==> absolute_shape(p@),
{
    std::path::Path::new(p).is_absolute()
}

} // verus!
