use vstd::prelude::*;

verus! {

// Paths are modelled as sequences of characters with `/` as the
// platform-neutral segment separator.  A watch root is acceptable when it is
// absolute and carries no trailing separator; a relative path is *plain* when
// it consists of `/`-separated, nonempty segments none of which is `.` or
// `..`.  Events under the root then carry exactly `root + "/" + suffix` for a
// plain suffix, and that suffix is the relative sync request.

/// `i` is the first character of a segment of `s`.
pub open spec fn seg_start(s: Seq<char>, i: int) -> bool {
    i == 0 || s[i - 1] == '/'
}

/// Position `i` of `s` witnesses a defect that disqualifies `s` as a plain
/// relative path: a leading, trailing or doubled separator, or a `.` or `..`
/// segment.
pub open spec fn defect_at(s: Seq<char>, i: int) -> bool {
    ||| (s[i] == '/' && (i == 0 || i + 1 == s.len() || s[i + 1] == '/'))
    ||| (s[i] == '.' && seg_start(s, i) && (i + 1 == s.len() || s[i + 1] == '/'))
    ||| (s[i] == '.' && seg_start(s, i) && i + 1 < s.len() && s[i + 1] == '.' && (i + 2
        == s.len() || s[i + 2] == '/'))
}

/// A nonempty relative path made of plain segments.
pub open spec fn plain_rel(s: Seq<char>) -> bool {
    &&& s.len() > 0
    &&& forall|i: int| 0 <= i < s.len() ==> !defect_at(s, i)
}

/// An absolute directory path acceptable as a watch root: starts with the
/// separator and does not end with one.
pub open spec fn valid_root(r: Seq<char>) -> bool {
    &&& r.len() > 0
    &&& r[0] == '/'
    &&& r[r.len() - 1] != '/'
}

/// The path of `p` expressed relative to `root`: everything after
/// `root + "/"`.
pub open spec fn rel_suffix(root: Seq<char>, p: Seq<char>) -> Seq<char> {
    p.subrange(root.len() as int + 1, p.len() as int)
}

/// `p` lies strictly under `root`: it extends `root` by a separator and a
/// plain relative suffix.
pub open spec fn is_strictly_under(root: Seq<char>, p: Seq<char>) -> bool {
    &&& valid_root(root)
    &&& p.len() > root.len() + 1
    &&& p.subrange(0, root.len() as int) == root
    &&& p[root.len() as int] == '/'
    &&& plain_rel(rel_suffix(root, p))
}

/// `root` and a relative path, joined by the segment separator.
pub open spec fn join(root: Seq<char>, rel: Seq<char>) -> Seq<char> {
    root + seq!['/'] + rel
}

/// The characters of `s`, one by one.
fn chars_of(s: &str) -> (v: Vec<char>)
    ensures
        v@ == s@,
{
    let n = s.unicode_len();
    let mut v: Vec<char> = Vec::new();
    let mut i: usize = 0;
    while i < n
        invariant
            i <= n,
            n == s@.len(),
            v@ =~= s@.subrange(0, i as int),
        decreases n - i,
    {
        v.push(s.get_char(i));
        i += 1;
    }
    proof {
        assert(v@ =~= s@);
    }
    v
}

/// Whether `v` is a plain relative path.
fn plain_rel_check(v: &Vec<char>) -> (b: bool)
    ensures
        b == plain_rel(v@),
{
    let n = v.len();
    if n == 0 {
        return false;
    }
    let mut i: usize = 0;
    while i < n
        invariant
            i <= n,
            n == v@.len(),
            forall|j: int| 0 <= j < i ==> !defect_at(v@, j),
        decreases n - i,
    {
        let c = v[i];
        if c == '/' {
            if i == 0 || i + 1 == n {
                proof {
                    assert(defect_at(v@, i as int));
                }
                return false;
            }
            if v[i + 1] == '/' {
                proof {
                    assert(defect_at(v@, i as int));
                }
                return false;
            }
        }
        if c == '.' {
            let at_start = i == 0 || v[i - 1] == '/';
            if at_start {
                if i + 1 == n || v[i + 1] == '/' {
                    proof {
                        assert(defect_at(v@, i as int));
                    }
                    return false;
                }
                if v[i + 1] == '.' {
                    if i + 2 == n || v[i + 2] == '/' {
                        proof {
                            assert(defect_at(v@, i as int));
                        }
                        return false;
                    }
                }
            }
        }
        proof {
            assert(!defect_at(v@, i as int));
        }
        i += 1;
    }
    true
}

/// Whether `p` lies strictly under `root`.
pub fn is_under(root: &str, p: &str) -> (b: bool)
    ensures
        b == is_strictly_under(root@, p@),
{
    let rv = chars_of(root);
    let pv = chars_of(p);
    let rlen = rv.len();
    let plen = pv.len();
    if rlen == 0 {
        return false;
    }
    if rv[0] != '/' {
        return false;
    }
    if rv[rlen - 1] == '/' {
        return false;
    }
    if plen <= rlen || plen - rlen < 2 {
        return false;
    }
    let mut i: usize = 0;
    while i < rlen
        invariant
            i <= rlen,
            rlen == rv@.len(),
            rlen < pv@.len(),
            pv@ == p@,
            rv@ == root@,
            forall|j: int| 0 <= j < i ==> pv@[j] == rv@[j],
        decreases rlen - i,
    {
        if pv[i] != rv[i] {
            proof {
                let s = pv@.subrange(0, rlen as int);
                assert(s[i as int] == pv@[i as int]);
                assert(s != rv@);
            }
            return false;
        }
        i += 1;
    }
    proof {
        assert(pv@.subrange(0, rlen as int) =~= rv@);
    }
    if pv[rlen] != '/' {
        return false;
    }
    let mut sv: Vec<char> = Vec::new();
    let mut k: usize = 0;
    let slen = plen - rlen - 1;
    while k < slen
        invariant
            k <= slen,
            rlen + 1 + slen == plen,
            plen == pv@.len(),
            sv@ =~= pv@.subrange(rlen + 1, rlen + 1 + k),
        decreases slen - k,
    {
        sv.push(pv[rlen + 1 + k]);
        k += 1;
    }
    proof {
        assert(sv@ =~= rel_suffix(rv@, pv@));
    }
    plain_rel_check(&sv)
}

/// Relies on pathdiff::diff_paths: when `path` extends the absolute `base`
/// by a separator and a plain relative suffix, the component walk consumes
/// exactly the components of `base` and returns the remaining segments
/// rejoined, which is that suffix verbatim.
#[verifier::external_body]
fn diff_paths_under(path: &str, base: &str) -> (r: Option<String>)
    ensures
        is_strictly_under(base@, path@) ==> r is Some,
        is_strictly_under(base@, path@) && r is Some ==> r.unwrap()@ == rel_suffix(base@, path@),
{
    pathdiff::diff_paths(path, base).and_then(|d| d.into_os_string().into_string().ok())
}

/// Expresses `p` relative to `root`, or reports the contract violation.
///
/// A path strictly under the root is translated to its suffix; any other
/// path is the watch mechanism handing us an event we cannot place, and the
/// caller must treat the `None` as fatal rather than mirror to a wrong
/// location.
pub fn relativize(root: &str, p: &str) -> (r: Option<String>)
    ensures
        is_strictly_under(root@, p@) ==> (r matches Some(rel) && rel@ == rel_suffix(root@, p@)),
        !is_strictly_under(root@, p@) ==> r is None,
{
    if is_under(root, p) {
        diff_paths_under(p, root)
    } else {
        None
    }
}

/// Law: for every path strictly under the root, joining the root back onto
/// the relative suffix restores the original path unchanged.  Since a
/// strictly-under path is already in plain segment form, it is its own
/// normal form, so the translation loses nothing.
pub proof fn lemma_relativize_roundtrip(root: Seq<char>, p: Seq<char>)
    requires
        is_strictly_under(root, p),
    ensures
        join(root, rel_suffix(root, p)) == p,
{
    let j = join(root, rel_suffix(root, p));
    assert forall|i: int| 0 <= i < j.len() implies j[i] == p[i] by {
        if i < root.len() {
            assert(p.subrange(0, root.len() as int)[i] == p[i]);
        }
    }
    assert(j =~= p);
}

} // verus!
