//! The paths of a request: the target as a root-filesystem path, and its
//! mirror under the bind root.
use vstd::prelude::*;

use crate::text::chars_of;

verus! {

/// `s` without its trailing slashes.
pub open spec fn trim_slashes(s: Seq<char>) -> Seq<char>
    decreases s.len(),
{
    if s.len() > 0 && s.last() == '/' {
        trim_slashes(s.drop_last())
    } else {
        s
    }
}

/// `s` without its leading slashes.
pub open spec fn strip_leading_slashes(s: Seq<char>) -> Seq<char>
    decreases s.len(),
{
    if s.len() > 0 && s[0] == '/' {
        strip_leading_slashes(s.drop_first())
    } else {
        s
    }
}

/// `base` joined with the relative path `rel`, with one separator between
/// them unless `base` is empty or already ends with one.
pub open spec fn join(base: Seq<char>, rel: Seq<char>) -> Seq<char> {
    if base.len() == 0 || base.last() == '/' {
        base + rel
    } else {
        base + seq!['/'] + rel
    }
}

/// The target as a path on the root filesystem: `/` joined with it.
pub open spec fn root_of(target: Seq<char>) -> Seq<char> {
    if target.len() > 0 && target[0] == '/' {
        target
    } else {
        seq!['/'] + target
    }
}

/// The mirror of `root` under `bind_root`.
pub open spec fn bind_of(bind_root: Seq<char>, root: Seq<char>) -> Seq<char> {
    join(bind_root, strip_leading_slashes(root))
}

/// The index of the last slash of `s`, or -1.
pub open spec fn last_slash(s: Seq<char>) -> int
    decreases s.len(),
{
    if s.len() == 0 {
        -1
    } else if s.last() == '/' {
        s.len() - 1
    } else {
        last_slash(s.drop_last())
    }
}

/// The directory that holds `p`: what precedes its last name, without trailing
/// slashes; `/` for a name right under the root, empty for a bare name.
pub open spec fn parent_of(p: Seq<char>) -> Seq<char> {
    let q = trim_slashes(p);
    let k = last_slash(q);
    if k < 0 {
        seq![]
    } else if trim_slashes(q.subrange(0, k)).len() == 0 {
        seq!['/']
    } else {
        trim_slashes(q.subrange(0, k))
    }
}

/// The length of `s[..n]` without its trailing slashes.
fn trimmed_len(v: &Vec<char>, n: usize) -> (r: usize)
    requires
        n <= v@.len(),
    ensures
        r <= n,
        v@.subrange(0, r as int) == trim_slashes(v@.subrange(0, n as int)),
{
    let mut k = n;
    while k > 0 && v[k - 1] == '/'
        invariant
            k <= n <= v@.len(),
            trim_slashes(v@.subrange(0, k as int)) == trim_slashes(v@.subrange(0, n as int)),
        decreases k,
    {
        assert(v@.subrange(0, k as int).drop_last() == v@.subrange(0, k - 1));
        k = k - 1;
    }
    k
}

/// `s` without its trailing slashes.
pub fn trim_trailing_slashes(s: &str) -> (r: String)
    ensures
        r@ == trim_slashes(s@),
{
    let v = chars_of(s);
    let k = trimmed_len(&v, v.len());
    assert(v@.subrange(0, v@.len() as int) == v@);
    s.substring_char(0, k).to_string()
}

/// The target as a path on the root filesystem.
pub fn root_mountpoint(target: &str) -> (r: String)
    ensures
        r@ == root_of(target@),
{
    if target.unicode_len() > 0 && target.get_char(0) == '/' {
        target.to_string()
    } else {
        let r = String::from_str("/").concat(target);
        proof {
            reveal_strlit("/");
        }
        r
    }
}

/// The mirror of `root` under `bind_root`: the source of the bind mount.
pub fn bind_mountpoint(bind_root: &str, root: &str) -> (r: String)
    ensures
        r@ == bind_of(bind_root@, root@),
{
    let n = root.unicode_len();
    let mut i: usize = 0;
    assert(root@.subrange(0, n as int) == root@);
    while i < n && root.get_char(i) == '/'
        invariant
            n == root@.len(),
            i <= n,
            strip_leading_slashes(root@.subrange(i as int, n as int)) == strip_leading_slashes(
                root@,
            ),
        decreases n - i,
    {
        assert(root@.subrange(i as int, n as int).drop_first() == root@.subrange(i + 1, n as int));
        i = i + 1;
    }
    assert(root@.subrange(0, n as int) == root@);
    let rel = root.substring_char(i, n);
    let m = bind_root.unicode_len();
    proof {
        reveal_strlit("/");
    }
    if m == 0 || bind_root.get_char(m - 1) == '/' {
        String::from_str(bind_root).concat(rel)
    } else {
        String::from_str(bind_root).concat("/").concat(rel)
    }
}

/// The directory that holds `p`.
pub fn parent(p: &str) -> (r: String)
    ensures
        r@ == parent_of(p@),
{
    let v = chars_of(p);
    let n = trimmed_len(&v, v.len());
    assert(v@.subrange(0, v@.len() as int) == v@);
    let ghost q = v@.subrange(0, n as int);
    let mut k = n;
    while k > 0 && v[k - 1] != '/'
        invariant
            k <= n <= v@.len(),
            q == v@.subrange(0, n as int),
            last_slash(v@.subrange(0, k as int)) == last_slash(q),
        decreases k,
    {
        assert(v@.subrange(0, k as int).drop_last() == v@.subrange(0, k - 1));
        k = k - 1;
    }
    proof {
        reveal_strlit("/");
    }
    if k == 0 {
        assert(last_slash(v@.subrange(0, 0)) == -1);
        String::new()
    } else {
        let ghost s = k - 1;
        assert(last_slash(v@.subrange(0, k as int)) == s);
        assert(q.subrange(0, s as int) == v@.subrange(0, k - 1));
        let t = trimmed_len(&v, k - 1);
        if t == 0 {
            String::from_str("/")
        } else {
            p.substring_char(0, t).to_string()
        }
    }
}

} // verus!
