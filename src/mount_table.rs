//! Reading the kernel's mount table: one mount per line, fields separated by
//! whitespace, the second field being the mount destination.
use vstd::prelude::*;

use crate::error::Error;
use crate::text::{chars_of, range_eq};

verus! {

/// Unicode `White_Space`, the separator of mount-table fields.
pub open spec fn is_space(c: char) -> bool {
    let u = c as u32;
    (0x09 <= u <= 0x0D) || u == 0x20 || u == 0x85 || u == 0xA0 || u == 0x1680 || (0x2000 <= u
        <= 0x200A) || u == 0x2028 || u == 0x2029 || u == 0x202F || u == 0x205F || u == 0x3000
}

/// Whether `c` separates fields of a mount-table line.
pub fn is_space_char(c: char) -> (r: bool)
    ensures
        r == is_space(c),
{
    let u = c as u32;
    (0x09 <= u && u <= 0x0D) || u == 0x20 || u == 0x85 || u == 0xA0 || u == 0x1680 || (0x2000 <= u
        && u <= 0x200A) || u == 0x2028 || u == 0x2029 || u == 0x202F || u == 0x205F || u == 0x3000
}

/// The whitespace-separated fields of a line, in order.
pub open spec fn fields(l: Seq<char>) -> Seq<Seq<char>>
    decreases l.len(),
{
    if l.len() == 0 {
        seq![]
    } else {
        let fs = fields(l.drop_last());
        let c = l.last();
        if is_space(c) {
            fs
        } else if l.len() >= 2 && !is_space(l[l.len() - 2]) {
            fs.update(fs.len() - 1, fs.last().push(c))
        } else {
            fs.push(seq![c])
        }
    }
}

/// The pieces of a text between newline characters (a final empty piece included).
pub open spec fn pieces(s: Seq<char>) -> Seq<Seq<char>>
    decreases s.len(),
{
    if s.len() == 0 {
        seq![seq![]]
    } else {
        let ps = pieces(s.drop_last());
        if s.last() == '\n' {
            ps.push(seq![])
        } else {
            ps.update(ps.len() - 1, ps.last().push(s.last()))
        }
    }
}

/// The lines of a text: its pieces, without the empty one after a final newline.
pub open spec fn lines(s: Seq<char>) -> Seq<Seq<char>> {
    let ps = pieces(s);
    if ps.last().len() == 0 {
        ps.drop_last()
    } else {
        ps
    }
}

/// What one line says of `path`: malformed (the line), a match, or no match.
pub open spec fn line_verdict(l: Seq<char>, path: Seq<char>) -> Result<bool, Seq<char>> {
    if fields(l).len() < 2 {
        Err(l)
    } else {
        Ok(fields(l)[1] == path)
    }
}

/// The verdict of the first line that is malformed or names `path` as its
/// destination; `Ok(false)` when there is none.
pub open spec fn table_verdict(ls: Seq<Seq<char>>, path: Seq<char>) -> Result<bool, Seq<char>>
    decreases ls.len(),
{
    if ls.len() == 0 {
        Ok(false)
    } else {
        let before = table_verdict(ls.drop_last(), path);
        if before == Ok::<bool, Seq<char>>(false) {
            line_verdict(ls.last(), path)
        } else {
            before
        }
    }
}

/// Whether the mount table `table` lists `path` as a mount destination.
pub open spec fn mounted_in(table: Seq<char>, path: Seq<char>) -> Result<bool, Seq<char>> {
    table_verdict(lines(table), path)
}

proof fn lemma_pieces_nonempty(s: Seq<char>)
    ensures
        pieces(s).len() >= 1,
    decreases s.len(),
{
    if s.len() > 0 {
        lemma_pieces_nonempty(s.drop_last());
    }
}

proof fn lemma_pieces_prefix(s: Seq<char>, i: int, j: int)
    requires
        0 <= i <= j <= s.len(),
    ensures
        pieces(s.subrange(0, i)).len() <= pieces(s.subrange(0, j)).len(),
        forall|k: int|
            0 <= k < pieces(s.subrange(0, i)).len() - 1 ==> #[trigger] pieces(s.subrange(0, j))[k]
                == pieces(s.subrange(0, i))[k],
    decreases j - i,
{
    if i < j {
        lemma_pieces_prefix(s, i, j - 1);
        let t = s.subrange(0, j);
        assert(t.drop_last() == s.subrange(0, j - 1));
        lemma_pieces_nonempty(t.drop_last());
    }
}

proof fn lemma_verdict_of_prefix(ls: Seq<Seq<char>>, k: int, path: Seq<char>)
    requires
        0 <= k <= ls.len(),
        table_verdict(ls.subrange(0, k), path) != Ok::<bool, Seq<char>>(false),
    ensures
        table_verdict(ls, path) == table_verdict(ls.subrange(0, k), path),
    decreases ls.len(),
{
    if k == ls.len() {
        assert(ls.subrange(0, k) == ls);
    } else {
        assert(ls.drop_last().subrange(0, k) == ls.subrange(0, k));
        lemma_verdict_of_prefix(ls.drop_last(), k, path);
    }
}

/// Once the lines up to a newline decide the lookup, the whole table does too.
proof fn lemma_verdict_prefix(table: Seq<char>, i: int, path: Seq<char>)
    requires
        0 <= i < table.len(),
        table[i] == '\n',
        table_verdict(pieces(table.subrange(0, i)), path) != Ok::<bool, Seq<char>>(false),
    ensures
        mounted_in(table, path) == table_verdict(pieces(table.subrange(0, i)), path),
{
    let pre = table.subrange(0, i);
    let post = table.subrange(0, i + 1);
    assert(post.drop_last() == pre);
    lemma_pieces_nonempty(pre);
    lemma_pieces_prefix(table, i + 1, table.len() as int);
    assert(table.subrange(0, table.len() as int) == table);
    let ps = pieces(table);
    let l = pieces(pre).len();
    assert(lines(table).subrange(0, l as int) =~= pieces(pre));
    lemma_verdict_of_prefix(lines(table), l as int, path);
}

/// The bounds of the second field of the line `v[lo..hi]`, if it has one.
fn second_field(v: &Vec<char>, lo: usize, hi: usize) -> (r: Option<(usize, usize)>)
    requires
        lo <= hi <= v@.len(),
    ensures
        match r {
            None => fields(v@.subrange(lo as int, hi as int)).len() < 2,
            Some((a, b)) => {
                &&& fields(v@.subrange(lo as int, hi as int)).len() >= 2
                &&& lo <= a <= b <= hi
                &&& fields(v@.subrange(lo as int, hi as int))[1] == v@.subrange(a as int, b as int)
            },
        },
{
    let mut count: usize = 0;
    let mut in_word = false;
    let mut a: usize = lo;
    let mut b: usize = lo;
    let mut j: usize = lo;
    while j < hi
        invariant
            lo <= j <= hi <= v@.len(),
            count <= j - lo,
            fields(v@.subrange(lo as int, j as int)).len() == count,
            j == lo ==> !in_word,
            j > lo ==> in_word == !is_space(v@[j - 1]),
            in_word ==> count >= 1,
            count >= 2 ==> lo <= a <= b <= j && fields(v@.subrange(lo as int, j as int))[1]
                == v@.subrange(a as int, b as int),
            count == 2 && in_word ==> b == j,
        decreases hi - j,
    {
        let c = v[j];
        let ghost p = v@.subrange(lo as int, j as int);
        let ghost q = v@.subrange(lo as int, j + 1);
        assert(q.drop_last() == p);
        assert(q.last() == c);
        if is_space_char(c) {
            in_word = false;
        } else if in_word {
            assert(q.len() >= 2 && q[q.len() - 2] == v@[j - 1]);
            if count == 2 {
                assert(v@.subrange(a as int, j + 1) == v@.subrange(a as int, j as int).push(c));
                b = j + 1;
            }
        } else {
            assert(j > lo ==> q[q.len() - 2] == v@[j - 1]);
            count = count + 1;
            if count == 2 {
                a = j;
                b = j + 1;
                assert(v@.subrange(a as int, b as int) =~= seq![c]);
            }
            in_word = true;
        }
        j = j + 1;
    }
    if count >= 2 {
        Some((a, b))
    } else {
        None
    }
}

/// Whether the mount table `table` lists `path` as the destination of a mount.
/// Only an exact match of the whole second field counts. The lines are read in
/// order, and the first line with fewer than two fields ends the search with an
/// error, unless a match came before it.
pub fn is_path_mounted(table: &str, path: &str) -> (r: Result<bool, Error>)
    ensures
        match mounted_in(table@, path@) {
            Ok(b) => r == Ok::<bool, Error>(b),
            Err(l) => match r {
                Err(Error::Format(m)) => m@ == l,
                _ => false,
            },
        },
{
    let v = chars_of(table);
    let p = chars_of(path);
    let n = v.len();
    let mut start: usize = 0;
    let mut i: usize = 0;
    proof {
        assert(v@.subrange(0, 0) =~= Seq::<char>::empty());
    }
    while i < n
        invariant
            n == v@.len(),
            v@ == table@,
            p@ == path@,
            start <= i <= n,
            pieces(v@.subrange(0, i as int)).last() == v@.subrange(start as int, i as int),
            table_verdict(pieces(v@.subrange(0, i as int)).drop_last(), path@) == Ok::<
                bool,
                Seq<char>,
            >(false),
        decreases n - i,
    {
        let ghost pre = v@.subrange(0, i as int);
        let ghost post = v@.subrange(0, i + 1);
        proof {
            assert(post.drop_last() == pre);
            assert(post.last() == v@[i as int]);
            lemma_pieces_nonempty(pre);
        }
        if v[i] == '\n' {
            let ghost line = v@.subrange(start as int, i as int);
            assert(pieces(post).drop_last() == pieces(pre));
            assert(pieces(pre).drop_last() == pieces(post).drop_last().drop_last());
            match second_field(&v, start, i) {
                None => {
                    let m = table.substring_char(start, i).to_string();
                    assert(table_verdict(pieces(pre), path@) == Err::<bool, Seq<char>>(line));
                    proof { lemma_verdict_prefix(table@, i as int, path@); }
                    return Err(Error::Format(m));
                },
                Some((a, b)) => {
                    if range_eq(&v, a, b, &p) {
                        assert(table_verdict(pieces(pre), path@) == Ok::<bool, Seq<char>>(true));
                        proof { lemma_verdict_prefix(table@, i as int, path@); }
                        return Ok(true);
                    }
                },
            }
            assert(pieces(post).last() =~= v@.subrange(i + 1, i + 1));
            start = i + 1;
        } else {
            assert(pieces(post).last() =~= v@.subrange(start as int, i + 1));
            assert(pieces(post).drop_last() =~= pieces(pre).drop_last());
        }
        i = i + 1;
    }
    assert(v@.subrange(0, n as int) == v@);
    proof { lemma_pieces_nonempty(v@); }
    if start < n {
        match second_field(&v, start, n) {
            None => {
                let m = table.substring_char(start, n).to_string();
                return Err(Error::Format(m));
            },
            Some((a, b)) => {
                let found = range_eq(&v, a, b, &p);
                return Ok(found);
            },
        }
    }
    assert(pieces(v@).last().len() == 0);
    Ok(false)
}

} // verus!
