//! String helpers shared by the resolver and the stage pipelines.
//!
//! All functions carry exact contracts over `Seq<char>` views, so that the
//! state machines built on top of them can state their transitions precisely.

use vstd::prelude::*;

verus! {

/// The views of a sequence of strings.
pub open spec fn seq_views(v: Seq<String>) -> Seq<Seq<char>> {
    v.map(|i: int, s: String| s@)
}

pub proof fn lemma_seq_views_push(v: Seq<String>, s: String)
    ensures
        seq_views(v.push(s)) == seq_views(v).push(s@),
{
    assert(seq_views(v.push(s)) =~= seq_views(v).push(s@));
}

/// Whether `a` ends with `b`.
pub open spec fn ends_with(a: Seq<char>, b: Seq<char>) -> bool {
    b.len() <= a.len() && a.skip(a.len() - b.len()) == b
}

/// `name` with `suffix` appended, unless it already carries it.
pub open spec fn with_suffix(name: Seq<char>, suffix: Seq<char>) -> Seq<char> {
    if ends_with(name, suffix) {
        name
    } else {
        name + suffix
    }
}

/// Appending a suffix is idempotent: a name that already carries the
/// suffix is never given a second copy.
pub proof fn lemma_with_suffix_idempotent(name: Seq<char>, suffix: Seq<char>)
    ensures
        with_suffix(with_suffix(name, suffix), suffix) == with_suffix(name, suffix),
{
    if !ends_with(name, suffix) {
        assert((name + suffix).skip((name + suffix).len() - suffix.len()) =~= suffix);
    }
}

/// Whether `a` and `b` are the same string.
pub fn str_eq(a: &str, b: &str) -> (r: bool)
    ensures
        r == (a@ == b@),
{
    let a_len: usize = a.unicode_len();
    let b_len: usize = b.unicode_len();
    if a_len != b_len {
        assert(a@ != b@) by {
            assert(a@.len() != b@.len());
        }
        return false;
    }
    let mut i: usize = 0;
    while i < a_len
        invariant
            i <= a_len,
            a_len == a@.len(),
            b_len == b@.len(),
            a_len == b_len,
            forall|j: int| 0 <= j < i ==> a@[j] == b@[j],
        decreases a_len - i,
    {
        if a.get_char(i) != b.get_char(i) {
            assert(a@ != b@);
            return false;
        }
        i = i + 1;
    }
    assert(a@ =~= b@);
    true
}

/// Whether `a` ends with `b`.
pub fn str_ends_with(a: &str, b: &str) -> (r: bool)
    ensures
        r == ends_with(a@, b@),
{
    let a_len: usize = a.unicode_len();
    let b_len: usize = b.unicode_len();
    if b_len > a_len {
        return false;
    }
    let off: usize = a_len - b_len;
    let mut i: usize = 0;
    while i < b_len
        invariant
            i <= b_len,
            a_len == a@.len(),
            b_len == b@.len(),
            off == a_len - b_len,
            forall|j: int| 0 <= j < i ==> a@[off + j] == b@[j],
        decreases b_len - i,
    {
        if a.get_char(off + i) != b.get_char(i) {
            assert(a@.skip(a@.len() - b@.len())[i as int] != b@[i as int]);
            return false;
        }
        i = i + 1;
    }
    assert(a@.skip(a@.len() - b@.len()) =~= b@);
    true
}

/// `name` with `suffix` appended exactly once.
pub fn ensure_suffix(name: &str, suffix: &str) -> (r: String)
    ensures
        r@ == with_suffix(name@, suffix@),
{
    if str_ends_with(name, suffix) {
        name.to_owned()
    } else {
        String::from_str(name).concat(suffix)
    }
}

/// The final path component of `p`: everything after the last `/`,
/// or all of `p` when it holds no `/`.
pub open spec fn basename(p: Seq<char>) -> Seq<char>
    decreases p.len(),
{
    if p.len() == 0 {
        p
    } else if p.last() == '/' {
        Seq::empty()
    } else {
        basename(p.drop_last()).push(p.last())
    }
}

/// A string without `/` is its own basename.
pub proof fn lemma_basename_no_slash(p: Seq<char>)
    requires
        forall|j: int| 0 <= j < p.len() ==> p[j] != '/',
    ensures
        basename(p) == p,
    decreases p.len(),
{
    if p.len() > 0 {
        lemma_basename_no_slash(p.drop_last());
        assert(basename(p.drop_last()).push(p.last()) =~= p);
    }
}

/// The basename is everything after the last `/`.
pub proof fn lemma_basename_after_slash(p: Seq<char>, k: int)
    requires
        0 <= k < p.len(),
        p[k] == '/',
        forall|j: int| k < j < p.len() ==> p[j] != '/',
    ensures
        basename(p) == p.skip(k + 1),
    decreases p.len(),
{
    if k == p.len() - 1 {
        assert(basename(p) =~= p.skip(k + 1));
    } else {
        lemma_basename_after_slash(p.drop_last(), k);
        assert(basename(p.drop_last()).push(p.last()) =~= p.skip(k + 1));
    }
}

/// The final path component of `p`.
pub fn basename_of(p: &str) -> (r: String)
    ensures
        r@ == basename(p@),
{
    let len: usize = p.unicode_len();
    let mut i: usize = len;
    while i > 0
        invariant
            i <= len,
            len == p@.len(),
            forall|j: int| i <= j < len ==> p@[j] != '/',
        decreases i,
    {
        if p.get_char(i - 1) == '/' {
            let r = p.substring_char(i, len);
            proof {
                lemma_basename_after_slash(p@, i - 1);
            }
            return String::from_str(r);
        }
        i = i - 1;
    }
    proof {
        lemma_basename_no_slash(p@);
    }
    String::from_str(p)
}

/// The segments of `s` between occurrences of the separator `c`.
/// Splitting never yields an empty list: a string without the separator
/// is one segment, possibly empty.
pub open spec fn split_on(s: Seq<char>, c: char) -> Seq<Seq<char>>
    decreases s.len(),
{
    if s.len() == 0 {
        seq![s]
    } else if s[0] == c {
        seq![Seq::<char>::empty()] + split_on(s.drop_first(), c)
    } else {
        let rest = split_on(s.drop_first(), c);
        seq![seq![s[0]] + rest[0]] + rest.drop_first()
    }
}

pub proof fn lemma_split_on_len(s: Seq<char>, c: char)
    ensures
        split_on(s, c).len() >= 1,
    decreases s.len(),
{
    if s.len() != 0 {
        lemma_split_on_len(s.drop_first(), c)
    }
}

/// Splitting a separator-free string yields that string alone.
pub proof fn lemma_split_on_no_sep(s: Seq<char>, c: char)
    requires
        forall|j: int| 0 <= j < s.len() ==> s[j] != c,
    ensures
        split_on(s, c) == seq![s],
    decreases s.len(),
{
    if s.len() != 0 {
        lemma_split_on_no_sep(s.drop_first(), c);
        assert(seq![s[0]] + seq![s.drop_first()][0] =~= s);
        assert(seq![seq![s[0]] + s.drop_first()] + seq![s.drop_first()].drop_first() =~= seq![s]);
    }
}

/// Splitting at the first separator: head segment, then the split tail.
pub proof fn lemma_split_on_first_sep(s: Seq<char>, c: char, k: int)
    requires
        0 <= k < s.len(),
        s[k] == c,
        forall|j: int| 0 <= j < k ==> s[j] != c,
    ensures
        split_on(s, c) == seq![s.take(k)] + split_on(s.skip(k + 1), c),
    decreases s.len(),
{
    if k == 0 {
        assert(s.drop_first() =~= s.skip(1));
        assert(s.take(0) =~= Seq::<char>::empty());
    } else {
        lemma_split_on_first_sep(s.drop_first(), c, k - 1);
        lemma_split_on_len(s.skip(k + 1), c);
        assert(s.drop_first().take(k - 1) =~= s.take(k).drop_first());
        assert(s.drop_first().skip(k) =~= s.skip(k + 1));
        let rest = split_on(s.drop_first(), c);
        assert(rest[0] == s.take(k).drop_first());
        assert(seq![s[0]] + s.take(k).drop_first() =~= s.take(k));
        assert(seq![seq![s[0]] + rest[0]] + rest.drop_first() =~= seq![s.take(k)] + split_on(
            s.skip(k + 1),
            c,
        ));
    }
}

/// Splits `s` on the character `c`.
pub fn split_str_on(s: &str, c: char) -> (r: Vec<String>)
    ensures
        seq_views(r@) == split_on(s@, c),
        r@.len() >= 1,
    decreases s@.len(),
{
    let len: usize = s.unicode_len();
    let mut i: usize = 0;
    while i < len
        invariant
            i <= len,
            len == s@.len(),
            forall|j: int| 0 <= j < i ==> s@[j] != c,
        decreases len - i,
    {
        if s.get_char(i) == c {
            let head = s.substring_char(0, i);
            let tail = s.substring_char(i + 1, len);
            proof {
                lemma_split_on_first_sep(s@, c, i as int);
                assert(s@.take(i as int) == head@);
                assert(s@.skip(i as int + 1) == tail@);
            }
            let mut r = split_str_on(tail, c);
            let mut out: Vec<String> = Vec::new();
            let head_owned = String::from_str(head);
            out.push(head_owned);
            proof {
                assert(seq_views(out@) =~= seq![head@]);
            }
            let mut k: usize = 0;
            let r_len: usize = r.len();
            while k < r_len
                invariant
                    k <= r_len,
                    r_len == r@.len(),
                    seq_views(r@) == split_on(tail@, c),
                    out@.len() == k + 1,
                    seq_views(out@) =~= seq![head@] + seq_views(r@).take(k as int),
                decreases r_len - k,
            {
                let ghost prev = out@;
                let piece = r[k].clone();
                let ghost piece_view = piece@;
                assert(piece_view == seq_views(r@)[k as int]);
                out.push(piece);
                proof {
                    lemma_seq_views_push(prev, out@[k as int + 1]);
                    assert(seq_views(prev).push(piece_view) =~= seq![head@] + seq_views(r@).take(
                        k as int + 1,
                    ));
                }
                k = k + 1;
            }
            proof {
                assert(seq_views(r@).take(r@.len() as int) =~= seq_views(r@));
                assert(seq_views(out@) =~= seq![head@] + split_on(tail@, c));
            }
            return out;
        }
        i = i + 1;
    }
    proof {
        lemma_split_on_no_sep(s@, c);
    }
    let mut out: Vec<String> = Vec::new();
    out.push(s.to_owned());
    proof {
        assert(seq_views(out@) =~= seq![s@]);
    }
    out
}

/// The parts joined with `sep` between neighbours.
pub open spec fn joined(parts: Seq<Seq<char>>, sep: Seq<char>) -> Seq<char>
    decreases parts.len(),
{
    if parts.len() == 0 {
        Seq::empty()
    } else if parts.len() == 1 {
        parts[0]
    } else {
        parts[0] + sep + joined(parts.drop_first(), sep)
    }
}

pub proof fn lemma_joined_push(parts: Seq<Seq<char>>, sep: Seq<char>, x: Seq<char>)
    ensures
        parts.len() == 0 ==> joined(parts.push(x), sep) == x,
        parts.len() > 0 ==> joined(parts.push(x), sep) == joined(parts, sep) + sep + x,
    decreases parts.len(),
{
    if parts.len() == 0 {
        assert(parts.push(x)[0] == x);
    } else if parts.len() == 1 {
        assert(parts.push(x).drop_first() =~= seq![x]);
        assert(joined(seq![x], sep) == x);
        assert(joined(parts.push(x), sep) == parts[0] + sep + x);
    } else {
        lemma_joined_push(parts.drop_first(), sep, x);
        assert(parts.push(x).drop_first() =~= parts.drop_first().push(x));
        assert(joined(parts, sep) + sep + x =~= parts[0] + sep + (joined(
            parts.drop_first(),
            sep,
        ) + sep + x));
    }
}

/// Joins the parts with single spaces, as the diagnostic line does.
pub fn join_spaced(parts: &Vec<String>) -> (r: String)
    ensures
        r@ == joined(seq_views(parts@), " "@),
{
    let mut r = String::new();
    let len: usize = parts.len();
    let mut i: usize = 0;
    while i < len
        invariant
            i <= len,
            len == parts@.len(),
            r@ == joined(seq_views(parts@).take(i as int), " "@),
        decreases len - i,
    {
        let ghost prefix = seq_views(parts@).take(i as int);
        if i > 0 {
            r.append(" ");
        }
        r.append(parts[i].as_str());
        proof {
            lemma_joined_push(prefix, " "@, parts@[i as int]@);
            assert(seq_views(parts@).take(i as int + 1) =~= prefix.push(parts@[i as int]@));
            if i == 0 {
                assert(r@ =~= joined(seq_views(parts@).take(1), " "@));
            }
        }
        i = i + 1;
    }
    proof {
        assert(seq_views(parts@).take(len as int) =~= seq_views(parts@));
    }
    r
}

} // verus!
