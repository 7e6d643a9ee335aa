//! Character-level string operations with exact specifications over the
//! `Seq<char>` view of `str` and `String`.

use vstd::prelude::*;

verus! {

/// `String::push`: the string afterwards is the old one with `c` appended.
#[verifier::external_body]
fn push_char(s: &mut String, c: char)
    ensures
        final(s)@ == old(s)@.push(c),
{
    s.push(c);
}

/// The characters of `s`, in order.
pub fn chars_of(s: &str) -> (v: Vec<char>)
    ensures
        v@ == s@,
{
    let mut v: Vec<char> = Vec::new();
    for c in it: s.chars()
        invariant
            it.seq() == s@,
            v@ == it.seq().take(it.index() as int),
    {
        v.push(c);
    }
    assert(s@.take(s@.len() as int) =~= s@);
    v
}

/// A `String` holding exactly the characters `cs`.
pub fn string_of(cs: &[char]) -> (r: String)
    ensures
        r@ == cs@,
{
    let mut r = String::new();
    let mut i: usize = 0;
    while i < cs.len()
        invariant
            i <= cs@.len(),
            r@ == cs@.take(i as int),
        decreases cs@.len() - i,
    {
        push_char(&mut r, cs[i]);
        i = i + 1;
        assert(r@ =~= cs@.take(i as int));
    }
    assert(cs@.take(cs@.len() as int) =~= cs@);
    r
}

/// Whether two string slices hold the same characters.
pub fn str_eq(a: &str, b: &str) -> (r: bool)
    ensures
        r == (a@ == b@),
{
    let x = chars_of(a);
    let y = chars_of(b);
    if x.len() != y.len() {
        return false;
    }
    let mut i: usize = 0;
    while i < x.len()
        invariant
            x@ == a@,
            y@ == b@,
            x@.len() == y@.len(),
            i <= x@.len(),
            forall|j: int| 0 <= j < i ==> x@[j] == y@[j],
        decreases x@.len() - i,
    {
        if x[i] != y[i] {
            return false;
        }
        i = i + 1;
    }
    assert(x@ =~= y@);
    true
}


/// The characters of an optional string.
pub open spec fn opt_view(o: Option<String>) -> Option<Seq<char>> {
    match o {
        Some(s) => Some(s@),
        None => None,
    }
}

/// The length in bytes of the UTF-8 encoding of `s`, as `str::len` reports it.
pub open spec fn byte_len(s: Seq<char>) -> usize {
    vstd::utf8::encode_utf8(s).len() as usize
}

/// `p` is a prefix of `s`.
pub open spec fn has_prefix(s: Seq<char>, p: Seq<char>) -> bool {
    p.len() <= s.len() && s.take(p.len() as int) == p
}

/// `p` is a suffix of `s`.
pub open spec fn has_suffix(s: Seq<char>, p: Seq<char>) -> bool {
    p.len() <= s.len() && s.skip(s.len() - p.len()) == p
}

/// `s` with every occurrence of the non-empty `from` replaced by `to`,
/// scanning from the left and never reusing the characters of a match.
pub open spec fn replaced(s: Seq<char>, from: Seq<char>, to: Seq<char>) -> Seq<char>
    recommends
        from.len() > 0,
    decreases s.len(),
{
    if s.len() == 0 {
        Seq::empty()
    } else if from.len() > 0 && has_prefix(s, from) {
        to + replaced(s.skip(from.len() as int), from, to)
    } else {
        seq![s[0]] + replaced(s.skip(1), from, to)
    }
}

/// Splitting `a`, a separator and `b`, where `a` holds no separator, gives
/// `a` and then the pieces of `b`.
pub proof fn lemma_split_n_first(a: Seq<char>, b: Seq<char>, n: nat, sep: char)
    requires
        n >= 2,
        !a.contains(sep),
    ensures
        split_n(a + seq![sep] + b, n, sep) == seq![a] + split_n(b, (n - 1) as nat, sep),
{
    let s = a + seq![sep] + b;
    assert forall|j: int| 0 <= j < a.len() implies s[j] != sep by {
        assert(s[j] == a[j]);
    }
    assert(s[a.len() as int] == sep);
    lemma_first_sep(s, sep, a.len() as int);
    assert(s.take(a.len() as int) =~= a);
    assert(s.skip(a.len() as int + 1) =~= b);
}

/// The pieces of `s` between occurrences of `sep`, at most `n` of them: the
/// last piece holds the rest of `s`, separators included.
pub open spec fn split_n(s: Seq<char>, n: nat, sep: char) -> Seq<Seq<char>>
    decreases n,
{
    if n == 0 {
        Seq::empty()
    } else if n == 1 || !s.contains(sep) {
        seq![s]
    } else {
        let i = s.index_of_first(sep)->Some_0;
        seq![s.take(i)] + split_n(s.skip(i + 1), (n - 1) as nat, sep)
    }
}

/// `split_n` with at least one piece allowed gives between one and `n`
/// pieces.
pub proof fn lemma_split_n_len(s: Seq<char>, n: nat, sep: char)
    requires
        n >= 1,
    ensures
        1 <= split_n(s, n, sep).len() <= n,
    decreases n,
{
    if n > 1 && s.contains(sep) {
        let i = s.index_of_first(sep)->Some_0;
        lemma_split_n_len(s.skip(i + 1), (n - 1) as nat, sep);
    }
}

/// Replacing a pattern that does not occur leaves the string as it is.
pub proof fn lemma_replaced_absent(s: Seq<char>, from: Seq<char>, to: Seq<char>)
    requires
        from.len() > 0,
        forall|i: int| 0 <= i < s.len() ==> !has_prefix(#[trigger] s.skip(i), from),
    ensures
        replaced(s, from, to) == s,
    decreases s.len(),
{
    if s.len() > 0 {
        assert(s.skip(0) =~= s);
        assert forall|i: int| 0 <= i < s.skip(1).len() implies !has_prefix(
            #[trigger] s.skip(1).skip(i),
            from,
        ) by {
            assert(s.skip(1).skip(i) =~= s.skip(i + 1));
        }
        lemma_replaced_absent(s.skip(1), from, to);
        assert(seq![s[0]] + s.skip(1) =~= s);
    }
}

/// `s` holds two dashes in a row.
pub open spec fn has_double_dash(s: Seq<char>) -> bool {
    exists|i: int| 0 <= i < s.len() - 1 && #[trigger] s[i] == '-' && s[i + 1] == '-'
}

/// Removing every `--` leaves no `--`; and the result begins with a dash
/// only where the string did.
pub proof fn lemma_no_double_dash_left(s: Seq<char>)
    ensures
        !has_double_dash(replaced(s, "--"@, Seq::empty())),
        replaced(s, "--"@, Seq::empty()).len() > 0 && replaced(s, "--"@, Seq::empty())[0] == '-'
            ==> s.len() > 0 && s[0] == '-',
    decreases s.len(),
{
    reveal_strlit("--");
    let dd = "--"@;
    let r = replaced(s, dd, Seq::empty());
    if s.len() > 0 {
        if has_prefix(s, dd) {
            lemma_no_double_dash_left(s.skip(2));
            assert(r =~= replaced(s.skip(2), dd, Seq::empty()));
            assert(s.take(2)[0] == s[0]);
        } else {
            let t = replaced(s.skip(1), dd, Seq::empty());
            lemma_no_double_dash_left(s.skip(1));
            assert(r =~= seq![s[0]] + t);
            if s[0] == '-' && t.len() > 0 && t[0] == '-' {
                assert(s.skip(1)[0] == s[1]);
                assert(s.take(2) =~= dd);
                assert(false);
            }
            assert forall|i: int| 0 <= i < r.len() - 1 implies !(#[trigger] r[i] == '-' && r[i + 1]
                == '-') by {
                if i > 0 {
                    assert(r[i] == t[i - 1]);
                    assert(r[i + 1] == t[i]);
                }
            }
        }
    }
}

/// Whether `p` occurs in `s` starting at position `i`.
fn occurs_at(s: &Vec<char>, i: usize, p: &Vec<char>) -> (r: bool)
    requires
        i <= s@.len(),
    ensures
        r == (p@.len() <= s@.len() - i && s@.subrange(i as int, i + p@.len()) == p@),
{
    if p.len() > s.len() - i {
        return false;
    }
    let mut j: usize = 0;
    while j < p.len()
        invariant
            i + p@.len() <= s@.len(),
            s@.len() == s.len(),
            j <= p@.len(),
            forall|k: int| 0 <= k < j ==> s@[i + k] == p@[k],
        decreases p@.len() - j,
    {
        if s[i + j] != p[j] {
            assert(s@.subrange(i as int, i + p@.len())[j as int] != p@[j as int]);
            return false;
        }
        j = j + 1;
    }
    assert(s@.subrange(i as int, i + p@.len()) =~= p@);
    true
}

/// Appends all of `cs` to `out`.
fn push_all(out: &mut Vec<char>, cs: &Vec<char>)
    ensures
        final(out)@ == old(out)@ + cs@,
{
    let mut i: usize = 0;
    while i < cs.len()
        invariant
            i <= cs@.len(),
            out@ == old(out)@ + cs@.take(i as int),
        decreases cs@.len() - i,
    {
        out.push(cs[i]);
        i = i + 1;
        assert(out@ =~= old(out)@ + cs@.take(i as int));
    }
    assert(cs@.take(cs@.len() as int) =~= cs@);
}

/// The characters of `s` from position `from` up to, not including, `to`.
fn slice_string(s: &Vec<char>, from: usize, to: usize) -> (r: String)
    requires
        from <= to <= s@.len(),
    ensures
        r@ == s@.subrange(from as int, to as int),
{
    let mut out: Vec<char> = Vec::new();
    let mut i: usize = from;
    while i < to
        invariant
            from <= i <= to <= s@.len(),
            out@ == s@.subrange(from as int, i as int),
        decreases to - i,
    {
        out.push(s[i]);
        i = i + 1;
        assert(out@ =~= s@.subrange(from as int, i as int));
    }
    string_of(out.as_slice())
}

/// Whether `s` begins with `p` (`str::starts_with`).
pub fn starts_with(s: &str, p: &str) -> (r: bool)
    ensures
        r == has_prefix(s@, p@),
{
    let x = chars_of(s);
    let y = chars_of(p);
    let r = occurs_at(&x, 0, &y);
    assert(r ==> s@.take(p@.len() as int) =~= s@.subrange(0, p@.len() as int));
    assert(has_prefix(s@, p@) ==> s@.take(p@.len() as int) =~= s@.subrange(0, p@.len() as int));
    r
}

/// Whether `s` ends with `p` (`str::ends_with`).
pub fn ends_with(s: &str, p: &str) -> (r: bool)
    ensures
        r == has_suffix(s@, p@),
{
    let x = chars_of(s);
    let y = chars_of(p);
    if y.len() > x.len() {
        return false;
    }
    let start = x.len() - y.len();
    let r = occurs_at(&x, start, &y);
    assert(s@.skip(start as int) =~= s@.subrange(start as int, s@.len() as int));
    r
}

/// `s` without its prefix `p`, or `None` when `s` does not begin with `p`
/// (`str::strip_prefix`).
pub fn strip_prefix(s: &str, p: &str) -> (r: Option<String>)
    ensures
        r is Some <==> has_prefix(s@, p@),
        r matches Some(t) ==> t@ == s@.skip(p@.len() as int),
{
    let x = chars_of(s);
    let y = chars_of(p);
    if occurs_at(&x, 0, &y) {
        assert(s@.take(p@.len() as int) =~= s@.subrange(0, p@.len() as int));
        let t = slice_string(&x, y.len(), x.len());
        assert(t@ =~= s@.skip(p@.len() as int));
        Some(t)
    } else {
        assert(has_prefix(s@, p@) ==> s@.take(p@.len() as int) =~= s@.subrange(0, p@.len() as int));
        None
    }
}

/// `s` with every occurrence of `from` replaced by `to` (`str::replace`
/// with a non-empty pattern).
pub fn replace(s: &str, from: &str, to: &str) -> (r: String)
    requires
        from@.len() > 0,
    ensures
        r@ == replaced(s@, from@, to@),
{
    let x = chars_of(s);
    let f = chars_of(from);
    let t = chars_of(to);
    let mut out: Vec<char> = Vec::new();
    let mut i: usize = 0;
    assert(x@.skip(0) =~= x@);
    while i < x.len()
        invariant
            x@ == s@,
            f@ == from@,
            t@ == to@,
            f@.len() > 0,
            i <= x@.len(),
            out@ + replaced(x@.skip(i as int), f@, t@) == replaced(x@, f@, t@),
        decreases x@.len() - i,
    {
        let ghost rest = x@.skip(i as int);
        if occurs_at(&x, i, &f) {
            assert(rest.take(f@.len() as int) =~= x@.subrange(i as int, i + f@.len()));
            assert(rest.skip(f@.len() as int) =~= x@.skip(i + f@.len()));
            push_all(&mut out, &t);
            i = i + f.len();
            assert(out@ + replaced(x@.skip(i as int), f@, t@) =~= replaced(x@, f@, t@));
        } else {
            assert(f@.len() <= rest.len() ==> rest.take(f@.len() as int) =~= x@.subrange(i as int, i + f@.len()));
            assert(rest.skip(1) =~= x@.skip(i + 1));
            out.push(x[i]);
            i = i + 1;
            assert(out@ + replaced(x@.skip(i as int), f@, t@) =~= replaced(x@, f@, t@));
        }
    }
    assert(x@.skip(i as int) =~= Seq::<char>::empty());
    assert(out@ =~= out@ + replaced(x@.skip(i as int), f@, t@));
    string_of(out.as_slice())
}


/// The first occurrence of `sep` in `s` is at `k` when `s[k]` is `sep` and no
/// earlier character is.
proof fn lemma_first_sep(s: Seq<char>, sep: char, k: int)
    requires
        0 <= k < s.len(),
        s[k] == sep,
        forall|j: int| 0 <= j < k ==> s[j] != sep,
    ensures
        s.contains(sep),
        s.index_of_first(sep) == Some(k),
{
    assert(s[k] == sep);
    s.index_of_first_ensures(sep);
}

/// The pieces of `s` between occurrences of `sep`, at most `n` of them
/// (`str::splitn` with a character pattern).
pub fn splitn(s: &str, n: usize, sep: char) -> (r: Vec<String>)
    ensures
        r.deep_view() == split_n(s@, n as nat, sep),
{
    let mut pieces: Vec<String> = Vec::new();
    if n == 0 {
        assert(pieces.deep_view() =~= split_n(s@, 0, sep));
        return pieces;
    }
    let x = chars_of(s);
    let mut start: usize = 0;
    let mut i: usize = 0;
    assert(x@.skip(0) =~= x@);
    while i < x.len() && pieces.len() + 1 < n
        invariant
            x@ == s@,
            n >= 1,
            pieces@.len() + 1 <= n,
            start <= i <= x@.len(),
            forall|j: int| start <= j < i ==> x@[j] != sep,
            pieces.deep_view() + split_n(x@.skip(start as int), (n - pieces@.len()) as nat, sep)
                == split_n(s@, n as nat, sep),
        decreases x@.len() - i,
    {
        if x[i] == sep {
            let ghost rest = x@.skip(start as int);
            let ghost m = (n - pieces@.len()) as nat;
            proof {
                lemma_first_sep(rest, sep, i - start);
                assert(rest.take(i - start) =~= x@.subrange(start as int, i as int));
                assert(rest.skip(i - start + 1) =~= x@.skip(i + 1));
            }
            let piece = slice_string(&x, start, i);
            let ghost before = pieces.deep_view();
            pieces.push(piece);
            assert(pieces.deep_view() =~= before.push(x@.subrange(start as int, i as int)));
            assert(split_n(rest, m, sep) == seq![rest.take(i - start)]
                + split_n(x@.skip(i + 1), (m - 1) as nat, sep));
            start = i + 1;
        }
        i = i + 1;
    }
    let ghost rest = x@.skip(start as int);
    proof {
        if pieces@.len() + 1 < n {
            assert forall|j: int| 0 <= j < rest.len() implies rest[j] != sep by {
                assert(rest[j] == x@[start + j]);
            }
            assert(!rest.contains(sep));
        }
        assert(rest =~= x@.subrange(start as int, x@.len() as int));
    }
    let last = slice_string(&x, start, x.len());
    let ghost before = pieces.deep_view();
    pieces.push(last);
    assert(pieces.deep_view() =~= before.push(rest));
    assert(pieces.deep_view() =~= split_n(s@, n as nat, sep));
    pieces
}

} // verus!
