//! Character-level text primitives shared by the content modules.
//!
//! The specifications model text as `Seq<char>`, the view Verus gives to
//! `str` and `String`, and mirror the behaviour of the standard string
//! methods that the content logic relies on: `char::is_whitespace`,
//! `str::split_whitespace`, `str::trim` and `str::lines`.
use vstd::prelude::*;
use vstd::std_specs::iter::IteratorSpec;

verus! {

/// Unicode `White_Space` property, as used by `char::is_whitespace`.
pub open spec fn is_ws(c: char) -> bool {
    let u = c as u32;
    (0x9 <= u && u <= 0xd) || u == 0x20 || u == 0x85 || u == 0xa0 || u == 0x1680 || (0x2000 <= u
        && u <= 0x200a) || u == 0x2028 || u == 0x2029 || u == 0x202f || u == 0x205f || u == 0x3000
}

/// Executable whitespace test matching `is_ws`.
pub fn char_is_ws(c: char) -> (b: bool)
    ensures
        b == is_ws(c),
{
    let u = c as u32;
    (0x9 <= u && u <= 0xd) || u == 0x20 || u == 0x85 || u == 0xa0 || u == 0x1680 || (0x2000 <= u
        && u <= 0x200a) || u == 0x2028 || u == 0x2029 || u == 0x202f || u == 0x205f || u == 0x3000
}

/// Number of whitespace-separated words (what `split_whitespace().count()` gives).
pub open spec fn words(s: Seq<char>) -> nat
    decreases s.len(),
{
    if s.len() == 0 {
        0
    } else {
        let n = s.len() - 1;
        words(s.take(n)) + if !is_ws(s[n]) && (n == 0 || is_ws(s[n - 1])) {
            1nat
        } else {
            0nat
        }
    }
}

/// `s` with its leading whitespace removed.
pub open spec fn trim_start(s: Seq<char>) -> Seq<char>
    decreases s.len(),
{
    if s.len() > 0 && is_ws(s[0]) {
        trim_start(s.drop_first())
    } else {
        s
    }
}

/// `s` with its trailing whitespace removed.
pub open spec fn trim_end(s: Seq<char>) -> Seq<char>
    decreases s.len(),
{
    if s.len() > 0 && is_ws(s.last()) {
        trim_end(s.drop_last())
    } else {
        s
    }
}

/// `s` with leading and trailing whitespace removed (`str::trim`).
pub open spec fn trim(s: Seq<char>) -> Seq<char> {
    trim_end(trim_start(s))
}

/// Drops one trailing carriage return.
pub open spec fn strip_cr(l: Seq<char>) -> Seq<char> {
    if l.len() > 0 && l.last() == '\r' {
        l.drop_last()
    } else {
        l
    }
}

/// Splits `s` at every line feed: the finished pieces and the unfinished last piece.
pub open spec fn split_nl(s: Seq<char>) -> (Seq<Seq<char>>, Seq<char>)
    decreases s.len(),
{
    if s.len() == 0 {
        (Seq::empty(), Seq::empty())
    } else {
        let prev = split_nl(s.drop_last());
        if s.last() == '\n' {
            (prev.0.push(strip_cr(prev.1)), Seq::empty())
        } else {
            (prev.0, prev.1.push(s.last()))
        }
    }
}

/// The lines of `s`, as `str::lines` yields them: split at `\n`, a `\r`
/// before the `\n` removed, and no empty line after a final `\n`.
pub open spec fn lines(s: Seq<char>) -> Seq<Seq<char>> {
    let p = split_nl(s);
    if p.1.len() == 0 {
        p.0
    } else {
        p.0.push(p.1)
    }
}

/// Splits `s` at whitespace: the finished words and the word in progress.
pub open spec fn split_ws(s: Seq<char>) -> (Seq<Seq<char>>, Seq<char>)
    decreases s.len(),
{
    if s.len() == 0 {
        (Seq::empty(), Seq::empty())
    } else {
        let prev = split_ws(s.drop_last());
        if is_ws(s.last()) {
            if prev.1.len() > 0 {
                (prev.0.push(prev.1), Seq::empty())
            } else {
                prev
            }
        } else {
            (prev.0, prev.1.push(s.last()))
        }
    }
}

/// The whitespace-separated words of `s`, in order (`split_whitespace`).
pub open spec fn word_list(s: Seq<char>) -> Seq<Seq<char>> {
    let p = split_ws(s);
    if p.1.len() > 0 {
        p.0.push(p.1)
    } else {
        p.0
    }
}

/// The texts of `parts`.
pub open spec fn string_views(parts: Seq<String>) -> Seq<Seq<char>> {
    parts.map_values(|s: String| s@)
}

/// `p` is a prefix of `s`.
pub open spec fn has_prefix(s: Seq<char>, p: Seq<char>) -> bool {
    p.len() <= s.len() && s.take(p.len() as int) == p
}

/// `p` occurs in `s` as a contiguous piece.
pub open spec fn has_infix(s: Seq<char>, p: Seq<char>) -> bool {
    exists|i: int| 0 <= i <= s.len() - p.len() && #[trigger] s.subrange(i, i + p.len()) == p
}

/// Concatenation of `parts`, in order.
pub open spec fn concat(parts: Seq<Seq<char>>) -> Seq<char>
    decreases parts.len(),
{
    if parts.len() == 0 {
        Seq::empty()
    } else {
        concat(parts.drop_last()) + parts.last()
    }
}

/// `parts` joined with `sep` between consecutive parts.
pub open spec fn join(parts: Seq<Seq<char>>, sep: Seq<char>) -> Seq<char>
    decreases parts.len(),
{
    if parts.len() == 0 {
        Seq::empty()
    } else if parts.len() == 1 {
        parts[0]
    } else {
        join(parts.drop_last(), sep) + sep + parts.last()
    }
}

/// Decimal digits of `n`, without leading zeros (`"0"` for zero).
pub open spec fn decimal(n: nat) -> Seq<char>
    decreases n,
{
    if n < 10 {
        seq![digit_char(n)]
    } else {
        decimal(n / 10).push(digit_char(n % 10))
    }
}

/// The ASCII digit for `d < 10`.
pub open spec fn digit_char(d: nat) -> char {
    if d == 0 {
        '0'
    } else if d == 1 {
        '1'
    } else if d == 2 {
        '2'
    } else if d == 3 {
        '3'
    } else if d == 4 {
        '4'
    } else if d == 5 {
        '5'
    } else if d == 6 {
        '6'
    } else if d == 7 {
        '7'
    } else if d == 8 {
        '8'
    } else {
        '9'
    }
}

/// Number of bytes of `c` in UTF-8.
pub open spec fn utf8_width(c: char) -> nat {
    let u = c as u32;
    if u < 0x80 {
        1
    } else if u < 0x800 {
        2
    } else if u < 0x10000 {
        3
    } else {
        4
    }
}

/// Number of bytes of `s` in UTF-8 (what `str::len` returns).
pub open spec fn utf8_len(s: Seq<char>) -> nat
    decreases s.len(),
{
    if s.len() == 0 {
        0
    } else {
        utf8_len(s.drop_last()) + utf8_width(s.last())
    }
}

/// Appends `c` to `s` (`String::push`).
#[verifier::external_body]
pub fn push_char(s: &mut String, c: char)
    ensures
        final(s)@ == old(s)@.push(c),
{
    s.push(c)
}

/// Appends the characters of `s` to `out`.
pub fn push_all(out: &mut String, s: &str)
    ensures
        final(out)@ == old(out)@ + s@,
{
    let v = chars_of(s);
    push_slice(out, &v, 0, v.len());
}

/// Appends `v[lo..hi]` to `out`.
pub fn push_slice(out: &mut String, v: &Vec<char>, lo: usize, hi: usize)
    requires
        lo <= hi <= v@.len(),
    ensures
        final(out)@ == old(out)@ + v@.subrange(lo as int, hi as int),
{
    let ghost start = out@;
    let mut i = lo;
    while i < hi
        invariant
            lo <= i <= hi <= v@.len(),
            out@ == start + v@.subrange(lo as int, i as int),
        decreases hi - i,
    {
        push_char(out, v[i]);
        i += 1;
        assert(v@.subrange(lo as int, i as int) == v@.subrange(lo as int, i - 1).push(v@[i - 1]));
    }
}

/// A string holding `v[lo..hi]`.
pub fn string_of(v: &Vec<char>, lo: usize, hi: usize) -> (r: String)
    requires
        lo <= hi <= v@.len(),
    ensures
        r@ == v@.subrange(lo as int, hi as int),
{
    let mut r = String::new();
    push_slice(&mut r, v, lo, hi);
    r
}

/// An owned copy of `s`.
pub fn owned(s: &str) -> (r: String)
    ensures
        r@ == s@,
{
    s.to_owned()
}

/// The characters of `s`, in order.
pub fn chars_of(s: &str) -> (v: Vec<char>)
    ensures
        v@ == s@,
{
    let mut v: Vec<char> = Vec::new();
    for c in it: s.chars()
        invariant
            v@ == it.seq().take(it.index() as int),
            it.seq() == s@,
    {
        v.push(c);
    }
    v
}

/// Number of whitespace-separated words in `s`.
pub fn count_words_in(s: &str) -> (n: usize)
    ensures
        n == words(s@),
{
    let v = chars_of(s);
    let mut count: usize = 0;
    let mut i: usize = 0;
    while i < v.len()
        invariant
            i <= v@.len(),
            count <= i,
            count == words(v@.take(i as int)),
        decreases v@.len() - i,
    {
        let starts = !char_is_ws(v[i]) && (i == 0 || char_is_ws(v[i - 1]));
        assert(v@.take(i + 1).drop_last() == v@.take(i as int));
        if starts {
            count += 1;
        }
        i += 1;
    }
    assert(v@.take(v@.len() as int) == v@);
    count
}

/// Bounds `(lo, hi)` such that `v[lo..hi]` is `v` trimmed of whitespace.
pub fn trim_bounds(v: &Vec<char>) -> (r: (usize, usize))
    ensures
        r.0 <= r.1 <= v@.len(),
        v@.subrange(r.0 as int, r.1 as int) == trim(v@),
{
    let n = v.len();
    let mut i: usize = 0;
    assert(v@.subrange(0, n as int) == v@);
    while i < n && char_is_ws(v[i])
        invariant
            i <= n == v@.len(),
            trim_start(v@) == trim_start(v@.subrange(i as int, n as int)),
        decreases n - i,
    {
        assert(v@.subrange(i as int, n as int).drop_first() == v@.subrange(i + 1, n as int));
        i += 1;
    }
    assert(trim_start(v@.subrange(i as int, n as int)) == v@.subrange(i as int, n as int));
    let mut j: usize = n;
    while j > i && char_is_ws(v[j - 1])
        invariant
            i <= j <= n == v@.len(),
            trim(v@) == trim_end(v@.subrange(i as int, j as int)),
        decreases j - i,
    {
        assert(v@.subrange(i as int, j as int).drop_last() == v@.subrange(i as int, j - 1));
        j -= 1;
    }
    (i, j)
}

/// `s` trimmed of leading and trailing whitespace.
pub fn trimmed(s: &str) -> (r: String)
    ensures
        r@ == trim(s@),
{
    let v = chars_of(s);
    let (lo, hi) = trim_bounds(&v);
    string_of(&v, lo, hi)
}

/// The lines of `v`, each as its characters.
pub fn lines_of(v: &Vec<char>) -> (ls: Vec<Vec<char>>)
    ensures
        ls@.len() == lines(v@).len(),
        forall|k: int| 0 <= k < ls@.len() ==> #[trigger] ls@[k]@ == lines(v@)[k],
{
    let mut done: Vec<Vec<char>> = Vec::new();
    let mut cur: Vec<char> = Vec::new();
    let mut i: usize = 0;
    while i < v.len()
        invariant
            i <= v@.len(),
            done@.len() == split_nl(v@.take(i as int)).0.len(),
            forall|k: int|
                0 <= k < done@.len() ==> #[trigger] done@[k]@ == split_nl(v@.take(i as int)).0[k],
            cur@ == split_nl(v@.take(i as int)).1,
        decreases v@.len() - i,
    {
        let c = v[i];
        assert(v@.take(i + 1).drop_last() == v@.take(i as int));
        assert(v@.take(i + 1).last() == c);
        if c == '\n' {
            let n = cur.len();
            let mut line = cur;
            if n > 0 && line[n - 1] == '\r' {
                line.pop();
            }
            done.push(line);
            cur = Vec::new();
        } else {
            cur.push(c);
        }
        i += 1;
    }
    assert(v@.take(v@.len() as int) == v@);
    if cur.len() > 0 {
        done.push(cur);
    }
    done
}

/// `p` is a prefix of `v[lo..]`.
pub fn prefix_at(v: &Vec<char>, lo: usize, p: &Vec<char>) -> (b: bool)
    requires
        lo <= v@.len(),
    ensures
        b == has_prefix(v@.subrange(lo as int, v@.len() as int), p@),
{
    let ghost s = v@.subrange(lo as int, v@.len() as int);
    if p.len() > v.len() - lo {
        return false;
    }
    let mut k: usize = 0;
    while k < p.len()
        invariant
            k <= p@.len() <= v@.len() - lo,
            lo + p@.len() <= v.len(),
            s == v@.subrange(lo as int, v@.len() as int),
            forall|m: int| 0 <= m < k ==> s[m] == p@[m],
        decreases p@.len() - k,
    {
        if v[lo + k] != p[k] {
            assert(s.take(p@.len() as int)[k as int] != p@[k as int]);
            return false;
        }
        k += 1;
    }
    assert(s.take(p@.len() as int) == p@);
    true
}

/// The whitespace-separated words of `v`, each as its characters.
pub fn words_of(v: &Vec<char>) -> (ws: Vec<Vec<char>>)
    ensures
        ws@.len() == word_list(v@).len(),
        forall|k: int| 0 <= k < ws@.len() ==> #[trigger] ws@[k]@ == word_list(v@)[k],
{
    let mut done: Vec<Vec<char>> = Vec::new();
    let mut cur: Vec<char> = Vec::new();
    let mut i: usize = 0;
    while i < v.len()
        invariant
            i <= v@.len(),
            done@.len() == split_ws(v@.take(i as int)).0.len(),
            forall|k: int|
                0 <= k < done@.len() ==> #[trigger] done@[k]@ == split_ws(v@.take(i as int)).0[k],
            cur@ == split_ws(v@.take(i as int)).1,
        decreases v@.len() - i,
    {
        let c = v[i];
        assert(v@.take(i + 1).drop_last() == v@.take(i as int));
        assert(v@.take(i + 1).last() == c);
        if char_is_ws(c) {
            if cur.len() > 0 {
                done.push(cur);
                cur = Vec::new();
            }
        } else {
            cur.push(c);
        }
        i += 1;
    }
    assert(v@.take(v@.len() as int) == v@);
    if cur.len() > 0 {
        done.push(cur);
    }
    done
}

/// `parts` joined with `sep` between consecutive parts.
pub fn join_strings(parts: &Vec<String>, sep: &str) -> (r: String)
    ensures
        r@ == join(string_views(parts@), sep@),
{
    let mut r = String::new();
    let mut i: usize = 0;
    while i < parts.len()
        invariant
            i <= parts@.len(),
            r@ == join(string_views(parts@.take(i as int)), sep@),
        decreases parts@.len() - i,
    {
        assert(string_views(parts@.take(i + 1)).drop_last() == string_views(parts@.take(i as int)));
        assert(string_views(parts@.take(i + 1)).last() == parts@[i as int]@);
        if i > 0 {
            push_all(&mut r, sep);
        } else {
            assert(string_views(parts@.take(1)) == seq![parts@[0]@]);
        }
        push_all(&mut r, parts[i].as_str());
        i += 1;
    }
    assert(parts@.take(parts@.len() as int) == parts@);
    r
}

/// Whether `p` occurs in `s`.
pub fn contains_str(s: &str, p: &str) -> (b: bool)
    ensures
        b == has_infix(s@, p@),
{
    let v = chars_of(s);
    let w = chars_of(p);
    if w.len() > v.len() {
        return false;
    }
    let last = v.len() - w.len();
    let mut i: usize = 0;
    loop
        invariant
            w@.len() <= v@.len(),
            last == v@.len() - w@.len(),
            i <= last,
            v@ == s@,
            w@ == p@,
            forall|j: int| 0 <= j < i ==> #[trigger] v@.subrange(j, j + w@.len()) != w@,
        decreases last - i,
    {
        let hit = prefix_at(&v, i, &w);
        assert(v@.subrange(i as int, v@.len() as int).take(w@.len() as int) == v@.subrange(
            i as int,
            i + w@.len(),
        ));
        if hit {
            return true;
        }
        if i == last {
            return false;
        }
        i += 1;
    }
}

/// Decimal text of `n`.
pub fn decimal_string(n: usize) -> (r: String)
    ensures
        r@ == decimal(n as nat),
    decreases n,
{
    if n < 10 {
        let mut r = String::new();
        push_char(&mut r, digit(n));
        r
    } else {
        let mut r = decimal_string(n / 10);
        push_char(&mut r, digit(n % 10));
        r
    }
}

/// The ASCII digit of `d`.
pub fn digit(d: usize) -> (c: char)
    requires
        d < 10,
    ensures
        c == digit_char(d as nat),
{
    if d == 0 {
        '0'
    } else if d == 1 {
        '1'
    } else if d == 2 {
        '2'
    } else if d == 3 {
        '3'
    } else if d == 4 {
        '4'
    } else if d == 5 {
        '5'
    } else if d == 6 {
        '6'
    } else if d == 7 {
        '7'
    } else if d == 8 {
        '8'
    } else {
        '9'
    }
}

/// Decimal text of a `u64`.
pub fn decimal_u64(n: u64) -> (r: String)
    ensures
        r@ == decimal(n as nat),
    decreases n,
{
    if n < 10 {
        let mut r = String::new();
        push_char(&mut r, digit(n as usize));
        r
    } else {
        let mut r = decimal_u64(n / 10);
        push_char(&mut r, digit((n % 10) as usize));
        r
    }
}

/// The trimmed lines of `ls` that are not blank, in order.
pub open spec fn nonblank_trimmed(ls: Seq<Seq<char>>) -> Seq<Seq<char>>
    decreases ls.len(),
{
    if ls.len() == 0 {
        Seq::empty()
    } else {
        let rest = nonblank_trimmed(ls.drop_last());
        if trim(ls.last()).len() == 0 {
            rest
        } else {
            rest.push(trim(ls.last()))
        }
    }
}

/// The lines of `s` that are not blank, each trimmed, in order (what
/// `s.lines().filter(|l| !l.trim().is_empty()).map(str::trim)` yields).
pub fn nonblank_lines(s: &str) -> (r: Vec<String>)
    ensures
        string_views(r@) == nonblank_trimmed(lines(s@)),
{
    let v = chars_of(s);
    let ls = lines_of(&v);
    let ghost lv = lines(s@);
    let mut r: Vec<String> = Vec::new();
    let mut i: usize = 0;
    while i < ls.len()
        invariant
            i <= ls@.len() == lv.len(),
            lv == lines(s@),
            forall|k: int| 0 <= k < ls@.len() ==> #[trigger] ls@[k]@ == lv[k],
            string_views(r@) == nonblank_trimmed(lv.take(i as int)),
        decreases ls@.len() - i,
    {
        assert(lv.take(i + 1).drop_last() == lv.take(i as int));
        assert(lv.take(i + 1).last() == ls@[i as int]@);
        let (lo, hi) = trim_bounds(&ls[i]);
        if lo < hi {
            let t = string_of(&ls[i], lo, hi);
            let ghost before = r@;
            r.push(t);
            assert(string_views(r@) == string_views(before).push(t@));
        }
        i += 1;
    }
    assert(lv.take(lv.len() as int) == lv);
    r
}

/// Splits `s` at every `sep`: the finished pieces and the piece in progress.
pub open spec fn split_at_char(s: Seq<char>, sep: char) -> (Seq<Seq<char>>, Seq<char>)
    decreases s.len(),
{
    if s.len() == 0 {
        (Seq::empty(), Seq::empty())
    } else {
        let prev = split_at_char(s.drop_last(), sep);
        if s.last() == sep {
            (prev.0.push(prev.1), Seq::empty())
        } else {
            (prev.0, prev.1.push(s.last()))
        }
    }
}

/// The pieces `str::split` cuts `s` into at `sep`; there is always a last
/// piece, empty when `s` ends with `sep`.
pub open spec fn pieces(s: Seq<char>, sep: char) -> Seq<Seq<char>> {
    let p = split_at_char(s, sep);
    p.0.push(p.1)
}

/// The pieces of `ps`, each trimmed, without the ones that are then empty.
pub open spec fn trimmed_nonempty(ps: Seq<Seq<char>>) -> Seq<Seq<char>>
    decreases ps.len(),
{
    if ps.len() == 0 {
        Seq::empty()
    } else {
        let rest = trimmed_nonempty(ps.drop_last());
        if trim(ps.last()).len() == 0 {
            rest
        } else {
            rest.push(trim(ps.last()))
        }
    }
}

/// The pieces of `v` between separators, as character vectors.
fn split_chars(v: &Vec<char>, sep: char) -> (ps: Vec<Vec<char>>)
    ensures
        ps@.len() == pieces(v@, sep).len(),
        forall|k: int| 0 <= k < ps@.len() ==> #[trigger] ps@[k]@ == pieces(v@, sep)[k],
{
    let mut done: Vec<Vec<char>> = Vec::new();
    let mut cur: Vec<char> = Vec::new();
    let mut i: usize = 0;
    while i < v.len()
        invariant
            i <= v@.len(),
            done@.len() == split_at_char(v@.take(i as int), sep).0.len(),
            forall|k: int|
                0 <= k < done@.len() ==> #[trigger] done@[k]@ == split_at_char(v@.take(i as int), sep).0[k],
            cur@ == split_at_char(v@.take(i as int), sep).1,
        decreases v@.len() - i,
    {
        let c = v[i];
        assert(v@.take(i + 1).drop_last() == v@.take(i as int));
        assert(v@.take(i + 1).last() == c);
        if c == sep {
            done.push(cur);
            cur = Vec::new();
        } else {
            cur.push(c);
        }
        i += 1;
    }
    assert(v@.take(v@.len() as int) == v@);
    done.push(cur);
    done
}

/// The comma-separated items of `s`, trimmed, without empty ones (what
/// `s.split(',').map(str::trim).filter(|k| !k.is_empty())` yields).
pub fn comma_items(s: &str) -> (r: Vec<String>)
    ensures
        string_views(r@) == trimmed_nonempty(pieces(s@, ',')),
{
    let v = chars_of(s);
    let ps = split_chars(&v, ',');
    let ghost pv = pieces(s@, ',');
    let mut r: Vec<String> = Vec::new();
    let mut i: usize = 0;
    while i < ps.len()
        invariant
            i <= ps@.len() == pv.len(),
            pv == pieces(s@, ','),
            forall|k: int| 0 <= k < ps@.len() ==> #[trigger] ps@[k]@ == pv[k],
            string_views(r@) == trimmed_nonempty(pv.take(i as int)),
        decreases ps@.len() - i,
    {
        assert(pv.take(i + 1).drop_last() == pv.take(i as int));
        assert(pv.take(i + 1).last() == ps@[i as int]@);
        let (lo, hi) = trim_bounds(&ps[i]);
        if lo < hi {
            let t = string_of(&ps[i], lo, hi);
            let ghost before = r@;
            r.push(t);
            assert(string_views(r@) == string_views(before).push(t@));
        }
        i += 1;
    }
    assert(pv.take(pv.len() as int) == pv);
    r
}

/// The length of a text in UTF-8 bytes, as `str::len` reports it.
pub open spec fn byte_len(s: Seq<char>) -> nat {
    (vstd::utf8::encode_utf8(s).len() as usize) as nat
}

/// The first `n` characters of `s` (all of them when it is shorter).
pub open spec fn first_chars(s: Seq<char>, n: nat) -> Seq<char> {
    if s.len() <= n {
        s
    } else {
        s.take(n as int)
    }
}

/// The first `n` characters of `s` (`s.chars().take(n).collect()`).
pub fn take_chars(s: &str, n: usize) -> (r: String)
    ensures
        r@ == first_chars(s@, n as nat),
{
    let v = chars_of(s);
    let hi = if v.len() <= n {
        v.len()
    } else {
        n
    };
    assert(v@.subrange(0, v@.len() as int) == v@);
    string_of(&v, 0, hi)
}

/// `s` without the character `c`.
pub open spec fn without_char(s: Seq<char>, c: char) -> Seq<char>
    decreases s.len(),
{
    if s.len() == 0 {
        Seq::empty()
    } else {
        without_char(s.drop_last(), c) + (if s.last() == c {
            Seq::empty()
        } else {
            seq![s.last()]
        })
    }
}

/// `s` with every `c` removed (`s.replace(c, "")`).
pub fn remove_char(s: &str, c: char) -> (r: String)
    ensures
        r@ == without_char(s@, c),
{
    let v = chars_of(s);
    let mut r = String::new();
    let mut i: usize = 0;
    while i < v.len()
        invariant
            i <= v@.len(),
            v@ == s@,
            r@ == without_char(v@.take(i as int), c),
        decreases v@.len() - i,
    {
        assert(v@.take(i + 1).drop_last() == v@.take(i as int));
        assert(v@.take(i + 1).last() == v@[i as int]);
        if v[i] != c {
            push_char(&mut r, v[i]);
        } else {
            assert(without_char(v@.take(i + 1), c) == without_char(v@.take(i as int), c) + Seq::<char>::empty());
        }
        i += 1;
    }
    assert(v@.take(v@.len() as int) == v@);
    r
}

/// `a` sorts before `b` as `str` values do: at the first character where
/// they differ, the smaller character (code point) comes first; a proper prefix comes
/// before the longer text. (UTF-8 keeps the order of code points, so this
/// is also the order of the texts' bytes.)
pub open spec fn str_less(a: Seq<char>, b: Seq<char>) -> bool
    decreases a.len(),
{
    if a.len() == 0 {
        b.len() > 0
    } else if b.len() == 0 {
        false
    } else if a[0] != b[0] {
        a[0] < b[0]
    } else {
        str_less(a.drop_first(), b.drop_first())
    }
}

/// No text sorts before itself.
pub proof fn lemma_str_less_irreflexive(a: Seq<char>)
    ensures
        !str_less(a, a),
    decreases a.len(),
{
    if a.len() > 0 {
        lemma_str_less_irreflexive(a.drop_first());
    }
}

/// The order of texts is transitive.
pub proof fn lemma_str_less_transitive(a: Seq<char>, b: Seq<char>, c: Seq<char>)
    requires
        str_less(a, b),
        str_less(b, c),
    ensures
        str_less(a, c),
    decreases a.len(),
{
    if a.len() > 0 && b.len() > 0 && c.len() > 0 && a[0] == b[0] && b[0] == c[0] {
        lemma_str_less_transitive(a.drop_first(), b.drop_first(), c.drop_first());
    }
}

/// Of two different texts, one sorts before the other.
pub proof fn lemma_str_less_total(a: Seq<char>, b: Seq<char>)
    requires
        a != b,
    ensures
        str_less(a, b) || str_less(b, a),
    decreases a.len(),
{
    if a.len() == 0 {
        if b.len() == 0 {
            assert(a =~= b);
        }
    } else if b.len() > 0 && a[0] == b[0] {
        if a.drop_first() == b.drop_first() {
            assert(a =~= seq![a[0]] + a.drop_first());
            assert(b =~= seq![b[0]] + b.drop_first());
        }
        lemma_str_less_total(a.drop_first(), b.drop_first());
    }
}

/// Two texts do not each sort before the other.
pub proof fn lemma_str_less_asymmetric(a: Seq<char>, b: Seq<char>)
    requires
        str_less(a, b),
    ensures
        !str_less(b, a),
{
    if str_less(b, a) {
        lemma_str_less_transitive(a, b, a);
        lemma_str_less_irreflexive(a);
    }
}

/// Whether `a` sorts before `b` (`a < b` on `str`).
pub fn str_lt(a: &str, b: &str) -> (r: bool)
    ensures
        r == str_less(a@, b@),
{
    let x = chars_of(a);
    let y = chars_of(b);
    let mut i: usize = 0;
    assert(a@.skip(0) =~= a@);
    assert(b@.skip(0) =~= b@);
    while i < x.len() && i < y.len()
        invariant
            i <= x@.len(),
            i <= y@.len(),
            x@ == a@,
            y@ == b@,
            str_less(a@, b@) == str_less(a@.skip(i as int), b@.skip(i as int)),
        decreases x@.len() - i,
    {
        let ghost sa = a@.skip(i as int);
        let ghost sb = b@.skip(i as int);
        assert(sa[0] == x@[i as int]);
        assert(sb[0] == y@[i as int]);
        if x[i] != y[i] {
            return x[i] < y[i];
        }
        assert(sa.drop_first() =~= a@.skip(i + 1));
        assert(sb.drop_first() =~= b@.skip(i + 1));
        i += 1;
    }
    i < y.len()
}

} // verus!
