use vstd::prelude::*;

verus! {

/// The views of a sequence of strings.
pub open spec fn views(v: Seq<String>) -> Seq<Seq<char>> {
    v.map_values(|x: String| x@)
}

/// `p` is a prefix of `s`.
pub open spec fn is_prefix(p: Seq<char>, s: Seq<char>) -> bool {
    p.len() <= s.len() && s.take(p.len() as int) == p
}

/// The pieces of `s` between occurrences of `sep`: `k` separators give
/// `k + 1` pieces, some of which may be empty.
pub open spec fn split_seq(s: Seq<char>, sep: char) -> Seq<Seq<char>>
    decreases s.len(),
{
    if s.len() == 0 {
        seq![Seq::<char>::empty()]
    } else {
        let init = split_seq(s.drop_last(), sep);
        if s.last() == sep {
            init.push(Seq::<char>::empty())
        } else {
            init.update(init.len() - 1, init.last().push(s.last()))
        }
    }
}

/// Index of the first occurrence of `c` in `s`, or -1 when there is none.
pub open spec fn first_index(s: Seq<char>, c: char) -> int
    decreases s.len(),
{
    if s.len() == 0 {
        -1
    } else if s[0] == c {
        0
    } else {
        let r = first_index(s.drop_first(), c);
        if r < 0 {
            -1
        } else {
            r + 1
        }
    }
}

/// The text before the first `sep`, and the text after it when there is one
/// (what `splitn(2, sep)` yields).
pub open spec fn split_once_seq(s: Seq<char>, sep: char) -> (Seq<char>, Option<Seq<char>>) {
    let i = first_index(s, sep);
    if i < 0 {
        (s, None)
    } else {
        (s.take(i), Some(s.skip(i + 1)))
    }
}

/// `p` occurs in `s` starting at index `i`.
pub open spec fn occurs_at(s: Seq<char>, p: Seq<char>, i: int) -> bool {
    0 <= i && i + p.len() <= s.len() && s.subrange(i, i + p.len()) == p
}

/// Index of the first occurrence of `p` in `s`, or -1 when there is none.
pub open spec fn first_occurrence(s: Seq<char>, p: Seq<char>) -> int {
    if exists|i: int| occurs_at(s, p, i) {
        choose|i: int| occurs_at(s, p, i) && forall|j: int| 0 <= j < i ==> !occurs_at(s, p, j)
    } else {
        -1
    }
}

/// The text before the first occurrence of `p`, and the text after it when
/// there is one (what `splitn(2, p)` yields).
pub open spec fn split_once_str_seq(s: Seq<char>, p: Seq<char>) -> (Seq<char>, Option<Seq<char>>) {
    let i = first_occurrence(s, p);
    if i < 0 {
        (s, None)
    } else {
        (s.take(i), Some(s.skip(i + p.len())))
    }
}

/// A line without the `'\r'` that ends it, if any.
pub open spec fn strip_cr(l: Seq<char>) -> Seq<char> {
    if l.len() > 0 && l.last() == '\r' {
        l.drop_last()
    } else {
        l
    }
}

/// The lines of `s`: split at `'\n'`, each line that a `'\n'` ends loses a
/// trailing `'\r'`, and an empty text after the last `'\n'` is no line.
pub open spec fn lines_seq(s: Seq<char>) -> Seq<Seq<char>> {
    let ps = split_seq(s, '\n');
    let body = ps.drop_last().map_values(|l: Seq<char>| strip_cr(l));
    if ps.last().len() == 0 {
        body
    } else {
        body.push(ps.last())
    }
}

pub proof fn lemma_split_len(s: Seq<char>, sep: char)
    ensures
        split_seq(s, sep).len() >= 1,
    decreases s.len(),
{
    if s.len() > 0 {
        lemma_split_len(s.drop_last(), sep);
    }
}

proof fn lemma_first_index_found(s: Seq<char>, c: char, i: int)
    requires
        0 <= i < s.len(),
        s[i] == c,
        forall|j: int| 0 <= j < i ==> s[j] != c,
    ensures
        first_index(s, c) == i,
    decreases s.len(),
{
    if i > 0 {
        lemma_first_index_found(s.drop_first(), c, i - 1);
    }
}

proof fn lemma_first_index_absent(s: Seq<char>, c: char)
    requires
        forall|j: int| 0 <= j < s.len() ==> s[j] != c,
    ensures
        first_index(s, c) == -1,
    decreases s.len(),
{
    if s.len() > 0 {
        lemma_first_index_absent(s.drop_first(), c);
    }
}

/// The characters of `s`, in order.
pub fn chars_of(s: &str) -> (v: Vec<char>)
    ensures
        v@ == s@,
{
    let mut v: Vec<char> = Vec::new();
    for c in it: s.chars()
        invariant
            v@ == it.seq().take(it.index() as int),
    {
        v.push(c);
    }
    v
}

/// Whether `a` and `b` hold the same text.
pub fn equals(a: &str, b: &str) -> (r: bool)
    ensures
        r == (a@ == b@),
{
    let ac = chars_of(a);
    let bc = chars_of(b);
    if ac.len() != bc.len() {
        return false;
    }
    let mut i: usize = 0;
    while i < ac.len()
        invariant
            ac@ == a@,
            bc@ == b@,
            ac@.len() == bc@.len(),
            i <= ac@.len(),
            forall|j: int| 0 <= j < i ==> ac@[j] == bc@[j],
        decreases ac@.len() - i,
    {
        if ac[i] != bc[i] {
            return false;
        }
        i += 1;
    }
    assert(a@ =~= b@);
    true
}

/// An owned copy of `s[from..to]`, counted in characters.
pub fn substring(s: &str, from: usize, to: usize) -> (r: String)
    requires
        from <= to <= s@.len(),
    ensures
        r@ == s@.subrange(from as int, to as int),
{
    String::from_str(s.substring_char(from, to))
}

/// `a` followed by `b`.
pub fn concat_str(a: &str, b: &str) -> (r: String)
    ensures
        r@ == a@ + b@,
{
    let mut r = String::from_str(a);
    r.append(b);
    r
}

/// Whether `s` begins with `prefix`.
pub fn starts_with(s: &str, prefix: &str) -> (r: bool)
    ensures
        r == is_prefix(prefix@, s@),
{
    let cs = chars_of(s);
    let ps = chars_of(prefix);
    if ps.len() > cs.len() {
        return false;
    }
    let mut i: usize = 0;
    while i < ps.len()
        invariant
            cs@ == s@,
            ps@ == prefix@,
            ps@.len() <= cs@.len(),
            i <= ps@.len(),
            forall|j: int| 0 <= j < i ==> cs@[j] == ps@[j],
        decreases ps@.len() - i,
    {
        if cs[i] != ps[i] {
            assert(s@.take(prefix@.len() as int)[i as int] != prefix@[i as int]);
            return false;
        }
        i += 1;
    }
    assert(s@.take(prefix@.len() as int) =~= prefix@);
    true
}

/// Index of the first `c` in `cs` at or after `from`, if any.
fn find_from(cs: &Vec<char>, from: usize, c: char) -> (r: Option<usize>)
    requires
        from <= cs@.len(),
    ensures
        match r {
            Some(i) => from <= i < cs@.len() && cs@[i as int] == c && forall|j: int|
                from <= j < i ==> cs@[j] != c,
            None => forall|j: int| from <= j < cs@.len() ==> cs@[j] != c,
        },
{
    let mut i = from;
    while i < cs.len()
        invariant
            from <= i <= cs@.len(),
            forall|j: int| from <= j < i ==> cs@[j] != c,
        decreases cs@.len() - i,
    {
        if cs[i] == c {
            return Some(i);
        }
        i += 1;
    }
    None
}

/// `splitn(2, sep)`: the text before the first `sep`, and the rest after it.
pub fn split_once(s: &str, sep: char) -> (r: (String, Option<String>))
    ensures
        r.0@ == split_once_seq(s@, sep).0,
        match r.1 {
            Some(t) => split_once_seq(s@, sep).1 == Some(t@),
            None => split_once_seq(s@, sep).1 is None,
        },
{
    let cs = chars_of(s);
    let n = cs.len();
    match find_from(&cs, 0, sep) {
        Some(i) => {
            assert(i < n);
            proof {
                lemma_first_index_found(s@, sep, i as int);
            }
            (substring(s, 0, i), Some(substring(s, i + 1, n)))
        },
        None => {
            proof {
                lemma_first_index_absent(s@, sep);
                assert(s@.subrange(0, s@.len() as int) =~= s@);
            }
            (substring(s, 0, n), None)
        },
    }
}

/// Whether `pat` occurs in `cs` at `i`.
fn matches_at(cs: &Vec<char>, pat: &Vec<char>, i: usize) -> (r: bool)
    requires
        i + pat@.len() <= cs@.len(),
    ensures
        r == occurs_at(cs@, pat@, i as int),
{
    let n = cs.len();
    let mut k: usize = 0;
    while k < pat.len()
        invariant
            n == cs@.len(),
            i + pat@.len() <= cs@.len(),
            k <= pat@.len(),
            forall|j: int| 0 <= j < k ==> cs@[i + j] == pat@[j],
        decreases pat@.len() - k,
    {
        if cs[i + k] != pat[k] {
            assert(cs@.subrange(i as int, i + pat@.len())[k as int] != pat@[k as int]);
            return false;
        }
        k += 1;
    }
    assert(cs@.subrange(i as int, i + pat@.len()) =~= pat@);
    true
}

/// `splitn(2, pat)`: the text before the first occurrence of `pat`, and the
/// rest after it.
pub fn split_once_str(s: &str, pat: &str) -> (r: (String, Option<String>))
    requires
        pat@.len() > 0,
    ensures
        r.0@ == split_once_str_seq(s@, pat@).0,
        match r.1 {
            Some(t) => split_once_str_seq(s@, pat@).1 == Some(t@),
            None => split_once_str_seq(s@, pat@).1 is None,
        },
{
    let cs = chars_of(s);
    let ps = chars_of(pat);
    let n = cs.len();
    let m = ps.len();
    let mut i: usize = 0;
    while m <= n && i <= n - m
        invariant
            cs@ == s@,
            ps@ == pat@,
            n == cs@.len(),
            m == ps@.len(),
            m > 0,
            forall|j: int| 0 <= j < i ==> !occurs_at(s@, pat@, j),
        decreases n - i,
    {
        if matches_at(&cs, &ps, i) {
            proof {
                assert(occurs_at(s@, pat@, i as int));
                let k = choose|k: int|
                    occurs_at(s@, pat@, k) && forall|j: int| 0 <= j < k ==> !occurs_at(s@, pat@, j);
                if k < i {
                } else if k > i {
                    assert(!occurs_at(s@, pat@, i as int));
                }
                assert(first_occurrence(s@, pat@) == i);
            }
            return (substring(s, 0, i), Some(substring(s, i + m, n)));
        }
        i += 1;
    }
    proof {
        assert forall|j: int| !occurs_at(s@, pat@, j) by {
            if 0 <= j && j + m <= n {
                assert(j < i);
            }
        }
        assert(s@.subrange(0, n as int) =~= s@);
    }
    (substring(s, 0, n), None)
}

/// The pieces of `s` between occurrences of `sep` (what `split(sep)` yields).
pub fn split(s: &str, sep: char) -> (r: Vec<String>)
    ensures
        views(r@) == split_seq(s@, sep),
{
    let cs = chars_of(s);
    let n = cs.len();
    let mut r: Vec<String> = Vec::new();
    let mut start: usize = 0;
    let mut i: usize = 0;
    proof {
        assert(s@.take(0) =~= Seq::<char>::empty());
        assert(views(r@).push(s@.subrange(0, 0)) =~= split_seq(s@.take(0), sep));
    }
    while i < n
        invariant
            n == cs@.len(),
            cs@ == s@,
            start <= i <= n,
            views(r@).push(s@.subrange(start as int, i as int)) == split_seq(
                s@.take(i as int),
                sep,
            ),
        decreases n - i,
    {
        let ghost prev = views(r@);
        proof {
            assert(s@.take(i + 1).drop_last() =~= s@.take(i as int));
            assert(s@.take(i + 1).last() == s@[i as int]);
        }
        if cs[i] == sep {
            let piece = substring(s, start, i);
            r.push(piece);
            proof {
                assert(views(r@) =~= prev.push(s@.subrange(start as int, i as int)));
            }
            start = i + 1;
            proof {
                assert(s@.subrange(start as int, (i + 1) as int) =~= Seq::<char>::empty());
                assert(views(r@).push(s@.subrange(start as int, (i + 1) as int)) =~= split_seq(
                    s@.take(i + 1),
                    sep,
                ));
            }
        } else {
            proof {
                assert(s@.subrange(start as int, (i + 1) as int) =~= s@.subrange(
                    start as int,
                    i as int,
                ).push(s@[i as int]));
                assert(prev.push(s@.subrange(start as int, (i + 1) as int)) =~= split_seq(
                    s@.take(i + 1),
                    sep,
                ));
            }
        }
        i += 1;
    }
    let ghost prev = views(r@);
    let piece = substring(s, start, n);
    r.push(piece);
    proof {
        assert(s@.take(n as int) =~= s@);
        assert(views(r@) =~= prev.push(s@.subrange(start as int, n as int)));
    }
    r
}

/// The lines of `s` (what `lines()` yields).
pub fn lines(s: &str) -> (r: Vec<String>)
    ensures
        views(r@) == lines_seq(s@),
{
    let pieces = split(s, '\n');
    proof {
        lemma_split_len(s@, '\n');
    }
    let n = pieces.len();
    let ghost ps = split_seq(s@, '\n');
    let mut r: Vec<String> = Vec::new();
    let mut i: usize = 0;
    while i + 1 < n
        invariant
            n == pieces@.len(),
            n >= 1,
            views(pieces@) == ps,
            ps == split_seq(s@, '\n'),
            i < n,
            views(r@) == ps.take(i as int).map_values(|l: Seq<char>| strip_cr(l)),
        decreases n - i,
    {
        let p = &pieces[i];
        let pcs = chars_of(p.as_str());
        let len = pcs.len();
        let line = if len > 0 && pcs[len - 1] == '\r' {
            substring(p.as_str(), 0, len - 1)
        } else {
            substring(p.as_str(), 0, len)
        };
        proof {
            assert(ps[i as int] == p@);
            assert(p@.subrange(0, len as int) =~= p@);
            assert(p@.subrange(0, len - 1) =~= p@.drop_last());
        }
        let ghost prev = views(r@);
        r.push(line);
        proof {
            assert(views(r@) =~= prev.push(line@));
            assert(ps.take(i + 1).map_values(|l: Seq<char>| strip_cr(l)) =~= ps.take(
                i as int,
            ).map_values(|l: Seq<char>| strip_cr(l)).push(strip_cr(ps[i as int])));
        }
        i += 1;
    }
    proof {
        assert(ps.take(i as int) =~= ps.drop_last());
    }
    let last = &pieces[n - 1];
    if last.as_str().is_empty() {
        r
    } else {
        let ghost prev = views(r@);
        r.push(substring(last.as_str(), 0, chars_of(last.as_str()).len()));
        proof {
            assert(last@.subrange(0, last@.len() as int) =~= last@);
            assert(views(r@) =~= prev.push(ps.last()));
        }
        r
    }
}


/// Whether `c` has the Unicode `White_Space` property (what
/// `char::is_whitespace` answers): tab, line feed, vertical tab, form feed,
/// carriage return, space, U+0085, U+00A0, U+1680, U+2000 to U+200A, U+2028,
/// U+2029, U+202F, U+205F and U+3000.
pub open spec fn is_whitespace_char(c: char) -> bool {
    let u = c as u32;
    ||| 0x9 <= u <= 0xd
    ||| u == 0x20
    ||| u == 0x85
    ||| u == 0xa0
    ||| u == 0x1680
    ||| 0x2000 <= u <= 0x200a
    ||| u == 0x2028
    ||| u == 0x2029
    ||| u == 0x202f
    ||| u == 0x205f
    ||| u == 0x3000
}

/// What `str::to_lowercase` returns for a text.
pub uninterp spec fn lowercase_of(s: Seq<char>) -> Seq<char>;

/// Whether `c` has the Unicode `White_Space` property, as
/// `char::is_whitespace` answers.
fn char_is_whitespace(c: char) -> (b: bool)
    ensures
        b == is_whitespace_char(c),
{
    let u = c as u32;
    (0x9 <= u && u <= 0xd) || u == 0x20 || u == 0x85 || u == 0xa0 || u == 0x1680 || (0x2000 <= u
        && u <= 0x200a) || u == 0x2028 || u == 0x2029 || u == 0x202f || u == 0x205f || u == 0x3000
}

/// `str::to_lowercase`: the lowercase mapping of each character of `s`.
/// Its result depends on `s` alone; the mapping itself is Unicode's and is
/// not written out here.
#[verifier::external_body]
pub(crate) fn to_lowercase(s: &str) -> (r: String)
    ensures
        r@ == lowercase_of(s@),
{
    s.to_lowercase()
}

/// Number of white-space characters at the start of `s`.
pub open spec fn leading_ws(s: Seq<char>) -> nat
    decreases s.len(),
{
    if s.len() > 0 && is_whitespace_char(s[0]) {
        1 + leading_ws(s.drop_first())
    } else {
        0
    }
}

/// Number of white-space characters at the end of `s`.
pub open spec fn trailing_ws(s: Seq<char>) -> nat
    decreases s.len(),
{
    if s.len() > 0 && is_whitespace_char(s.last()) {
        1 + trailing_ws(s.drop_last())
    } else {
        0
    }
}

/// `s` without its leading white space.
pub open spec fn trim_start_seq(s: Seq<char>) -> Seq<char> {
    s.skip(leading_ws(s) as int)
}

/// `s` without its leading and trailing white space.
pub open spec fn trim_seq(s: Seq<char>) -> Seq<char> {
    let t = trim_start_seq(s);
    t.take(t.len() - trailing_ws(t))
}

proof fn lemma_leading_ws(s: Seq<char>, i: int)
    requires
        0 <= i <= s.len(),
        forall|j: int| 0 <= j < i ==> is_whitespace_char(#[trigger] s[j]),
        i == s.len() || !is_whitespace_char(s[i]),
    ensures
        leading_ws(s) == i,
    decreases i,
{
    if i > 0 {
        assert forall|j: int| 0 <= j < i - 1 implies is_whitespace_char(
            #[trigger] s.drop_first()[j],
        ) by {
            assert(s.drop_first()[j] == s[j + 1]);
        }
        lemma_leading_ws(s.drop_first(), i - 1);
    }
}

proof fn lemma_trailing_ws(s: Seq<char>, i: int)
    requires
        0 <= i <= s.len(),
        forall|j: int| i <= j < s.len() ==> is_whitespace_char(#[trigger] s[j]),
        i == 0 || !is_whitespace_char(s[i - 1]),
    ensures
        trailing_ws(s) == s.len() - i,
    decreases s.len() - i,
{
    if i < s.len() {
        lemma_trailing_ws(s.drop_last(), i);
    }
}

proof fn lemma_leading_ws_bound(s: Seq<char>)
    ensures
        leading_ws(s) <= s.len(),
    decreases s.len(),
{
    if s.len() > 0 {
        lemma_leading_ws_bound(s.drop_first());
    }
}

/// `s` without its leading white space (what `trim_start()` yields).
pub fn trim_start(s: &str) -> (r: String)
    ensures
        r@ == trim_start_seq(s@),
{
    let cs = chars_of(s);
    let n = cs.len();
    let mut i: usize = 0;
    while i < n && char_is_whitespace(cs[i])
        invariant
            cs@ == s@,
            n == cs@.len(),
            i <= n,
            forall|j: int| 0 <= j < i ==> is_whitespace_char(#[trigger] s@[j]),
        decreases n - i,
    {
        i += 1;
    }
    proof {
        lemma_leading_ws(s@, i as int);
        assert(s@.subrange(i as int, n as int) =~= s@.skip(i as int));
    }
    substring(s, i, n)
}

/// `s` without its leading and trailing white space (what `trim()` yields).
pub fn trim(s: &str) -> (r: String)
    ensures
        r@ == trim_seq(s@),
{
    let cs = chars_of(s);
    let n = cs.len();
    let mut i: usize = 0;
    while i < n && char_is_whitespace(cs[i])
        invariant
            cs@ == s@,
            n == cs@.len(),
            i <= n,
            forall|j: int| 0 <= j < i ==> is_whitespace_char(#[trigger] s@[j]),
        decreases n - i,
    {
        i += 1;
    }
    let mut k: usize = n;
    while k > i && char_is_whitespace(cs[k - 1])
        invariant
            cs@ == s@,
            n == cs@.len(),
            i <= k <= n,
            forall|j: int| k <= j < n ==> is_whitespace_char(#[trigger] s@[j]),
        decreases k - i,
    {
        k -= 1;
    }
    let ghost t = s@.skip(i as int);
    proof {
        lemma_leading_ws(s@, i as int);
        assert forall|j: int| k - i <= j < t.len() implies is_whitespace_char(#[trigger] t[j]) by {
            assert(t[j] == s@[j + i]);
        }
        if k > i {
            assert(t[k - i - 1] == s@[k - 1]);
        }
        lemma_trailing_ws(t, k - i);
        assert(t.take(k - i) =~= s@.subrange(i as int, k as int));
    }
    substring(s, i, k)
}

/// Whether `c` is an ASCII decimal digit.
pub open spec fn is_digit(c: char) -> bool {
    48 <= (c as u32) <= 57
}

/// The number that a run of decimal digits denotes.
pub open spec fn digits_value(s: Seq<char>) -> int
    decreases s.len(),
{
    if s.len() == 0 {
        0
    } else {
        digits_value(s.drop_last()) * 10 + ((s.last() as u32) - 48)
    }
}

pub open spec fn all_digits(s: Seq<char>) -> bool {
    forall|i: int| 0 <= i < s.len() ==> is_digit(#[trigger] s[i])
}

/// `s` without one leading `'+'`.
pub open spec fn unsigned_digits(s: Seq<char>) -> Seq<char> {
    if s.len() > 0 && s[0] == '+' {
        s.drop_first()
    } else {
        s
    }
}

/// What `s.parse::<u64>()` accepts: an optional `'+'`, then at least one
/// decimal digit, denoting a value that fits in 64 bits.
pub open spec fn parse_u64_seq(s: Seq<char>) -> Option<u64> {
    let d = unsigned_digits(s);
    if d.len() > 0 && all_digits(d) && digits_value(d) <= u64::MAX {
        Some(digits_value(d) as u64)
    } else {
        None
    }
}

proof fn lemma_digits_value_nonneg(s: Seq<char>)
    requires
        all_digits(s),
    ensures
        digits_value(s) >= 0,
    decreases s.len(),
{
    if s.len() > 0 {
        assert(all_digits(s.drop_last())) by {
            assert forall|i: int| 0 <= i < s.drop_last().len() implies is_digit(
                #[trigger] s.drop_last()[i],
            ) by {
                assert(s.drop_last()[i] == s[i]);
            }
        }
        lemma_digits_value_nonneg(s.drop_last());
        assert(is_digit(s[s.len() - 1]));
    }
}

proof fn lemma_digits_prefix_le(s: Seq<char>, k: int)
    requires
        all_digits(s),
        0 <= k <= s.len(),
    ensures
        digits_value(s.take(k)) <= digits_value(s),
    decreases s.len(),
{
    if k < s.len() {
        let t = s.drop_last();
        assert(all_digits(t)) by {
            assert forall|i: int| 0 <= i < t.len() implies is_digit(#[trigger] t[i]) by {
                assert(t[i] == s[i]);
            }
        }
        lemma_digits_prefix_le(t, k);
        assert(t.take(k) =~= s.take(k));
        lemma_digits_value_nonneg(t);
        assert(is_digit(s[s.len() - 1]));
    } else {
        assert(s.take(k) =~= s);
    }
}

/// `s.parse::<u64>()`, as `Some` on success.
pub fn parse_u64(s: &str) -> (r: Option<u64>)
    ensures
        r == parse_u64_seq(s@),
{
    let cs = chars_of(s);
    let n = cs.len();
    let start: usize = if n > 0 && cs[0] == '+' {
        1
    } else {
        0
    };
    let ghost d = unsigned_digits(s@);
    proof {
        assert(d =~= s@.skip(start as int));
    }
    if start == n {
        return None;
    }
    let mut v: u64 = 0;
    let mut i: usize = start;
    proof {
        assert(d.take(0) =~= Seq::<char>::empty());
    }
    while i < n
        invariant
            cs@ == s@,
            n == cs@.len(),
            start <= i <= n,
            d == s@.skip(start as int),
            d == unsigned_digits(s@),
            all_digits(d.take(i - start)),
            v == digits_value(d.take(i - start)),
        decreases n - i,
    {
        let c = cs[i];
        assert(d[i - start] == c);
        let code = c as u32;
        if !(48 <= code && code <= 57) {
            assert(!is_digit(d[i - start]));
            assert(!all_digits(d));
            assert(parse_u64_seq(s@) is None);
            return None;
        }
        let digit: u64 = (code - 48) as u64;
        let ghost next = d.take(i - start + 1);
        proof {
            assert(next.drop_last() =~= d.take(i - start));
            assert(next.last() == c);
            assert(all_digits(next)) by {
                assert forall|j: int| 0 <= j < next.len() implies is_digit(#[trigger] next[j]) by {
                    if j < next.len() - 1 {
                        assert(next[j] == d.take(i - start)[j]);
                    }
                }
            }
        }
        let grown = match v.checked_mul(10) {
            Some(m) => m.checked_add(digit),
            None => None,
        };
        match grown {
            Some(w) => {
                v = w;
            },
            None => {
                proof {
                    lemma_digits_value_nonneg(d.take(i - start));
                    assert(digits_value(next) == v * 10 + digit);
                    assert(digits_value(next) > u64::MAX);
                    if all_digits(d) {
                        lemma_digits_prefix_le(d, i - start + 1);
                    }
                    assert(parse_u64_seq(s@) is None);
                }
                return None;
            },
        }
        i += 1;
    }
    proof {
        assert(d.take(n - start) =~= d);
    }
    Some(v)
}

/// The decimal digits, `'0'` to `'9'`.
pub open spec fn digits() -> Seq<char> {
    seq!['0', '1', '2', '3', '4', '5', '6', '7', '8', '9']
}

/// The decimal writing of `n`, without leading zeros.
pub open spec fn decimal(n: nat) -> Seq<char>
    decreases n,
{
    if n < 10 {
        seq![digits()[n as int]]
    } else {
        decimal(n / 10).push(digits()[(n % 10) as int])
    }
}

/// The one-character text of digit `d`.
fn digit_str(d: usize) -> (r: &'static str)
    requires
        d < 10,
    ensures
        r@ == seq![digits()[d as int]],
{
    proof {
        reveal_strlit("0");
        reveal_strlit("1");
        reveal_strlit("2");
        reveal_strlit("3");
        reveal_strlit("4");
        reveal_strlit("5");
        reveal_strlit("6");
        reveal_strlit("7");
        reveal_strlit("8");
        reveal_strlit("9");
    }
    if d == 0 {
        "0"
    } else if d == 1 {
        "1"
    } else if d == 2 {
        "2"
    } else if d == 3 {
        "3"
    } else if d == 4 {
        "4"
    } else if d == 5 {
        "5"
    } else if d == 6 {
        "6"
    } else if d == 7 {
        "7"
    } else if d == 8 {
        "8"
    } else {
        "9"
    }
}

/// `n` written in decimal.
pub fn decimal_string(n: usize) -> (r: String)
    ensures
        r@ == decimal(n as nat),
    decreases n,
{
    if n < 10 {
        String::from_str(digit_str(n))
    } else {
        let mut r = decimal_string(n / 10);
        r.append(digit_str(n % 10));
        r
    }
}

} // verus!
