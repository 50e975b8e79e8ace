//! Text as sequences of characters: searching, trimming, splitting and joining.
//!
//! Every contract in the crate that speaks of text speaks of `Seq<char>`, the
//! view of `str` and `String`. The executable functions work on `Vec<char>`,
//! which gives constant-time indexing.

use vstd::prelude::*;

verus! {

/// `String::push` appends one character.
pub assume_specification[ String::push ](s: &mut String, c: char)
    ensures
        final(s)@ == old(s)@.push(c),
;

/// Whether `needle` stands in `hay` at position `at`.
pub open spec fn occurs_at(hay: Seq<char>, needle: Seq<char>, at: int) -> bool {
    &&& 0 <= at
    &&& at + needle.len() <= hay.len()
    &&& hay.subrange(at, at + needle.len()) == needle
}

/// The first position at or after `from` where `needle` stands in `hay`.
pub open spec fn find_from(hay: Seq<char>, needle: Seq<char>, from: int) -> Option<int>
    decreases hay.len() - from + 1,
{
    if from < 0 || from + needle.len() > hay.len() {
        None
    } else if occurs_at(hay, needle, from) {
        Some(from)
    } else {
        find_from(hay, needle, from + 1)
    }
}

/// Whether `needle` stands anywhere in `hay`.
pub open spec fn contains(hay: Seq<char>, needle: Seq<char>) -> bool {
    find_from(hay, needle, 0) is Some
}

/// Whether `s` begins with `prefix`.
pub open spec fn starts_with(s: Seq<char>, prefix: Seq<char>) -> bool {
    occurs_at(s, prefix, 0)
}

/// The characters with the Unicode property `White_Space`.
pub open spec fn is_space(c: char) -> bool {
    ||| '\u{9}' <= c <= '\u{D}'
    ||| c == ' '
    ||| c == '\u{85}'
    ||| c == '\u{A0}'
    ||| c == '\u{1680}'
    ||| '\u{2000}' <= c <= '\u{200A}'
    ||| c == '\u{2028}'
    ||| c == '\u{2029}'
    ||| c == '\u{202F}'
    ||| c == '\u{205F}'
    ||| c == '\u{3000}'
}

/// `s` without its leading white space.
pub open spec fn trim_start(s: Seq<char>) -> Seq<char>
    decreases s.len(),
{
    if s.len() > 0 && is_space(s[0]) {
        trim_start(s.drop_first())
    } else {
        s
    }
}

/// `s` without its trailing white space.
pub open spec fn trim_end(s: Seq<char>) -> Seq<char>
    decreases s.len(),
{
    if s.len() > 0 && is_space(s.last()) {
        trim_end(s.drop_last())
    } else {
        s
    }
}

/// `s` without leading and trailing white space.
pub open spec fn trim(s: Seq<char>) -> Seq<char> {
    trim_end(trim_start(s))
}

/// The parts with `sep` between each two neighbours.
pub open spec fn join(parts: Seq<Seq<char>>, sep: Seq<char>) -> Seq<char>
    decreases parts.len(),
{
    if parts.len() == 0 {
        Seq::empty()
    } else if parts.len() == 1 {
        parts[0]
    } else {
        join(parts.drop_last(), sep) + sep + parts.last()
    }
}

/// A line without the carriage return that may end it.
pub open spec fn strip_cr(line: Seq<char>) -> Seq<char> {
    if line.len() > 0 && line.last() == '\r' {
        line.drop_last()
    } else {
        line
    }
}

/// The lines of `s`: it is cut at every line feed, a carriage return just
/// before a line feed goes with it, and a text that ends in a line feed has
/// no empty last line.
pub open spec fn lines(s: Seq<char>) -> Seq<Seq<char>>
    decreases s.len(),
{
    if s.len() == 0 {
        Seq::empty()
    } else {
        match find_from(s, seq!['\n'], 0) {
            Some(i) => if 0 <= i < s.len() {
                seq![strip_cr(s.subrange(0, i))] + lines(s.subrange(i + 1, s.len() as int))
            } else {
                seq![s]
            },
            None => seq![s],
        }
    }
}

/// The views of a vector of character vectors.
pub open spec fn views(v: Seq<Vec<char>>) -> Seq<Seq<char>> {
    Seq::new(v.len(), |i: int| v[i]@)
}

/// The views of a vector of strings.
pub open spec fn string_views(v: Seq<String>) -> Seq<Seq<char>> {
    Seq::new(v.len(), |i: int| v[i]@)
}

/// What `find_from` finds is the first occurrence at or after `from`.
pub proof fn lemma_find_from(hay: Seq<char>, needle: Seq<char>, from: int)
    requires
        0 <= from,
    ensures
        match find_from(hay, needle, from) {
            Some(i) => from <= i && occurs_at(hay, needle, i) && forall|j: int|
                from <= j < i ==> !occurs_at(hay, needle, j),
            None => forall|j: int| from <= j ==> !occurs_at(hay, needle, j),
        },
    decreases hay.len() - from + 1,
{
    if from + needle.len() > hay.len() {
    } else if occurs_at(hay, needle, from) {
    } else {
        lemma_find_from(hay, needle, from + 1);
    }
}

/// An occurrence with none before it is what `find_from` finds.
pub proof fn lemma_find_from_is(hay: Seq<char>, needle: Seq<char>, from: int, at: int)
    requires
        0 <= from <= at,
        occurs_at(hay, needle, at),
        forall|j: int| from <= j < at ==> !occurs_at(hay, needle, j),
    ensures
        find_from(hay, needle, from) == Some(at),
    decreases at - from,
{
    if from < at {
        lemma_find_from_is(hay, needle, from + 1, at);
    }
}

/// Collects the characters of a string slice.
pub fn chars_of(s: &str) -> (v: Vec<char>)
    ensures
        v@ == s@,
{
    let mut v: Vec<char> = Vec::new();
    for c in it: s.chars()
        invariant
            v@ == it.seq().subrange(0, it.index() as int),
            it.seq() == s@,
    {
        v.push(c);
    }
    v
}

/// Builds a string from characters.
pub fn string_of(v: &Vec<char>) -> (s: String)
    ensures
        s@ == v@,
{
    let mut s = String::new();
    let mut i: usize = 0;
    while i < v.len()
        invariant
            i <= v.len(),
            s@ == v@.subrange(0, i as int),
        decreases v.len() - i,
    {
        s.push(v[i]);
        i = i + 1;
    }
    assert(v@.subrange(0, v.len() as int) == v@);
    s
}

/// Whether two string slices hold the same characters.
pub fn same_text(a: &str, b: &str) -> (r: bool)
    ensures
        r == (a@ == b@),
{
    let x = chars_of(a);
    let y = chars_of(b);
    same_chars(&x, &y)
}

/// Whether two character vectors hold the same characters.
pub fn same_chars(x: &Vec<char>, y: &Vec<char>) -> (r: bool)
    ensures
        r == (x@ == y@),
{
    if x.len() != y.len() {
        return false;
    }
    let mut i: usize = 0;
    while i < x.len()
        invariant
            i <= x.len(),
            x.len() == y.len(),
            forall|j: int| 0 <= j < i ==> x@[j] == y@[j],
        decreases x.len() - i,
    {
        if x[i] != y[i] {
            return false;
        }
        i = i + 1;
    }
    assert(x@ =~= y@);
    true
}

/// Whether `needle` stands in `hay` at position `at`.
pub fn matches_at(hay: &Vec<char>, needle: &Vec<char>, at: usize) -> (r: bool)
    ensures
        r == occurs_at(hay@, needle@, at as int),
{
    if needle.len() > hay.len() || at > hay.len() - needle.len() {
        return false;
    }
    let mut k: usize = 0;
    while k < needle.len()
        invariant
            k <= needle.len(),
            at + needle.len() <= hay.len(),
            forall|j: int| 0 <= j < k ==> hay@[at + j] == needle@[j],
        decreases needle.len() - k,
    {
        if hay[at + k] != needle[k] {
            assert(hay@.subrange(at as int, at + needle.len())[k as int] == hay@[at + k]);
            return false;
        }
        k = k + 1;
    }
    assert(hay@.subrange(at as int, at + needle.len()) =~= needle@);
    true
}

/// The first position at or after `from` where `needle` stands in `hay`.
pub fn find_in(hay: &Vec<char>, needle: &Vec<char>, from: usize) -> (r: Option<usize>)
    ensures
        match r {
            Some(i) => find_from(hay@, needle@, from as int) == Some(i as int) && from <= i && i
                + needle.len() <= hay.len(),
            None => find_from(hay@, needle@, from as int) is None,
        },
{
    if needle.len() > hay.len() || from > hay.len() - needle.len() {
        return None;
    }
    let last: usize = hay.len() - needle.len();
    let mut i: usize = from;
    loop
        invariant
            from <= i <= last,
            last == hay.len() - needle.len(),
            find_from(hay@, needle@, from as int) == find_from(hay@, needle@, i as int),
        decreases last - i,
    {
        if matches_at(hay, needle, i) {
            return Some(i);
        }
        if i == last {
            assert(find_from(hay@, needle@, i + 1) is None);
            return None;
        }
        i = i + 1;
    }
}

/// Whether `s` begins with `prefix`.
pub fn has_prefix(s: &Vec<char>, prefix: &Vec<char>) -> (r: bool)
    ensures
        r == starts_with(s@, prefix@),
{
    matches_at(s, prefix, 0)
}

/// The characters of `v` from `from` up to `to`.
pub fn slice_of(v: &Vec<char>, from: usize, to: usize) -> (r: Vec<char>)
    requires
        from <= to <= v.len(),
    ensures
        r@ == v@.subrange(from as int, to as int),
{
    let mut r: Vec<char> = Vec::new();
    let mut i: usize = from;
    while i < to
        invariant
            from <= i <= to <= v.len(),
            r@ == v@.subrange(from as int, i as int),
        decreases to - i,
    {
        r.push(v[i]);
        i = i + 1;
    }
    r
}

/// Appends the characters of `src` to `dst`.
pub fn append_chars(dst: &mut Vec<char>, src: &Vec<char>)
    ensures
        final(dst)@ == old(dst)@ + src@,
{
    let mut i: usize = 0;
    while i < src.len()
        invariant
            i <= src.len(),
            dst@ == old(dst)@ + src@.subrange(0, i as int),
        decreases src.len() - i,
    {
        dst.push(src[i]);
        i = i + 1;
    }
    assert(src@.subrange(0, src.len() as int) == src@);
}

/// Whether `c` is white space.
pub fn is_whitespace(c: char) -> (r: bool)
    ensures
        r == is_space(c),
{
    ('\u{9}' <= c && c <= '\u{D}') || c == ' ' || c == '\u{85}' || c == '\u{A0}' || c
        == '\u{1680}' || ('\u{2000}' <= c && c <= '\u{200A}') || c == '\u{2028}' || c
        == '\u{2029}' || c == '\u{202F}' || c == '\u{205F}' || c == '\u{3000}'
}

/// Trimming the start drops a run of white space.
pub proof fn lemma_trim_start(s: Seq<char>, n: int)
    requires
        0 <= n <= s.len(),
        forall|j: int| 0 <= j < n ==> is_space(s[j]),
        n < s.len() ==> !is_space(s[n]),
    ensures
        trim_start(s) == s.subrange(n, s.len() as int),
    decreases n,
{
    if n == 0 {
        assert(s.subrange(0, s.len() as int) == s);
    } else {
        let t = s.drop_first();
        assert forall|j: int| 0 <= j < n - 1 implies is_space(t[j]) by {
            assert(t[j] == s[j + 1]);
        }
        lemma_trim_start(t, n - 1);
        assert(t.subrange(n - 1, t.len() as int) == s.subrange(n, s.len() as int));
    }
}

/// Trimming the end drops a run of white space.
pub proof fn lemma_trim_end(s: Seq<char>, n: int)
    requires
        0 <= n <= s.len(),
        forall|j: int| n <= j < s.len() ==> is_space(s[j]),
        n > 0 ==> !is_space(s[n - 1]),
    ensures
        trim_end(s) == s.subrange(0, n),
    decreases s.len() - n,
{
    if n == s.len() {
        assert(s.subrange(0, s.len() as int) == s);
    } else {
        let t = s.drop_last();
        lemma_trim_end(t, n);
        assert(t.subrange(0, n) == s.subrange(0, n));
    }
}

/// `v` without leading and trailing white space.
pub fn trim_chars(v: &Vec<char>) -> (r: Vec<char>)
    ensures
        r@ == trim(v@),
{
    let mut start: usize = 0;
    while start < v.len() && is_whitespace(v[start])
        invariant
            start <= v.len(),
            forall|j: int| 0 <= j < start ==> is_space(v@[j]),
        decreases v.len() - start,
    {
        start = start + 1;
    }
    let mut end: usize = v.len();
    while end > start && is_whitespace(v[end - 1])
        invariant
            start <= end <= v.len(),
            forall|j: int| end <= j < v.len() ==> is_space(v@[j]),
        decreases end,
    {
        end = end - 1;
    }
    proof {
        lemma_trim_start(v@, start as int);
        let t = v@.subrange(start as int, v.len() as int);
        assert forall|j: int| end - start <= j < t.len() implies is_space(t[j]) by {
            assert(t[j] == v@[j + start]);
        }
        if end > start {
            assert(t[end - start - 1] == v@[end - 1]);
        }
        lemma_trim_end(t, end - start);
        assert(t.subrange(0, end - start) == v@.subrange(start as int, end as int));
    }
    slice_of(v, start, end)
}

/// The lines of `v`.
pub fn split_lines(v: &Vec<char>) -> (r: Vec<Vec<char>>)
    ensures
        views(r@) == lines(v@),
{
    let mut r: Vec<Vec<char>> = Vec::new();
    let mut start: usize = 0;
    let mut i: usize = 0;
    proof {
        assert(v@.subrange(0, v.len() as int) == v@);
        assert(views(r@) + lines(v@) =~= lines(v@));
    }
    while i < v.len()
        invariant
            start <= i <= v.len(),
            forall|j: int| start <= j < i ==> v@[j] != '\n',
            lines(v@) == views(r@) + lines(v@.subrange(start as int, v.len() as int)),
        decreases v.len() - i,
    {
        if v[i] == '\n' {
            let end: usize = if i > start && v[i - 1] == '\r' {
                i - 1
            } else {
                i
            };
            let line = slice_of(v, start, end);
            proof {
                let rest = v@.subrange(start as int, v.len() as int);
                let nl = seq!['\n'];
                assert(rest.subrange(i - start, i - start + 1) =~= nl);
                assert forall|j: int| 0 <= j < i - start implies !occurs_at(rest, nl, j) by {
                    if occurs_at(rest, nl, j) {
                        assert(rest.subrange(j, j + 1)[0] == '\n');
                        assert(rest[j] == v@[start + j]);
                    }
                }
                lemma_find_from_is(rest, nl, 0, i - start);
                assert(rest.subrange(0, i - start) == v@.subrange(start as int, i as int));
                assert(strip_cr(v@.subrange(start as int, i as int)) == line@);
                assert(rest.subrange(i - start + 1, rest.len() as int) == v@.subrange(
                    i + 1,
                    v.len() as int,
                ));
                assert(views(r@.push(line)) =~= views(r@) + seq![line@]);
            }
            r.push(line);
            start = i + 1;
        }
        i = i + 1;
    }
    if start < v.len() {
        let line = slice_of(v, start, v.len());
        proof {
            let rest = v@.subrange(start as int, v.len() as int);
            let nl = seq!['\n'];
            assert forall|j: int| 0 <= j implies !occurs_at(rest, nl, j) by {
                if occurs_at(rest, nl, j) {
                    assert(rest.subrange(j, j + 1)[0] == '\n');
                    assert(rest[j] == v@[start + j]);
                }
            }
            lemma_find_from(rest, nl, 0);
            assert(views(r@.push(line)) =~= views(r@) + seq![line@]);
        }
        r.push(line);
    } else {
        assert(views(r@) + Seq::<Seq<char>>::empty() =~= views(r@));
    }
    r
}

/// The strings of `parts` with `sep` between each two neighbours.
pub fn join_strings(parts: &Vec<String>, sep: &str) -> (r: String)
    ensures
        r@ == join(string_views(parts@), sep@),
{
    let mut r = String::new();
    let mut i: usize = 0;
    while i < parts.len()
        invariant
            i <= parts.len(),
            r@ == join(string_views(parts@).subrange(0, i as int), sep@),
        decreases parts.len() - i,
    {
        proof {
            let all = string_views(parts@);
            let next = all.subrange(0, i + 1);
            assert(next.drop_last() == all.subrange(0, i as int));
            assert(next.last() == parts@[i as int]@);
            if i == 0 {
                assert(Seq::<char>::empty() + parts@[0]@ == parts@[0]@);
            }
        }
        if i > 0 {
            r.append(sep);
        }
        r.append(parts[i].as_str());
        i = i + 1;
    }
    assert(string_views(parts@).subrange(0, parts.len() as int) == string_views(parts@));
    r
}

/// The decimal digits of a natural number, most significant first.
pub open spec fn digits(n: nat) -> Seq<char>
    decreases n,
{
    if n < 10 {
        seq![digit_char(n)]
    } else {
        digits(n / 10).push(digit_char(n % 10))
    }
}

/// The character of one decimal digit.
pub open spec fn digit_char(d: nat) -> char {
    if d == 0 {
        '0'
    } else if d == 1 {
        '1'
    } else if d == 2 {
        '2'
    } else if d == 3 {
        '3'
    } else if d == 4 {
        '4'
    } else if d == 5 {
        '5'
    } else if d == 6 {
        '6'
    } else if d == 7 {
        '7'
    } else if d == 8 {
        '8'
    } else {
        '9'
    }
}

/// The decimal form of an integer, with a minus sign before a negative one.
pub open spec fn decimal(n: int) -> Seq<char> {
    if n < 0 {
        seq!['-'] + digits((-n) as nat)
    } else {
        digits(n as nat)
    }
}

fn digit_of(d: u64) -> (c: char)
    requires
        d < 10,
    ensures
        c == digit_char(d as nat),
{
    if d == 0 {
        '0'
    } else if d == 1 {
        '1'
    } else if d == 2 {
        '2'
    } else if d == 3 {
        '3'
    } else if d == 4 {
        '4'
    } else if d == 5 {
        '5'
    } else if d == 6 {
        '6'
    } else if d == 7 {
        '7'
    } else if d == 8 {
        '8'
    } else {
        '9'
    }
}

/// The decimal digits of `n`.
pub fn digits_of(n: u64) -> (r: Vec<char>)
    ensures
        r@ == digits(n as nat),
{
    let mut rev: Vec<char> = Vec::new();
    let mut m: u64 = n;
    while m >= 10
        invariant
            digits(n as nat) == digits(m as nat) + rev@.reverse(),
        decreases m,
    {
        let d = digit_of(m % 10);
        proof {
            assert(rev@.push(d).reverse() =~= seq![d] + rev@.reverse());
            assert(digits(m as nat) == digits((m / 10) as nat).push(d));
            assert(digits((m / 10) as nat).push(d) + rev@.reverse() =~= digits((m / 10) as nat)
                + (seq![d] + rev@.reverse()));
        }
        rev.push(d);
        m = m / 10;
    }
    let mut r: Vec<char> = Vec::new();
    r.push(digit_of(m));
    let mut i: usize = rev.len();
    while i > 0
        invariant
            i <= rev.len(),
            r@ == digits(m as nat) + rev@.reverse().subrange(0, rev.len() - i),
        decreases i,
    {
        i = i - 1;
        proof {
            let k = rev.len() - i - 1;
            assert(rev@.reverse()[k] == rev@[i as int]);
            assert(rev@.reverse().subrange(0, k + 1) =~= rev@.reverse().subrange(0, k).push(
                rev@[i as int],
            ));
        }
        r.push(rev[i]);
    }
    assert(rev@.reverse().subrange(0, rev.len() as int) == rev@.reverse());
    r
}

/// The decimal form of `n`.
pub fn decimal_of(n: i64) -> (r: Vec<char>)
    ensures
        r@ == decimal(n as int),
{
    if n < 0 {
        let magnitude: u64 = if n == i64::MIN {
            9223372036854775808u64
        } else {
            (-n) as u64
        };
        let mut r: Vec<char> = Vec::new();
        r.push('-');
        let d = digits_of(magnitude);
        append_chars(&mut r, &d);
        r
    } else {
        digits_of(n as u64)
    }
}

/// `s` with `to` before every character and at the end.
pub open spec fn woven(s: Seq<char>, to: Seq<char>) -> Seq<char>
    decreases s.len(),
{
    if s.len() == 0 {
        to
    } else {
        woven(s.drop_last(), to).push(s.last()) + to
    }
}

/// `s` with `to` in the place of every occurrence of `from`, taken from
/// left to right without overlap. An empty `from` occurs before every
/// character and at the end.
pub open spec fn replaced(s: Seq<char>, from: Seq<char>, to: Seq<char>) -> Seq<char>
    decreases s.len(),
{
    if from.len() == 0 {
        woven(s, to)
    } else {
        match find_from(s, from, 0) {
            Some(i) => if 0 <= i && i + from.len() <= s.len() {
                s.subrange(0, i) + to + replaced(
                    s.subrange(i + from.len(), s.len() as int),
                    from,
                    to,
                )
            } else {
                s
            },
            None => s,
        }
    }
}

/// The words of `s`: its longest runs of characters that are no white space.
pub open spec fn words(s: Seq<char>) -> Seq<Seq<char>>
    decreases s.len(),
{
    if s.len() == 0 {
        Seq::empty()
    } else if is_space(s.last()) {
        words(s.drop_last())
    } else if s.len() >= 2 && !is_space(s[s.len() - 2]) && words(s.drop_last()).len() > 0 {
        words(s.drop_last()).drop_last().push(words(s.drop_last()).last().push(s.last()))
    } else {
        words(s.drop_last()).push(seq![s.last()])
    }
}

/// `s` with every run of white space shrunk to one space and none at the
/// ends.
pub open spec fn squeezed(s: Seq<char>) -> Seq<char> {
    join(words(s), seq![' '])
}

/// The first `n` characters of `s`, or all of it where it is shorter.
pub open spec fn prefix(s: Seq<char>, n: nat) -> Seq<char> {
    if n < s.len() {
        s.subrange(0, n as int)
    } else {
        s
    }
}

/// `s` with `to` in the place of every occurrence of `from`.
pub fn replace_all(s: &Vec<char>, from: &Vec<char>, to: &Vec<char>) -> (r: Vec<char>)
    ensures
        r@ == replaced(s@, from@, to@),
{
    let mut out: Vec<char> = Vec::new();
    if from.len() == 0 {
        append_chars(&mut out, to);
        let mut i: usize = 0;
        while i < s.len()
            invariant
                i <= s.len(),
                from@.len() == 0,
                out@ == woven(s@.subrange(0, i as int), to@),
            decreases s.len() - i,
        {
            proof {
                let next = s@.subrange(0, i + 1);
                assert(next.last() == s@[i as int]);
                assert(next.drop_last() == s@.subrange(0, i as int));
            }
            out.push(s[i]);
            append_chars(&mut out, to);
            i = i + 1;
        }
        assert(s@.subrange(0, s.len() as int) == s@);
        return out;
    }
    let mut start: usize = 0;
    assert(s@.subrange(0, s.len() as int) == s@);
    assert(out@ + replaced(s@, from@, to@) =~= replaced(s@, from@, to@));
    loop
        invariant
            start <= s.len(),
            from@.len() > 0,
            replaced(s@, from@, to@) == out@ + replaced(
                s@.subrange(start as int, s.len() as int),
                from@,
                to@,
            ),
        decreases s.len() - start,
    {
        let ghost rest = s@.subrange(start as int, s.len() as int);
        match find_in(s, from, start) {
            Some(at) => {
                proof {
                    lemma_find_from(s@, from@, start as int);
                    lemma_find_shift(s@, from@, start as int, at as int);
                    assert(rest.subrange(0, at - start) == s@.subrange(start as int, at as int));
                    assert(rest.subrange(at - start + from.len(), rest.len() as int)
                        == s@.subrange(at + from.len(), s.len() as int));
                }
                let ghost before = out@;
                let piece = slice_of(s, start, at);
                append_chars(&mut out, &piece);
                append_chars(&mut out, to);
                proof {
                    let tail = replaced(s@.subrange(at + from.len(), s.len() as int), from@, to@);
                    assert(before + (piece@ + to@ + tail) =~= before + piece@ + to@ + tail);
                }
                start = at + from.len();
            },
            None => {
                proof {
                    lemma_find_from(s@, from@, start as int);
                    lemma_find_none_shift(s@, from@, start as int);
                }
                let piece = slice_of(s, start, s.len());
                append_chars(&mut out, &piece);
                return out;
            },
        }
    }
}

/// An occurrence found from `from` on is, counted from `from`, the first
/// occurrence in what follows `from`.
pub proof fn lemma_find_shift(hay: Seq<char>, needle: Seq<char>, from: int, at: int)
    requires
        0 <= from <= at,
        find_from(hay, needle, from) == Some(at),
    ensures
        find_from(hay.subrange(from, hay.len() as int), needle, 0) == Some(at - from),
{
    lemma_find_from(hay, needle, from);
    let rest = hay.subrange(from, hay.len() as int);
    assert(rest.subrange(at - from, at - from + needle.len()) == hay.subrange(
        at,
        at + needle.len(),
    ));
    assert forall|j: int| 0 <= j < at - from implies !occurs_at(rest, needle, j) by {
        if occurs_at(rest, needle, j) {
            assert(hay.subrange(from + j, from + j + needle.len()) == rest.subrange(
                j,
                j + needle.len(),
            ));
            assert(occurs_at(hay, needle, from + j));
        }
    }
    lemma_find_from_is(rest, needle, 0, at - from);
}

/// Where nothing is found from `from` on, nothing is found in what follows
/// `from`.
pub proof fn lemma_find_none_shift(hay: Seq<char>, needle: Seq<char>, from: int)
    requires
        0 <= from <= hay.len(),
        find_from(hay, needle, from) is None,
    ensures
        find_from(hay.subrange(from, hay.len() as int), needle, 0) is None,
{
    lemma_find_from(hay, needle, from);
    let rest = hay.subrange(from, hay.len() as int);
    lemma_find_from(rest, needle, 0);
    if find_from(rest, needle, 0) is Some {
        let j = find_from(rest, needle, 0)->0;
        assert(hay.subrange(from + j, from + j + needle.len()) == rest.subrange(
            j,
            j + needle.len(),
        ));
        assert(occurs_at(hay, needle, from + j));
    }
}

/// `v` with every run of white space shrunk to one space and none at the
/// ends.
pub fn squeeze(v: &Vec<char>) -> (r: Vec<char>)
    ensures
        r@ == squeezed(v@),
{
    let mut out: Vec<char> = Vec::new();
    let mut i: usize = 0;
    let ghost sp = seq![' '];
    while i < v.len()
        invariant
            i <= v.len(),
            sp == seq![' '],
            out@ == join(words(v@.subrange(0, i as int)), sp),
            out@.len() > 0 <==> words(v@.subrange(0, i as int)).len() > 0,
            forall|k: int|
                0 <= k < words(v@.subrange(0, i as int)).len() ==> (#[trigger] words(
                    v@.subrange(0, i as int),
                )[k]).len() > 0,
        decreases v.len() - i,
    {
        let ghost head = v@.subrange(0, i as int);
        let ghost next = v@.subrange(0, i + 1);
        proof {
            assert(next.last() == v@[i as int]);
            assert(next.drop_last() == head);
            if i > 0 {
                assert(next[next.len() - 2] == v@[i - 1]);
            }
        }
        let c = v[i];
        if !is_whitespace(c) {
            let fresh = i == 0 || is_whitespace(v[i - 1]);
            proof {
                let w = words(head);
                if w.len() > 0 && !fresh {
                    let grown = w.drop_last().push(w.last().push(c));
                    assert(words(next) == grown);
                    lemma_join_grow(w, sp, c);
                } else {
                    assert(words(next) == w.push(seq![c]));
                    lemma_join_push(w, sp, seq![c]);
                }
            }
            if fresh && out.len() > 0 {
                out.push(' ');
            }
            out.push(c);
            proof {
                let w = words(head);
                if w.len() > 0 && !fresh {
                } else if w.len() > 0 {
                    assert(out@ =~= join(w, sp) + sp + seq![c]);
                } else {
                    assert(out@ =~= seq![c]);
                }
            }
        }
        i = i + 1;
    }
    assert(v@.subrange(0, v.len() as int) == v@);
    out
}

/// Joining after one more part.
pub proof fn lemma_join_push(parts: Seq<Seq<char>>, sep: Seq<char>, part: Seq<char>)
    ensures
        join(parts.push(part), sep) == if parts.len() == 0 {
            part
        } else {
            join(parts, sep) + sep + part
        },
{
    let all = parts.push(part);
    assert(all.drop_last() == parts);
    assert(all.last() == part);
}

/// Joining after the last part has grown by a character.
pub proof fn lemma_join_grow(parts: Seq<Seq<char>>, sep: Seq<char>, c: char)
    requires
        parts.len() > 0,
    ensures
        join(parts.drop_last().push(parts.last().push(c)), sep) == join(parts, sep).push(c),
{
    let head = parts.drop_last();
    let grown = head.push(parts.last().push(c));
    assert(grown.drop_last() == head);
    assert(grown.last() == parts.last().push(c));
    if parts.len() == 1 {
        assert(join(grown, sep) == parts.last().push(c));
    } else {
        assert(join(grown, sep) =~= join(head, sep) + sep + parts.last().push(c));
        assert(join(parts, sep).push(c) =~= join(head, sep) + sep + parts.last().push(c));
    }
}

/// The first `n` characters of `v`, or all of it where it is shorter.
pub fn take_prefix(v: &Vec<char>, n: usize) -> (r: Vec<char>)
    ensures
        r@ == prefix(v@, n as nat),
{
    if n < v.len() {
        slice_of(v, 0, n)
    } else {
        let r = slice_of(v, 0, v.len());
        assert(v@.subrange(0, v.len() as int) == v@);
        r
    }
}

/// The value of a decimal digit.
pub open spec fn digit_value(c: char) -> Option<nat> {
    if '0' <= c <= '9' {
        Some((c as nat - '0' as nat) as nat)
    } else {
        None
    }
}

/// The number that a row of decimal digits denotes; a row with anything but
/// digits in it, and an empty row, denote none.
pub open spec fn digits_value(s: Seq<char>) -> Option<nat>
    decreases s.len(),
{
    if s.len() == 0 {
        None
    } else if s.len() == 1 {
        digit_value(s[0])
    } else {
        match (digits_value(s.drop_last()), digit_value(s.last())) {
            (Some(high), Some(low)) => Some(high * 10 + low),
            _ => None,
        }
    }
}

/// The integer that `s` denotes: a row of decimal digits, with a sign before
/// it or without.
pub open spec fn signed_value(s: Seq<char>) -> Option<int> {
    if s.len() > 0 && s[0] == '-' {
        match digits_value(s.drop_first()) {
            Some(n) => Some(-(n as int)),
            None => None,
        }
    } else if s.len() > 0 && s[0] == '+' {
        match digits_value(s.drop_first()) {
            Some(n) => Some(n as int),
            None => None,
        }
    } else {
        match digits_value(s) {
            Some(n) => Some(n as int),
            None => None,
        }
    }
}

/// The 64-bit integer that `s` denotes, where what it denotes fits.
pub open spec fn i64_value(s: Seq<char>) -> Option<i64> {
    match signed_value(s) {
        Some(n) => if i64::MIN <= n <= i64::MAX {
            Some(n as i64)
        } else {
            None
        },
        None => None,
    }
}

/// A row with a character that is no digit denotes no number.
pub proof fn lemma_bad_digit(s: Seq<char>, at: int)
    requires
        0 <= at < s.len(),
        digit_value(s[at]) is None,
    ensures
        digits_value(s) is None,
    decreases s.len(),
{
    if s.len() > 1 {
        if at < s.len() - 1 {
            lemma_bad_digit(s.drop_last(), at);
        }
    }
}

/// The number that the characters of `v` from `from` up to `to` denote,
/// where they denote one that is at most `limit`.
pub fn parse_digits(v: &Vec<char>, from: usize, to: usize, limit: u64) -> (r: Option<u64>)
    requires
        from <= to <= v.len(),
    ensures
        match r {
            Some(n) => digits_value(v@.subrange(from as int, to as int)) == Some(n as nat) && n
                <= limit,
            None => match digits_value(v@.subrange(from as int, to as int)) {
                Some(n) => n > limit,
                None => true,
            },
        },
{
    if from == to {
        return None;
    }
    let ghost digits = v@.subrange(from as int, to as int);
    let mut value: u64 = 0;
    let mut over = false;
    let mut i: usize = from;
    while i < to
        invariant
            from <= i <= to <= v.len(),
            from < to,
            digits == v@.subrange(from as int, to as int),
            value <= limit,
            i > from ==> match digits_value(v@.subrange(from as int, i as int)) {
                Some(n) => if over {
                    n > limit
                } else {
                    n == value
                },
                None => false,
            },
            i == from ==> value == 0 && !over,
        decreases to - i,
    {
        let c = v[i];
        let ghost head = v@.subrange(from as int, i as int);
        let ghost next = v@.subrange(from as int, i + 1);
        proof {
            assert(next.last() == c);
            assert(next.drop_last() =~= head);
            if i == from {
                assert(next[0] == c);
            }
        }
        if c < '0' || c > '9' {
            proof {
                assert(digits[i - from] == c);
                lemma_bad_digit(digits, i - from);
            }
            return None;
        }
        let d: u64 = ((c as u32) - ('0' as u32)) as u64;
        if !over {
            let grown: u128 = (value as u128) * 10 + (d as u128);
            if grown > limit as u128 {
                over = true;
            } else {
                value = grown as u64;
            }
        } else {
            proof {
                let n = digits_value(head)->0;
                assert(n * 10 + d > limit);
            }
        }
        i = i + 1;
    }
    if over {
        None
    } else {
        Some(value)
    }
}

/// The 64-bit integer that `s` denotes, where it denotes one.
pub fn parse_i64(s: &str) -> (r: Option<i64>)
    ensures
        r == i64_value(s@),
{
    let v = chars_of(s);
    if v.len() == 0 {
        return None;
    }
    let negative = v[0] == '-';
    let start: usize = if negative || v[0] == '+' {
        1
    } else {
        0
    };
    proof {
        if start == 1 {
            assert(v@.drop_first() =~= v@.subrange(1, v.len() as int));
        } else {
            assert(v@ =~= v@.subrange(0, v.len() as int));
        }
    }
    if negative {
        match parse_digits(&v, start, v.len(), 9223372036854775808u64) {
            Some(n) => {
                if n == 9223372036854775808u64 {
                    Some(i64::MIN)
                } else {
                    Some(-(n as i64))
                }
            },
            None => None,
        }
    } else {
        match parse_digits(&v, start, v.len(), 9223372036854775807u64) {
            Some(n) => Some(n as i64),
            None => None,
        }
    }
}

} // verus!
