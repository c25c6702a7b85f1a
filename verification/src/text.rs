//! Character-level string utilities with specifications over `Seq<char>`.

use vstd::prelude::*;

verus! {

/// Unicode `White_Space` property, as `char::is_whitespace` documents it.
pub open spec fn spec_is_whitespace(c: char) -> bool {
    ||| ('\u{9}' <= c && c <= '\u{d}')
    ||| c == ' '
    ||| c == '\u{85}'
    ||| c == '\u{a0}'
    ||| c == '\u{1680}'
    ||| ('\u{2000}' <= c && c <= '\u{200a}')
    ||| c == '\u{2028}'
    ||| c == '\u{2029}'
    ||| c == '\u{202f}'
    ||| c == '\u{205f}'
    ||| c == '\u{3000}'
}

/// Whether `c` is Unicode whitespace.
pub fn is_whitespace(c: char) -> (b: bool)
    ensures
        b == spec_is_whitespace(c),
{
    ('\u{9}' <= c && c <= '\u{d}') || c == ' ' || c == '\u{85}' || c == '\u{a0}' || c
        == '\u{1680}' || ('\u{2000}' <= c && c <= '\u{200a}') || c == '\u{2028}' || c
        == '\u{2029}' || c == '\u{202f}' || c == '\u{205f}' || c == '\u{3000}'
}

/// The characters of `s`, in order.
pub fn chars_of(s: &str) -> (v: Vec<char>)
    ensures
        v@ == s@,
{
    let mut v: Vec<char> = Vec::new();
    for c in it: s.chars()
        invariant
            v@ == it.seq().take(it.index() as int),
            it.seq() == s@,
    {
        v.push(c);
    }
    v
}

} // verus!

verus! {

/// Appends `c` to `s` (`String::push`).
#[verifier::external_body]
pub(crate) fn push_char(s: &mut String, c: char)
    ensures
        final(s)@ == old(s)@.push(c),
{
    s.push(c);
}

/// The string whose characters are `v`.
pub fn string_from_chars(v: &[char]) -> (s: String)
    ensures
        s@ == v@,
{
    let mut s = String::new();
    let mut i: usize = 0;
    while i < v.len()
        invariant
            i <= v@.len(),
            s@ == v@.take(i as int),
        decreases v@.len() - i,
    {
        push_char(&mut s, v[i]);
        assert(v@.take(i + 1) == v@.take(i as int).push(v@[i as int]));
        i += 1;
    }
    assert(v@.take(v@.len() as int) == v@);
    s
}

/// Whether `n` occurs in `h` starting at position `i`.
pub open spec fn matches_at(h: Seq<char>, n: Seq<char>, i: int) -> bool {
    0 <= i && i + n.len() <= h.len() && h.subrange(i, i + n.len()) == n
}

/// `str::contains` with a string pattern.
pub open spec fn spec_contains(h: Seq<char>, n: Seq<char>) -> bool {
    exists|i: int| matches_at(h, n, i)
}

/// The first position at or after `i` at which `n` occurs in `h`.
pub open spec fn spec_find_from(h: Seq<char>, n: Seq<char>, i: int) -> Option<int>
    decreases h.len() + 1 - i,
{
    if i < 0 || i + n.len() > h.len() {
        None
    } else if matches_at(h, n, i) {
        Some(i)
    } else {
        spec_find_from(h, n, i + 1)
    }
}

/// The position of the first occurrence of `n` in `h` (`str::find`, counted in chars).
pub open spec fn spec_find(h: Seq<char>, n: Seq<char>) -> Option<int> {
    spec_find_from(h, n, 0)
}

/// What the search finds: the first match at or after `i`, or no match there.
pub proof fn lemma_find_from(h: Seq<char>, n: Seq<char>, i: int)
    requires
        0 <= i,
    ensures
        spec_find_from(h, n, i) matches Some(j) ==> i <= j && matches_at(h, n, j) && forall|k: int|
            i <= k < j ==> !matches_at(h, n, k),
        spec_find_from(h, n, i) is None ==> forall|k: int| i <= k ==> !matches_at(h, n, k),
    decreases h.len() + 1 - i,
{
    if i + n.len() <= h.len() && !matches_at(h, n, i) {
        lemma_find_from(h, n, i + 1);
    }
}

/// A text contains a pattern exactly when a search for it finds it.
pub proof fn lemma_find_contains(h: Seq<char>, n: Seq<char>)
    ensures
        spec_find(h, n) is Some <==> spec_contains(h, n),
{
    lemma_find_from(h, n, 0);
    if let Some(j) = spec_find(h, n) {
        assert(matches_at(h, n, j));
    }
}

/// A text contains whatever stands in it between two other texts.
pub proof fn lemma_contains_middle(x: Seq<char>, t: Seq<char>, y: Seq<char>)
    ensures
        spec_contains(x + t + y, t),
{
    assert((x + t + y).subrange(x.len() as int, (x.len() + t.len()) as int) =~= t);
    assert(matches_at(x + t + y, t, x.len() as int));
}

/// What a text contains, a longer text that begins or ends with it contains too.
pub proof fn lemma_contains_extend(a: Seq<char>, b: Seq<char>, t: Seq<char>)
    ensures
        spec_contains(a, t) ==> spec_contains(a + b, t),
        spec_contains(b, t) ==> spec_contains(a + b, t),
{
    if spec_contains(a, t) {
        let i = choose|i: int| matches_at(a, t, i);
        assert((a + b).subrange(i, i + t.len()) =~= a.subrange(i, i + t.len()));
        assert(matches_at(a + b, t, i));
    }
    if spec_contains(b, t) {
        let i = choose|i: int| matches_at(b, t, i);
        assert((a + b).subrange(a.len() + i, a.len() + i + t.len()) =~= b.subrange(i, i + t.len()));
        assert(matches_at(a + b, t, a.len() + i));
    }
}

/// Compares `n` against `h` at position `i`.
pub fn matches_at_exec(h: &[char], n: &[char], i: usize) -> (b: bool)
    ensures
        b == matches_at(h@, n@, i as int),
{
    if i > h.len() || n.len() > h.len() - i {
        return false;
    }
    let mut k: usize = 0;
    while k < n.len()
        invariant
            i + n@.len() <= h@.len(),
            h@.len() == h.len(),
            k <= n@.len(),
            forall|m: int| 0 <= m < k ==> h@[i + m] == n@[m],
        decreases n@.len() - k,
    {
        if h[i + k] != n[k] {
            assert(h@.subrange(i as int, i + n@.len())[k as int] != n@[k as int]);
            return false;
        }
        k += 1;
    }
    assert(h@.subrange(i as int, i + n@.len()) =~= n@);
    true
}

/// The first position at which `n` occurs in `h` at or after `from`.
pub fn find_from(h: &[char], n: &[char], from: usize) -> (r: Option<usize>)
    ensures
        r matches Some(i) ==> spec_find_from(h@, n@, from as int) == Some(i as int),
        r is None ==> spec_find_from(h@, n@, from as int) is None,
{
    if n.len() > h.len() {
        return None;
    }
    let last = h.len() - n.len();
    if from > last {
        return None;
    }
    let mut i = from;
    while i < last
        invariant
            from <= i <= last,
            last == h@.len() - n@.len(),
            spec_find_from(h@, n@, from as int) == spec_find_from(h@, n@, i as int),
        decreases last - i,
    {
        if matches_at_exec(h, n, i) {
            return Some(i);
        }
        i += 1;
    }
    if matches_at_exec(h, n, last) {
        Some(last)
    } else {
        assert(spec_find_from(h@, n@, last + 1) is None);
        None
    }
}

/// The first position at which `n` occurs in `h` (`str::find`, counted in chars).
pub fn find(h: &[char], n: &[char]) -> (r: Option<usize>)
    ensures
        r matches Some(i) ==> spec_find(h@, n@) == Some(i as int),
        r is None ==> spec_find(h@, n@) is None,
{
    find_from(h, n, 0)
}

/// Whether `n` occurs in `h` (`str::contains`).
pub fn contains(h: &[char], n: &[char]) -> (b: bool)
    ensures
        b == spec_contains(h@, n@),
{
    proof {
        lemma_find_contains(h@, n@);
    }
    find(h, n).is_some()
}

} // verus!

verus! {

/// Whether `s` begins with `p` (`str::starts_with`).
pub open spec fn spec_starts_with(s: Seq<char>, p: Seq<char>) -> bool {
    p.len() <= s.len() && s.take(p.len() as int) == p
}

/// `str::starts_with` with a string pattern.
pub fn starts_with(s: &[char], p: &[char]) -> (b: bool)
    ensures
        b == spec_starts_with(s@, p@),
{
    let b = matches_at_exec(s, p, 0);
    proof {
        if p@.len() <= s@.len() {
            assert(s@.subrange(0, p@.len() as int) == s@.take(p@.len() as int));
        }
    }
    b
}

/// `str::trim_start_matches` with a string pattern: every leading repetition
/// of `p` removed.
pub open spec fn spec_trim_start_matches(s: Seq<char>, p: Seq<char>) -> Seq<char>
    decreases s.len(),
{
    if p.len() > 0 && spec_starts_with(s, p) {
        spec_trim_start_matches(s.skip(p.len() as int), p)
    } else {
        s
    }
}

/// `str::trim_start_matches` with a string pattern.
pub fn trim_start_matches(s: &[char], p: &[char]) -> (r: Vec<char>)
    ensures
        r@ == spec_trim_start_matches(s@, p@),
{
    let mut i: usize = 0;
    assert(s@.skip(0) == s@);
    if p.len() > 0 {
        while i <= s.len() && matches_at_exec(s, p, i)
            invariant
                i <= s@.len(),
                p@.len() > 0,
                spec_trim_start_matches(s@, p@) == spec_trim_start_matches(s@.skip(i as int), p@),
            decreases s@.len() - i,
        {
            proof {
                let t = s@.skip(i as int);
                assert(t.take(p@.len() as int) == s@.subrange(i as int, i + p@.len()));
                assert(t.skip(p@.len() as int) == s@.skip(i + p@.len()));
            }
            i += p.len();
        }
    }
    proof {
        let t = s@.skip(i as int);
        if p@.len() > 0 && spec_starts_with(t, p@) {
            assert(t.take(p@.len() as int) == s@.subrange(i as int, i + p@.len()));
        }
    }
    slice_from(s, i)
}

/// The characters of `s` from position `i` on.
pub fn slice_from(s: &[char], i: usize) -> (r: Vec<char>)
    requires
        i <= s@.len(),
    ensures
        r@ == s@.skip(i as int),
{
    slice_range(s, i, s.len())
}

/// The characters of `s` in positions `a` up to `b`.
pub fn slice_range(s: &[char], a: usize, b: usize) -> (r: Vec<char>)
    requires
        a <= b <= s@.len(),
    ensures
        r@ == s@.subrange(a as int, b as int),
{
    let mut r: Vec<char> = Vec::new();
    let mut k = a;
    while k < b
        invariant
            a <= k <= b,
            b <= s@.len(),
            r@ == s@.subrange(a as int, k as int),
        decreases b - k,
    {
        r.push(s[k]);
        assert(s@.subrange(a as int, k + 1) == s@.subrange(a as int, k as int).push(s@[k as int]));
        k += 1;
    }
    r
}

/// `s` without leading whitespace.
pub open spec fn spec_trim_start(s: Seq<char>) -> Seq<char>
    decreases s.len(),
{
    if s.len() > 0 && spec_is_whitespace(s[0]) {
        spec_trim_start(s.drop_first())
    } else {
        s
    }
}

/// `s` without trailing whitespace.
pub open spec fn spec_trim_end(s: Seq<char>) -> Seq<char>
    decreases s.len(),
{
    if s.len() > 0 && spec_is_whitespace(s.last()) {
        spec_trim_end(s.drop_last())
    } else {
        s
    }
}

/// `str::trim`: `s` without leading and trailing whitespace.
pub open spec fn spec_trim(s: Seq<char>) -> Seq<char> {
    spec_trim_end(spec_trim_start(s))
}

/// `str::trim`.
pub fn trim(s: &[char]) -> (r: Vec<char>)
    ensures
        r@ == spec_trim(s@),
{
    let mut a: usize = 0;
    assert(s@.skip(0) == s@);
    while a < s.len() && is_whitespace(s[a])
        invariant
            a <= s@.len(),
            spec_trim_start(s@) == spec_trim_start(s@.skip(a as int)),
        decreases s@.len() - a,
    {
        assert(s@.skip(a as int).drop_first() == s@.skip(a + 1));
        a += 1;
    }
    let ghost t = s@.skip(a as int);
    assert(spec_trim_start(s@) == t);
    let mut b: usize = s.len();
    while b > a && is_whitespace(s[b - 1])
        invariant
            a <= b <= s@.len(),
            t == s@.skip(a as int),
            spec_trim_end(t) == spec_trim_end(s@.subrange(a as int, b as int)),
        decreases b - a,
    {
        assert(s@.subrange(a as int, b as int).drop_last() == s@.subrange(a as int, b - 1));
        b -= 1;
    }
    assert(t == s@.subrange(a as int, s@.len() as int));
    slice_range(s, a, b)
}

/// A line terminator removed: the final `'\r'` of a line that ended in `"\r\n"`.
pub open spec fn strip_cr(l: Seq<char>) -> Seq<char> {
    if l.len() > 0 && l.last() == '\r' {
        l.drop_last()
    } else {
        l
    }
}

/// `s` cut at every `'\n'` (`str::split('\n')`).
pub open spec fn spec_split_nl(s: Seq<char>) -> Seq<Seq<char>>
    decreases s.len(),
{
    if s.len() == 0 {
        seq![Seq::<char>::empty()]
    } else {
        let p = spec_split_nl(s.drop_last());
        if s.last() == '\n' {
            p.push(Seq::<char>::empty())
        } else {
            p.update(p.len() - 1, p.last().push(s.last()))
        }
    }
}

/// `str::lines`: the pieces between `'\n'`s; a piece ended by `"\r\n"` loses
/// its `'\r'`; a final `'\n'` does not start another line.
pub open spec fn spec_lines(s: Seq<char>) -> Seq<Seq<char>> {
    if s.len() == 0 {
        Seq::empty()
    } else {
        let p = spec_split_nl(s);
        let body = p.take(p.len() - 1).map_values(|l: Seq<char>| strip_cr(l));
        if p.last().len() == 0 {
            body
        } else {
            body.push(p.last())
        }
    }
}

proof fn lemma_split_nl_nonempty(s: Seq<char>)
    ensures
        spec_split_nl(s).len() >= 1,
    decreases s.len(),
{
    if s.len() > 0 {
        lemma_split_nl_nonempty(s.drop_last());
    }
}

/// The lines of `s` (`str::lines`).
pub fn lines(s: &[char]) -> (r: Vec<Vec<char>>)
    ensures
        r@.map_values(|l: Vec<char>| l@) == spec_lines(s@),
{
    let mut done: Vec<Vec<char>> = Vec::new();
    let mut cur: Vec<char> = Vec::new();
    let mut i: usize = 0;
    proof {
        assert(s@.take(0) =~= Seq::<char>::empty());
    }
    while i < s.len()
        invariant
            i <= s@.len(),
            spec_split_nl(s@.take(i as int)).len() >= 1,
            done@.map_values(|l: Vec<char>| l@) == spec_split_nl(s@.take(i as int)).take(
                spec_split_nl(s@.take(i as int)).len() - 1,
            ).map_values(|l: Seq<char>| strip_cr(l)),
            cur@ == spec_split_nl(s@.take(i as int)).last(),
        decreases s@.len() - i,
    {
        let c = s[i];
        let ghost p = spec_split_nl(s@.take(i as int));
        let ghost old_done = done@;
        assert(s@.take(i + 1).drop_last() == s@.take(i as int));
        assert(s@.take(i + 1).last() == c);
        if c == '\n' {
            let ghost line = cur@;
            let mut l = cur;
            if l.len() > 0 && l[l.len() - 1] == '\r' {
                l.pop();
            }
            assert(l@ == strip_cr(line));
            done.push(l);
            cur = Vec::new();
            proof {
                let q = p.push(Seq::<char>::empty());
                assert(q.take(q.len() - 1) == p);
                assert(p == p.take(p.len() - 1).push(p.last()));
                assert(done@.map_values(|l: Vec<char>| l@) =~= old_done.map_values(|l: Vec<char>| l@).push(strip_cr(line)));
                assert(q.take(q.len() - 1).map_values(|l: Seq<char>| strip_cr(l)) =~= p.take(
                    p.len() - 1,
                ).map_values(|l: Seq<char>| strip_cr(l)).push(strip_cr(line)));
            }
        } else {
            cur.push(c);
            proof {
                let q = p.update(p.len() - 1, p.last().push(c));
                assert(q.take(q.len() - 1) =~= p.take(p.len() - 1));
            }
        }
        i += 1;
    }
    proof {
        assert(s@.take(s@.len() as int) == s@);
        lemma_split_nl_nonempty(s@);
    }
    let ghost p = spec_split_nl(s@);
    let ghost body = p.take(p.len() - 1).map_values(|l: Seq<char>| strip_cr(l));
    let ghost old_done = done@;
    if cur.len() > 0 {
        done.push(cur);
        assert(done@.map_values(|l: Vec<char>| l@) =~= old_done.map_values(|l: Vec<char>| l@).push(p.last()));
    }
    proof {
        if s@.len() == 0 {
            assert(body =~= Seq::<Seq<char>>::empty());
        }
    }
    done
}

} // verus!

verus! {

/// The decimal digit `d` as a character.
pub open spec fn digit_char(d: nat) -> char {
    ((48 + d) as u8) as char
}

/// The decimal notation of `n`, without sign or padding (as `{}` formats it).
pub open spec fn spec_decimal(n: nat) -> Seq<char>
    decreases n,
{
    if n < 10 {
        seq![digit_char(n)]
    } else {
        spec_decimal(n / 10).push(digit_char(n % 10))
    }
}

proof fn lemma_decimal_step(n: nat)
    requires
        n >= 10,
    ensures
        spec_decimal(n) == spec_decimal(n / 10).push(digit_char(n % 10)),
{
}

/// Decimal notation of `n`.
pub fn decimal(n: u64) -> (r: Vec<char>)
    ensures
        r@ == spec_decimal(n as nat),
    decreases n,
{
    if n < 10 {
        let c = ((48 + n) as u8) as char;
        let mut r = Vec::new();
        r.push(c);
        assert(r@ =~= seq![digit_char(n as nat)]);
        r
    } else {
        let mut r = decimal(n / 10);
        let c = ((48 + n % 10) as u8) as char;
        r.push(c);
        proof {
            lemma_decimal_step(n as nat);
        }
        r
    }
}

/// Whether two strings are equal.
pub fn str_eq(a: &str, b: &str) -> (r: bool)
    ensures
        r == (a@ == b@),
{
    let x = crate::text::chars_of(a);
    let y = crate::text::chars_of(b);
    if x.len() != y.len() {
        return false;
    }
    let mut i: usize = 0;
    while i < x.len()
        invariant
            i <= x@.len(),
            x@.len() == y@.len(),
            x@ == a@,
            y@ == b@,
            forall|j: int| 0 <= j < i ==> x@[j] == y@[j],
        decreases x@.len() - i,
    {
        if x[i] != y[i] {
            assert(x@[i as int] != y@[i as int]);
            return false;
        }
        i += 1;
    }
    assert(x@ =~= y@);
    true
}

/// Appends the characters of `t` to `r`.
pub fn extend_chars(r: &mut Vec<char>, t: &[char])
    ensures
        final(r)@ == old(r)@ + t@,
{
    let mut i: usize = 0;
    while i < t.len()
        invariant
            i <= t@.len(),
            r@ == old(r)@ + t@.take(i as int),
        decreases t@.len() - i,
    {
        r.push(t[i]);
        assert(t@.take(i + 1) == t@.take(i as int).push(t@[i as int]));
        i += 1;
    }
    assert(t@.take(t@.len() as int) == t@);
}

/// Appends the characters of `t` to `r`.
pub fn extend_str(r: &mut Vec<char>, t: &str)
    ensures
        final(r)@ == old(r)@ + t@,
{
    let v = chars_of(t);
    extend_chars(r, v.as_slice());
}

/// The parts joined with `sep` between consecutive parts (`[..].join(sep)`).
pub open spec fn spec_join(parts: Seq<Seq<char>>, sep: Seq<char>) -> Seq<char>
    decreases parts.len(),
{
    if parts.len() == 0 {
        Seq::empty()
    } else if parts.len() == 1 {
        parts[0]
    } else {
        spec_join(parts.drop_last(), sep) + sep + parts.last()
    }
}

/// Joins the parts with `sep` between consecutive parts.
pub fn join(parts: &Vec<String>, sep: &str) -> (r: String)
    ensures
        r@ == spec_join(parts@.map_values(|p: String| p@), sep@),
{
    let ghost ps = parts@.map_values(|p: String| p@);
    let mut r: Vec<char> = Vec::new();
    let mut i: usize = 0;
    while i < parts.len()
        invariant
            i <= parts@.len(),
            ps == parts@.map_values(|p: String| p@),
            r@ == spec_join(ps.take(i as int), sep@),
        decreases parts@.len() - i,
    {
        if i > 0 {
            extend_str(&mut r, sep);
        }
        extend_str(&mut r, parts[i].as_str());
        proof {
            let t = ps.take(i + 1);
            assert(t.drop_last() =~= ps.take(i as int));
            if i == 0 {
                assert(ps.take(0) =~= Seq::<Seq<char>>::empty());
            }
        }
        i += 1;
    }
    assert(ps.take(parts@.len() as int) =~= ps);
    string_from_chars(r.as_slice())
}

/// The lower-case mapping of `s` that `str::to_lowercase` computes from
/// Unicode's case tables.
pub uninterp spec fn spec_to_lowercase(s: Seq<char>) -> Seq<char>;

/// `str::to_lowercase`: the result is the lower-case mapping of exactly the
/// characters given, which depends on them alone.
#[verifier::external_body]
pub(crate) fn to_lowercase(s: &[char]) -> (r: Vec<char>)
    ensures
        r@ == spec_to_lowercase(s@),
{
    s.iter().collect::<String>().to_lowercase().chars().collect()
}

} // verus!

verus! {

/// The upper-case mapping of `s` that `str::to_uppercase` computes from
/// Unicode's case tables.
pub uninterp spec fn spec_to_uppercase(s: Seq<char>) -> Seq<char>;

/// `str::to_uppercase`: the result is the upper-case mapping of exactly the
/// characters given, which depends on them alone.
#[verifier::external_body]
pub(crate) fn to_uppercase(s: &[char]) -> (r: Vec<char>)
    ensures
        r@ == spec_to_uppercase(s@),
{
    s.iter().collect::<String>().to_uppercase().chars().collect()
}

/// `s` from just after the last of the non-overlapping occurrences of `sep`
/// found from left to right (the last piece of `str::split(sep)`).
pub open spec fn after_last(s: Seq<char>, sep: Seq<char>) -> Seq<char>
    decreases s.len(),
{
    if sep.len() == 0 {
        s
    } else {
        match spec_find(s, sep) {
            Some(i) => if 0 <= i && i + sep.len() <= s.len() {
                after_last(s.skip(i + sep.len()), sep)
            } else {
                s
            },
            None => s,
        }
    }
}

/// The last piece of `s` split at `sep`.
pub fn split_last(s: &[char], sep: &[char]) -> (r: Vec<char>)
    ensures
        r@ == after_last(s@, sep@),
{
    if sep.len() == 0 {
        return slice_from(s, 0);
    }
    let mut cur = slice_from(s, 0);
    assert(s@.skip(0) =~= s@);
    loop
        invariant
            sep@.len() > 0,
            after_last(s@, sep@) == after_last(cur@, sep@),
        decreases cur@.len(),
    {
        match find(cur.as_slice(), sep) {
            Some(i) => {
                proof {
                    lemma_find_from(cur@, sep@, 0);
                }
                assert(cur@.len() == cur.len());
                cur = slice_from(cur.as_slice(), i + sep.len());
            },
            None => {
                return cur;
            },
        }
    }
}

} // verus!

verus! {

/// `k` zeros.
pub open spec fn zeros(k: nat) -> Seq<char>
    decreases k,
{
    if k == 0 {
        Seq::empty()
    } else {
        zeros((k - 1) as nat).push('0')
    }
}

/// The decimal notation of `n` padded with zeros to at least `width`
/// characters (as `{:0width$}` formats it).
pub open spec fn spec_padded(n: nat, width: nat) -> Seq<char> {
    let d = spec_decimal(n);
    if d.len() < width {
        zeros((width - d.len()) as nat) + d
    } else {
        d
    }
}

/// Zero-padded decimal notation of `n`.
pub fn padded(n: u64, width: usize) -> (r: Vec<char>)
    ensures
        r@ == spec_padded(n as nat, width as nat),
{
    let d = decimal(n);
    if d.len() >= width {
        return d;
    }
    let k = width - d.len();
    let mut r: Vec<char> = Vec::new();
    let mut i: usize = 0;
    while i < k
        invariant
            i <= k,
            r@ == zeros(i as nat),
        decreases k - i,
    {
        r.push('0');
        i += 1;
    }
    extend_chars(&mut r, d.as_slice());
    r
}

/// A path joined with a relative file name, as `Path::join` does on Unix: a
/// separator goes between them unless the directory is empty or already ends
/// with one.
pub open spec fn spec_path_join(dir: Seq<char>, name: Seq<char>) -> Seq<char> {
    if dir.len() == 0 || dir.last() == '/' {
        dir + name
    } else {
        dir + "/"@ + name
    }
}

/// Joins a directory and a relative file name.
pub fn path_join(dir: &str, name: &[char]) -> (r: String)
    ensures
        r@ == spec_path_join(dir@, name@),
{
    let d = chars_of(dir);
    let mut out: Vec<char> = Vec::new();
    extend_chars(&mut out, d.as_slice());
    if !(d.len() == 0 || d[d.len() - 1] == '/') {
        extend_str(&mut out, "/");
    }
    extend_chars(&mut out, name);
    string_from_chars(out.as_slice())
}

} // verus!

verus! {

/// `str::replace` with a non-empty pattern: every non-overlapping occurrence
/// of `p`, found from left to right, replaced by `r`.
pub open spec fn spec_replace(s: Seq<char>, p: Seq<char>, r: Seq<char>) -> Seq<char>
    decreases s.len(),
{
    if p.len() == 0 {
        s
    } else {
        match spec_find(s, p) {
            Some(i) => if 0 <= i && i + p.len() <= s.len() {
                s.take(i) + r + spec_replace(s.skip(i + p.len()), p, r)
            } else {
                s
            },
            None => s,
        }
    }
}

/// Replaces every occurrence of the non-empty pattern `p` in `s` by `r`.
pub fn replace(s: &[char], p: &[char], r: &[char]) -> (out: Vec<char>)
    requires
        p@.len() > 0,
    ensures
        out@ == spec_replace(s@, p@, r@),
{
    let mut out: Vec<char> = Vec::new();
    let mut cur = slice_from(s, 0);
    assert(s@.skip(0) =~= s@);
    loop
        invariant
            p@.len() > 0,
            spec_replace(s@, p@, r@) == out@ + spec_replace(cur@, p@, r@),
        decreases cur@.len(),
    {
        match find(cur.as_slice(), p) {
            Some(i) => {
                proof {
                    lemma_find_from(cur@, p@, 0);
                }
                assert(cur@.len() == cur.len());
                let head = slice_range(cur.as_slice(), 0, i);
                assert(head@ =~= cur@.take(i as int));
                extend_chars(&mut out, head.as_slice());
                extend_chars(&mut out, r);
                cur = slice_from(cur.as_slice(), i + p.len());
            },
            None => {
                extend_chars(&mut out, cur.as_slice());
                return out;
            },
        }
    }
}

} // verus!

verus! {

/// Whether `c` is an ASCII digit.
pub open spec fn is_digit(c: char) -> bool {
    '0' <= c && c <= '9'
}

/// Whether `s` is a non-empty run of ASCII digits.
pub open spec fn all_digits(s: Seq<char>) -> bool {
    s.len() > 0 && forall|i: int| 0 <= i < s.len() ==> is_digit(#[trigger] s[i])
}

/// The number a run of digits writes in decimal.
pub open spec fn digits_value(s: Seq<char>) -> nat
    decreases s.len(),
{
    if s.len() == 0 {
        0
    } else {
        digits_value(s.drop_last()) * 10 + ((s.last() as nat) - 48) as nat
    }
}

/// The digits of a number written in decimal: all digits, at least one,
/// and their value is the number.
pub proof fn lemma_decimal_value(n: nat)
    ensures
        all_digits(spec_decimal(n)),
        digits_value(spec_decimal(n)) == n,
    decreases n,
{
    let d = spec_decimal(n);
    if n < 10 {
        assert(d == seq![digit_char(n)]);
        assert(is_digit(digit_char(n))) by {
            assert(((48 + n) as u8) as char == digit_char(n));
        }
        assert(d.drop_last() =~= Seq::<char>::empty());
        assert(d.last() == digit_char(n));
        assert((digit_char(n) as nat) - 48 == n);
        assert(digits_value(d) == digits_value(d.drop_last()) * 10 + ((d.last() as nat) - 48) as nat);
    } else {
        lemma_decimal_value(n / 10);
        let p = spec_decimal(n / 10);
        assert(d == p.push(digit_char(n % 10)));
        assert(d.drop_last() =~= p);
        assert(d.last() == digit_char(n % 10));
        assert((digit_char(n % 10) as nat) - 48 == n % 10);
        assert(n == (n / 10) * 10 + n % 10) by (nonlinear_arith);
        assert(digits_value(d) == digits_value(d.drop_last()) * 10 + ((d.last() as nat) - 48) as nat);
        assert forall|i: int| 0 <= i < d.len() implies is_digit(#[trigger] d[i]) by {
            if i < p.len() {
                assert(d[i] == p[i]);
            }
        }
    }
}

/// Leading zeros change neither the digits' being digits nor their value.
proof fn lemma_zeros_value(k: nat, s: Seq<char>)
    requires
        forall|i: int| 0 <= i < s.len() ==> is_digit(#[trigger] s[i]),
    ensures
        forall|i: int| 0 <= i < (zeros(k) + s).len() ==> is_digit(#[trigger] (zeros(k) + s)[i]),
        digits_value(zeros(k) + s) == digits_value(s),
    decreases s.len(), k,
{
    if s.len() == 0 {
        assert(zeros(k) + s =~= zeros(k));
        if k > 0 {
            lemma_zeros_value((k - 1) as nat, s);
            assert(zeros((k - 1) as nat) + s =~= zeros((k - 1) as nat));
            assert(zeros(k).drop_last() =~= zeros((k - 1) as nat));
        }
        assert forall|i: int| 0 <= i < zeros(k).len() implies is_digit(#[trigger] zeros(k)[i]) by {
            lemma_zeros_all(k, i);
        }
    } else {
        let t = s.drop_last();
        assert forall|i: int| 0 <= i < t.len() implies is_digit(#[trigger] t[i]) by {
            assert(t[i] == s[i]);
        }
        lemma_zeros_value(k, t);
        assert((zeros(k) + s).drop_last() =~= zeros(k) + t);
        assert((zeros(k) + s).last() == s.last());
        assert forall|i: int| 0 <= i < (zeros(k) + s).len() implies is_digit(#[trigger] (zeros(k) + s)[i]) by {
            if i < (zeros(k) + t).len() {
                assert((zeros(k) + s)[i] == (zeros(k) + t)[i]);
            } else {
                assert((zeros(k) + s)[i] == s[s.len() - 1]);
            }
        }
    }
}

proof fn lemma_zeros_all(k: nat, i: int)
    requires
        0 <= i < zeros(k).len(),
    ensures
        zeros(k)[i] == '0',
        zeros(k).len() == k,
    decreases k,
{
    if k > 0 {
        lemma_zeros_len((k - 1) as nat);
        if i < k - 1 {
            lemma_zeros_all((k - 1) as nat, i);
        }
    }
}

proof fn lemma_zeros_len(k: nat)
    ensures
        zeros(k).len() == k,
    decreases k,
{
    if k > 0 {
        lemma_zeros_len((k - 1) as nat);
    }
}

/// A zero-padded number: all digits, at least one, and their value is the number.
pub proof fn lemma_padded_value(n: nat, w: nat)
    ensures
        all_digits(spec_padded(n, w)),
        digits_value(spec_padded(n, w)) == n,
{
    lemma_decimal_value(n);
    let d = spec_decimal(n);
    if d.len() < w {
        lemma_zeros_value((w - d.len()) as nat, d);
        lemma_zeros_len((w - d.len()) as nat);
    }
}

/// Two different numbers, zero-padded to the same width and each followed by
/// a separator that is not a digit, start two different texts, whatever
/// follows them.
pub proof fn lemma_numbered_distinct(n: nat, m: nat, w: nat, sep: char, a: Seq<char>, b: Seq<char>)
    requires
        n != m,
        !is_digit(sep),
    ensures
        spec_padded(n, w).push(sep) + a != spec_padded(m, w).push(sep) + b,
{
    lemma_padded_value(n, w);
    lemma_padded_value(m, w);
    let p = spec_padded(n, w);
    let q = spec_padded(m, w);
    let x = p.push(sep) + a;
    let y = q.push(sep) + b;
    if x == y {
        if p.len() < q.len() {
            assert(x[p.len() as int] == sep);
            assert(y[p.len() as int] == q[p.len() as int]);
        } else if q.len() < p.len() {
            assert(y[q.len() as int] == sep);
            assert(x[q.len() as int] == p[q.len() as int]);
        } else {
            assert(x.take(p.len() as int) =~= p);
            assert(y.take(q.len() as int) =~= q);
        }
    }
}

} // verus!
