//! Reading accessibility snapshots: finding the elements an agent or a login
//! refers to by their `[ref=..]` markers.

use vstd::prelude::*;
use vstd::string::StringSliceAdditionalSpecFns;

use super::virtual_tools::{is_virtual_tool, spec_is_virtual_tool};
use crate::assertions::Assertion;
use crate::blueprint::nodes::{clone_assertions, clone_strings};
use crate::text::{
    decimal, extend_chars, extend_str, join, padded, path_join, spec_decimal, spec_join,
    spec_padded, spec_path_join,
    chars_of, contains, find, lemma_find_from, lines, matches_at, slice_from, slice_range,
    spec_contains, spec_find, spec_lines, spec_to_lowercase, string_from_chars, to_lowercase,
};

verus! {

/// The Unicode `Alphabetic` or `Numeric` property of `c`, as
/// `char::is_alphanumeric` computes it from Unicode's tables.
pub uninterp spec fn spec_is_alphanumeric(c: char) -> bool;

/// `char::is_alphanumeric`: whether `c` is alphabetic or numeric. The answer
/// depends on `c` alone.
#[verifier::external_body]
pub(crate) fn is_alphanumeric(c: char) -> (b: bool)
    ensures
        b == spec_is_alphanumeric(c),
{
    c.is_alphanumeric()
}

/// A character that may appear in an unbracketed element reference.
pub open spec fn is_ref_char(c: char) -> bool {
    spec_is_alphanumeric(c) || c == '_'
}

/// The longest prefix of `a` made of reference characters.
pub open spec fn ref_prefix(a: Seq<char>) -> Seq<char>
    decreases a.len(),
{
    if a.len() > 0 && is_ref_char(a[0]) {
        seq![a[0]] + ref_prefix(a.drop_first())
    } else {
        Seq::empty()
    }
}

/// The reference in `[ref=XX]` form: what follows the first `[ref=` up to the
/// next `]`, if that is not empty.
pub open spec fn bracketed_ref(line: Seq<char>) -> Option<Seq<char>> {
    match spec_find(line, "[ref="@) {
        Some(s) => {
            let after = line.skip(s + 5);
            match spec_find(after, "]"@) {
                Some(e) => if e > 0 {
                    Some(after.take(e))
                } else {
                    None
                },
                None => None,
            }
        },
        None => None,
    }
}

/// The reference in `ref=XX` form: the reference characters that follow the
/// first `ref=`, if there are any.
pub open spec fn bare_ref(line: Seq<char>) -> Option<Seq<char>> {
    match spec_find(line, "ref="@) {
        Some(s) => {
            let r = ref_prefix(line.skip(s + 4));
            if r.len() > 0 {
                Some(r)
            } else {
                None
            }
        },
        None => None,
    }
}

/// The element reference of a snapshot line: the bracketed form if there is
/// one, else the bare form.
pub open spec fn spec_extract_ref(line: Seq<char>) -> Option<Seq<char>> {
    match bracketed_ref(line) {
        Some(r) => Some(r),
        None => bare_ref(line),
    }
}

proof fn lemma_ref_prefix(a: Seq<char>)
    ensures
        ref_prefix(a).len() <= a.len(),
        ref_prefix(a) == a.take(ref_prefix(a).len() as int),
    decreases a.len(),
{
    if a.len() > 0 && is_ref_char(a[0]) {
        lemma_ref_prefix(a.drop_first());
        let r = ref_prefix(a.drop_first());
        assert(seq![a[0]] + r =~= a.take(r.len() as int + 1));
    } else {
        assert(a.take(0) =~= Seq::<char>::empty());
    }
}

/// A reference read from a snapshot line is really there: it is not empty
/// and occurs in the line.
pub proof fn law_reference_in_line(line: Seq<char>)
    ensures
        spec_extract_ref(line) matches Some(r) ==> r.len() > 0 && spec_contains(line, r),
{
    reveal_strlit("[ref=");
    reveal_strlit("ref=");
    reveal_strlit("]");
    lemma_find_from(line, "[ref="@, 0);
    lemma_find_from(line, "ref="@, 0);
    if let Some(r) = bracketed_ref(line) {
        let s = spec_find(line, "[ref="@).unwrap();
        let after = line.skip(s + 5);
        lemma_find_from(after, "]"@, 0);
        let e = spec_find(after, "]"@).unwrap();
        assert(r == after.take(e));
        assert(line.subrange(s + 5, s + 5 + r.len()) =~= r);
        assert(matches_at(line, r, s + 5));
    } else if let Some(r) = bare_ref(line) {
        let s = spec_find(line, "ref="@).unwrap();
        let after = line.skip(s + 4);
        lemma_ref_prefix(after);
        assert(line.subrange(s + 4, s + 4 + r.len()) =~= r);
        assert(matches_at(line, r, s + 4));
    }
}

/// The reference of a line that has a `[ref=` marker is the text between
/// its first `[ref=` and the first `]` after it, when that text is not
/// empty: attributes after the reference (such as `[cursor=pointer]`) are
/// not part of it, and it never holds a `]`.
pub proof fn law_bracketed_reference(line: Seq<char>, i: int, j: int)
    requires
        matches_at(line, "[ref="@, i),
        forall|k: int| 0 <= k < i ==> !matches_at(line, "[ref="@, k),
        i + 5 < j < line.len(),
        line[j] == ']',
        forall|k: int| i + 5 <= k < j ==> line[k] != ']',
    ensures
        spec_extract_ref(line) == Some(line.subrange(i + 5, j)),
        forall|k: int| 0 <= k < j - i - 5 ==> #[trigger] line.subrange(i + 5, j)[k] != ']',
{
    reveal_strlit("[ref=");
    reveal_strlit("]");
    lemma_find_from(line, "[ref="@, 0);
    let s = spec_find(line, "[ref="@).unwrap();
    assert(s == i) by {
        if s < i {
            assert(!matches_at(line, "[ref="@, s));
        }
    }
    let after = line.skip(i + 5);
    lemma_find_from(after, "]"@, 0);
    let e = j - i - 5;
    assert(after.subrange(e, e + 1) =~= "]"@);
    assert(matches_at(after, "]"@, e));
    let f = spec_find(after, "]"@).unwrap();
    assert(f == e) by {
        if f < e {
            assert(after.subrange(f, f + 1)[0] == after[f]);
            assert(after[f] == line[i + 5 + f]);
        }
    }
    assert(after.take(e) =~= line.subrange(i + 5, j));
}

/// The view of an optional string.
pub open spec fn opt_view(o: Option<String>) -> Option<Seq<char>> {
    match o {
        Some(s) => Some(s@),
        None => None,
    }
}

fn lit(s: &str) -> (v: Vec<char>)
    ensures
        v@ == s@,
{
    chars_of(s)
}

/// The element reference of a snapshot line, e.g. `e46` in
/// `- textbox [ref=e46]: chipDEMO`.
pub fn extract_ref(line: &str) -> (r: Option<String>)
    ensures
        opt_view(r) == spec_extract_ref(line@),
{
    let l = chars_of(line);
    let r = extract_ref_chars(l.as_slice());
    match r {
        Some(v) => Some(string_from_chars(v.as_slice())),
        None => None,
    }
}

/// `extract_ref` over characters.
pub fn extract_ref_chars(l: &[char]) -> (r: Option<Vec<char>>)
    ensures
        match r {
            Some(v) => spec_extract_ref(l@) == Some(v@),
            None => spec_extract_ref(l@) is None,
        },
{
    let open = lit("[ref=");
    let close = lit("]");
    proof {
        reveal_strlit("[ref=");
        reveal_strlit("ref=");
        reveal_strlit("]");
    }
    assert(l@.len() == l.len());
    if let Some(start) = find(l, open.as_slice()) {
        proof {
            lemma_find_from(l@, "[ref="@, 0);
        }
        let after = slice_from(l, start + 5);
        if let Some(end) = find(after.as_slice(), close.as_slice()) {
            proof {
                lemma_find_from(after@, "]"@, 0);
            }
            if end > 0 {
                let v = slice_range(after.as_slice(), 0, end);
                assert(v@ == after@.take(end as int));
                return Some(v);
            }
        }
    }
    let key = lit("ref=");
    if let Some(idx) = find(l, key.as_slice()) {
        proof {
            lemma_find_from(l@, "ref="@, 0);
        }
        let after = slice_from(l, idx + 4);
        let mut k: usize = 0;
        proof {
            assert(after@.skip(0) =~= after@);
            assert(after@.take(0) =~= Seq::<char>::empty());
        }
        while k < after.len() && (is_alphanumeric(after[k]) || after[k] == '_')
            invariant
                k <= after@.len(),
                ref_prefix(after@) == after@.take(k as int) + ref_prefix(after@.skip(k as int)),
            decreases after@.len() - k,
        {
            proof {
                let t = after@.skip(k as int);
                assert(t[0] == after@[k as int]);
                assert(t.drop_first() =~= after@.skip(k + 1));
                assert(after@.take(k + 1) =~= after@.take(k as int) + seq![after@[k as int]]);
            }
            k += 1;
        }
        proof {
            assert(after@.skip(0) =~= after@);
            assert(after@.take(0) =~= Seq::<char>::empty());
        }
        let v = slice_range(after.as_slice(), 0, k);
        assert(ref_prefix(after@.skip(k as int)) =~= Seq::<char>::empty());
        assert(v@ =~= after@.take(k as int));
        if k > 0 {
            return Some(v);
        }
    }
    None
}

} // verus!

verus! {

/// The texts of keywords.
pub open spec fn kw_views(keywords: Seq<&str>) -> Seq<Seq<char>> {
    keywords.map_values(|k: &str| k@)
}

/// Whether the lower-cased line contains the element kind `kind`.
pub open spec fn is_kind(line: Seq<char>, kind: Seq<char>) -> bool {
    spec_contains(spec_to_lowercase(line), kind)
}

/// Whether the line, lower-cased, contains some lower-cased keyword.
pub open spec fn any_keyword(line: Seq<char>, kws: Seq<Seq<char>>) -> bool {
    exists|k: int| 0 <= k < kws.len() && spec_contains(spec_to_lowercase(line), spec_to_lowercase(#[trigger] kws[k]))
}

/// The reference of the first line at or after `i` that names element kind
/// `kind`, contains a keyword and carries a reference.
pub open spec fn first_ref_from(ls: Seq<Seq<char>>, kind: Seq<char>, kws: Seq<Seq<char>>, i: int) -> Option<Seq<char>>
    decreases ls.len() - i,
{
    if i < 0 || i >= ls.len() {
        None
    } else if is_kind(ls[i], kind) && any_keyword(ls[i], kws) && spec_extract_ref(ls[i]) is Some {
        spec_extract_ref(ls[i])
    } else {
        first_ref_from(ls, kind, kws, i + 1)
    }
}

/// The reference of the first element of kind `kind` whose line mentions a keyword.
pub open spec fn spec_find_kind_ref(snapshot: Seq<char>, kind: Seq<char>, kws: Seq<Seq<char>>) -> Option<Seq<char>> {
    first_ref_from(spec_lines(snapshot), kind, kws, 0)
}

/// The lines of `s`, each also lower-cased.
pub(crate) fn lines_lowered(s: &str) -> (r: (Vec<Vec<char>>, Vec<Vec<char>>))
    ensures
        r.0@.map_values(|l: Vec<char>| l@) == spec_lines(s@),
        r.1@.len() == r.0@.len(),
        forall|i: int| 0 <= i < r.0@.len() ==> (#[trigger] r.1@[i])@ == spec_to_lowercase(r.0@[i]@),
{
    let c = chars_of(s);
    let ls = lines(c.as_slice());
    let mut lows: Vec<Vec<char>> = Vec::new();
    let mut i: usize = 0;
    while i < ls.len()
        invariant
            i <= ls@.len(),
            lows@.len() == i,
            forall|j: int| 0 <= j < i ==> (#[trigger] lows@[j])@ == spec_to_lowercase(ls@[j]@),
        decreases ls@.len() - i,
    {
        lows.push(to_lowercase(ls[i].as_slice()));
        i += 1;
    }
    (ls, lows)
}

/// The keywords, lower-cased.
fn keywords_lowered(keywords: &[&str]) -> (r: Vec<Vec<char>>)
    ensures
        r@.len() == keywords@.len(),
        forall|k: int| 0 <= k < r@.len() ==> (#[trigger] r@[k])@ == spec_to_lowercase(keywords@[k]@),
{
    let mut r: Vec<Vec<char>> = Vec::new();
    let mut k: usize = 0;
    while k < keywords.len()
        invariant
            k <= keywords@.len(),
            r@.len() == k,
            forall|j: int| 0 <= j < k ==> (#[trigger] r@[j])@ == spec_to_lowercase(keywords@[j]@),
        decreases keywords@.len() - k,
    {
        let kw = chars_of(keywords[k]);
        r.push(to_lowercase(kw.as_slice()));
        k += 1;
    }
    r
}

/// Whether the lower-cased line contains one of the lower-cased keywords.
fn any_keyword_exec(lower: &[char], lkws: &Vec<Vec<char>>) -> (b: bool)
    ensures
        b == exists|k: int| 0 <= k < lkws@.len() && spec_contains(lower@, (#[trigger] lkws@[k])@),
{
    let mut k: usize = 0;
    while k < lkws.len()
        invariant
            k <= lkws@.len(),
            forall|j: int| 0 <= j < k ==> !spec_contains(lower@, (#[trigger] lkws@[j])@),
        decreases lkws@.len() - k,
    {
        if contains(lower, lkws[k].as_slice()) {
            return true;
        }
        k += 1;
    }
    false
}

proof fn lemma_any_keyword(line: Seq<char>, lower: Seq<char>, kws: Seq<&str>, lkws: Seq<Vec<char>>)
    requires
        lower == spec_to_lowercase(line),
        lkws.len() == kws.len(),
        forall|k: int| 0 <= k < lkws.len() ==> (#[trigger] lkws[k])@ == spec_to_lowercase(kws[k]@),
    ensures
        any_keyword(line, kw_views(kws)) == exists|k: int| 0 <= k < lkws.len() && spec_contains(lower, (#[trigger] lkws[k])@),
{
    let kv = kw_views(kws);
    if any_keyword(line, kv) {
        let k = choose|k: int| 0 <= k < kv.len() && spec_contains(spec_to_lowercase(line), spec_to_lowercase(#[trigger] kv[k]));
        assert(spec_contains(lower, lkws[k]@));
    }
    if exists|k: int| 0 <= k < lkws.len() && spec_contains(lower, (#[trigger] lkws[k])@) {
        let k = choose|k: int| 0 <= k < lkws.len() && spec_contains(lower, (#[trigger] lkws[k])@);
        assert(spec_contains(spec_to_lowercase(line), spec_to_lowercase(kv[k])));
    }
}

/// The reference of the first element of kind `kind` (e.g. `"button"`) whose
/// snapshot line mentions one of the keywords, ignoring case.
pub fn find_kind_ref(snapshot: &str, kind: &str, keywords: &[&str]) -> (r: Option<String>)
    ensures
        opt_view(r) == spec_find_kind_ref(snapshot@, kind@, kw_views(keywords@)),
{
    let (ls, lows) = lines_lowered(snapshot);
    let lkws = keywords_lowered(keywords);
    let kind_v = chars_of(kind);
    let ghost lv = ls@.map_values(|l: Vec<char>| l@);
    let ghost kv = kw_views(keywords@);
    let mut i: usize = 0;
    while i < ls.len()
        invariant
            i <= ls@.len(),
            lv == ls@.map_values(|l: Vec<char>| l@),
            lv == spec_lines(snapshot@),
            kv == kw_views(keywords@),
            kind_v@ == kind@,
            lows@.len() == ls@.len(),
            forall|j: int| 0 <= j < ls@.len() ==> (#[trigger] lows@[j])@ == spec_to_lowercase(ls@[j]@),
            lkws@.len() == keywords@.len(),
            forall|k: int| 0 <= k < lkws@.len() ==> (#[trigger] lkws@[k])@ == spec_to_lowercase(keywords@[k]@),
            first_ref_from(lv, kind@, kv, 0) == first_ref_from(lv, kind@, kv, i as int),
        decreases ls@.len() - i,
    {
        assert(lv[i as int] == ls@[i as int]@);
        proof {
            lemma_any_keyword(ls@[i as int]@, lows@[i as int]@, keywords@, lkws@);
        }
        if contains(lows[i].as_slice(), kind_v.as_slice()) && any_keyword_exec(lows[i].as_slice(), &lkws) {
            if let Some(v) = extract_ref_chars(ls[i].as_slice()) {
                return Some(string_from_chars(v.as_slice()));
            }
        }
        i += 1;
    }
    None
}

/// The reference of the first button whose line mentions one of the keywords.
pub fn find_button_ref_ctx(snapshot: &str, keywords: &[&str]) -> (r: Option<String>)
    ensures
        opt_view(r) == spec_find_kind_ref(snapshot@, "button"@, kw_views(keywords@)),
{
    find_kind_ref(snapshot, "button", keywords)
}

/// The reference of the first link whose line mentions one of the keywords.
pub fn find_link_ref(snapshot: &str, keywords: &[&str]) -> (r: Option<String>)
    ensures
        opt_view(r) == spec_find_kind_ref(snapshot@, "link"@, kw_views(keywords@)),
{
    find_kind_ref(snapshot, "link", keywords)
}

} // verus!

verus! {

/// The result for the first keyword group, in priority order, that finds a
/// button.
pub open spec fn prioritized_from(snapshot: Seq<char>, groups: Seq<&[&str]>, g: int) -> Option<Seq<char>>
    decreases groups.len() - g,
{
    if g < 0 || g >= groups.len() {
        None
    } else {
        match spec_find_kind_ref(snapshot, "button"@, kw_views(groups[g]@)) {
            Some(r) => Some(r),
            None => prioritized_from(snapshot, groups, g + 1),
        }
    }
}

/// Searches for a button with the keyword groups in priority order; the first
/// group that finds one decides.
pub fn find_button_ref_prioritized(snapshot: &str, priority_groups: &[&[&str]]) -> (r: Option<String>)
    ensures
        opt_view(r) == prioritized_from(snapshot@, priority_groups@, 0),
{
    let mut g: usize = 0;
    while g < priority_groups.len()
        invariant
            g <= priority_groups@.len(),
            prioritized_from(snapshot@, priority_groups@, 0) == prioritized_from(snapshot@, priority_groups@, g as int),
        decreases priority_groups@.len() - g,
    {
        let found = find_button_ref_ctx(snapshot, priority_groups[g]);
        if found.is_some() {
            return found;
        }
        g += 1;
    }
    None
}

/// The reference of the `n`-th line (counting from 0) at or after line `i`
/// that names a textbox, whether or not that line carries a reference.
pub open spec fn nth_textbox_from(ls: Seq<Seq<char>>, n: nat, i: int) -> Option<Seq<char>>
    decreases ls.len() - i,
{
    if i < 0 || i >= ls.len() {
        None
    } else if is_kind(ls[i], "textbox"@) {
        if n == 0 {
            spec_extract_ref(ls[i])
        } else {
            nth_textbox_from(ls, (n - 1) as nat, i + 1)
        }
    } else {
        nth_textbox_from(ls, n, i + 1)
    }
}

/// The reference of the `n`-th textbox of the snapshot (counting from 0): a
/// fallback when no label matches.
pub fn find_nth_textbox(snapshot: &str, n: usize) -> (r: Option<String>)
    ensures
        opt_view(r) == nth_textbox_from(spec_lines(snapshot@), n as nat, 0),
{
    let (ls, lows) = lines_lowered(snapshot);
    let tb = lit("textbox");
    let ghost lv = ls@.map_values(|l: Vec<char>| l@);
    let mut count: usize = 0;
    let mut i: usize = 0;
    while i < ls.len()
        invariant
            i <= ls@.len(),
            count <= n,
            lv == ls@.map_values(|l: Vec<char>| l@),
            lv == spec_lines(snapshot@),
            tb@ == "textbox"@,
            lows@.len() == ls@.len(),
            forall|j: int| 0 <= j < ls@.len() ==> (#[trigger] lows@[j])@ == spec_to_lowercase(ls@[j]@),
            nth_textbox_from(lv, n as nat, 0) == nth_textbox_from(lv, (n - count) as nat, i as int),
        decreases ls@.len() - i,
    {
        assert(lv[i as int] == ls@[i as int]@);
        if contains(lows[i].as_slice(), tb.as_slice()) {
            if count == n {
                let r = extract_ref_chars(ls[i].as_slice());
                return match r {
                    Some(v) => Some(string_from_chars(v.as_slice())),
                    None => None,
                };
            }
            count += 1;
        }
        i += 1;
    }
    None
}

/// The first line of the context window of line `i`: two lines before it.
pub open spec fn window_start(i: int) -> int {
    if i >= 2 {
        i - 2
    } else {
        0
    }
}

/// The end (exclusive) of the context window of line `i`: two lines after it.
pub open spec fn window_end(i: int, len: int) -> int {
    if i + 3 <= len {
        i + 3
    } else {
        len
    }
}

/// Whether some line within two lines of line `i` mentions a keyword.
pub open spec fn window_has_keyword(ls: Seq<Seq<char>>, i: int, kws: Seq<Seq<char>>) -> bool {
    exists|j: int| window_start(i) <= j < window_end(i, ls.len() as int) && any_keyword(#[trigger] ls[j], kws)
}

/// The reference of the first textbox at or after line `i` that carries a
/// reference and has a keyword within two lines of it.
pub open spec fn first_ctx_ref_from(ls: Seq<Seq<char>>, kws: Seq<Seq<char>>, i: int) -> Option<Seq<char>>
    decreases ls.len() - i,
{
    if i < 0 || i >= ls.len() {
        None
    } else if is_kind(ls[i], "textbox"@) && window_has_keyword(ls, i, kws) && spec_extract_ref(ls[i]) is Some {
        spec_extract_ref(ls[i])
    } else {
        first_ctx_ref_from(ls, kws, i + 1)
    }
}

/// The textbox a label names: first a textbox whose own line mentions a
/// keyword; failing that, a textbox with a keyword within two lines of it.
pub open spec fn spec_find_input_ref(snapshot: Seq<char>, kws: Seq<Seq<char>>) -> Option<Seq<char>> {
    let ls = spec_lines(snapshot);
    match first_ref_from(ls, "textbox"@, kws, 0) {
        Some(r) => Some(r),
        None => first_ctx_ref_from(ls, kws, 0),
    }
}

/// Finds a textbox by its label: on the textbox's own line first, then on the
/// lines around it (labels often sit on a neighbouring line).
pub fn find_input_ref_ctx(snapshot: &str, keywords: &[&str]) -> (r: Option<String>)
    ensures
        opt_view(r) == spec_find_input_ref(snapshot@, kw_views(keywords@)),
{
    let inline = find_kind_ref(snapshot, "textbox", keywords);
    if inline.is_some() {
        return inline;
    }
    let (ls, lows) = lines_lowered(snapshot);
    let lkws = keywords_lowered(keywords);
    let tb = lit("textbox");
    let ghost lv = ls@.map_values(|l: Vec<char>| l@);
    let ghost kv = kw_views(keywords@);
    let mut i: usize = 0;
    while i < ls.len()
        invariant
            i <= ls@.len(),
            lv == ls@.map_values(|l: Vec<char>| l@),
            lv == spec_lines(snapshot@),
            kv == kw_views(keywords@),
            tb@ == "textbox"@,
            lows@.len() == ls@.len(),
            forall|j: int| 0 <= j < ls@.len() ==> (#[trigger] lows@[j])@ == spec_to_lowercase(ls@[j]@),
            lkws@.len() == keywords@.len(),
            forall|k: int| 0 <= k < lkws@.len() ==> (#[trigger] lkws@[k])@ == spec_to_lowercase(keywords@[k]@),
            first_ctx_ref_from(lv, kv, 0) == first_ctx_ref_from(lv, kv, i as int),
            first_ref_from(lv, "textbox"@, kv, 0) is None,
        decreases ls@.len() - i,
    {
        assert(lv[i as int] == ls@[i as int]@);
        if contains(lows[i].as_slice(), tb.as_slice()) {
            let start: usize = if i >= 2 { i - 2 } else { 0 };
            let end: usize = if ls.len() - i >= 3 { i + 3 } else { ls.len() };
            let mut j = start;
            let mut hit = false;
            while j < end
                invariant
                    start <= j <= end,
                    end <= ls@.len(),
                    start == window_start(i as int),
                    end == window_end(i as int, ls@.len() as int),
                    lv == ls@.map_values(|l: Vec<char>| l@),
                    kv == kw_views(keywords@),
                    lows@.len() == ls@.len(),
                    forall|m: int| 0 <= m < ls@.len() ==> (#[trigger] lows@[m])@ == spec_to_lowercase(ls@[m]@),
                    lkws@.len() == keywords@.len(),
                    forall|k: int| 0 <= k < lkws@.len() ==> (#[trigger] lkws@[k])@ == spec_to_lowercase(keywords@[k]@),
                    hit ==> window_has_keyword(lv, i as int, kv),
                    !hit ==> forall|m: int| start <= m < j ==> !any_keyword(#[trigger] lv[m], kv),
                decreases end - j,
            {
                proof {
                    lemma_any_keyword(ls@[j as int]@, lows@[j as int]@, keywords@, lkws@);
                    assert(lv[j as int] == ls@[j as int]@);
                }
                if any_keyword_exec(lows[j].as_slice(), &lkws) {
                    hit = true;
                    j = end;
                } else {
                    j += 1;
                }
            }
            if hit {
                if let Some(v) = extract_ref_chars(ls[i].as_slice()) {
                    return Some(string_from_chars(v.as_slice()));
                }
            }
        }
        i += 1;
    }
    None
}

} // verus!

verus! {

/// The characters of `s` cut to its first `n` bytes of UTF-8.
pub open spec fn spec_truncate(s: Seq<char>, n: nat) -> Seq<char> {
    if vstd::utf8::encode_utf8(s).len() <= n {
        s
    } else {
        vstd::utf8::decode_utf8(vstd::utf8::encode_utf8(s).take(n as int))
    }
}

/// Whether cutting `s` to `n` bytes keeps whole characters (or does not
/// cut); the text's byte length fits a `usize`, as every text's does.
pub open spec fn cut_ok(s: Seq<char>, n: nat) -> bool {
    &&& vstd::utf8::encode_utf8(s).len() <= usize::MAX
    &&& vstd::utf8::encode_utf8(s).len() <= n || vstd::utf8::is_char_boundary(
        vstd::utf8::encode_utf8(s),
        n as int,
    )
}

/// `s` cut to its first `max_len` bytes. Cutting inside a character panics,
/// so the cut must fall on a character boundary when `s` is longer.
pub fn truncate(s: &str, max_len: usize) -> (r: &str)
    requires
        cut_ok(s@, max_len as nat),
    ensures
        s.spec_bytes().len() <= max_len ==> r@ == s@,
        s.spec_bytes().len() > max_len ==> r.spec_bytes() == s.spec_bytes().take(max_len as int),
        r@ == spec_truncate(s@, max_len as nat),
{
    proof {
        vstd::utf8::encode_utf8_decode_utf8(s@);
    }
    if s.len() <= max_len {
        s
    } else {
        let parts = s.split_at(max_len);
        assert(parts.0.spec_bytes() =~= s.spec_bytes().take(max_len as int));
        proof {
            vstd::utf8::encode_utf8_decode_utf8(parts.0@);
        }
        parts.0
    }
}

/// The character a file name keeps: letters, digits, `-` and `_`; anything
/// else becomes `_`.
pub open spec fn file_char(c: char) -> char {
    if spec_is_alphanumeric(c) || c == '-' || c == '_' {
        c
    } else {
        '_'
    }
}

/// At most the first 30 characters of `s`, made safe for a file name.
pub open spec fn spec_sanitize(s: Seq<char>) -> Seq<char> {
    let n = if s.len() < 30 {
        s.len() as int
    } else {
        30
    };
    s.take(n).map_values(|c: char| file_char(c))
}

/// Makes a text usable in a file name: its first 30 characters, with every
/// character other than a letter, digit, `-` or `_` replaced by `_`.
pub fn sanitize(s: &str) -> (r: String)
    ensures
        r@ == spec_sanitize(s@),
{
    let c = chars_of(s);
    let n: usize = if c.len() < 30 { c.len() } else { 30 };
    let mut out: Vec<char> = Vec::new();
    let mut i: usize = 0;
    while i < n
        invariant
            i <= n,
            n <= c@.len(),
            n == (if c@.len() < 30 { c@.len() as int } else { 30 }),
            out@ == c@.take(i as int).map_values(|x: char| file_char(x)),
        decreases n - i,
    {
        let x = c[i];
        let y = if is_alphanumeric(x) || x == '-' || x == '_' { x } else { '_' };
        out.push(y);
        assert(c@.take(i + 1).map_values(|x: char| file_char(x)) =~= c@.take(i as int).map_values(
            |x: char| file_char(x),
        ).push(file_char(x)));
        i += 1;
    }
    string_from_chars(out.as_slice())
}

} // verus!

verus! {

/// What the agent is told it is and how it works, before every request.
pub const SYSTEM_PROMPT: &'static str = "You are a web application testing agent. You have access to browser automation tools via the Playwright MCP server.

Your job is to follow the instructions given to you, interact with the web page, and report your findings clearly.

Guidelines:
- Use browser_snapshot to see the current state of the page (accessibility tree)
- Use browser_click, browser_type, browser_press_key to interact with elements
- Use browser_take_screenshot to capture visual evidence
- Use browser_navigate to go to URLs
- Reference elements by their [ref=XXX] from the snapshot
- Use assert_visible, assert_text_contains, assert_url_matches, assert_element_exists to validate expectations
- Use log_step to record observations and test progress
- Be concise but thorough

When you have completed the task, provide a clear summary of what you found.";

/// The result of an agentic node: its final text and the evidence it gathered.
#[derive(Debug, Clone)]
pub struct AgenticOutput {
    pub text: String,
    pub screenshots: Vec<String>,
    pub assertions: Vec<Assertion>,
}

/// The state of an agent's reasoning loop over browser tools: turns taken,
/// and the screenshots and assertions gathered so far.
#[derive(Debug)]
pub struct AgenticSession {
    /// How many model turns the agent may take.
    pub max_turns: usize,
    /// How many turns ended with tool calls so far.
    pub turn: usize,
    pub screenshots: Vec<String>,
    pub assertions: Vec<Assertion>,
    /// Screenshots numbered so far (they are numbered from 1).
    pub screenshot_counter: u32,
    /// Where screenshots are saved; none are saved without it.
    pub report_dir: Option<String>,
}

/// Where a tool call goes.
#[derive(Debug, Clone, Copy, PartialEq, Eq, Structural)]
pub enum ToolRoute {
    /// Answered by the library (assertions and logging).
    Virtual,
    /// A screenshot the session also saves, then forwarded to the browser.
    ScreenshotThenForward,
    /// Forwarded to the browser.
    Forward,
}

/// The file name of the `n`-th screenshot an agent takes.
pub open spec fn agentic_file(n: nat) -> Seq<char> {
    "agentic_"@ + spec_padded(n, 3) + ".png"@
}

/// The file name of the `n`-th screenshot, taken as evidence for an assertion.
pub open spec fn evidence_file(n: nat, label: Seq<char>) -> Seq<char> {
    "evidence_"@ + spec_padded(n, 3) + "_"@ + label + ".png"@
}

/// The message of a run that used up its turns.
pub open spec fn exhausted_message(max_turns: nat) -> Seq<char> {
    "Agentic node exceeded max turns ("@ + spec_decimal(max_turns) + ") without completing"@
}

/// The screenshots of an agent never share a file: different numbers give
/// different names, whatever the evidence labels, and a screenshot the agent
/// asked for never has the name of an evidence screenshot.
pub proof fn law_agent_files_distinct(n: nat, m: nat, a: Seq<char>, b: Seq<char>)
    ensures
        n != m ==> agentic_file(n) != agentic_file(m),
        n != m ==> evidence_file(n, a) != evidence_file(m, b),
        agentic_file(n) != evidence_file(m, b),
{
    reveal_strlit("agentic_");
    reveal_strlit("evidence_");
    reveal_strlit(".png");
    reveal_strlit("_");
    let pa = "agentic_"@;
    let pe = "evidence_"@;
    if n != m {
        crate::text::lemma_numbered_distinct(n, m, 3, '.', "png"@, "png"@);
        reveal_strlit("png");
        let x = spec_padded(n, 3).push('.') + "png"@;
        let y = spec_padded(m, 3).push('.') + "png"@;
        assert(agentic_file(n) =~= pa + x);
        assert(agentic_file(m) =~= pa + y);
        if agentic_file(n) == agentic_file(m) {
            assert((pa + x).skip(pa.len() as int) =~= x);
            assert((pa + y).skip(pa.len() as int) =~= y);
        }
        crate::text::lemma_numbered_distinct(n, m, 3, '_', a + ".png"@, b + ".png"@);
        let u = spec_padded(n, 3).push('_') + (a + ".png"@);
        let v = spec_padded(m, 3).push('_') + (b + ".png"@);
        assert(evidence_file(n, a) =~= pe + u);
        assert(evidence_file(m, b) =~= pe + v);
        if evidence_file(n, a) == evidence_file(m, b) {
            assert((pe + u).skip(pe.len() as int) =~= u);
            assert((pe + v).skip(pe.len() as int) =~= v);
        }
    }
    assert(agentic_file(n)[0] == 'a');
    assert(evidence_file(m, b)[0] == 'e');
}

/// What the loop does after the model's reply.
#[derive(Debug)]
pub enum AgentAction {
    /// The reply asked for tools: run them, then ask again if turns are left.
    RunTools,
    /// The reply asked for no tools: the run ends with this output.
    Finish(AgenticOutput),
}

/// Whether a reply with `tool_calls` tool requests ends the run.
pub open spec fn reply_ends_run(tool_calls: nat) -> bool {
    tool_calls == 0
}

/// How a run of the agent's loop ends.
pub enum AgentRunEnd {
    /// The reply numbered `reply` (from 0) asked for no tools; `asks` replies
    /// were requested in all.
    Finished { asks: nat, reply: nat },
    /// Every allowed reply asked for tools; `asks` replies were requested.
    Exhausted { asks: nat },
}

/// The loop, from `turn` on, with `max` turns allowed, when reply `k` asks
/// for `calls(k)` tools: the model is asked while a turn is left
/// (`can_take_turn`), and each reply is handled as `take_reply` says.
pub open spec fn agent_run(max: nat, calls: spec_fn(nat) -> nat, turn: nat) -> AgentRunEnd
    decreases max - turn,
{
    if turn >= max {
        AgentRunEnd::Exhausted { asks: turn }
    } else if reply_ends_run(calls(turn)) {
        AgentRunEnd::Finished { asks: turn + 1, reply: turn }
    } else {
        agent_run(max, calls, turn + 1)
    }
}

proof fn lemma_agent_run(max: nat, calls: spec_fn(nat) -> nat, turn: nat)
    requires
        turn <= max,
        forall|j: nat| j < turn ==> !reply_ends_run(#[trigger] calls(j)),
    ensures
        match agent_run(max, calls, turn) {
            AgentRunEnd::Finished { asks, reply } => {
                &&& reply < max
                &&& asks == reply + 1
                &&& reply_ends_run(calls(reply))
                &&& forall|j: nat| j < reply ==> !reply_ends_run(#[trigger] calls(j))
            },
            AgentRunEnd::Exhausted { asks } => {
                &&& asks == max
                &&& forall|j: nat| j < max ==> !reply_ends_run(#[trigger] calls(j))
            },
        },
    decreases max - turn,
{
    if turn < max && !reply_ends_run(calls(turn)) {
        assert forall|j: nat| j < turn + 1 implies !reply_ends_run(#[trigger] calls(j)) by {
            if j < turn {
            }
        }
        lemma_agent_run(max, calls, turn + 1);
    }
}

/// A run of the agent asks the model at most `max_turns` times. The first
/// reply without tool requests ends it, and only such a reply does; when
/// every allowed reply asks for tools, the run has asked exactly
/// `max_turns` times and is exhausted.
pub proof fn law_agent_turn_limit(max_turns: nat, calls: spec_fn(nat) -> nat)
    ensures
        match agent_run(max_turns, calls, 0) {
            AgentRunEnd::Finished { asks, reply } => {
                &&& asks == reply + 1
                &&& asks <= max_turns
                &&& reply_ends_run(calls(reply))
                &&& forall|j: nat| j < reply ==> !reply_ends_run(#[trigger] calls(j))
            },
            AgentRunEnd::Exhausted { asks } => {
                &&& asks == max_turns
                &&& forall|j: nat| j < max_turns ==> !reply_ends_run(#[trigger] calls(j))
            },
        },
{
    lemma_agent_run(max_turns, calls, 0);
}

impl AgenticSession {
    /// What every session keeps: no more turns than allowed, and no
    /// screenshot without a report directory.
    pub open spec fn wf(&self) -> bool {
        &&& self.turn <= self.max_turns
        &&& self.report_dir is None ==> self.screenshots@.len() == 0
    }

    /// A session allowed `max_turns` turns (5 when not given).
    pub fn new(max_turns: Option<u32>, report_dir: Option<String>) -> (s: AgenticSession)
        ensures
            s.max_turns == match max_turns {
                Some(m) => m as usize,
                None => 5usize,
            },
            s.turn == 0,
            s.screenshots@.len() == 0,
            s.assertions@.len() == 0,
            s.screenshot_counter == 0,
            s.report_dir == report_dir,
            s.wf(),
    {
        let m: usize = match max_turns {
            Some(m) => m as usize,
            None => 5,
        };
        AgenticSession {
            max_turns: m,
            turn: 0,
            screenshots: Vec::new(),
            assertions: Vec::new(),
            screenshot_counter: 0,
            report_dir,
        }
    }

    /// Whether another model turn may be taken.
    pub fn can_take_turn(&self) -> (b: bool)
        ensures
            b == (self.turn < self.max_turns),
    {
        self.turn < self.max_turns
    }

    /// Ends a turn whose response asked for tools.
    pub fn end_turn(&mut self)
        requires
            old(self).turn < old(self).max_turns,
        ensures
            final(self).turn == old(self).turn + 1,
            final(self).turn <= final(self).max_turns,
            final(self).max_turns == old(self).max_turns,
            final(self).screenshots == old(self).screenshots,
            final(self).assertions == old(self).assertions,
            final(self).screenshot_counter == old(self).screenshot_counter,
            final(self).report_dir == old(self).report_dir,
    {
        self.turn = self.turn + 1;
    }

    /// Where a tool call goes: the library's own tools are answered here,
    /// screenshots are also saved when there is a report directory, and
    /// everything else goes to the browser.
    pub fn route(&self, name: &str) -> (r: ToolRoute)
        ensures
            spec_is_virtual_tool(name@) ==> r == ToolRoute::Virtual,
            !spec_is_virtual_tool(name@) && name@ == "browser_take_screenshot"@ && self.report_dir is Some
                ==> r == ToolRoute::ScreenshotThenForward,
            !spec_is_virtual_tool(name@) && !(name@ == "browser_take_screenshot"@ && self.report_dir is Some)
                ==> r == ToolRoute::Forward,
    {
        if is_virtual_tool(name) {
            return ToolRoute::Virtual;
        }
        let n = chars_of(name);
        let shot = chars_of("browser_take_screenshot");
        if crate::text::matches_at_exec(n.as_slice(), shot.as_slice(), 0) && n.len() == shot.len() && self.report_dir.is_some() {
            assert(n@ =~= n@.subrange(0, shot@.len() as int));
            ToolRoute::ScreenshotThenForward
        } else {
            proof {
                if n@ == shot@ {
                    assert(n@.subrange(0, shot@.len() as int) =~= n@);
                }
            }
            ToolRoute::Forward
        }
    }

    /// Numbers the next screenshot and names its file in the report directory:
    /// `agentic_NNN.png`. Without a report directory nothing is numbered.
    pub fn next_agentic_screenshot(&mut self) -> (r: Option<String>)
        requires
            old(self).screenshot_counter < u32::MAX,
        ensures
            old(self).report_dir matches Some(d) ==> {
                &&& final(self).screenshot_counter == old(self).screenshot_counter + 1
                &&& r matches Some(p) && p@ == spec_path_join(d@, agentic_file(final(self).screenshot_counter as nat))
            },
            old(self).report_dir is None ==> r is None && final(self).screenshot_counter == old(self).screenshot_counter,
            final(self).turn == old(self).turn,
            final(self).max_turns == old(self).max_turns,
            final(self).screenshots == old(self).screenshots,
            final(self).assertions == old(self).assertions,
            final(self).report_dir == old(self).report_dir,
    {
        match &self.report_dir {
            Some(d) => {
                self.screenshot_counter = self.screenshot_counter + 1;
                let mut name: Vec<char> = Vec::new();
                extend_str(&mut name, "agentic_");
                let num = padded(self.screenshot_counter as u64, 3);
                extend_chars(&mut name, num.as_slice());
                extend_str(&mut name, ".png");
                Some(path_join(d.as_str(), name.as_slice()))
            },
            None => None,
        }
    }

    /// Numbers the next screenshot, taken as evidence for an assertion, and
    /// names its file: `evidence_NNN_label.png`. Without a report directory
    /// nothing is numbered.
    pub fn next_evidence_screenshot(&mut self, label: &str) -> (r: Option<String>)
        requires
            old(self).screenshot_counter < u32::MAX,
        ensures
            old(self).report_dir matches Some(d) ==> {
                &&& final(self).screenshot_counter == old(self).screenshot_counter + 1
                &&& r matches Some(p) && p@ == spec_path_join(d@, evidence_file(final(self).screenshot_counter as nat, label@))
            },
            old(self).report_dir is None ==> r is None && final(self).screenshot_counter == old(self).screenshot_counter,
            final(self).turn == old(self).turn,
            final(self).max_turns == old(self).max_turns,
            final(self).screenshots == old(self).screenshots,
            final(self).assertions == old(self).assertions,
            final(self).report_dir == old(self).report_dir,
    {
        match &self.report_dir {
            Some(d) => {
                self.screenshot_counter = self.screenshot_counter + 1;
                let mut name: Vec<char> = Vec::new();
                extend_str(&mut name, "evidence_");
                let num = padded(self.screenshot_counter as u64, 3);
                extend_chars(&mut name, num.as_slice());
                extend_str(&mut name, "_");
                extend_str(&mut name, label);
                extend_str(&mut name, ".png");
                Some(path_join(d.as_str(), name.as_slice()))
            },
            None => None,
        }
    }

    /// Keeps a screenshot that was saved in the report directory.
    pub fn record_screenshot(&mut self, path: String)
        requires
            old(self).report_dir is Some,
        ensures
            final(self).screenshots@ == old(self).screenshots@.push(path),
            final(self).turn == old(self).turn,
            final(self).max_turns == old(self).max_turns,
            final(self).assertions == old(self).assertions,
            final(self).screenshot_counter == old(self).screenshot_counter,
            final(self).report_dir == old(self).report_dir,
    {
        self.screenshots.push(path);
    }

    /// Keeps an assertion result.
    pub fn record_assertion(&mut self, a: Assertion)
        ensures
            final(self).assertions@ == old(self).assertions@.push(a),
            final(self).turn == old(self).turn,
            final(self).max_turns == old(self).max_turns,
            final(self).screenshots == old(self).screenshots,
            final(self).screenshot_counter == old(self).screenshot_counter,
            final(self).report_dir == old(self).report_dir,
    {
        self.assertions.push(a);
    }

    /// The output of a session whose last response asked for no tools: the
    /// texts of that response joined by newlines, with the evidence gathered.
    pub fn finish(self, texts: &Vec<String>) -> (o: AgenticOutput)
        ensures
            o.text@ == spec_join(texts@.map_values(|t: String| t@), "\n"@),
            o.screenshots == self.screenshots,
            o.assertions == self.assertions,
    {
        AgenticOutput { text: join(texts, "\n"), screenshots: self.screenshots, assertions: self.assertions }
    }

    /// Takes the model's reply, which asked for `tool_calls` tools and held
    /// `texts`: without tool requests the run ends, its output being the
    /// texts joined by newlines with the evidence gathered; otherwise the
    /// tools are to be run and the turn is counted.
    pub fn take_reply(&mut self, tool_calls: usize, texts: &Vec<String>) -> (a: AgentAction)
        requires
            old(self).turn < old(self).max_turns,
        ensures
            reply_ends_run(tool_calls as nat) ==> {
                &&& a matches AgentAction::Finish(o)
                &&& o.text@ == spec_join(texts@.map_values(|t: String| t@), "\n"@)
                &&& o.screenshots@ == old(self).screenshots@
                &&& o.assertions@ == old(self).assertions@
                &&& *final(self) == *old(self)
            },
            !reply_ends_run(tool_calls as nat) ==> {
                &&& a is RunTools
                &&& final(self).turn == old(self).turn + 1
                &&& final(self).max_turns == old(self).max_turns
                &&& final(self).screenshots == old(self).screenshots
                &&& final(self).assertions == old(self).assertions
                &&& final(self).screenshot_counter == old(self).screenshot_counter
                &&& final(self).report_dir == old(self).report_dir
            },
            old(self).wf() ==> final(self).wf(),
    {
        if tool_calls == 0 {
            AgentAction::Finish(AgenticOutput {
                text: join(texts, "\n"),
                screenshots: clone_strings(&self.screenshots),
                assertions: clone_assertions(&self.assertions),
            })
        } else {
            self.end_turn();
            AgentAction::RunTools
        }
    }

    /// The error of a session that used up its turns.
    pub fn exhausted_error(&self) -> (e: String)
        ensures
            e@ == exhausted_message(self.max_turns as nat),
    {
        let mut out: Vec<char> = Vec::new();
        extend_str(&mut out, "Agentic node exceeded max turns (");
        let num = decimal(self.max_turns as u64);
        extend_chars(&mut out, num.as_slice());
        extend_str(&mut out, ") without completing");
        string_from_chars(out.as_slice())
    }
}

} // verus!
