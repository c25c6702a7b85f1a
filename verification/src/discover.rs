//! The snapshot reading of the login discovery run: element references by
//! kind and keyword or by position, and which lines and words of a page it
//! reports.

use vstd::prelude::*;

use crate::steps::agentic::{lines_lowered, opt_view};
use crate::text::{
    chars_of, contains, find, lemma_find_from, slice_from, slice_range, spec_contains, spec_find, spec_lines,
    spec_to_lowercase, string_from_chars,
};

verus! {

/// The reference of a line: the text between the first `[ref=` and the
/// next `]` (possibly empty).
pub open spec fn plain_ref(line: Seq<char>) -> Option<Seq<char>> {
    match spec_find(line, "[ref="@) {
        Some(s) => match spec_find(line.skip(s + 5), "]"@) {
            Some(e) => Some(line.skip(s + 5).take(e)),
            None => None,
        },
        None => None,
    }
}

fn plain_ref_exec(l: &[char]) -> (r: Option<Vec<char>>)
    ensures
        match r {
            Some(v) => plain_ref(l@) == Some(v@),
            None => plain_ref(l@) is None,
        },
{
    let open = chars_of("[ref=");
    let close = chars_of("]");
    proof {
        reveal_strlit("[ref=");
        reveal_strlit("]");
    }
    assert(l@.len() == l.len());
    match find(l, open.as_slice()) {
        Some(s) => {
            proof {
                lemma_find_from(l@, "[ref="@, 0);
            }
            let after = slice_from(l, s + 5);
            match find(after.as_slice(), close.as_slice()) {
                Some(e) => {
                    proof {
                        lemma_find_from(after@, "]"@, 0);
                    }
                    let r = slice_range(after.as_slice(), 0, e);
                    assert(r@ =~= after@.take(e as int));
                    Some(r)
                },
                None => None,
            }
        },
        None => None,
    }
}

/// From line `i` on, the reference of the first line that mentions both
/// `kind` and `keyword` (lower-cased) and has a reference.
pub open spec fn find_ref_from(ls: Seq<Seq<char>>, kind: Seq<char>, keyword: Seq<char>, i: int) -> Option<Seq<char>>
    decreases ls.len() - i,
{
    if i < 0 || i >= ls.len() {
        None
    } else {
        let lower = spec_to_lowercase(ls[i]);
        if spec_contains(lower, kind) && spec_contains(lower, keyword) && plain_ref(ls[i]) is Some {
            plain_ref(ls[i])
        } else {
            find_ref_from(ls, kind, keyword, i + 1)
        }
    }
}

/// The reference of the first line of the snapshot that mentions the
/// element kind and the keyword, ignoring the case of the line.
pub fn find_ref(snapshot: &str, element_type: &str, keyword: &str) -> (r: Option<String>)
    ensures
        opt_view(r) == find_ref_from(spec_lines(snapshot@), element_type@, keyword@, 0),
{
    let (ls, lows) = lines_lowered(snapshot);
    let kind = chars_of(element_type);
    let kw = chars_of(keyword);
    let ghost lv = ls@.map_values(|l: Vec<char>| l@);
    let mut i: usize = 0;
    while i < ls.len()
        invariant
            i <= ls@.len(),
            lv == ls@.map_values(|l: Vec<char>| l@),
            lv == spec_lines(snapshot@),
            lows@.len() == ls@.len(),
            forall|j: int| 0 <= j < ls@.len() ==> (#[trigger] lows@[j])@ == spec_to_lowercase(ls@[j]@),
            kind@ == element_type@,
            kw@ == keyword@,
            find_ref_from(lv, kind@, kw@, 0) == find_ref_from(lv, kind@, kw@, i as int),
        decreases ls@.len() - i,
    {
        assert(lv[i as int] == ls@[i as int]@);
        if contains(lows[i].as_slice(), kind.as_slice()) && contains(lows[i].as_slice(), kw.as_slice()) {
            match plain_ref_exec(ls[i].as_slice()) {
                Some(v) => {
                    assert(plain_ref(lv[i as int]) == Some(v@));
                    assert(find_ref_from(lv, kind@, kw@, i as int) == plain_ref(lv[i as int]));
                    return Some(string_from_chars(v.as_slice()));
                },
                None => {},
            }
        }
        i += 1;
    }
    None
}

/// From line `i` on, where `count` lines mentioning `kind` came before: the
/// reference of the line that is the `n`-th (from 0) to mention `kind`, when
/// that line has one.
pub open spec fn nth_ref_from(ls: Seq<Seq<char>>, kind: Seq<char>, n: nat, count: nat, i: int) -> Option<Seq<char>>
    decreases ls.len() - i,
{
    if i < 0 || i >= ls.len() {
        None
    } else if spec_contains(spec_to_lowercase(ls[i]), kind) {
        if count == n && plain_ref(ls[i]) is Some {
            plain_ref(ls[i])
        } else {
            nth_ref_from(ls, kind, n, count + 1, i + 1)
        }
    } else {
        nth_ref_from(ls, kind, n, count, i + 1)
    }
}

/// The reference of the `n`-th (from 0) line that mentions the element
/// kind, ignoring case; `None` when that line has no reference.
pub fn find_nth_ref(snapshot: &str, element_type: &str, n: usize) -> (r: Option<String>)
    ensures
        opt_view(r) == nth_ref_from(spec_lines(snapshot@), element_type@, n as nat, 0, 0),
{
    let (ls, lows) = lines_lowered(snapshot);
    let kind = chars_of(element_type);
    let ghost lv = ls@.map_values(|l: Vec<char>| l@);
    let mut count: usize = 0;
    let mut i: usize = 0;
    while i < ls.len()
        invariant
            i <= ls@.len(),
            count <= i,
            lv == ls@.map_values(|l: Vec<char>| l@),
            lv == spec_lines(snapshot@),
            lows@.len() == ls@.len(),
            forall|j: int| 0 <= j < ls@.len() ==> (#[trigger] lows@[j])@ == spec_to_lowercase(ls@[j]@),
            kind@ == element_type@,
            nth_ref_from(lv, kind@, n as nat, 0, 0) == nth_ref_from(lv, kind@, n as nat, count as nat, i as int),
        decreases ls@.len() - i,
    {
        assert(lv[i as int] == ls@[i as int]@);
        if contains(lows[i].as_slice(), kind.as_slice()) {
            if count == n {
                match plain_ref_exec(ls[i].as_slice()) {
                    Some(v) => {
                        assert(plain_ref(lv[i as int]) == Some(v@));
                        assert(nth_ref_from(lv, kind@, n as nat, count as nat, i as int) == plain_ref(lv[i as int]));
                        return Some(string_from_chars(v.as_slice()));
                    },
                    None => {},
                }
            }
            count += 1;
        }
        i += 1;
    }
    None
}

/// The first of two choices that is there.
pub open spec fn first_found(a: Option<Seq<char>>, b: Option<Seq<char>>) -> Option<Seq<char>> {
    match a {
        Some(x) => Some(x),
        None => b,
    }
}

/// The reference of the link that declines the cookie banner.
pub fn cookie_decline_ref(snapshot: &str) -> (r: Option<String>)
    ensures
        opt_view(r) == find_ref_from(spec_lines(snapshot@), "link"@, "ablehnen"@, 0),
{
    find_ref(snapshot, "link", "ablehnen")
}

/// The reference of the user name box: the text box named for the login
/// name, else the first text box.
pub fn username_ref(snapshot: &str) -> (r: Option<String>)
    ensures
        opt_view(r) == first_found(
            find_ref_from(spec_lines(snapshot@), "textbox"@, "anmeldename"@, 0),
            nth_ref_from(spec_lines(snapshot@), "textbox"@, 0, 0, 0),
        ),
{
    match find_ref(snapshot, "textbox", "anmeldename") {
        Some(r) => Some(r),
        None => find_nth_ref(snapshot, "textbox", 0),
    }
}

/// The reference of the password box: the text box named for the PIN, else
/// the one named for online banking, else the second text box.
pub fn password_ref(snapshot: &str) -> (r: Option<String>)
    ensures
        opt_view(r) == first_found(
            find_ref_from(spec_lines(snapshot@), "textbox"@, "pin"@, 0),
            first_found(
                find_ref_from(spec_lines(snapshot@), "textbox"@, "online-banking"@, 0),
                nth_ref_from(spec_lines(snapshot@), "textbox"@, 1, 0, 0),
            ),
        ),
{
    match find_ref(snapshot, "textbox", "pin") {
        Some(r) => Some(r),
        None => match find_ref(snapshot, "textbox", "online-banking") {
            Some(r) => Some(r),
            None => find_nth_ref(snapshot, "textbox", 1),
        },
    }
}

/// The reference of the login button.
pub fn login_button_ref(snapshot: &str) -> (r: Option<String>)
    ensures
        opt_view(r) == find_ref_from(spec_lines(snapshot@), "button"@, "anmelden"@, 0),
{
    find_ref(snapshot, "button", "anmelden")
}

/// Whether the lower-cased `text` contains `word`.
pub open spec fn mentions(text: Seq<char>, word: Seq<char>) -> bool {
    spec_contains(spec_to_lowercase(text), word)
}

/// Whether the lower-cased `lower` contains the word `w`.
fn has(lower: &[char], w: &str) -> (b: bool)
    ensures
        b == spec_contains(lower@, w@),
{
    let v = chars_of(w);
    contains(lower, v.as_slice())
}

/// Whether a snapshot line belongs to the login form as the discovery run
/// shows it: a text box, a button, or a mention of the login, the PIN or
/// online banking.
pub fn form_line(line: &str) -> (b: bool)
    ensures
        b == (mentions(line@, "textbox"@) || mentions(line@, "button"@) || mentions(line@, "anmeld"@)
            || mentions(line@, "pin"@) || mentions(line@, "online-banking"@)),
{
    let c = chars_of(line);
    let l = crate::text::to_lowercase(c.as_slice());
    has(l.as_slice(), "textbox") || has(l.as_slice(), "button") || has(l.as_slice(), "anmeld")
        || has(l.as_slice(), "pin") || has(l.as_slice(), "online-banking")
}

/// Whether a snapshot line is shown before the login is submitted: a text
/// box, or the login button.
pub fn submit_line(line: &str) -> (b: bool)
    ensures
        b == (mentions(line@, "textbox"@) || (mentions(line@, "anmelden"@) && mentions(line@, "button"@))),
{
    let c = chars_of(line);
    let l = crate::text::to_lowercase(c.as_slice());
    has(l.as_slice(), "textbox") || (has(l.as_slice(), "anmelden") && has(l.as_slice(), "button"))
}

/// Whether a page shows an error or a hint.
pub fn shows_error_hint(snapshot: &str) -> (b: bool)
    ensures
        b == (mentions(snapshot@, "fehler"@) || mentions(snapshot@, "error"@) || mentions(
            snapshot@,
            "hinweis"@,
        )),
{
    let c = chars_of(snapshot);
    let l = crate::text::to_lowercase(c.as_slice());
    has(l.as_slice(), "fehler") || has(l.as_slice(), "error") || has(l.as_slice(), "hinweis")
}

/// Whether a page shows the banking dashboard: the financial status, the
/// balance or the transactions.
pub fn shows_dashboard(snapshot: &str) -> (b: bool)
    ensures
        b == (mentions(snapshot@, "finanzstatus"@) || mentions(snapshot@, "kontostand"@) || mentions(
            snapshot@,
            "umsätze"@,
        )),
{
    let c = chars_of(snapshot);
    let l = crate::text::to_lowercase(c.as_slice());
    has(l.as_slice(), "finanzstatus") || has(l.as_slice(), "kontostand") || has(l.as_slice(), "umsätze")
}

} // verus!
