//! Which language model the agentic steps use: the provider and model
//! names, the token limit and the context limit, from the environment and
//! the configuration, with their defaults; and the number parsing they need.

use vstd::prelude::*;

use crate::text::{all_digits, chars_of, digit_char, digits_value, is_digit, spec_decimal};

verus! {

/// The integer a text writes as `str::parse` reads it: an optional `+`
/// (or, for signed types, `-`) and at least one digit, nothing else.
pub open spec fn spec_parse_int(s: Seq<char>, signed: bool) -> Option<int> {
    if s.len() > 0 && s[0] == '+' {
        if all_digits(s.skip(1)) {
            Some(digits_value(s.skip(1)) as int)
        } else {
            None
        }
    } else if signed && s.len() > 0 && s[0] == '-' {
        if all_digits(s.skip(1)) {
            Some(-(digits_value(s.skip(1)) as int))
        } else {
            None
        }
    } else if all_digits(s) {
        Some(digits_value(s) as int)
    } else {
        None
    }
}

proof fn lemma_prefix_value_le(s: Seq<char>, k: int)
    requires
        0 <= k <= s.len(),
        forall|i: int| 0 <= i < s.len() ==> is_digit(#[trigger] s[i]),
    ensures
        digits_value(s.take(k)) <= digits_value(s),
    decreases s.len(),
{
    if k < s.len() {
        assert(s.drop_last().take(k) =~= s.take(k));
        lemma_prefix_value_le(s.drop_last(), k);
    } else {
        assert(s.take(k) =~= s);
    }
}

/// A number written in decimal reads back as itself: what `decimal` writes
/// is a run of digits whose value is the number, and `str::parse` reads it
/// as that number, signed or not.
pub proof fn law_decimal_reads_back(n: nat, signed: bool)
    ensures
        all_digits(spec_decimal(n)),
        digits_value(spec_decimal(n)) == n,
        spec_parse_int(spec_decimal(n), signed) == Some(n as int),
{
    crate::text::lemma_decimal_value(n);
    let d = spec_decimal(n);
    assert(d[0] != '+' && d[0] != '-') by {
        assert(is_digit(d[0]));
    }
}

/// The value of the digits `d`, when all are digits and the value is at
/// most `limit`.
fn parse_magnitude(d: &[char], limit: u64) -> (r: Option<u64>)
    ensures
        r == (if all_digits(d@) && digits_value(d@) <= limit {
            Some(digits_value(d@) as u64)
        } else {
            None::<u64>
        }),
{
    if d.len() == 0 {
        return None;
    }
    let mut acc: u128 = 0;
    let mut i: usize = 0;
    assert(d@.take(0) =~= Seq::<char>::empty());
    while i < d.len()
        invariant
            i <= d@.len(),
            d@.len() > 0,
            forall|j: int| 0 <= j < i ==> is_digit(#[trigger] d@[j]),
            acc == digits_value(d@.take(i as int)),
            acc <= limit,
        decreases d@.len() - i,
    {
        let c = d[i];
        if !('0' <= c && c <= '9') {
            assert(!is_digit(d@[i as int]));
            return None;
        }
        let v: u128 = (c as u32 - 48) as u128;
        assert(d@.take(i + 1).drop_last() =~= d@.take(i as int));
        acc = acc * 10 + v;
        if acc > limit as u128 {
            proof {
                if all_digits(d@) {
                    lemma_prefix_value_le(d@, i + 1);
                }
            }
            return None;
        }
        i += 1;
    }
    assert(d@.take(d@.len() as int) =~= d@);
    Some(acc as u64)
}

/// Parses an `i32` as `str::parse::<i32>` does: `None` where it fails.
pub fn parse_i32(s: &str) -> (r: Option<i32>)
    ensures
        r == (match spec_parse_int(s@, true) {
            Some(v) => if i32::MIN <= v <= i32::MAX {
                Some(v as i32)
            } else {
                None::<i32>
            },
            None => None::<i32>,
        }),
{
    let c = chars_of(s);
    if c.len() > 0 && (c[0] == '+' || c[0] == '-') {
        let neg = c[0] == '-';
        let rest = crate::text::slice_from(c.as_slice(), 1);
        assert(rest@ =~= s@.skip(1));
        let limit: u64 = if neg { 0x8000_0000 } else { 0x7fff_ffff };
        match parse_magnitude(rest.as_slice(), limit) {
            Some(m) => if neg {
                Some((0i64 - m as i64) as i32)
            } else {
                Some(m as i32)
            },
            None => None,
        }
    } else {
        match parse_magnitude(c.as_slice(), 0x7fff_ffff) {
            Some(m) => Some(m as i32),
            None => None,
        }
    }
}

/// Parses a `usize` as `str::parse::<usize>` does: `None` where it fails.
pub fn parse_usize(s: &str) -> (r: Option<usize>)
    ensures
        r == (match spec_parse_int(s@, false) {
            Some(v) => if 0 <= v <= usize::MAX {
                Some(v as usize)
            } else {
                None::<usize>
            },
            None => None::<usize>,
        }),
{
    let c = chars_of(s);
    if c.len() > 0 && c[0] == '+' {
        let rest = crate::text::slice_from(c.as_slice(), 1);
        assert(rest@ =~= s@.skip(1));
        match parse_magnitude(rest.as_slice(), usize::MAX as u64) {
            Some(m) => Some(m as usize),
            None => None,
        }
    } else {
        match parse_magnitude(c.as_slice(), usize::MAX as u64) {
            Some(m) => Some(m as usize),
            None => None,
        }
    }
}

/// What the environment and the configuration say about the model: each
/// field is the value of the variable or parameter of that name, `None`
/// where it is not set (or not valid Unicode).
#[derive(Debug, Clone)]
pub struct ProviderEnv {
    /// `WEBTEST_PROVIDER`.
    pub webtest_provider: Option<String>,
    /// `GOOSE_PROVIDER` in the environment.
    pub goose_provider: Option<String>,
    /// `GOOSE_PROVIDER` in the goose configuration.
    pub config_provider: Option<String>,
    /// `WEBTEST_MODEL`.
    pub webtest_model: Option<String>,
    /// `GOOSE_MODEL` in the environment.
    pub goose_model: Option<String>,
    /// `GOOSE_MODEL` in the goose configuration.
    pub config_model: Option<String>,
    /// `WEBTEST_MAX_TOKENS`.
    pub webtest_max_tokens: Option<String>,
    /// `GOOSE_MAX_TOKENS`.
    pub goose_max_tokens: Option<String>,
    /// `WEBTEST_CONTEXT_LIMIT`.
    pub webtest_context_limit: Option<String>,
}

/// The model the agentic steps use.
#[derive(Debug, Clone)]
pub struct ProviderSettings {
    pub provider: String,
    pub model: String,
    pub max_tokens: i32,
    pub context_limit: usize,
}

/// The first of three optional texts that is set, or the default.
pub open spec fn first_set(a: Option<String>, b: Option<String>, c: Option<String>, d: Seq<char>) -> Seq<char> {
    match a {
        Some(x) => x@,
        None => match b {
            Some(y) => y@,
            None => match c {
                Some(z) => z@,
                None => d,
            },
        },
    }
}

/// The token limit: the first of `WEBTEST_MAX_TOKENS` and
/// `GOOSE_MAX_TOKENS` that is set, read as an `i32`; 16384 when neither is
/// set or the one set does not read as a number.
pub open spec fn spec_max_tokens(e: ProviderEnv) -> i32 {
    let t = match e.webtest_max_tokens {
        Some(x) => Some(x),
        None => e.goose_max_tokens,
    };
    match t {
        Some(x) => match spec_parse_int(x@, true) {
            Some(v) => if i32::MIN <= v <= i32::MAX {
                v as i32
            } else {
                16384
            },
            None => 16384,
        },
        None => 16384,
    }
}

/// The context limit: `WEBTEST_CONTEXT_LIMIT` read as a `usize`, or 262144.
pub open spec fn spec_context_limit(e: ProviderEnv) -> usize {
    match e.webtest_context_limit {
        Some(x) => match spec_parse_int(x@, false) {
            Some(v) => if 0 <= v <= usize::MAX {
                v as usize
            } else {
                262144
            },
            None => 262144,
        },
        None => 262144,
    }
}

fn first_set_exec(a: &Option<String>, b: &Option<String>, c: &Option<String>, d: &str) -> (r: String)
    ensures
        r@ == first_set(*a, *b, *c, d@),
{
    match a {
        Some(x) => x.clone(),
        None => match b {
            Some(y) => y.clone(),
            None => match c {
                Some(z) => z.clone(),
                None => String::from_str(d),
            },
        },
    }
}

impl ProviderEnv {
    /// The settings: the provider and model from the first source that sets
    /// them (this tool's variable, goose's variable, goose's configuration),
    /// else `anthropic` and `default_model`; and the limits.
    pub fn settings(&self, default_model: &str) -> (r: ProviderSettings)
        ensures
            r.provider@ == first_set(
                self.webtest_provider,
                self.goose_provider,
                self.config_provider,
                "anthropic"@,
            ),
            r.model@ == first_set(
                self.webtest_model,
                self.goose_model,
                self.config_model,
                default_model@,
            ),
            r.max_tokens == spec_max_tokens(*self),
            r.context_limit == spec_context_limit(*self),
    {
        let provider = first_set_exec(
            &self.webtest_provider,
            &self.goose_provider,
            &self.config_provider,
            "anthropic",
        );
        let model = first_set_exec(
            &self.webtest_model,
            &self.goose_model,
            &self.config_model,
            default_model,
        );
        let tokens_text = match &self.webtest_max_tokens {
            Some(x) => Some(x),
            None => match &self.goose_max_tokens {
                Some(y) => Some(y),
                None => None,
            },
        };
        let max_tokens: i32 = match tokens_text {
            Some(x) => match parse_i32(x.as_str()) {
                Some(v) => v,
                None => 16384,
            },
            None => 16384,
        };
        let context_limit: usize = match &self.webtest_context_limit {
            Some(x) => match parse_usize(x.as_str()) {
                Some(v) => v,
                None => 262144,
            },
            None => 262144,
        };
        ProviderSettings { provider, model, max_tokens, context_limit }
    }
}

} // verus!
