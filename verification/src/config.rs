//! Configuration loading: the required bot token and proxy address,
//! and the optional numeric overrides with their defaults.
//!
//! A missing required value is a fatal configuration error. An
//! optional override falls back to its default both when it is absent
//! and when it does not read as a decimal number, exactly as parsing
//! the text and discarding the failure would do.

use vstd::prelude::*;
use vstd::string::*;

verus! {

/// Default total request timeout, in seconds.
pub const DEFAULT_REQUEST_TIMEOUT_SECS: u64 = 20;

/// Default connect timeout, in seconds.
pub const DEFAULT_CONNECT_TIMEOUT_SECS: u64 = 10;

/// Default grace period between a shutdown request and a forced exit,
/// in seconds.
pub const DEFAULT_SHUTDOWN_GRACE_SECS: u64 = 5;

/// Everything the process needs at startup.
pub struct Config {
    pub token: String,
    pub proxy: String,
    pub request_timeout_secs: u64,
    pub connect_timeout_secs: u64,
    pub shutdown_grace_secs: u64,
}

/// A required configuration value is absent; startup must abort.
#[derive(PartialEq, Eq, Structural, Debug)]
pub enum ConfigError {
    MissingToken,
    MissingProxy,
}

pub open spec fn is_digit_char(c: char) -> bool {
    48 <= c as int <= 57
}

pub open spec fn digit_of(c: char) -> int {
    c as int - 48
}

pub open spec fn all_digits(s: Seq<char>) -> bool {
    forall|i: int| 0 <= i < s.len() ==> is_digit_char(s[i])
}

/// Value of a digit string read in base ten.
pub open spec fn dec_value(s: Seq<char>) -> int
    decreases s.len(),
{
    if s.len() == 0 {
        0
    } else {
        dec_value(s.drop_last()) * 10 + digit_of(s.last())
    }
}

/// The digits of a decimal text: a single leading plus sign is
/// tolerated, as the standard unsigned parse tolerates it.
pub open spec fn digits_of(s: Seq<char>) -> Seq<char> {
    if s.len() > 0 && s[0] == '+' {
        s.drop_first()
    } else {
        s
    }
}

/// What parsing a text as an unsigned 64-bit decimal yields: the
/// digits' value when the text is one or more digits (after an
/// optional plus sign) and the value fits; nothing otherwise.
pub open spec fn parse_u64_spec(s: Seq<char>) -> Option<u64> {
    let d = digits_of(s);
    if d.len() > 0 && all_digits(d) && dec_value(d) <= u64::MAX {
        Some(dec_value(d) as u64)
    } else {
        None
    }
}

proof fn lemma_dec_value_nonneg(s: Seq<char>)
    requires
        all_digits(s),
    ensures
        dec_value(s) >= 0,
    decreases s.len(),
{
    if s.len() > 0 {
        assert(forall|i: int| 0 <= i < s.drop_last().len() ==> s.drop_last()[i] == s[i]);
        lemma_dec_value_nonneg(s.drop_last());
    }
}

/// A digit string is worth at least any of its prefixes.
proof fn lemma_dec_value_prefix_le(s: Seq<char>, k: int)
    requires
        all_digits(s),
        0 <= k <= s.len(),
    ensures
        dec_value(s.subrange(0, k)) <= dec_value(s),
    decreases s.len() - k,
{
    if k < s.len() {
        lemma_dec_value_prefix_le(s, k + 1);
        assert(s.subrange(0, k + 1).drop_last() =~= s.subrange(0, k));
        assert(forall|i: int| 0 <= i < k ==> s.subrange(0, k)[i] == s[i]);
        lemma_dec_value_nonneg(s.subrange(0, k));
        assert(dec_value(s.subrange(0, k + 1)) == dec_value(s.subrange(0, k)) * 10 + digit_of(
            s[k],
        ));
    } else {
        assert(s.subrange(0, k) =~= s);
    }
}

/// Reads a text as an unsigned 64-bit decimal number, as the standard
/// parse does: an optional plus sign, then one or more digits, and a
/// value that fits.
pub fn parse_u64(s: &str) -> (r: Option<u64>)
    ensures
        r == parse_u64_spec(s@),
{
    let n = s.unicode_len();
    let ghost d = digits_of(s@);
    let start: usize = if n > 0 && (s.get_char(0) as u32) == 43 {
        1
    } else {
        0
    };
    proof {
        if start == 1 {
            assert(s@[0] as int == 43);
            assert(s@[0] == '+');
            assert(d =~= s@.drop_first());
        } else {
            if s@.len() > 0 {
                assert(s@[0] as int != 43);
                assert(s@[0] != '+');
            }
            assert(d =~= s@);
        }
    }
    if n == start {
        return None;
    }
    let mut val: u64 = 0;
    let mut i: usize = start;
    while i < n
        invariant
            d == digits_of(s@),
            start <= 1,
            start == 1 ==> d =~= s@.drop_first(),
            start == 0 ==> d =~= s@,
            n == s@.len(),
            start <= i <= n,
            all_digits(d.subrange(0, i - start)),
            val == dec_value(d.subrange(0, i - start)),
        decreases n - i,
    {
        let c = s.get_char(i) as u32;
        if c < 48 || c > 57 {
            proof {
                assert(d[i - start] == s@[i as int]);
                assert(!is_digit_char(d[i - start]));
            }
            return None;
        }
        let digit: u64 = (c - 48) as u64;
        proof {
            assert(d[i - start] == s@[i as int]);
            assert(is_digit_char(d[i - start]));
            assert(digit == digit_of(d[i - start]));
        }
        if val > (u64::MAX - digit) / 10 {
            proof {
                let k = i - start + 1;
                assert(d.subrange(0, k).drop_last() =~= d.subrange(0, k - 1));
                assert(dec_value(d.subrange(0, k)) == val * 10 + digit);
                assert(val * 10 + digit > u64::MAX) by {
                    assert(val >= (u64::MAX - digit) / 10 + 1);
                };
                if all_digits(d) {
                    lemma_dec_value_prefix_le(d, k);
                    assert(dec_value(d) > u64::MAX);
                }
            }
            return None;
        }
        val = val * 10 + digit;
        i = i + 1;
        proof {
            assert(d.subrange(0, i - start).drop_last() =~= d.subrange(0, i - start - 1));
        }
    }
    proof {
        assert(d.subrange(0, n - start) =~= d);
    }
    Some(val)
}

/// The override's effective value: the parsed number when the text is
/// present and reads as one, the default otherwise.
pub open spec fn override_or(s: Option<Seq<char>>, default: u64) -> u64 {
    match s {
        None => default,
        Some(t) => match parse_u64_spec(t) {
            Some(v) => v,
            None => default,
        },
    }
}

/// Resolves one optional numeric override against its default.
pub fn numeric_override(s: Option<String>, default: u64) -> (r: u64)
    ensures
        r == override_or(s.deep_view(), default),
{
    match s {
        None => default,
        Some(t) => match parse_u64(t.as_str()) {
            Some(v) => v,
            None => default,
        },
    }
}

/// Builds the startup configuration from the raw environment values.
/// The token and the proxy address are required, in that order of
/// complaint; each timeout override falls back to its default when
/// absent or unreadable.
pub fn load_config(
    token: Option<String>,
    proxy: Option<String>,
    request_timeout: Option<String>,
    connect_timeout: Option<String>,
    shutdown_grace: Option<String>,
) -> (r: Result<Config, ConfigError>)
    ensures
        token is None ==> r == Err::<Config, ConfigError>(ConfigError::MissingToken),
        token is Some && proxy is None ==> r == Err::<Config, ConfigError>(
            ConfigError::MissingProxy,
        ),
        token is Some && proxy is Some ==> (r matches Ok(c) && c.token == token.unwrap()
            && c.proxy == proxy.unwrap() && c.request_timeout_secs == override_or(
            request_timeout.deep_view(),
            DEFAULT_REQUEST_TIMEOUT_SECS,
        ) && c.connect_timeout_secs == override_or(
            connect_timeout.deep_view(),
            DEFAULT_CONNECT_TIMEOUT_SECS,
        ) && c.shutdown_grace_secs == override_or(
            shutdown_grace.deep_view(),
            DEFAULT_SHUTDOWN_GRACE_SECS,
        )),
{
    let token = match token {
        Some(t) => t,
        None => {
            return Err(ConfigError::MissingToken);
        },
    };
    let proxy = match proxy {
        Some(p) => p,
        None => {
            return Err(ConfigError::MissingProxy);
        },
    };
    let request_timeout_secs = numeric_override(request_timeout, DEFAULT_REQUEST_TIMEOUT_SECS);
    let connect_timeout_secs = numeric_override(connect_timeout, DEFAULT_CONNECT_TIMEOUT_SECS);
    let shutdown_grace_secs = numeric_override(shutdown_grace, DEFAULT_SHUTDOWN_GRACE_SECS);
    Ok(Config { token, proxy, request_timeout_secs, connect_timeout_secs, shutdown_grace_secs })
}

} // verus!
