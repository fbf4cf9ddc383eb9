//! Process-wide configuration: verification provider keys, mail relay
//! account, and the web bind address. It is built once at startup from a
//! snapshot of the environment (a list of lowercased key/value pairs) and
//! shared read-only afterwards; a missing or malformed value is a
//! startup-fatal condition reported as a [`ConfigError`].

use vstd::prelude::*;

verus! {

/// Human-verification provider settings.
pub struct HCaptchaConfig {
    pub site_key: String,
    pub secret_key: String,
    pub timeout: i64,
}

/// Mail relay settings; `address` doubles as the authentication user name.
pub struct MailConfig {
    pub address: String,
    pub password: String,
    pub server: String,
    pub to: String,
    pub timeout: i64,
}

/// Web server settings.
pub struct WebConfig {
    pub address: String,
}

/// The whole process configuration.
pub struct Config {
    pub hcaptcha: HCaptchaConfig,
    pub mail: MailConfig,
    pub web: WebConfig,
}

/// Why startup configuration could not be built: a key absent from the
/// environment, or a value that is not a signed decimal numeral in range.
pub enum ConfigError {
    Missing { key: String },
    Malformed { key: String },
}

/// The first value bound to `key` in the environment snapshot.
pub open spec fn env_lookup(vars: Seq<(String, String)>, key: Seq<char>) -> Option<Seq<char>>
    decreases vars.len(),
{
    if vars.len() == 0 {
        None
    } else if vars[0].0@ == key {
        Some(vars[0].1@)
    } else {
        env_lookup(vars.drop_first(), key)
    }
}

/// Whether `c` is a decimal digit.
pub open spec fn is_digit(c: char) -> bool {
    48 <= c as int <= 57
}

/// The value of a decimal digit.
pub open spec fn digit_val(c: char) -> int {
    c as int - 48
}

/// Whether every character of `s` is a decimal digit.
pub open spec fn all_digits(s: Seq<char>) -> bool {
    forall|i: int| 0 <= i < s.len() ==> is_digit(#[trigger] s[i])
}

/// The value of a digit string, most significant digit first.
pub open spec fn digits_val(s: Seq<char>) -> int
    decreases s.len(),
{
    if s.len() == 0 {
        0
    } else {
        digits_val(s.drop_last()) * 10 + digit_val(s.last())
    }
}

/// Whether `s` is a decimal numeral: an optional leading minus sign followed
/// by at least one digit.
pub open spec fn numeral_ok(s: Seq<char>) -> bool {
    if s.len() > 0 && s[0] == '-' {
        s.len() >= 2 && all_digits(s.skip(1))
    } else {
        s.len() >= 1 && all_digits(s)
    }
}

/// The value of a decimal numeral.
pub open spec fn numeral_val(s: Seq<char>) -> int {
    if s.len() > 0 && s[0] == '-' {
        -digits_val(s.skip(1))
    } else {
        digits_val(s)
    }
}

/// Whether `v` fits in a 64-bit signed integer.
pub open spec fn in_i64_range(v: int) -> bool {
    i64::MIN <= v <= i64::MAX
}

proof fn lemma_digits_val_nonneg(s: Seq<char>)
    requires
        all_digits(s),
    ensures
        digits_val(s) >= 0,
    decreases s.len(),
{
    if s.len() > 0 {
        assert(all_digits(s.drop_last()));
        lemma_digits_val_nonneg(s.drop_last());
    }
}

/// A digit string is worth at least any of its prefixes.
proof fn lemma_digits_val_prefix(s: Seq<char>, k: int)
    requires
        all_digits(s),
        0 <= k <= s.len(),
    ensures
        digits_val(s) >= digits_val(s.take(k)),
    decreases s.len() - k,
{
    if k == s.len() {
        assert(s.take(k) =~= s);
    } else {
        assert(s.take(k + 1).drop_last() =~= s.take(k));
        assert(all_digits(s.take(k)));
        lemma_digits_val_nonneg(s.take(k));
        lemma_digits_val_prefix(s, k + 1);
    }
}

/// Parses a signed decimal numeral.
///
/// Returns `Some(n)` exactly when `s` is a well-formed numeral whose value
/// fits in `i64`, and then `n` is that value.
pub fn parse_i64(s: &str) -> (r: Option<i64>)
    ensures
        r is Some <==> numeral_ok(s@) && in_i64_range(numeral_val(s@)),
        r matches Some(n) ==> n as int == numeral_val(s@),
{
    let len = s.unicode_len();
    if len == 0 {
        return None;
    }
    let neg = s.get_char(0) == '-';
    let start: usize = if neg { 1 } else { 0 };
    if start == len {
        return None;
    }
    let ghost digits = s@.skip(start as int);
    let bound: u128 = if neg {
        9223372036854775808u128
    } else {
        9223372036854775807u128
    };
    let mut acc: u128 = 0;
    let mut i: usize = start;
    while i < len
        invariant
            start <= i <= len,
            len == s@.len(),
            neg <==> (s@.len() > 0 && s@[0] == '-'),
            start == (if neg { 1int } else { 0int }),
            bound == if neg { 9223372036854775808u128 } else { 9223372036854775807u128 },
            digits == s@.skip(start as int),
            all_digits(s@.subrange(start as int, i as int)),
            acc == digits_val(s@.subrange(start as int, i as int)),
            acc <= bound,
        decreases len - i,
    {
        let c = s.get_char(i);
        let cu = c as u32;
        if !(48 <= cu && cu <= 57) {
            proof {
                assert(digits[i - start] == s@[i as int]);
                assert(!is_digit(s@[i as int]));
                assert(!all_digits(digits));
            }
            return None;
        }
        let d: u128 = (cu - 48) as u128;
        let next: u128 = acc * 10 + d;
        proof {
            let sub0 = s@.subrange(start as int, i as int);
            let sub1 = s@.subrange(start as int, i + 1);
            assert(sub1.drop_last() =~= sub0);
            assert(sub1.last() == s@[i as int]);
            assert(is_digit(s@[i as int]));
            assert(digit_val(s@[i as int]) == d as int);
            assert forall|k: int| 0 <= k < sub1.len() implies is_digit(#[trigger] sub1[k]) by {
                if k < sub1.len() - 1 {
                    assert(sub1[k] == sub0[k]);
                } else {
                    assert(sub1[k] == s@[i as int]);
                }
            }
            assert(all_digits(sub1));
            assert(digits_val(sub1) == digits_val(sub0) * 10 + digit_val(s@[i as int]));
            assert(digits_val(sub1) == next as int);
        }
        if next > bound {
            proof {
                if numeral_ok(s@) && in_i64_range(numeral_val(s@)) {
                    assert(all_digits(digits));
                    if !neg {
                        assert(digits =~= s@);
                    }
                    assert(digits.take(i + 1 - start as int) =~= s@.subrange(
                        start as int,
                        i + 1,
                    ));
                    lemma_digits_val_prefix(digits, i + 1 - start as int);
                    assert(digits_val(digits) > bound);
                    assert(false);
                }
            }
            return None;
        }
        acc = next;
        i += 1;
    }
    proof {
        assert(s@.subrange(start as int, len as int) =~= digits);
        assert(all_digits(digits));
        assert(acc == digits_val(digits));
        if !neg {
            assert(digits =~= s@);
            assert(numeral_ok(s@));
            assert(numeral_val(s@) == acc as int);
        } else {
            assert(s@.len() >= 2);
            assert(numeral_ok(s@));
            assert(numeral_val(s@) == -(acc as int));
        }
        lemma_digits_val_nonneg(digits);
    }
    if neg {
        if acc == 9223372036854775808u128 {
            assert(i64::MIN as int == numeral_val(s@));
            Some(i64::MIN)
        } else {
            assert(acc <= 9223372036854775807u128);
            let n: i64 = acc as i64;
            assert(n as int == acc as int);
            Some(-n)
        }
    } else {
        assert(acc <= 9223372036854775807u128);
        let n: i64 = acc as i64;
        assert(n as int == acc as int);
        Some(n)
    }
}

/// Whether the snapshot binds `key` to a numeral that fits in `i64`.
pub open spec fn env_numeral_ok(vars: Seq<(String, String)>, key: Seq<char>) -> bool {
    match env_lookup(vars, key) {
        Some(v) => numeral_ok(v) && in_i64_range(numeral_val(v)),
        None => false,
    }
}

/// The numeral value the snapshot binds `key` to.
pub open spec fn env_numeral_val(vars: Seq<(String, String)>, key: Seq<char>) -> int {
    numeral_val(env_lookup(vars, key)->Some_0)
}

/// Finds `key` in the snapshot, or reports it missing.
fn require_str(vars: &Vec<(String, String)>, key: &str) -> (r: Result<String, ConfigError>)
    ensures
        r is Ok <==> env_lookup(vars@, key@) is Some,
        r matches Ok(v) ==> env_lookup(vars@, key@) == Some(v@),
        r matches Err(e) ==> e matches ConfigError::Missing { key: k } && k@ == key@,
{
    let k: String = key.to_owned();
    proof {
        assert(vars@.skip(0) =~= vars@);
    }
    let mut j: usize = 0;
    while j < vars.len()
        invariant
            j <= vars@.len(),
            k@ == key@,
            env_lookup(vars@, key@) == env_lookup(vars@.skip(j as int), key@),
        decreases vars@.len() - j,
    {
        proof {
            assert(vars@.skip(j as int)[0] == vars@[j as int]);
            assert(vars@.skip(j as int).drop_first() =~= vars@.skip(j + 1));
        }
        if vars[j].0 == k {
            return Ok(vars[j].1.clone());
        }
        j += 1;
    }
    Err(ConfigError::Missing { key: k })
}

/// Finds `key` in the snapshot and parses it as an `i64`, or reports it
/// missing or malformed.
fn require_i64(vars: &Vec<(String, String)>, key: &str) -> (r: Result<i64, ConfigError>)
    ensures
        r is Ok <==> env_numeral_ok(vars@, key@),
        r matches Ok(n) ==> n as int == env_numeral_val(vars@, key@),
        r matches Err(e) ==> match e {
            ConfigError::Missing { key: k } => k@ == key@ && env_lookup(vars@, key@) is None,
            ConfigError::Malformed { key: k } => k@ == key@ && env_lookup(vars@, key@) is Some
                && !env_numeral_ok(vars@, key@),
        },
{
    let v = require_str(vars, key)?;
    match parse_i64(v.as_str()) {
        Some(n) => Ok(n),
        None => Err(ConfigError::Malformed { key: key.to_owned() }),
    }
}

/// Whether the snapshot holds every configuration key, with numerals where
/// numbers are expected.
pub open spec fn config_env_ok(vars: Seq<(String, String)>) -> bool {
    &&& env_lookup(vars, "hcaptcha.site_key"@) is Some
    &&& env_lookup(vars, "hcaptcha.secret_key"@) is Some
    &&& env_numeral_ok(vars, "hcaptcha.timeout"@)
    &&& env_lookup(vars, "mail.address"@) is Some
    &&& env_lookup(vars, "mail.password"@) is Some
    &&& env_lookup(vars, "mail.server"@) is Some
    &&& env_lookup(vars, "mail.to"@) is Some
    &&& env_numeral_ok(vars, "mail.timeout"@)
    &&& env_lookup(vars, "web.address"@) is Some
}

impl Config {
    /// Builds the configuration from an environment snapshot: lowercased
    /// key/value pairs, keys named `hcaptcha.*`, `mail.*` and `web.address`.
    ///
    /// Succeeds exactly when every key is present and both timeouts are
    /// decimal numerals that fit in `i64`; each field then carries the bound
    /// value. The reported error names an absent or malformed key.
    pub fn from_env(vars: &Vec<(String, String)>) -> (r: Result<Config, ConfigError>)
        ensures
            r is Ok <==> config_env_ok(vars@),
            r matches Ok(c) ==> {
                &&& Some(c.hcaptcha.site_key@) == env_lookup(vars@, "hcaptcha.site_key"@)
                &&& Some(c.hcaptcha.secret_key@) == env_lookup(vars@, "hcaptcha.secret_key"@)
                &&& c.hcaptcha.timeout as int == env_numeral_val(vars@, "hcaptcha.timeout"@)
                &&& Some(c.mail.address@) == env_lookup(vars@, "mail.address"@)
                &&& Some(c.mail.password@) == env_lookup(vars@, "mail.password"@)
                &&& Some(c.mail.server@) == env_lookup(vars@, "mail.server"@)
                &&& Some(c.mail.to@) == env_lookup(vars@, "mail.to"@)
                &&& c.mail.timeout as int == env_numeral_val(vars@, "mail.timeout"@)
                &&& Some(c.web.address@) == env_lookup(vars@, "web.address"@)
            },
            r matches Err(e) ==> match e {
                ConfigError::Missing { key } => env_lookup(vars@, key@) is None,
                ConfigError::Malformed { key } => env_lookup(vars@, key@) is Some
                    && !env_numeral_ok(vars@, key@),
            },
    {
        let site_key = require_str(vars, "hcaptcha.site_key")?;
        let secret_key = require_str(vars, "hcaptcha.secret_key")?;
        let hcaptcha_timeout = require_i64(vars, "hcaptcha.timeout")?;
        let address = require_str(vars, "mail.address")?;
        let password = require_str(vars, "mail.password")?;
        let server = require_str(vars, "mail.server")?;
        let to = require_str(vars, "mail.to")?;
        let mail_timeout = require_i64(vars, "mail.timeout")?;
        let web_address = require_str(vars, "web.address")?;
        Ok(Config {
            hcaptcha: HCaptchaConfig {
                site_key,
                secret_key,
                timeout: hcaptcha_timeout,
            },
            mail: MailConfig { address, password, server, to, timeout: mail_timeout },
            web: WebConfig { address: web_address },
        })
    }
}

} // verus!
