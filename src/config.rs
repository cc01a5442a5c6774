use vstd::prelude::*;

use crate::text::{ascii_lower, to_ascii_lowercase, trim, trimmed};

verus! {

/// The service's settings.
#[derive(Debug)]
pub struct Config {
    pub port: u16,
    pub github_client_id: Option<String>,
    pub github_client_secret: Option<String>,
    pub github_redirect_url: Option<String>,
    pub github_authorize_url: String,
    pub github_token_url: String,
    pub github_api_base: String,
    pub redis_url: Option<String>,
    pub session_ttl_seconds: u64,
    pub verify_email_token_ttl_seconds: u64,
    pub cookie_secure: bool,
    pub cookie_domain: Option<String>,
    pub session_key_prefix: String,
    pub resend_api_key: Option<String>,
    pub email_from: Option<String>,
    pub verify_email_url_base: Option<String>,
    pub email_provider: Option<String>,
    pub smtp_host: Option<String>,
    pub smtp_port: Option<u16>,
    pub smtp_username: Option<String>,
    pub smtp_password: Option<String>,
    pub smtp_starttls: bool,
}

/// The process environment as name / value pairs; the first pair with a name
/// gives its value.
#[derive(Debug)]
pub struct EnvVars {
    pub pairs: Vec<(String, String)>,
}

/// Read access to the settings.
pub trait ConfigService {
    fn port(&self) -> u16;

    fn values(&self) -> &Config;
}

/// The settings, read from the environment once.
#[derive(Debug)]
pub struct ConfigServiceImpl {
    pub config: Config,
}

/// The raw value of `key`, if it is set.
pub open spec fn env_raw(pairs: Seq<(String, String)>, key: Seq<char>) -> Option<Seq<char>>
    decreases pairs.len(),
{
    if pairs.len() == 0 {
        None
    } else if pairs[0].0@ == key {
        Some(pairs[0].1@)
    } else {
        env_raw(pairs.drop_first(), key)
    }
}

/// `s` without one pair of matching double or single quotes around it.
pub open spec fn strip_quotes(s: Seq<char>) -> Seq<char> {
    if s.len() >= 2 && ((s[0] == '"' && s.last() == '"') || (s[0] == '\'' && s.last() == '\'')) {
        s.subrange(1, s.len() - 1)
    } else {
        s
    }
}

/// A raw value once trimmed, unquoted and trimmed again; empty counts as unset.
pub open spec fn cleaned(raw: Seq<char>) -> Option<Seq<char>> {
    let t = trimmed(raw);
    let n = trimmed(strip_quotes(t));
    if t.len() == 0 || n.len() == 0 {
        None
    } else {
        Some(n)
    }
}

/// The cleaned value of `key`.
pub open spec fn env_text(pairs: Seq<(String, String)>, key: Seq<char>) -> Option<Seq<char>> {
    match env_raw(pairs, key) {
        Some(raw) => cleaned(raw),
        None => None,
    }
}

pub open spec fn all_digits(s: Seq<char>) -> bool {
    forall|i: int| 0 <= i < s.len() ==> '0' <= #[trigger] s[i] && s[i] <= '9'
}

/// The number that decimal digits spell.
pub open spec fn digits_value(s: Seq<char>) -> nat
    decreases s.len(),
{
    if s.len() == 0 {
        0
    } else {
        digits_value(s.drop_last()) * 10 + ((s.last() as u32) - ('0' as u32)) as nat
    }
}

/// What `str::parse` gives for an unsigned type whose largest value is
/// `max`: an optional `+`, then one or more decimal digits, in range.
pub open spec fn parsed_unsigned(s: Seq<char>, max: nat) -> Option<nat> {
    let d = if s.len() > 0 && s[0] == '+' {
        s.drop_first()
    } else {
        s
    };
    if d.len() > 0 && all_digits(d) && digits_value(d) <= max {
        Some(digits_value(d))
    } else {
        None
    }
}

proof fn lemma_digits_value_prefix(s: Seq<char>, k: int)
    requires
        0 <= k <= s.len(),
    ensures
        digits_value(s) >= digits_value(s.subrange(0, k)),
    decreases s.len(),
{
    if k < s.len() {
        lemma_digits_value_prefix(s.drop_last(), k);
        assert(s.drop_last().subrange(0, k) =~= s.subrange(0, k));
    } else {
        assert(s.subrange(0, k) =~= s);
    }
}

/// Reads an unsigned decimal number no larger than `max`, as `str::parse`
/// does for an unsigned type whose largest value is `max`.
pub fn parse_unsigned(s: &str, max: u64) -> (r: Option<u64>)
    ensures
        r == match parsed_unsigned(s@, max as nat) {
            Some(n) => Some(n as u64),
            None => None::<u64>,
        },
{
    let n = s.unicode_len();
    let start: usize = if n > 0 && s.get_char(0) == '+' {
        1
    } else {
        0
    };
    let ghost d = if s@.len() > 0 && s@[0] == '+' {
        s@.drop_first()
    } else {
        s@
    };
    assert(d =~= s@.subrange(start as int, n as int));
    if start >= n {
        return None;
    }
    let mut v: u64 = 0;
    let mut i: usize = start;
    assert(s@.subrange(start as int, start as int) =~= Seq::<char>::empty());
    while i < n
        invariant
            n == s@.len(),
            start <= i <= n,
            d == s@.subrange(start as int, n as int),
            d == (if s@.len() > 0 && s@[0] == '+' {
                s@.drop_first()
            } else {
                s@
            }),
            d.len() > 0,
            v as nat == digits_value(s@.subrange(start as int, i as int)),
            all_digits(s@.subrange(start as int, i as int)),
            v <= max,
        decreases n - i,
    {
        let ghost before = s@.subrange(start as int, i as int);
        let ghost after = s@.subrange(start as int, i + 1);
        assert(after.drop_last() =~= before);
        let c = s.get_char(i);
        if !('0' <= c && c <= '9') {
            assert(d[i - start] == c);
            assert(!all_digits(d));
            return None;
        }
        let digit: u64 = (c as u32 - 48) as u64;
        assert(digits_value(after) == v * 10 + digit);
        if digit > max || v > (max - digit) / 10 {
            proof {
                if digit <= max {
                    assert(v * 10 + digit > max) by (nonlinear_arith)
                        requires
                            v > (max - digit) / 10,
                            digit <= max,
                    ;
                }
                if all_digits(d) {
                    assert(after =~= d.subrange(0, i + 1 - start));
                    lemma_digits_value_prefix(d, i + 1 - start);
                }
            }
            return None;
        }
        proof {
            assert(v * 10 + digit <= max) by (nonlinear_arith)
                requires
                    v <= (max - digit) / 10,
                    digit <= max,
            ;
        }
        v = v * 10 + digit;
        i = i + 1;
    }
    Some(v)
}

/// Reads a `u16` as `str::parse::<u16>` does.
pub fn parse_u16(s: &str) -> (r: Option<u16>)
    ensures
        r == match parsed_unsigned(s@, u16::MAX as nat) {
            Some(n) => Some(n as u16),
            None => None::<u16>,
        },
{
    match parse_unsigned(s, u16::MAX as u64) {
        Some(v) => Some(v as u16),
        None => None,
    }
}

/// Reads a `u64` as `str::parse::<u64>` does.
pub fn parse_u64(s: &str) -> (r: Option<u64>)
    ensures
        r == match parsed_unsigned(s@, u64::MAX as nat) {
            Some(n) => Some(n as u64),
            None => None::<u64>,
        },
{
    parse_unsigned(s, u64::MAX)
}

/// The value of `key` read as a `u16`.
pub open spec fn env_u16_value(pairs: Seq<(String, String)>, key: Seq<char>) -> Option<u16> {
    match env_text(pairs, key) {
        Some(v) => match parsed_unsigned(v, u16::MAX as nat) {
            Some(n) => Some(n as u16),
            None => None,
        },
        None => None,
    }
}

/// The value of `key` read as a `u64`.
pub open spec fn env_u64_value(pairs: Seq<(String, String)>, key: Seq<char>) -> Option<u64> {
    match env_text(pairs, key) {
        Some(v) => match parsed_unsigned(v, u64::MAX as nat) {
            Some(n) => Some(n as u64),
            None => None,
        },
        None => None,
    }
}

/// The code point of a character's ASCII lower case.
pub open spec fn folded_code(c: char) -> u32 {
    if 'A' <= c && c <= 'Z' {
        (c as u32 + 32) as u32
    } else {
        c as u32
    }
}

/// Whether two strings are equal once ASCII letters are lower-cased.
pub open spec fn eq_ignore_ascii_case(a: Seq<char>, b: Seq<char>) -> bool {
    a.len() == b.len() && forall|i: int| 0 <= i < a.len() ==> folded_code(#[trigger] a[i]) == folded_code(b[i])
}

/// The value of `key` read as a flag: `1` or `true` in any case is set; any
/// other value is clear; unset gives `default`.
pub open spec fn env_bool_value(pairs: Seq<(String, String)>, key: Seq<char>, default: bool) -> bool {
    match env_text(pairs, key) {
        Some(v) => v == "1"@ || eq_ignore_ascii_case(v, "true"@),
        None => default,
    }
}

/// The value of `key` in ASCII lower case.
pub open spec fn env_lower_value(pairs: Seq<(String, String)>, key: Seq<char>) -> Option<Seq<char>> {
    match env_text(pairs, key) {
        Some(v) => Some(v.map_values(|c: char| ascii_lower(c))),
        None => None,
    }
}

pub open spec fn opt_text_view(o: Option<String>) -> Option<Seq<char>> {
    match o {
        Some(s) => Some(s@),
        None => None,
    }
}

/// Character-wise comparison with ASCII case ignored.
pub fn str_eq_ignore_ascii_case(a: &str, b: &str) -> (r: bool)
    ensures
        r == eq_ignore_ascii_case(a@, b@),
{
    let n = a.unicode_len();
    if n != b.unicode_len() {
        return false;
    }
    let mut i: usize = 0;
    while i < n
        invariant
            n == a@.len(),
            n == b@.len(),
            i <= n,
            forall|j: int| 0 <= j < i ==> folded_code(#[trigger] a@[j]) == folded_code(b@[j]),
        decreases n - i,
    {
        let x = a.get_char(i);
        let y = b.get_char(i);
        let lx: u32 = if 'A' <= x && x <= 'Z' { x as u32 + 32 } else { x as u32 };
        let ly: u32 = if 'A' <= y && y <= 'Z' { y as u32 + 32 } else { y as u32 };
        if lx != ly {
            return false;
        }
        i = i + 1;
    }
    true
}

/// `given` if set, else one of two defaults as the mock flag says.
pub open spec fn or_default(given: Option<Seq<char>>, mock: bool, if_mock: Seq<char>, if_real: Seq<char>) -> Seq<char> {
    match given {
        Some(v) => v,
        None => if mock {
            if_mock
        } else {
            if_real
        },
    }
}

/// The settings that the environment `e` gives.
pub open spec fn config_of(c: Config, e: Seq<(String, String)>) -> bool {
    let mock = env_bool_value(e, "AUTH_GITHUB_MOCK_ENABLED"@, false);
    &&& c.port == match env_u16_value(e, "PORT"@) {
        Some(p) => p,
        None => 3333,
    }
    &&& opt_text_view(c.github_client_id) == env_text(e, "AUTH_GITHUB_CLIENT_ID"@)
    &&& opt_text_view(c.github_client_secret) == env_text(e, "AUTH_GITHUB_CLIENT_SECRET"@)
    &&& opt_text_view(c.github_redirect_url) == env_text(e, "AUTH_GITHUB_REDIRECT_URL"@)
    &&& c.github_authorize_url@ == or_default(
        env_text(e, "AUTH_GITHUB_AUTHORIZE_URL"@),
        mock,
        "http://localhost:3333/__github_mock__/login/oauth/authorize"@,
        "https://github.com/login/oauth/authorize"@,
    )
    &&& c.github_token_url@ == or_default(
        env_text(e, "AUTH_GITHUB_TOKEN_URL"@),
        mock,
        "http://github-mock/login/oauth/access_token"@,
        "https://github.com/login/oauth/access_token"@,
    )
    &&& c.github_api_base@ == or_default(
        env_text(e, "AUTH_GITHUB_API_BASE"@),
        mock,
        "http://github-mock"@,
        "https://api.github.com"@,
    )
    &&& opt_text_view(c.redis_url) == env_text(e, "REDIS_URL"@)
    &&& c.session_ttl_seconds == match env_u64_value(e, "SESSION_TTL_SECONDS"@) {
        Some(v) => v,
        None => 604800,
    }
    &&& c.verify_email_token_ttl_seconds == match env_u64_value(e, "VERIFY_EMAIL_TOKEN_TTL_SECONDS"@) {
        Some(v) => v,
        None => 3600,
    }
    &&& c.cookie_secure == env_bool_value(e, "COOKIE_SECURE"@, false)
    &&& opt_text_view(c.cookie_domain) == env_text(e, "COOKIE_DOMAIN"@)
    &&& c.session_key_prefix@ == match env_text(e, "SESSION_KEY_PREFIX"@) {
        Some(v) => v,
        None => "auth-api"@,
    }
    &&& opt_text_view(c.resend_api_key) == env_text(e, "RESEND_API_KEY"@)
    &&& opt_text_view(c.email_from) == env_text(e, "EMAIL_FROM"@)
    &&& opt_text_view(c.verify_email_url_base) == env_text(e, "VERIFY_EMAIL_URL_BASE"@)
    &&& opt_text_view(c.email_provider) == env_lower_value(e, "EMAIL_PROVIDER"@)
    &&& opt_text_view(c.smtp_host) == env_text(e, "SMTP_HOST"@)
    &&& c.smtp_port == env_u16_value(e, "SMTP_PORT"@)
    &&& opt_text_view(c.smtp_username) == env_text(e, "SMTP_USERNAME"@)
    &&& opt_text_view(c.smtp_password) == env_text(e, "SMTP_PASSWORD"@)
    &&& c.smtp_starttls == env_bool_value(e, "SMTP_STARTTLS"@, false)
}

fn text_or(given: Option<String>, fallback: &str) -> (r: String)
    ensures
        r@ == match given {
            Some(v) => v@,
            None => fallback@,
        },
{
    match given {
        Some(v) => v,
        None => fallback.to_string(),
    }
}

impl EnvVars {
    /// The raw value of `key`.
    pub fn get(&self, key: &str) -> (r: Option<&String>)
        ensures
            r matches Some(v) ==> env_raw(self.pairs@, key@) == Some(v@),
            r is None ==> env_raw(self.pairs@, key@) is None,
    {
        let mut i: usize = 0;
        assert(self.pairs@.subrange(0, self.pairs@.len() as int) =~= self.pairs@);
        while i < self.pairs.len()
            invariant
                i <= self.pairs@.len(),
                env_raw(self.pairs@, key@) == env_raw(self.pairs@.subrange(i as int, self.pairs@.len() as int), key@),
            decreases self.pairs@.len() - i,
        {
            let ghost rest = self.pairs@.subrange(i as int, self.pairs@.len() as int);
            assert(rest.drop_first() =~= self.pairs@.subrange(i + 1, self.pairs@.len() as int));
            if crate::store::str_eq(self.pairs[i].0.as_str(), key) {
                return Some(&self.pairs[i].1);
            }
            i = i + 1;
        }
        None
    }
}

impl ConfigServiceImpl {
    /// Removes one pair of matching double or single quotes around `value`.
    pub fn strip_wrapping_quotes(value: &str) -> (r: &str)
        ensures
            r@ == strip_quotes(value@),
    {
        let n = value.unicode_len();
        if n >= 2 {
            let first = value.get_char(0);
            let last = value.get_char(n - 1);
            if (first == '"' && last == '"') || (first == '\'' && last == '\'') {
                return value.substring_char(1, n - 1);
            }
        }
        value
    }

    /// The value of `key`, trimmed and unquoted; empty counts as unset.
    pub fn env_nonempty(vars: &EnvVars, key: &str) -> (r: Option<String>)
        ensures
            opt_text_view(r) == env_text(vars.pairs@, key@),
    {
        let value = vars.get(key)?;
        let t = trim(value.as_str());
        if t.as_str().is_empty() {
            return None;
        }
        let normalized = trim(Self::strip_wrapping_quotes(t.as_str()));
        if normalized.as_str().is_empty() {
            None
        } else {
            Some(normalized)
        }
    }

    /// The value of `key` as a `u16`.
    pub fn env_u16(vars: &EnvVars, key: &str) -> (r: Option<u16>)
        ensures
            r == env_u16_value(vars.pairs@, key@),
    {
        match Self::env_nonempty(vars, key) {
            Some(v) => parse_u16(v.as_str()),
            None => None,
        }
    }

    /// The value of `key` as a `u64`.
    pub fn env_u64(vars: &EnvVars, key: &str) -> (r: Option<u64>)
        ensures
            r == env_u64_value(vars.pairs@, key@),
    {
        match Self::env_nonempty(vars, key) {
            Some(v) => parse_u64(v.as_str()),
            None => None,
        }
    }

    /// The value of `key` as a flag.
    pub fn env_bool(vars: &EnvVars, key: &str, default: bool) -> (r: bool)
        ensures
            r == env_bool_value(vars.pairs@, key@, default),
    {
        match Self::env_nonempty(vars, key) {
            Some(v) => crate::store::str_eq(v.as_str(), "1") || str_eq_ignore_ascii_case(v.as_str(), "true"),
            None => default,
        }
    }

    /// The value of `key` in ASCII lower case.
    pub fn env_lower_nonempty(vars: &EnvVars, key: &str) -> (r: Option<String>)
        ensures
            opt_text_view(r) == env_lower_value(vars.pairs@, key@),
    {
        match Self::env_nonempty(vars, key) {
            Some(v) => Some(to_ascii_lowercase(v.as_str())),
            None => None,
        }
    }

    /// Reads the settings from the environment, with their defaults.
    pub fn new(vars: &EnvVars) -> (r: ConfigServiceImpl)
        ensures
            config_of(r.config, vars.pairs@),
    {
        let port = match Self::env_u16(vars, "PORT") {
            Some(p) => p,
            None => 3333,
        };
        let github_client_id = Self::env_nonempty(vars, "AUTH_GITHUB_CLIENT_ID");
        let github_client_secret = Self::env_nonempty(vars, "AUTH_GITHUB_CLIENT_SECRET");
        let github_redirect_url = Self::env_nonempty(vars, "AUTH_GITHUB_REDIRECT_URL");
        let mock = Self::env_bool(vars, "AUTH_GITHUB_MOCK_ENABLED", false);
        let github_authorize_url = text_or(
            Self::env_nonempty(vars, "AUTH_GITHUB_AUTHORIZE_URL"),
            if mock {
                "http://localhost:3333/__github_mock__/login/oauth/authorize"
            } else {
                "https://github.com/login/oauth/authorize"
            },
        );
        let github_token_url = text_or(
            Self::env_nonempty(vars, "AUTH_GITHUB_TOKEN_URL"),
            if mock {
                "http://github-mock/login/oauth/access_token"
            } else {
                "https://github.com/login/oauth/access_token"
            },
        );
        let github_api_base = text_or(
            Self::env_nonempty(vars, "AUTH_GITHUB_API_BASE"),
            if mock {
                "http://github-mock"
            } else {
                "https://api.github.com"
            },
        );
        let redis_url = Self::env_nonempty(vars, "REDIS_URL");
        let session_ttl_seconds = match Self::env_u64(vars, "SESSION_TTL_SECONDS") {
            Some(v) => v,
            None => 604800,
        };
        let verify_email_token_ttl_seconds = match Self::env_u64(vars, "VERIFY_EMAIL_TOKEN_TTL_SECONDS") {
            Some(v) => v,
            None => 3600,
        };
        let cookie_secure = Self::env_bool(vars, "COOKIE_SECURE", false);
        let cookie_domain = Self::env_nonempty(vars, "COOKIE_DOMAIN");
        let session_key_prefix = text_or(Self::env_nonempty(vars, "SESSION_KEY_PREFIX"), "auth-api");
        let resend_api_key = Self::env_nonempty(vars, "RESEND_API_KEY");
        let email_from = Self::env_nonempty(vars, "EMAIL_FROM");
        let verify_email_url_base = Self::env_nonempty(vars, "VERIFY_EMAIL_URL_BASE");
        let email_provider = Self::env_lower_nonempty(vars, "EMAIL_PROVIDER");
        let smtp_host = Self::env_nonempty(vars, "SMTP_HOST");
        let smtp_port = Self::env_u16(vars, "SMTP_PORT");
        let smtp_username = Self::env_nonempty(vars, "SMTP_USERNAME");
        let smtp_password = Self::env_nonempty(vars, "SMTP_PASSWORD");
        let smtp_starttls = Self::env_bool(vars, "SMTP_STARTTLS", false);
        ConfigServiceImpl {
            config: Config {
                port,
                github_client_id,
                github_client_secret,
                github_redirect_url,
                github_authorize_url,
                github_token_url,
                github_api_base,
                redis_url,
                session_ttl_seconds,
                verify_email_token_ttl_seconds,
                cookie_secure,
                cookie_domain,
                session_key_prefix,
                resend_api_key,
                email_from,
                verify_email_url_base,
                email_provider,
                smtp_host,
                smtp_port,
                smtp_username,
                smtp_password,
                smtp_starttls,
            },
        }
    }
}

impl ConfigService for ConfigServiceImpl {
    fn port(&self) -> (r: u16)
        ensures
            r == self.config.port,
    {
        self.config.port
    }

    fn values(&self) -> (r: &Config)
        ensures
            r == &self.config,
    {
        &self.config
    }
}

} // verus!
