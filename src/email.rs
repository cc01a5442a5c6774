use vstd::prelude::*;
use vstd::utf8::encode_utf8;

use crate::config::Config;
use crate::store::str_eq;

verus! {

/// A byte that percent-encoding leaves as it is: an ASCII letter or digit, or
/// one of `-`, `.`, `_`, `~`.
pub open spec fn is_unreserved(b: u8) -> bool {
    (48 <= b && b <= 57) || (65 <= b && b <= 90) || (97 <= b && b <= 122) || b == 45 || b == 46
        || b == 95 || b == 126
}

/// The upper-case hex digit of a value below 16.
pub open spec fn upper_hex_char(d: u8) -> char {
    if d < 10 {
        (48 + d) as char
    } else {
        (55 + d) as char
    }
}

/// The text of one encoded byte.
pub open spec fn encoded_byte(b: u8) -> Seq<char> {
    if is_unreserved(b) {
        seq![b as char]
    } else {
        seq!['%', upper_hex_char(b / 16), upper_hex_char(b % 16)]
    }
}

/// The percent-encoding of a byte sequence, byte by byte.
pub open spec fn percent_encoded(bytes: Seq<u8>) -> Seq<char>
    decreases bytes.len(),
{
    if bytes.len() == 0 {
        Seq::empty()
    } else {
        percent_encoded(bytes.drop_last()) + encoded_byte(bytes.last())
    }
}

/// The percent-encoding of the UTF-8 bytes of `s`.
pub open spec fn url_encoded_of(s: Seq<char>) -> Seq<char> {
    percent_encoded(encode_utf8(s))
}

/// Relies on urlencoding's `encode`, which writes every UTF-8 byte but the
/// unreserved ones as `%` and two upper-case hex digits.
#[verifier::external_body]
pub(crate) fn url_encode(s: &str) -> (r: String)
    ensures
        r@ == url_encoded_of(s@),
{
    urlencoding::encode(s).into_owned()
}

/// `s` without the slashes at its end.
pub open spec fn trim_end_slashes(s: Seq<char>) -> Seq<char>
    decreases s.len(),
{
    if s.len() > 0 && s.last() == '/' {
        trim_end_slashes(s.drop_last())
    } else {
        s
    }
}

/// Removes every `/` at the end of `s`.
pub fn trim_end_slashes_of(s: &str) -> (r: &str)
    ensures
        r@ == trim_end_slashes(s@),
{
    let mut n = s.unicode_len();
    assert(s@.subrange(0, n as int) =~= s@);
    while n > 0 && s.get_char(n - 1) == '/'
        invariant
            n <= s@.len(),
            trim_end_slashes(s@) == trim_end_slashes(s@.subrange(0, n as int)),
        decreases n,
    {
        assert(s@.subrange(0, n as int).drop_last() =~= s@.subrange(0, n - 1));
        n = n - 1;
    }
    s.substring_char(0, n)
}

/// The link that verifies an email: the base without trailing slashes, then
/// `?token=` and the encoded token.
pub open spec fn verification_link(base: Seq<char>, token: Seq<char>) -> Seq<char> {
    trim_end_slashes(base) + "?token="@ + url_encoded_of(token)
}

/// Builds the verification link for a token.
pub fn verification_url(url_base: &str, token: &str) -> (r: String)
    ensures
        r@ == verification_link(url_base@, token@),
{
    let mut url = trim_end_slashes_of(url_base).to_string();
    url.append("?token=");
    let encoded = url_encode(token);
    url.append(encoded.as_str());
    url
}

pub open spec fn email_html(url: Seq<char>) -> Seq<char> {
    "<div style=\"font-family:ui-sans-serif,system-ui,-apple-system,Segoe UI,Roboto,Helvetica,Arial;line-height:1.5\"><h2 style=\"margin:0 0 12px\">Verify your email</h2><p style=\"margin:0 0 12px\">Click this link to verify your email:</p><p style=\"margin:0 0 12px\"><a href=\""@
        + url + "\">"@ + url
        + "</a></p><p style=\"margin:18px 0 0;color:#666;font-size:12px\">If you did not request this, you can ignore this email.</p></div>"@
}

/// The HTML body of the verification email; the link appears as its target
/// and as its text.
pub fn build_verification_email_html(verify_url: &str) -> (r: String)
    ensures
        r@ == email_html(verify_url@),
{
    let mut html = "<div style=\"font-family:ui-sans-serif,system-ui,-apple-system,Segoe UI,Roboto,Helvetica,Arial;line-height:1.5\"><h2 style=\"margin:0 0 12px\">Verify your email</h2><p style=\"margin:0 0 12px\">Click this link to verify your email:</p><p style=\"margin:0 0 12px\"><a href=\"".to_string();
    html.append(verify_url);
    html.append("\">");
    html.append(verify_url);
    html.append(
        "</a></p><p style=\"margin:18px 0 0;color:#666;font-size:12px\">If you did not request this, you can ignore this email.</p></div>",
    );
    html
}

/// The subject line of the verification email.
pub const VERIFY_EMAIL_SUBJECT: &'static str = "Verify your email";

/// How a verification email goes out, with what it needs.
#[derive(Debug)]
pub enum EmailDelivery {
    /// Email is not set up: nothing is sent.
    Skip,
    Smtp {
        host: String,
        port: u16,
        starttls: bool,
        username: Option<String>,
        password: Option<String>,
        from: String,
        to: String,
        verify_url: String,
    },
    Resend { api_key: String, from: String, to: String, verify_url: String },
}

/// The email provider setting, `auto` when unset.
pub open spec fn provider_setting(cfg: Config) -> Seq<char> {
    match cfg.email_provider {
        Some(p) => p@,
        None => "auto"@,
    }
}

/// Which delivery the settings choose, as a tag: 0 skip, 1 SMTP, 2 Resend,
/// 3 a configuration error.
pub open spec fn delivery_choice(cfg: Config) -> int {
    if cfg.email_from is None || cfg.verify_email_url_base is None {
        0
    } else {
        let p = provider_setting(cfg);
        let smtp_ready = cfg.smtp_host is Some && cfg.smtp_port is Some;
        if p == "smtp"@ {
            if smtp_ready {
                1
            } else {
                3
            }
        } else if p == "resend"@ {
            if cfg.resend_api_key is Some {
                2
            } else {
                3
            }
        } else if p == "auto"@ {
            if smtp_ready {
                1
            } else if cfg.resend_api_key is Some {
                2
            } else {
                0
            }
        } else {
            3
        }
    }
}

/// The message of a configuration error: which settings a chosen provider
/// lacks, or that the provider is unknown.
pub open spec fn delivery_error(cfg: Config) -> Seq<char> {
    let p = provider_setting(cfg);
    if p == "smtp"@ {
        "EMAIL_PROVIDER=smtp but SMTP_HOST/SMTP_PORT are missing"@
    } else if p == "resend"@ {
        "EMAIL_PROVIDER=resend but RESEND_API_KEY is missing"@
    } else {
        "unsupported EMAIL_PROVIDER="@ + p + ", expected smtp|resend|auto"@
    }
}

fn clone_opt(x: &Option<String>) -> (r: Option<String>)
    ensures
        r == *x,
{
    crate::store::clone_text(x)
}

/// Decides how to send the verification email for `verify_token` to `to`.
/// Without a sender or a link base nothing is sent; `smtp` and `resend` need
/// their settings; `auto` prefers SMTP, then Resend, then nothing; any other
/// provider is an error.
pub fn plan_verification_email(cfg: &Config, to: &str, verify_token: &str) -> (r: Result<
    EmailDelivery,
    String,
>)
    ensures
        delivery_choice(*cfg) == 0 <==> r matches Ok(EmailDelivery::Skip),
        delivery_choice(*cfg) == 1 <==> r matches Ok(EmailDelivery::Smtp { .. }),
        delivery_choice(*cfg) == 2 <==> r matches Ok(EmailDelivery::Resend { .. }),
        delivery_choice(*cfg) == 3 <==> r is Err,
        r matches Err(m) ==> m@ == delivery_error(*cfg),
        r matches Ok(EmailDelivery::Smtp { host, port, starttls, username, password, from, to: t, verify_url }) ==> {
            &&& cfg.smtp_host == Some(host)
            &&& cfg.smtp_port == Some(port)
            &&& starttls == cfg.smtp_starttls
            &&& username == cfg.smtp_username
            &&& password == cfg.smtp_password
            &&& cfg.email_from == Some(from)
            &&& t@ == to@
            &&& verify_url@ == verification_link(cfg.verify_email_url_base->0@, verify_token@)
        },
        r matches Ok(EmailDelivery::Resend { api_key, from, to: t, verify_url }) ==> {
            &&& cfg.resend_api_key == Some(api_key)
            &&& cfg.email_from == Some(from)
            &&& t@ == to@
            &&& verify_url@ == verification_link(cfg.verify_email_url_base->0@, verify_token@)
        },
{
    let (from, url_base) = match (&cfg.email_from, &cfg.verify_email_url_base) {
        (Some(f), Some(b)) => (f, b),
        _ => {
            return Ok(EmailDelivery::Skip);
        },
    };
    let verify_url = verification_url(url_base.as_str(), verify_token);
    let provider: &str = match &cfg.email_provider {
        Some(p) => p.as_str(),
        None => "auto",
    };
    let smtp_ready = cfg.smtp_host.is_some() && cfg.smtp_port.is_some();
    proof {
        reveal_strlit("smtp");
        reveal_strlit("resend");
        reveal_strlit("auto");
    }
    let smtp = str_eq(provider, "smtp");
    let resend = str_eq(provider, "resend");
    let auto = str_eq(provider, "auto");
    assert("smtp"@[0] != "auto"@[0] && "smtp"@[0] != "resend"@[0] && "resend"@[0] != "auto"@[0]);
    if smtp || (auto && smtp_ready) {
        if !smtp_ready {
            return Err("EMAIL_PROVIDER=smtp but SMTP_HOST/SMTP_PORT are missing".to_string());
        }
        let host = match &cfg.smtp_host {
            Some(h) => h.clone(),
            None => String::new(),
        };
        let port = match cfg.smtp_port {
            Some(p) => p,
            None => 0,
        };
        return Ok(
            EmailDelivery::Smtp {
                host,
                port,
                starttls: cfg.smtp_starttls,
                username: clone_opt(&cfg.smtp_username),
                password: clone_opt(&cfg.smtp_password),
                from: from.clone(),
                to: to.to_string(),
                verify_url,
            },
        );
    }
    if resend || auto {
        return match &cfg.resend_api_key {
            Some(k) => Ok(
                EmailDelivery::Resend {
                    api_key: k.clone(),
                    from: from.clone(),
                    to: to.to_string(),
                    verify_url,
                },
            ),
            None => if resend {
                Err("EMAIL_PROVIDER=resend but RESEND_API_KEY is missing".to_string())
            } else {
                Ok(EmailDelivery::Skip)
            },
        };
    }
    let mut msg = "unsupported EMAIL_PROVIDER=".to_string();
    msg.append(provider);
    msg.append(", expected smtp|resend|auto");
    Err(msg)
}

} // verus!
