//! How the worker connects: the settings it takes from its environment, the
//! authentication they select, and the server address it dials.
use vstd::prelude::*;
use vstd::string::{StrSliceExecFns, StringExecFns};

use crate::shared::TASK_QUEUE;

verus! {

#[verifier::external_type_specification]
#[verifier::external_body]
pub struct ExUrlParseError(url::ParseError);

/// The server address could not be parsed as a URL.
#[derive(Debug)]
pub struct AddressError {
    pub cause: url::ParseError,
}

/// The worker's connection settings, as the environment gives them.
pub struct ConnectionSettings {
    pub address: String,
    pub namespace: String,
    pub cert_path: String,
    pub key_path: String,
    pub api_key: String,
    pub tls_server_name: Option<String>,
}

/// How the worker authenticates to the server.
#[derive(Clone, Copy, Debug, PartialEq, Eq, Structural)]
pub enum Authentication {
    /// A Temporal Cloud API key, over TLS.
    ApiKey,
    /// A client certificate and key read from files, over TLS.
    MutualTls,
    /// No authentication, in plain text.
    Plaintext,
}

/// The settings' value, or `default` where the environment gives none.
pub open spec fn setting_or(value: Option<String>, default: Seq<char>) -> Seq<char> {
    match value {
        Some(v) => v@,
        None => default,
    }
}

/// The authentication that settings select: an API key wins, then a
/// certificate with its key, else none.
pub open spec fn authentication_for(api_key: Seq<char>, cert_path: Seq<char>, key_path: Seq<char>) -> Authentication {
    if api_key.len() > 0 {
        Authentication::ApiKey
    } else if cert_path.len() > 0 && key_path.len() > 0 {
        Authentication::MutualTls
    } else {
        Authentication::Plaintext
    }
}

/// What `url::Url::parse` gives for `input`: the URL's serialization and
/// whether it has a host, or nothing when it does not parse.
pub uninterp spec fn parsed_url(input: Seq<char>) -> Option<(Seq<char>, bool)>;

/// `address` with the scheme that the connection uses put in front.
pub open spec fn with_scheme(address: Seq<char>, use_tls: bool) -> Seq<char> {
    (if use_tls {
        "https"@
    } else {
        "http"@
    }) + "://"@ + address
}

/// The URL the worker dials for `address`: the address itself where it
/// parses as a URL with a host, else the address behind the connection's
/// scheme; nothing when that does not parse either.
pub open spec fn dialed_url(address: Seq<char>, use_tls: bool) -> Option<Seq<char>> {
    match parsed_url(address) {
        Some((url, true)) => Some(url),
        _ => match parsed_url(with_scheme(address, use_tls)) {
            Some((url, _)) => Some(url),
            None => None,
        },
    }
}

/// The code of `c` with ASCII upper-case letters made lower-case.
pub open spec fn ascii_lower_code(c: char) -> u32 {
    if 65 <= c as u32 && c as u32 <= 90 {
        (c as u32 + 32) as u32
    } else {
        c as u32
    }
}

/// `a` and `b` are equal but for the case of ASCII letters.
pub open spec fn equal_ignoring_ascii_case(a: Seq<char>, b: Seq<char>) -> bool {
    a.len() == b.len() && forall|i: int| 0 <= i < a.len() ==> ascii_lower_code(#[trigger] a[i])
        == ascii_lower_code(b[i])
}

/// A non-empty API key always selects API-key authentication, whatever the
/// certificate and key paths; a certificate with its key is used only when
/// there is no API key; the connection is in plain text exactly when there is
/// neither an API key nor both paths.
pub proof fn lemma_api_key_wins(
    api_key: Seq<char>,
    cert_path: Seq<char>,
    key_path: Seq<char>,
    other_cert_path: Seq<char>,
    other_key_path: Seq<char>,
)
    ensures
        api_key.len() > 0 ==> authentication_for(api_key, cert_path, key_path)
            == Authentication::ApiKey,
        api_key.len() > 0 ==> authentication_for(api_key, cert_path, key_path)
            == authentication_for(api_key, other_cert_path, other_key_path),
        authentication_for(api_key, cert_path, key_path) == Authentication::MutualTls <==> (
        api_key.len() == 0 && cert_path.len() > 0 && key_path.len() > 0),
        authentication_for(api_key, cert_path, key_path) == Authentication::Plaintext <==> (
        api_key.len() == 0 && (cert_path.len() == 0 || key_path.len() == 0)),
{
}

/// An address that already parses as a URL with a host is dialed as that
/// URL, with TLS or without; any other address is dialed with `https://`
/// (TLS) or `http://` (plain text) put in front of it.
pub proof fn lemma_address_with_host_is_kept(address: Seq<char>, use_tls: bool)
    ensures
        parsed_url(address) matches Some((url, true)) ==> dialed_url(address, use_tls) == Some(url),
        !(parsed_url(address) matches Some((_, true))) ==> dialed_url(address, use_tls) == (
        match parsed_url(
            if use_tls {
                "https://"@ + address
            } else {
                "http://"@ + address
            },
        ) {
            Some((url, _)) => Some(url),
            None => None,
        }),
{
    reveal_strlit("https");
    reveal_strlit("http");
    reveal_strlit("://");
    reveal_strlit("https://");
    reveal_strlit("http://");
    assert("https"@ + "://"@ + address =~= "https://"@ + address);
    assert("http"@ + "://"@ + address =~= "http://"@ + address);
}

/// Calls `url::Url::parse` and reads the URL's serialization and whether it
/// has a host. Which parse error comes back is not stated.
#[verifier::external_body]
fn parse_url(input: &str) -> (res: Result<(String, bool), url::ParseError>)
    ensures
        match res {
            Ok((url, has_host)) => parsed_url(input@) == Some((url@, has_host)),
            Err(_) => parsed_url(input@) is None,
        },
{
    url::Url::parse(input).map(|u| (u.as_str().to_string(), u.host().is_some()))
}

/// The value, or `default` where there is none.
fn value_or(value: Option<String>, default: &str) -> (s: String)
    ensures
        s@ == setting_or(value, default@),
{
    match value {
        Some(v) => v,
        None => String::from_str(default),
    }
}

/// Whether `a` and `b` are equal but for the case of ASCII letters.
pub fn eq_ignore_ascii_case(a: &str, b: &str) -> (eq: bool)
    ensures
        eq == equal_ignoring_ascii_case(a@, b@),
{
    let n = a.unicode_len();
    if n != b.unicode_len() {
        return false;
    }
    let mut i: usize = 0;
    while i < n
        invariant
            n == a@.len(),
            n == b@.len(),
            i <= n,
            forall|j: int| 0 <= j < i ==> ascii_lower_code(#[trigger] a@[j]) == ascii_lower_code(
                b@[j],
            ),
        decreases n - i,
    {
        let x = a.get_char(i) as u32;
        let y = b.get_char(i) as u32;
        let lx = if 65 <= x && x <= 90 {
            x + 32
        } else {
            x
        };
        let ly = if 65 <= y && y <= 90 {
            y + 32
        } else {
            y
        };
        if lx != ly {
            return false;
        }
        i = i + 1;
    }
    true
}

/// The task queue: the configured one, else `MoneyTransfer`.
pub fn task_queue(configured: Option<String>) -> (queue: String)
    ensures
        queue@ == setting_or(configured, TASK_QUEUE@),
{
    value_or(configured, TASK_QUEUE)
}

/// Whether payloads are encrypted: the setting says `true`, in any case.
pub fn encryption_enabled(setting: Option<String>) -> (enabled: bool)
    ensures
        enabled == (setting matches Some(v) && equal_ignoring_ascii_case(v@, "true"@)),
{
    match setting {
        Some(v) => eq_ignore_ascii_case(v.as_str(), "true"),
        None => false,
    }
}

impl ConnectionSettings {
    /// The settings from the environment's values: the address defaults to
    /// `127.0.0.1:7233`, the namespace to `default`, the paths and the API
    /// key to nothing, and an empty TLS server name counts as none.
    pub fn from_environment(
        address: Option<String>,
        namespace: Option<String>,
        cert_path: Option<String>,
        key_path: Option<String>,
        api_key: Option<String>,
        tls_server_name: Option<String>,
    ) -> (s: Self)
        ensures
            s.address@ == setting_or(address, "127.0.0.1:7233"@),
            s.namespace@ == setting_or(namespace, "default"@),
            s.cert_path@ == setting_or(cert_path, Seq::empty()),
            s.key_path@ == setting_or(key_path, Seq::empty()),
            s.api_key@ == setting_or(api_key, Seq::empty()),
            match tls_server_name {
                Some(n) => if n@.len() > 0 {
                    s.tls_server_name == Some(n)
                } else {
                    s.tls_server_name is None
                },
                None => s.tls_server_name is None,
            },
    {
        let server_name = match tls_server_name {
            Some(n) => if n.as_str().is_empty() {
                None
            } else {
                Some(n)
            },
            None => None,
        };
        proof {
            reveal_strlit("");
        }
        ConnectionSettings {
            address: value_or(address, "127.0.0.1:7233"),
            namespace: value_or(namespace, "default"),
            cert_path: value_or(cert_path, ""),
            key_path: value_or(key_path, ""),
            api_key: value_or(api_key, ""),
            tls_server_name: server_name,
        }
    }

    /// The authentication these settings select.
    pub fn authentication(&self) -> (auth: Authentication)
        ensures
            auth == authentication_for(self.api_key@, self.cert_path@, self.key_path@),
    {
        if !self.api_key.as_str().is_empty() {
            Authentication::ApiKey
        } else if !self.cert_path.as_str().is_empty() && !self.key_path.as_str().is_empty() {
            Authentication::MutualTls
        } else {
            Authentication::Plaintext
        }
    }
}

impl Authentication {
    /// The connection is encrypted: every authentication but none uses TLS.
    pub fn uses_tls(&self) -> (tls: bool)
        ensures
            tls == (*self != Authentication::Plaintext),
    {
        match self {
            Authentication::Plaintext => false,
            _ => true,
        }
    }
}

/// The URL the worker dials for `address`: the address itself when it
/// already names a scheme and host, else `https://` (with TLS) or `http://`
/// put in front of it.
pub fn parse_address(address: &str, use_tls: bool) -> (url: Result<String, AddressError>)
    ensures
        match url {
            Ok(u) => dialed_url(address@, use_tls) == Some(u@),
            Err(_) => dialed_url(address@, use_tls) is None,
        },
{
    match parse_url(address) {
        Ok((url, true)) => return Ok(url),
        _ => {},
    }
    let mut candidate = if use_tls {
        String::from_str("https")
    } else {
        String::from_str("http")
    };
    candidate.append("://");
    candidate.append(address);
    match parse_url(candidate.as_str()) {
        Ok((url, _)) => Ok(url),
        Err(cause) => Err(AddressError { cause }),
    }
}

} // verus!
