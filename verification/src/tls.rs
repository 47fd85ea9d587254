//! Settings of the encrypted channels between services.

use vstd::prelude::*;
use vstd::string::*;

use crate::text::concat2;

verus! {

/// The setting that names the certificate of the authority.
pub const ENV_CA: &'static str = "TLS_CA_CERT";

/// The setting that names the service's certificate.
pub const ENV_CERT: &'static str = "TLS_CERT";

/// The setting that names the service's private key.
pub const ENV_KEY: &'static str = "TLS_KEY";

/// The setting that names the domain a peer's certificate is held to.
pub const ENV_DOMAIN: &'static str = "TLS_DOMAIN";

/// Where the parts of the settings stand, and the domain.
#[derive(Debug, Clone)]
pub struct TlsSettings {
    pub ca_path: String,
    pub cert_path: String,
    pub key_path: String,
    pub domain: String,
}

/// The settings, where all three paths are given; the domain is this machine's where none is.
pub fn settings(
    ca: Option<String>,
    cert: Option<String>,
    key: Option<String>,
    domain: Option<String>,
) -> (out: Option<TlsSettings>)
    ensures
        match out {
            Some(s) => ca == Some(s.ca_path) && cert == Some(s.cert_path) && key == Some(s.key_path)
                && s.domain@ == (match domain {
                Some(name) => name@,
                None => "localhost"@,
            }),
            None => ca is None || cert is None || key is None,
        },
{
    match (ca, cert, key) {
        (Some(ca_path), Some(cert_path), Some(key_path)) => {
            let domain: String = match domain {
                Some(name) => name,
                None => "localhost".to_owned(),
            };
            Some(TlsSettings { ca_path, cert_path, key_path, domain })
        },
        _ => None,
    }
}

/// Whether encryption is on: all three paths are given.
pub fn enabled(ca: bool, cert: bool, key: bool) -> (out: bool)
    ensures
        out == (ca && cert && key),
{
    ca && cert && key
}

/// An address with the plain scheme in front of it replaced by the encrypted one.
pub open spec fn secured(addr: Seq<char>) -> Seq<char> {
    if "http://"@.is_prefix_of(addr) {
        "https://"@ + addr.skip("http://"@.len() as int)
    } else {
        addr
    }
}

/// Replaces the plain scheme of an address by the encrypted one; any other address stays.
pub fn to_https(addr: &str) -> (out: String)
    ensures
        out@ == secured(addr@),
{
    let scheme: &str = "http://";
    let n: usize = scheme.unicode_len();
    let len: usize = addr.unicode_len();
    if len < n {
        return addr.to_owned();
    }
    let mut i: usize = 0;
    while i < n
        invariant
            i <= n,
            n == scheme@.len(),
            n <= addr@.len(),
            scheme@ == "http://"@,
            forall|j: int| 0 <= j < i ==> scheme@[j] == addr@[j],
        decreases n - i,
    {
        if addr.get_char(i) != scheme.get_char(i) {
            assert(addr@.take(n as int)[i as int] != scheme@[i as int]);
            return addr.to_owned();
        }
        i = i + 1;
    }
    assert(addr@.take(n as int) =~= scheme@);
    assert(addr@.subrange(n as int, len as int) =~= addr@.skip(n as int));
    concat2("https://", addr.substring_char(n, len))
}

/// Replacing the scheme twice comes to the same as replacing it once.
pub proof fn securing_twice_is_once(addr: Seq<char>)
    ensures
        secured(secured(addr)) == secured(addr),
{
    reveal_strlit("http://");
    reveal_strlit("https://");
    if "http://"@.is_prefix_of(addr) {
        let once = secured(addr);
        assert(once[4] == 's');
        if "http://"@.is_prefix_of(once) {
            assert(once.take(7)[4] == ':');
        }
    }
}

/// The address that a service is dialled at: encrypted where encryption is on.
pub fn dial_address(addr: &str, tls: bool) -> (out: String)
    ensures
        out@ == (if tls {
            secured(addr@)
        } else {
            addr@
        }),
{
    if tls {
        to_https(addr)
    } else {
        addr.to_owned()
    }
}

} // verus!
