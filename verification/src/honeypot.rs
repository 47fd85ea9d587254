//! The honeypot: deceptive answers, and the intrusions that they give away.
//!
//! Everything it answers is made up; no real data is touched.

use vstd::prelude::*;
use vstd::string::*;

use crate::text::{copy_text, text_of, texts_of};

verus! {

/// What a download gives at most, in megabytes, however much was asked for.
pub const MAX_DOWNLOAD_MB: u32 = 8;

/// The size of a piece of a download.
pub const CHUNK_BYTES: usize = 65_536;

/// A made-up wallet address.
pub fn generate_fake_wallet() -> (out: String)
    ensures
        out@ == "bc1qxy2kgdygjrsqtzq2n0yrf2493p83kkfjhx0wlh"@,
{
    "bc1qxy2kgdygjrsqtzq2n0yrf2493p83kkfjhx0wlh".to_owned()
}

/// The names of the made-up backups.
pub open spec fn backup_names() -> Seq<Seq<char>> {
    seq![
        "production_db_2025-12-08.tar.gz"@,
        "user_credentials_backup.zip"@,
        "ssl_certificates_archive.tar.gz"@,
        "admin_passwords.json.enc"@,
    ]
}

/// The names of the made-up backups.
pub fn generate_fake_backup_list() -> (out: Vec<String>)
    ensures
        texts_of(out@) == backup_names(),
{
    let out: Vec<String> = vec![
        "production_db_2025-12-08.tar.gz".to_owned(),
        "user_credentials_backup.zip".to_owned(),
        "ssl_certificates_archive.tar.gz".to_owned(),
        "admin_passwords.json.enc".to_owned(),
    ];
    assert(texts_of(out@) =~= backup_names());
    out
}

/// `n` bytes of filler.
pub open spec fn filler(n: nat) -> Seq<u8> {
    Seq::new(n, |i: int| 0x42u8)
}

fn junk(n: usize) -> (out: Vec<u8>)
    ensures
        out@ == filler(n as nat),
{
    let out: Vec<u8> = vec![0x42u8; n];
    assert(out@ =~= filler(n as nat));
    out
}

/// `size_mb` megabytes of filler.
pub fn generate_junk_data(size_mb: usize) -> (out: Vec<u8>)
    requires
        size_mb * 1024 * 1024 <= usize::MAX,
    ensures
        out@ == filler((size_mb * 1024 * 1024) as nat),
{
    assert(size_mb * 1024 <= size_mb * 1024 * 1024) by (nonlinear_arith)
        requires
            size_mb >= 0,
    ;
    junk(size_mb * 1024 * 1024)
}

/// The answer to a look at the wallet.
#[derive(Debug, Clone)]
pub struct WalletReply {
    pub address: String,
    pub balance: String,
    pub currency: String,
}

/// The answer to a look at the wallet.
pub fn get_wallet_balance() -> (out: WalletReply)
    ensures
        out.address@ == "bc1qxy2kgdygjrsqtzq2n0yrf2493p83kkfjhx0wlh"@,
        out.balance@ == "13.37000000"@,
        out.currency@ == "BTC"@,
{
    WalletReply {
        address: generate_fake_wallet(),
        balance: "13.37000000".to_owned(),
        currency: "BTC".to_owned(),
    }
}

/// A made-up backup.
#[derive(Debug, Clone)]
pub struct BackupMetadata {
    pub name: String,
    pub size_bytes: u64,
    pub created_at: String,
}

/// The made-up backups: each a hundred megabytes larger than the one before.
pub fn list_backups() -> (out: Vec<BackupMetadata>)
    ensures
        out@.len() == backup_names().len(),
        forall|i: int|
            0 <= i < out@.len() ==> (#[trigger] out@[i]).name@ == backup_names()[i]
                && out@[i].size_bytes == 1_073_741_824 + i * 104_857_600 && out@[i].created_at@
                == "2025-12-08T03:14:00Z"@,
{
    let names: Vec<String> = generate_fake_backup_list();
    let ghost texts = texts_of(names@);
    let mut out: Vec<BackupMetadata> = Vec::new();
    let mut i: usize = 0;
    assert(texts.len() == 4);
    while i < names.len()
        invariant
            i <= names@.len(),
            names@.len() == 4,
            texts == texts_of(names@),
            texts == backup_names(),
            out@.len() == i,
            forall|j: int|
                0 <= j < i ==> (#[trigger] out@[j]).name@ == texts[j] && out@[j].size_bytes
                    == 1_073_741_824 + j * 104_857_600 && out@[j].created_at@
                    == "2025-12-08T03:14:00Z"@,
        decreases names@.len() - i,
    {
        out.push(
            BackupMetadata {
                name: names[i].clone(),
                size_bytes: 1_073_741_824 + (i as u64) * 104_857_600,
                created_at: "2025-12-08T03:14:00Z".to_owned(),
            },
        );
        i = i + 1;
    }
    out
}

/// How many bytes a download gives: as many megabytes as asked for, but no fewer than one and no
/// more than the most there is.
pub open spec fn download_bytes(size_mb: u32) -> int {
    let mb = if size_mb < 1 {
        1
    } else if size_mb > MAX_DOWNLOAD_MB {
        MAX_DOWNLOAD_MB
    } else {
        size_mb
    };
    mb * 1024 * 1024
}

/// The pieces of a download of `total` bytes from `offset` on.
pub open spec fn pieces(total: int, offset: int) -> Seq<Seq<u8>>
    decreases
            (if offset < total {
                total - offset
            } else {
                0
            }),
{
    if offset >= total {
        Seq::empty()
    } else {
        let len = if CHUNK_BYTES < total - offset {
            CHUNK_BYTES as int
        } else {
            total - offset
        };
        seq![filler(len as nat)] + pieces(total, offset + CHUNK_BYTES)
    }
}

/// The pieces put together.
pub open spec fn together(parts: Seq<Seq<u8>>) -> Seq<u8>
    decreases parts.len(),
{
    if parts.len() == 0 {
        Seq::empty()
    } else {
        parts[0] + together(parts.drop_first())
    }
}

/// The pieces of a download: filler in pieces of one size.
pub fn download_backup(size_mb: u32) -> (out: Vec<Vec<u8>>)
    ensures
        crate::record::blobs_of(out@) == pieces(download_bytes(size_mb), 0),
{
    let mb: usize = if size_mb < 1 {
        1
    } else if size_mb > MAX_DOWNLOAD_MB {
        MAX_DOWNLOAD_MB as usize
    } else {
        size_mb as usize
    };
    let total: usize = mb * 1024 * 1024;
    let mut out: Vec<Vec<u8>> = Vec::new();
    let mut offset: usize = 0;
    assert(crate::record::blobs_of(out@) =~= Seq::empty());
    while offset < total
        invariant
            total <= 8 * 1024 * 1024,
            offset <= total + CHUNK_BYTES,
            crate::record::blobs_of(out@) + pieces(total as int, offset as int) =~= pieces(
                total as int,
                0,
            ),
        decreases total + CHUNK_BYTES - offset,
    {
        let rest: usize = total - offset;
        let len: usize = if CHUNK_BYTES < rest {
            CHUNK_BYTES
        } else {
            rest
        };
        let ghost before = crate::record::blobs_of(out@);
        out.push(junk(len));
        assert(crate::record::blobs_of(out@) =~= before.push(filler(len as nat)));
        offset = offset + CHUNK_BYTES;
    }
    assert(pieces(total as int, offset as int) =~= Seq::empty());
    assert(crate::record::blobs_of(out@) =~= pieces(total as int, 0));
    out
}

/// The pieces of a download make up all of it.
pub proof fn pieces_make_the_whole(total: int, offset: int)
    requires
        0 <= offset <= total,
    ensures
        together(pieces(total, offset)) == filler((total - offset) as nat),
    decreases total - offset,
{
    let parts = pieces(total, offset);
    if offset < total {
        assert(parts.drop_first() =~= pieces(total, offset + CHUNK_BYTES));
        if offset + CHUNK_BYTES <= total {
            pieces_make_the_whole(total, offset + CHUNK_BYTES);
        } else {
            assert(pieces(total, offset + CHUNK_BYTES) =~= Seq::empty());
            assert(together(parts.drop_first()) =~= Seq::empty());
        }
        assert(parts[0].len() + together(parts.drop_first()).len() == total - offset);
        assert(together(parts) =~= filler((total - offset) as nat));
    } else {
        assert(together(parts) =~= filler(0));
    }
}

/// A download gives at least one megabyte and no more than the most there is.
pub proof fn downloads_are_capped(size_mb: u32)
    ensures
        1024 * 1024 <= download_bytes(size_mb) <= MAX_DOWNLOAD_MB * 1024 * 1024,
        1 <= size_mb <= MAX_DOWNLOAD_MB ==> download_bytes(size_mb) == size_mb * 1024 * 1024,
{
}

// ---- Intrusions ----

/// An access to one of the traps.
#[derive(Debug, Clone)]
pub struct IntrusionEvent {
    /// Seconds since 1970; nothing for a clock that stands before it.
    pub timestamp: Option<u64>,
    pub source_ip: String,
    pub user_agent: Option<String>,
    pub endpoint_accessed: String,
    pub request_method: String,
    pub request_body: Option<String>,
    pub tls_fingerprint: Option<String>,
}

/// An access to one of the traps, on the wire.
#[derive(Debug, Clone)]
pub struct IntrusionMessage {
    pub timestamp_unix: i64,
    pub source_ip: String,
    pub endpoint_accessed: String,
    pub request_method: String,
    pub user_agent: Option<String>,
    pub request_body: Option<String>,
    pub tls_fingerprint: Option<String>,
}

/// A time on the wire: zero before 1970, and no later than there are numbers.
pub open spec fn wire_seconds(timestamp: Option<u64>) -> i64 {
    match timestamp {
        Some(n) => if n <= i64::MAX {
            n as i64
        } else {
            i64::MAX
        },
        None => 0,
    }
}

/// Calls `std::time::SystemTime::elapsed` on the start of 1970. The result is the time of the
/// machine's clock, so nothing is said of it.
#[verifier::external_body]
fn seconds_now() -> (out: Option<u64>) {
    std::time::UNIX_EPOCH.elapsed().ok().map(|since| since.as_secs())
}

impl IntrusionEvent {
    /// An access at the given time.
    pub fn at(timestamp: Option<u64>, source_ip: String, endpoint: String, method: String) -> (out: Self)
        ensures
            out == (IntrusionEvent {
                timestamp,
                source_ip,
                user_agent: None,
                endpoint_accessed: endpoint,
                request_method: method,
                request_body: None,
                tls_fingerprint: None,
            }),
    {
        IntrusionEvent {
            timestamp,
            source_ip,
            user_agent: None,
            endpoint_accessed: endpoint,
            request_method: method,
            request_body: None,
            tls_fingerprint: None,
        }
    }

    /// An access now.
    pub fn new(source_ip: String, endpoint: String, method: String) -> (out: Self)
        ensures
            out == (IntrusionEvent {
                timestamp: out.timestamp,
                source_ip,
                user_agent: None,
                endpoint_accessed: endpoint,
                request_method: method,
                request_body: None,
                tls_fingerprint: None,
            }),
    {
        IntrusionEvent::at(seconds_now(), source_ip, endpoint, method)
    }

    /// Writes the access for the wire.
    pub fn to_proto(&self) -> (out: IntrusionMessage)
        ensures
            out.timestamp_unix == wire_seconds(self.timestamp),
            out.source_ip@ == self.source_ip@,
            out.endpoint_accessed@ == self.endpoint_accessed@,
            out.request_method@ == self.request_method@,
            text_of(out.user_agent) == text_of(self.user_agent),
            text_of(out.request_body) == text_of(self.request_body),
            text_of(out.tls_fingerprint) == text_of(self.tls_fingerprint),
    {
        let timestamp_unix: i64 = match self.timestamp {
            Some(n) => if n <= 0x7fff_ffff_ffff_ffff {
                n as i64
            } else {
                i64::MAX
            },
            None => 0,
        };
        IntrusionMessage {
            timestamp_unix,
            source_ip: self.source_ip.clone(),
            endpoint_accessed: self.endpoint_accessed.clone(),
            request_method: self.request_method.clone(),
            user_agent: copy_text(&self.user_agent),
            request_body: copy_text(&self.request_body),
            tls_fingerprint: copy_text(&self.tls_fingerprint),
        }
    }
}

/// The access that a request to a trap is at the given time, from where it came and what it said
/// of itself.
pub fn capture_at(
    timestamp: Option<u64>,
    remote_ip: Option<String>,
    user_agent: Option<String>,
    endpoint: &str,
    method: &str,
) -> (out: IntrusionEvent)
    ensures
        out.timestamp == timestamp,
        out.source_ip@ == (match remote_ip {
            Some(ip) => ip@,
            None => "unknown"@,
        }),
        out.user_agent == user_agent,
        out.endpoint_accessed@ == endpoint@,
        out.request_method@ == method@,
        out.request_body is None,
        out.tls_fingerprint is None,
{
    let source_ip: String = match remote_ip {
        Some(ip) => ip,
        None => "unknown".to_owned(),
    };
    let mut event: IntrusionEvent = IntrusionEvent::at(
        timestamp,
        source_ip,
        endpoint.to_owned(),
        method.to_owned(),
    );
    event.user_agent = user_agent;
    event
}

/// The access that a request to a trap is now.
pub fn capture(remote_ip: Option<String>, user_agent: Option<String>, endpoint: &str, method: &str) -> (out:
    IntrusionEvent)
    ensures
        out.source_ip@ == (match remote_ip {
            Some(ip) => ip@,
            None => "unknown"@,
        }),
        out.user_agent == user_agent,
        out.endpoint_accessed@ == endpoint@,
        out.request_method@ == method@,
        out.request_body is None,
        out.tls_fingerprint is None,
{
    capture_at(seconds_now(), remote_ip, user_agent, endpoint, method)
}

/// The address that the honeypot listens on.
pub fn listen_address(raw: Option<String>) -> (out: String)
    ensures
        out@ == (match raw {
            Some(text) => text@,
            None => "0.0.0.0:8085"@,
        }),
{
    match raw {
        Some(text) => text,
        None => "0.0.0.0:8085".to_owned(),
    }
}

} // verus!
