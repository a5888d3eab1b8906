//! The download stage: counts what arrives, reports progress and checks the
//! received bytes against a published SHA-256 digest.

use vstd::prelude::*;
use vstd::string::*;
use vstd::utf8::encode_utf8;
use crate::error::InstallError;
use crate::progress::{fraction_ppm, local_ppm, FULL};

use crate::text::{after_last, suffix_after};

verus! {

/// The SHA-256 digest of `data`.
pub uninterp spec fn sha256_of(data: Seq<u8>) -> Seq<u8>;

/// What `str::trim` leaves of a text.
pub uninterp spec fn trim_of(s: Seq<char>) -> Seq<char>;

/// Relies on `sha2::Sha256::digest`: the digest of the bytes, 32 bytes long.
#[verifier::external_body]
fn sha256(data: &[u8]) -> (r: Vec<u8>)
    ensures
        r@ == sha256_of(data@),
        r@.len() == 32,
{
    <sha2::Sha256 as sha2::Digest>::digest(data).to_vec()
}

/// Relies on `str::trim`: the text without leading and trailing white space.
#[verifier::external_body]
fn trim_text(s: &str) -> (r: String)
    ensures
        r@ == trim_of(s@),
{
    s.trim().to_string()
}

/// The value of one hexadecimal digit, either case.
pub open spec fn hex_val(b: u8) -> Option<nat> {
    if 48 <= b <= 57 {
        Some((b - 48) as nat)
    } else if 65 <= b <= 70 {
        Some((b - 55) as nat)
    } else if 97 <= b <= 102 {
        Some((b - 87) as nat)
    } else {
        None
    }
}

/// `d` is an even number of hexadecimal digits.
pub open spec fn hex_decodes(d: Seq<u8>) -> bool {
    d.len() % 2 == 0 && forall|i: int| 0 <= i < d.len() ==> (#[trigger] hex_val(d[i])) is Some
}

/// The bytes that the digit pairs of `d` spell, high digit first.
pub open spec fn hex_decoded(d: Seq<u8>) -> Seq<u8> {
    Seq::new(
        d.len() / 2,
        |i: int| (hex_val(d[2 * i])->0 * 16 + hex_val(d[2 * i + 1])->0) as u8,
    )
}

/// Relies on `hex::decode`: succeeds exactly on an even number of hex digits
/// of either case, and gives one byte per pair.
#[verifier::external_body]
fn decode_hex(data: &[u8]) -> (r: Option<Vec<u8>>)
    ensures
        r is Some <==> hex_decodes(data@),
        r is Some ==> r->0@ == hex_decoded(data@),
{
    hex::decode(data).ok()
}

/// The bytes of the digest that a published digest text gives: the text
/// without surrounding white space, read as hex.
pub open spec fn published_digest_bytes(text: Seq<char>) -> Seq<u8> {
    encode_utf8(trim_of(text))
}

/// How checking received bytes against a published digest turns out.
pub enum DigestCheck {
    Match,
    Mismatch,
    Malformed,
}

/// The outcome of checking `body` against the published digest text `text`.
pub open spec fn digest_check(body: Seq<u8>, text: Seq<char>) -> DigestCheck {
    let d = published_digest_bytes(text);
    if !hex_decodes(d) {
        DigestCheck::Malformed
    } else if hex_decoded(d) == sha256_of(body) {
        DigestCheck::Match
    } else {
        DigestCheck::Mismatch
    }
}

/// `r` is what a check with outcome `c` returns.
pub open spec fn check_result_ok(r: Result<(), InstallError>, c: DigestCheck) -> bool {
    match c {
        DigestCheck::Match => r is Ok,
        DigestCheck::Mismatch => r is Err && r->Err_0 is HashMismatch,
        DigestCheck::Malformed => r is Err && r->Err_0 is Format,
    }
}

fn bytes_equal(a: &Vec<u8>, b: &Vec<u8>) -> (r: bool)
    ensures
        r == (a@ == b@),
{
    if a.len() != b.len() {
        return false;
    }
    let mut i: usize = 0;
    while i < a.len()
        invariant
            a@.len() == b@.len(),
            i <= a@.len(),
            forall|k: int| 0 <= k < i ==> a@[k] == b@[k],
        decreases a@.len() - i,
    {
        if a[i] != b[i] {
            return false;
        }
        i = i + 1;
    }
    assert(a@ =~= b@);
    true
}

/// Checks bytes against a published digest text: `Ok` when the text, without
/// surrounding white space, is the hex of their SHA-256 digest;
/// `HashMismatch` when it is hex of something else; `Format` when it is no hex.
pub fn check_digest(body: &[u8], published: &str) -> (r: Result<(), InstallError>)
    ensures
        check_result_ok(r, digest_check(body@, published@)),
{
    let local = sha256(body);
    check_published_digest(&local, published)
}

/// Compares an already computed digest with a published digest text.
pub fn check_published_digest(local: &Vec<u8>, published: &str) -> (r: Result<(), InstallError>)
    ensures
        match r {
            Ok(()) => hex_decodes(published_digest_bytes(published@))
                && hex_decoded(published_digest_bytes(published@)) == local@,
            Err(InstallError::HashMismatch) => hex_decodes(published_digest_bytes(published@))
                && hex_decoded(published_digest_bytes(published@)) != local@,
            Err(InstallError::Format(_)) => !hex_decodes(published_digest_bytes(published@)),
            Err(_) => false,
        },
{
    let trimmed = trim_text(published);
    let remote = decode_hex(trimmed.as_str().as_bytes());
    match remote {
        None => Err(InstallError::Format(String::from_str("Decoding hash"))),
        Some(remote) => {
            if bytes_equal(local, &remote) {
                Ok(())
            } else {
                Err(InstallError::HashMismatch)
            }
        },
    }
}

/// What a download of a repository's release is shown as: the text after
/// the last `/` of its id (`owner/name`).
pub fn repo_display_name(repo: &str) -> (r: String)
    ensures
        r@ == suffix_after(repo@, '/'),
{
    after_last(repo, '/')
}

/// What a download reports while it runs: how many bytes came, out of how
/// many, and every byte in order.
pub struct DownloadState {
    pub received: nat,
    pub total: Option<nat>,
    pub body: Seq<u8>,
}

/// One download in progress.
pub struct DownloadSession {
    display_name: String,
    received: u64,
    total: u64,
    keep_body: bool,
    kept: Vec<u8>,
    body: Ghost<Seq<u8>>,
}

impl View for DownloadSession {
    type V = DownloadState;

    closed spec fn view(&self) -> DownloadState {
        DownloadState {
            received: self.received as nat,
            total: if self.total == 0 { None } else { Some(self.total as nat) },
            body: self.body@,
        }
    }
}

/// The count after `len` more bytes: capped by the announced total, and
/// saturating where no total was announced.
pub open spec fn next_received(received: nat, len: nat, total: Option<nat>) -> nat {
    match total {
        Some(t) => if received + len <= t { received + len } else { t },
        None => if received + len <= u64::MAX { received + len } else { u64::MAX as nat },
    }
}

impl DownloadSession {
    /// The bytes kept for a digest check are those received.
    pub closed spec fn wf(&self) -> bool {
        &&& (self.keep_body ==> self.kept@ == self.body@)
        &&& (self.total > 0 ==> self.received <= self.total)
    }

    /// Whether the session keeps the bytes for a digest check.
    pub closed spec fn keeps_body(&self) -> bool {
        self.keep_body
    }

    pub closed spec fn display_spec(&self) -> Seq<char> {
        self.display_name@
    }

    /// Starts a download shown as `display_name`. `total` is the announced
    /// length, if any; a length of zero counts as unknown. With `verify`, the
    /// bytes are kept for a digest check.
    pub fn new(display_name: &str, total: Option<u64>, verify: bool) -> (r: DownloadSession)
        ensures
            r.wf(),
            r@.received == 0,
            r@.body == Seq::<u8>::empty(),
            r@.total == match total {
                Some(t) => if t == 0 { None } else { Some(t as nat) },
                None => None,
            },
            r.keeps_body() == verify,
            r.display_spec() == display_name@,
    {
        let t: u64 = match total {
            Some(t) => t,
            None => 0,
        };
        let ghost empty = Seq::<u8>::empty();
        DownloadSession {
            display_name: display_name.to_string(),
            received: 0,
            total: t,
            keep_body: verify,
            kept: Vec::new(),
            body: Ghost(empty),
        }
    }

    /// The message of every event of this download.
    pub fn message(&self) -> (r: String)
        ensures
            r@ == "Downloading "@ + self.display_spec(),
    {
        let mut m = String::from_str("Downloading ");
        m.append(self.display_name.as_str());
        m
    }

    /// Progress so far, in parts per million; `None` while the total is unknown.
    pub fn progress(&self) -> (r: Option<u32>)
        requires
            self.wf(),
        ensures
            match self@.total {
                Some(t) => r == Some(local_ppm(self@.received, t) as u32),
                None => r is None,
            },
            r is Some ==> r->0 <= FULL,
    {
        if self.total == 0 {
            None
        } else {
            Some(fraction_ppm(self.received, self.total))
        }
    }

    /// Takes in one chunk of the body and returns the progress after it.
    pub fn on_chunk(&mut self, chunk: &[u8]) -> (r: Option<u32>)
        requires
            old(self).wf(),
        ensures
            final(self).wf(),
            final(self)@.total == old(self)@.total,
            final(self)@.received == next_received(old(self)@.received, chunk@.len(), old(self)@.total),
            final(self)@.body == old(self)@.body + chunk@,
            final(self).keeps_body() == old(self).keeps_body(),
            final(self).display_spec() == old(self).display_spec(),
            match final(self)@.total {
                Some(t) => r == Some(local_ppm(final(self)@.received, t) as u32),
                None => r is None,
            },
    {
        let len = chunk.len() as u64;
        let room = u64::MAX - self.received;
        let sum = if len <= room { self.received + len } else { u64::MAX };
        if self.total > 0 && sum > self.total {
            self.received = self.total;
        } else {
            self.received = sum;
        }
        if self.keep_body {
            self.kept.extend_from_slice(chunk);
            assert(self.kept@ =~= self.body@ + chunk@);
        }
        self.body = Ghost(self.body@ + chunk@);
        self.progress()
    }

    /// Checks the whole body against a published digest text, once the body
    /// is complete.
    pub fn verify(&self, published: &str) -> (r: Result<(), InstallError>)
        requires
            self.wf(),
            self.keeps_body(),
        ensures
            check_result_ok(r, digest_check(self@.body, published@)),
    {
        check_digest(self.kept.as_slice(), published)
    }
}

/// Download with verification succeeds exactly when the published digest
/// is that of the received bytes.
pub proof fn lemma_verified_iff_digest(body: Seq<u8>, published: Seq<char>)
    ensures
        (digest_check(body, published) is Match) <==> (hex_decodes(published_digest_bytes(published))
            && hex_decoded(published_digest_bytes(published)) == sha256_of(body)),
{
}

/// Changed bytes whose digest differs from the published one fail with a
/// mismatch, wherever the original bytes passed.
pub proof fn lemma_changed_body_mismatch(body: Seq<u8>, changed: Seq<u8>, published: Seq<char>)
    requires
        digest_check(body, published) is Match,
        sha256_of(changed) != sha256_of(body),
    ensures
        digest_check(changed, published) is Mismatch,
{
}

} // verus!
