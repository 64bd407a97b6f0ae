//! Download bookkeeping: the SHA-256 checksum of a downloaded file, as
//! recorded in the model manifest, and the retry policy of a download.

use sha2::Digest;
use vstd::prelude::*;

verus! {

/// Lowercase hexadecimal digit for `d` in `0..16`.
pub open spec fn hex_digit(d: int) -> char {
    if d < 10 {
        (48 + d) as char
    } else {
        (87 + d) as char
    }
}

/// Lowercase hexadecimal text of `bytes`: two digits per byte, high nibble
/// first.
pub open spec fn hex_lower(bytes: Seq<u8>) -> Seq<char>
    decreases bytes.len(),
{
    if bytes.len() == 0 {
        seq![]
    } else {
        hex_lower(bytes.drop_last()) + seq![
            hex_digit((bytes.last() / 16) as int),
            hex_digit((bytes.last() % 16) as int),
        ]
    }
}

/// `hex::encode`: each byte becomes two lowercase hexadecimal digits, high
/// nibble first, taken from the table `0123456789abcdef`.
#[verifier::external_body]
fn hex_encode(bytes: &[u8]) -> (r: String)
    ensures
        r@ == hex_lower(bytes@),
{
    hex::encode(bytes)
}

/// The checksum text recorded in the model manifest for a SHA-256 digest:
/// its lowercase hexadecimal form.
pub fn checksum_hex(digest: &[u8]) -> (r: String)
    ensures
        r@ == hex_lower(digest@),
        r@.len() == 2 * digest@.len(),
{
    proof {
        lemma_hex_len(digest@);
    }
    hex_encode(digest)
}

/// A `sha2::Sha256` hasher, held in a private field. `sha2::Sha256` is an
/// alias of a generic type whose parameters are bounded by `typenum` traits,
/// so the library names what the hasher holds (`sha256_absorbed`) instead of
/// its fields, and only the wrappers below touch it.
#[verifier::external_body]
pub struct Sha256Hasher {
    inner: sha2::Sha256,
}

/// The SHA-256 digest of `data`.
pub uninterp spec fn sha256(data: Seq<u8>) -> Seq<u8>;

/// The bytes a SHA-256 hasher has been fed since it was created.
pub uninterp spec fn sha256_absorbed(hasher: Sha256Hasher) -> Seq<u8>;

/// `Sha256::new`: a hasher that has been fed nothing.
#[verifier::external_body]
fn sha256_new() -> (h: Sha256Hasher)
    ensures
        sha256_absorbed(h) == Seq::<u8>::empty(),
{
    Sha256Hasher { inner: sha2::Sha256::new() }
}

/// `Sha256::update`: feeds `chunk` after what the hasher already holds.
#[verifier::external_body]
fn sha256_update(hasher: &mut Sha256Hasher, chunk: &[u8])
    ensures
        sha256_absorbed(*final(hasher)) == sha256_absorbed(*old(hasher)) + chunk@,
{
    hasher.inner.update(chunk)
}

/// `Sha256::finalize`: the 32-byte SHA-256 digest of everything fed.
#[verifier::external_body]
fn sha256_finalize(hasher: Sha256Hasher) -> (r: Vec<u8>)
    ensures
        r@ == sha256(sha256_absorbed(hasher)),
        r@.len() == 32,
{
    hasher.inner.finalize().to_vec()
}

/// The running checksum of a file being downloaded: the body is fed to it
/// chunk by chunk as it arrives, and `finish` gives the text recorded in the
/// model manifest.
pub struct DownloadChecksum {
    hasher: Sha256Hasher,
}

impl DownloadChecksum {
    /// The bytes of the body received so far.
    pub closed spec fn received(&self) -> Seq<u8> {
        sha256_absorbed(self.hasher)
    }

    /// A checksum over an empty body.
    pub fn new() -> (s: Self)
        ensures
            s.received() == Seq::<u8>::empty(),
    {
        DownloadChecksum { hasher: sha256_new() }
    }

    /// Appends the next chunk of the body.
    pub fn update(&mut self, chunk: &[u8])
        ensures
            final(self).received() == old(self).received() + chunk@,
    {
        sha256_update(&mut self.hasher, chunk);
    }

    /// The manifest checksum of the whole body: the lowercase hexadecimal
    /// SHA-256 digest, 64 characters long.
    pub fn finish(self) -> (r: String)
        ensures
            r@ == hex_lower(sha256(self.received())),
            r@.len() == 64,
    {
        let digest = sha256_finalize(self.hasher);
        checksum_hex(digest.as_slice())
    }
}

/// The hexadecimal text has two characters per byte.
pub proof fn lemma_hex_len(bytes: Seq<u8>)
    ensures
        hex_lower(bytes).len() == 2 * bytes.len(),
    decreases bytes.len(),
{
    if bytes.len() > 0 {
        lemma_hex_len(bytes.drop_last());
    }
}

/// Number of attempts made for each file before giving up.
pub const MAX_RETRIES: u32 = 3;

/// What to do after an attempt to download a file.
#[derive(Debug, PartialEq, Eq, Structural)]
pub enum RetryAction {
    /// The file is complete: keep its checksum.
    Finish,
    /// Remove the partial file and try again.
    Retry,
    /// Remove the partial file and report the last error.
    GiveUp,
}

/// The retry policy: success finishes; a failure is retried until the
/// `MAX_RETRIES`-th attempt, after which the download gives up.
pub open spec fn retry_policy(attempt: u32, succeeded: bool) -> RetryAction {
    if succeeded {
        RetryAction::Finish
    } else if attempt < MAX_RETRIES {
        RetryAction::Retry
    } else {
        RetryAction::GiveUp
    }
}

/// Decides what follows attempt number `attempt` (counted from 1).
pub fn after_download_attempt(attempt: u32, succeeded: bool) -> (r: RetryAction)
    requires
        1 <= attempt <= MAX_RETRIES,
    ensures
        r == retry_policy(attempt, succeeded),
{
    if succeeded {
        RetryAction::Finish
    } else if attempt < MAX_RETRIES {
        RetryAction::Retry
    } else {
        RetryAction::GiveUp
    }
}

/// A download makes at most `MAX_RETRIES` attempts: every attempt before the
/// last is retried on failure, and the last one never is.
pub proof fn lemma_retry_bounded(attempt: u32, succeeded: bool)
    requires
        1 <= attempt <= MAX_RETRIES,
    ensures
        retry_policy(attempt, succeeded) == RetryAction::Retry ==> attempt + 1 <= MAX_RETRIES,
        retry_policy(MAX_RETRIES, false) == RetryAction::GiveUp,
        succeeded ==> retry_policy(attempt, succeeded) == RetryAction::Finish,
{
}

} // verus!
