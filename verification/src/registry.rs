//! What a registry's refusal means: the message of a failed publish is
//! read for the words that tell a passing failure from a lasting one.

use vstd::prelude::*;
use vstd::string::*;
use vstd::slice::*;
use crate::error::PublishError;

verus! {

/// The seconds to wait where the registry limits the rate and names no time.
pub const DEFAULT_RETRY_AFTER_SECONDS: u64 = 60;

/// A letter of the upper case as its lower-case letter, any other byte as
/// it is.
pub open spec fn lowered(b: u8) -> u8 {
    if 65 <= b <= 90 {
        (b + 32) as u8
    } else {
        b
    }
}

/// `needle` stands in `hay` at position `i`, upper and lower case of `hay`
/// taken as one.
pub open spec fn stands_at(hay: Seq<u8>, needle: Seq<u8>, i: int) -> bool {
    &&& 0 <= i
    &&& i + needle.len() <= hay.len()
    &&& forall|k: int| 0 <= k < needle.len() ==> lowered(#[trigger] hay[i + k]) == needle[k]
}

/// `needle` stands somewhere in `hay`.
pub open spec fn mentions(hay: Seq<u8>, needle: Seq<u8>) -> bool {
    exists|i: int| stands_at(hay, needle, i)
}

/// What kind of failure a message tells of.
pub enum FailureKind {
    /// The registry holds the version already.
    AlreadyPublished,
    /// The registry limits the rate.
    RateLimited,
    /// The registry does not accept the credentials.
    Authentication,
    /// The registry could not be reached.
    Network,
    /// Anything else.
    Other,
}

/// The kind of failure that a message tells of, by the first of these that
/// it mentions: an upload that exists already; a limit on the rate; a token
/// or a refused authorisation; the network or a timeout.
pub open spec fn failure_kind(message: Seq<u8>) -> FailureKind {
    if mentions(message, "already uploaded".spec_bytes()) || mentions(
        message,
        "already exists".spec_bytes(),
    ) {
        FailureKind::AlreadyPublished
    } else if mentions(message, "429".spec_bytes()) || mentions(message, "rate limit".spec_bytes()) {
        FailureKind::RateLimited
    } else if mentions(message, "token".spec_bytes()) || mentions(
        message,
        "unauthorized".spec_bytes(),
    ) {
        FailureKind::Authentication
    } else if mentions(message, "network".spec_bytes()) || mentions(
        message,
        "timed out".spec_bytes(),
    ) {
        FailureKind::Network
    } else {
        FailureKind::Other
    }
}

/// Whether `needle` stands in `hay` at position `i`.
fn found_at(hay: &[u8], needle: &[u8], i: usize) -> (r: bool)
    requires
        i + needle@.len() <= hay@.len(),
    ensures
        r == stands_at(hay@, needle@, i as int),
{
    let total = hay.len();
    let mut k: usize = 0;
    while k < needle.len()
        invariant
            k <= needle@.len(),
            i + needle@.len() <= hay@.len(),
            total == hay@.len(),
            forall|m: int| 0 <= m < k ==> lowered(#[trigger] hay@[i + m]) == needle@[m],
        decreases needle@.len() - k,
    {
        let b: u8 = hay[i + k];
        let low: u8 = if 65 <= b && b <= 90 {
            b + 32
        } else {
            b
        };
        if low != needle[k] {
            assert(lowered(hay@[i + k]) != needle@[k as int]);
            return false;
        }
        k = k + 1;
    }
    true
}

/// Computes [`mentions`].
pub fn message_mentions(hay: &[u8], needle: &[u8]) -> (r: bool)
    ensures
        r == mentions(hay@, needle@),
{
    let total = hay.len();
    let width = needle.len();
    let mut i: usize = 0;
    while i <= total && total - i >= width
        invariant
            i <= total + 1,
            total == hay@.len(),
            width == needle@.len(),
            forall|j: int| 0 <= j < i ==> !stands_at(hay@, needle@, j),
        decreases total + 1 - i,
    {
        if found_at(hay, needle, i) {
            return true;
        }
        assert(width > 0);
        i = i + 1;
    }
    assert(forall|j: int| !stands_at(hay@, needle@, j));
    false
}

/// Reads the message of a failed publish of `package` at `version` and
/// gives the error that it tells of.
pub fn classify_failure(package: String, version: String, message: &str) -> (error: PublishError)
    ensures
        match failure_kind(message.spec_bytes()) {
            FailureKind::AlreadyPublished => error == (PublishError::AlreadyPublished {
                package,
                version,
            }),
            FailureKind::RateLimited => error == (PublishError::RateLimitExceeded {
                retry_after_seconds: DEFAULT_RETRY_AFTER_SECONDS,
            }),
            FailureKind::Authentication => error == PublishError::AuthenticationError,
            FailureKind::Network => error matches PublishError::NetworkError { reason } && reason@
                == message@,
            FailureKind::Other => error matches PublishError::PublishFailed { package: named, reason }
                && named == package && reason@ == message@,
        },
{
    let text = message.as_bytes();
    if message_mentions(text, "already uploaded".as_bytes()) || message_mentions(
        text,
        "already exists".as_bytes(),
    ) {
        PublishError::AlreadyPublished { package, version }
    } else if message_mentions(text, "429".as_bytes()) || message_mentions(
        text,
        "rate limit".as_bytes(),
    ) {
        PublishError::RateLimitExceeded { retry_after_seconds: DEFAULT_RETRY_AFTER_SECONDS }
    } else if message_mentions(text, "token".as_bytes()) || message_mentions(
        text,
        "unauthorized".as_bytes(),
    ) {
        PublishError::AuthenticationError
    } else if message_mentions(text, "network".as_bytes()) || message_mentions(
        text,
        "timed out".as_bytes(),
    ) {
        PublishError::NetworkError { reason: String::from_str(message) }
    } else {
        PublishError::PublishFailed { package, reason: String::from_str(message) }
    }
}

} // verus!
