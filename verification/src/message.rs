//! The message model and the classifier that decides each message's
//! disposition: keep it, attempt to delete it, or skip it.

use vstd::prelude::*;
use crate::text::{contains_sub, contains_bytes};

verus! {

/// What the purge logic reads of a chat message: whether it carries
/// attachments, its text as UTF-8 bytes, and its creation time as Unix
/// seconds. The client layer builds one of these per fetched message.
pub struct Msg {
    /// Number of attachments; only zero versus non-zero matters.
    pub attachment_count: usize,
    /// The message text, as its UTF-8 bytes.
    pub content: Vec<u8>,
    /// Creation time, seconds since the Unix epoch.
    pub timestamp: u64,
}

/// The outcome of classifying one message.
#[derive(Debug, PartialEq, Eq, Structural, Clone, Copy)]
pub enum Disposition {
    /// Media or an allow-listed link: never deleted.
    Kept,
    /// Plain text older than the threshold: a deletion is attempted.
    DeleteCandidate,
    /// Plain text not yet old enough: left alone, counted nowhere.
    Skipped,
}

/// The literal whose presence marks a text as containing a link.
pub open spec fn http_marker() -> Seq<u8> {
    seq![104u8, 116u8, 116u8, 112u8]
}

/// The message carries at least one attachment.
pub open spec fn spec_has_media(m: Msg) -> bool {
    m.attachment_count > 0
}

/// The text contains `"http"` and at least one allow-listed substring.
/// Matching is case-sensitive and exact; no URL parsing.
pub open spec fn spec_linked_image(content: Seq<u8>, allowed_uris: Seq<Seq<u8>>) -> bool {
    &&& contains_sub(content, http_marker())
    &&& exists|k: int| 0 <= k < allowed_uris.len() && contains_sub(content, allowed_uris[k])
}

/// The message's age at time `now` exceeds `threshold` seconds. A
/// timestamp at or after `now` is never "older", whatever the threshold.
pub open spec fn spec_older_than(timestamp: u64, now: u64, threshold: u64) -> bool {
    now - timestamp > threshold
}

/// The disposition rule: media or an allowed link is kept regardless of
/// age; otherwise age alone decides between deletion and skipping.
pub open spec fn spec_disposition(m: Msg, allowed_uris: Seq<Seq<u8>>, now: u64, threshold: u64) -> Disposition {
    if spec_has_media(m) || spec_linked_image(m.content@, allowed_uris) {
        Disposition::Kept
    } else if spec_older_than(m.timestamp, now, threshold) {
        Disposition::DeleteCandidate
    } else {
        Disposition::Skipped
    }
}

/// True iff the message has a non-empty attachment list.
pub fn has_media(m: &Msg) -> (b: bool)
    ensures
        b == spec_has_media(*m),
{
    m.attachment_count > 0
}

/// True iff the text contains `"http"` and some allow-listed substring.
/// Returns false at once when `"http"` is absent, without scanning the
/// allow-list.
pub fn linked_image(m: &Msg, allowed_uris: &Vec<Vec<u8>>) -> (b: bool)
    ensures
        b == spec_linked_image(m.content@, allowed_uris.deep_view()),
{
    let http: Vec<u8> = vec![104u8, 116u8, 116u8, 112u8];
    assert(http@ =~= http_marker());
    if !contains_bytes(&m.content, &http) {
        return false;
    }
    let n = allowed_uris.len();
    let mut k: usize = 0;
    while k < n
        invariant
            n == allowed_uris.len(),
            k <= n,
            contains_sub(m.content@, http_marker()),
            forall|j: int| 0 <= j < k ==> !contains_sub(m.content@, allowed_uris.deep_view()[j]),
        decreases n - k,
    {
        assert(allowed_uris.deep_view()[k as int] == allowed_uris@[k as int]@);
        if contains_bytes(&m.content, &allowed_uris[k]) {
            assert(contains_sub(m.content@, allowed_uris.deep_view()[k as int]));
            return true;
        }
        k = k + 1;
    }
    false
}

/// True iff the message's age at `now` strictly exceeds the threshold.
/// A timestamp in the future is treated as age zero, never as old.
pub fn message_older_than_seconds_threshold(m: &Msg, now: u64, threshold: u64) -> (b: bool)
    ensures
        b == spec_older_than(m.timestamp, now, threshold),
{
    if m.timestamp >= now {
        false
    } else {
        now - m.timestamp > threshold
    }
}

/// Classify one message against the allow-list, the clock reading `now`,
/// and the age threshold.
pub fn classify(m: &Msg, allowed_uris: &Vec<Vec<u8>>, now: u64, threshold: u64) -> (d: Disposition)
    ensures
        d == spec_disposition(*m, allowed_uris.deep_view(), now, threshold),
{
    if has_media(m) || linked_image(m, allowed_uris) {
        Disposition::Kept
    } else if message_older_than_seconds_threshold(m, now, threshold) {
        Disposition::DeleteCandidate
    } else {
        Disposition::Skipped
    }
}

/// A message with a non-empty attachment list is kept, whatever its text,
/// its age, the allow-list, the clock or the threshold.
pub proof fn lemma_media_always_kept(m: Msg, allowed_uris: Seq<Seq<u8>>, now: u64, threshold: u64)
    requires
        m.attachment_count > 0,
    ensures
        spec_disposition(m, allowed_uris, now, threshold) == Disposition::Kept,
{
}

/// A message whose text contains `"http"` and an allow-listed substring
/// is kept, whatever its age.
pub proof fn lemma_allowed_link_always_kept(m: Msg, allowed_uris: Seq<Seq<u8>>, now: u64, threshold: u64, k: int)
    requires
        contains_sub(m.content@, http_marker()),
        0 <= k < allowed_uris.len(),
        contains_sub(m.content@, allowed_uris[k]),
    ensures
        spec_disposition(m, allowed_uris, now, threshold) == Disposition::Kept,
{
}

/// A text that contains an allow-listed substring but not `"http"` does
/// not pass the link check: the marker is required, not just the match.
pub proof fn lemma_no_marker_no_link(content: Seq<u8>, allowed_uris: Seq<Seq<u8>>)
    requires
        !contains_sub(content, http_marker()),
    ensures
        !spec_linked_image(content, allowed_uris),
{
}

/// A message with no attachments and no allowed link, whose age does not
/// exceed the threshold, is skipped: neither kept nor deleted.
pub proof fn lemma_young_text_skipped(m: Msg, allowed_uris: Seq<Seq<u8>>, now: u64, threshold: u64)
    requires
        m.attachment_count == 0,
        !spec_linked_image(m.content@, allowed_uris),
        now - m.timestamp <= threshold,
    ensures
        spec_disposition(m, allowed_uris, now, threshold) == Disposition::Skipped,
{
}

/// A message with no attachments and no allowed link, older than the
/// threshold, is a deletion candidate.
pub proof fn lemma_old_text_deleted(m: Msg, allowed_uris: Seq<Seq<u8>>, now: u64, threshold: u64)
    requires
        m.attachment_count == 0,
        !spec_linked_image(m.content@, allowed_uris),
        now - m.timestamp > threshold,
    ensures
        spec_disposition(m, allowed_uris, now, threshold) == Disposition::DeleteCandidate,
{
}

} // verus!
