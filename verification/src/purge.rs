//! The purge pass: fold the classifier over a channel's history and
//! accumulate (deleted, kept, error) counters.
//!
//! The client layer consumes the channel's message stream once, front to
//! back, and reports each element here as a [`PurgeStep`]: either a fetch
//! failure or a fetched message together with the outcome its delete
//! request has if one is issued. [`PurgeResult`]'s step methods are the
//! state machine a live pass drives event by event; [`purge_channel`]
//! runs the same machine over a whole recorded sequence and is proved to
//! compute exactly the counts the spec functions define.

use vstd::prelude::*;
use crate::message::{Msg, Disposition, spec_disposition, classify};

verus! {

/// One element of a channel sweep, as the pass sees it.
pub enum PurgeStep {
    /// Fetching the next element failed; the pass records an error and
    /// moves on.
    FetchError,
    /// A message was fetched. `delete_ok` is the outcome a delete request
    /// for this message has; it is consulted only when the classifier
    /// makes the message a deletion candidate.
    Fetched { msg: Msg, delete_ok: bool },
}

/// Per-channel counters: messages deleted, media/links kept, and errors
/// (failed fetches and failed deletes).
#[derive(Debug, PartialEq, Eq, Structural, Clone, Copy)]
pub struct PurgeResult {
    pub deleted: u64,
    pub kept: u64,
    pub errors: u64,
}

/// How many deletions this one step contributes: one exactly when a
/// fetched message is a deletion candidate and its delete succeeds.
pub open spec fn step_deleted(s: PurgeStep, allowed_uris: Seq<Seq<u8>>, now: u64, threshold: u64) -> nat {
    match s {
        PurgeStep::FetchError => 0,
        PurgeStep::Fetched { msg, delete_ok } => {
            if spec_disposition(msg, allowed_uris, now, threshold) == Disposition::DeleteCandidate
                && delete_ok { 1 } else { 0 }
        }
    }
}

/// How many kept messages this one step contributes.
pub open spec fn step_kept(s: PurgeStep, allowed_uris: Seq<Seq<u8>>, now: u64, threshold: u64) -> nat {
    match s {
        PurgeStep::FetchError => 0,
        PurgeStep::Fetched { msg, delete_ok } => {
            if spec_disposition(msg, allowed_uris, now, threshold) == Disposition::Kept { 1 } else { 0 }
        }
    }
}

/// How many errors this one step contributes: a failed fetch, or a failed
/// delete of a deletion candidate.
pub open spec fn step_errors(s: PurgeStep, allowed_uris: Seq<Seq<u8>>, now: u64, threshold: u64) -> nat {
    match s {
        PurgeStep::FetchError => 1,
        PurgeStep::Fetched { msg, delete_ok } => {
            if spec_disposition(msg, allowed_uris, now, threshold) == Disposition::DeleteCandidate
                && !delete_ok { 1 } else { 0 }
        }
    }
}

/// How many skipped messages this one step contributes.
pub open spec fn step_skipped(s: PurgeStep, allowed_uris: Seq<Seq<u8>>, now: u64, threshold: u64) -> nat {
    match s {
        PurgeStep::FetchError => 0,
        PurgeStep::Fetched { msg, delete_ok } => {
            if spec_disposition(msg, allowed_uris, now, threshold) == Disposition::Skipped { 1 } else { 0 }
        }
    }
}

/// Total successful deletions over a whole sweep.
pub open spec fn spec_deleted(steps: Seq<PurgeStep>, allowed_uris: Seq<Seq<u8>>, now: u64, threshold: u64) -> nat
    decreases steps.len(),
{
    if steps.len() == 0 {
        0
    } else {
        spec_deleted(steps.drop_last(), allowed_uris, now, threshold)
            + step_deleted(steps.last(), allowed_uris, now, threshold)
    }
}

/// Total kept messages over a whole sweep.
pub open spec fn spec_kept(steps: Seq<PurgeStep>, allowed_uris: Seq<Seq<u8>>, now: u64, threshold: u64) -> nat
    decreases steps.len(),
{
    if steps.len() == 0 {
        0
    } else {
        spec_kept(steps.drop_last(), allowed_uris, now, threshold)
            + step_kept(steps.last(), allowed_uris, now, threshold)
    }
}

/// Total errors over a whole sweep.
pub open spec fn spec_errors(steps: Seq<PurgeStep>, allowed_uris: Seq<Seq<u8>>, now: u64, threshold: u64) -> nat
    decreases steps.len(),
{
    if steps.len() == 0 {
        0
    } else {
        spec_errors(steps.drop_last(), allowed_uris, now, threshold)
            + step_errors(steps.last(), allowed_uris, now, threshold)
    }
}

/// Total skipped messages over a whole sweep.
pub open spec fn spec_skipped(steps: Seq<PurgeStep>, allowed_uris: Seq<Seq<u8>>, now: u64, threshold: u64) -> nat
    decreases steps.len(),
{
    if steps.len() == 0 {
        0
    } else {
        spec_skipped(steps.drop_last(), allowed_uris, now, threshold)
            + step_skipped(steps.last(), allowed_uris, now, threshold)
    }
}

impl PurgeResult {
    /// Fresh counters for one channel's pass.
    pub fn new() -> (r: PurgeResult)
        ensures
            r.deleted == 0 && r.kept == 0 && r.errors == 0,
    {
        PurgeResult { deleted: 0, kept: 0, errors: 0 }
    }

    /// Record a failed fetch: one more error, nothing else moves.
    pub fn on_fetch_error(&mut self)
        requires
            old(self).errors < u64::MAX,
        ensures
            final(self).errors == old(self).errors + 1,
            final(self).deleted == old(self).deleted,
            final(self).kept == old(self).kept,
    {
        self.errors = self.errors + 1;
    }

    /// Classify a fetched message. A kept message is counted here at
    /// once; for a deletion candidate the caller must issue the delete
    /// and report its outcome through `on_delete_ok` or
    /// `on_delete_error`; a skipped message touches no counter.
    pub fn on_message(&mut self, m: &Msg, allowed_uris: &Vec<Vec<u8>>, now: u64, threshold: u64) -> (d: Disposition)
        requires
            old(self).kept < u64::MAX,
        ensures
            d == spec_disposition(*m, allowed_uris.deep_view(), now, threshold),
            d == Disposition::Kept ==> final(self).kept == old(self).kept + 1,
            d != Disposition::Kept ==> final(self).kept == old(self).kept,
            final(self).deleted == old(self).deleted,
            final(self).errors == old(self).errors,
    {
        let d = classify(m, allowed_uris, now, threshold);
        if d == Disposition::Kept {
            self.kept = self.kept + 1;
        }
        d
    }

    /// Record a successful delete of a deletion candidate.
    pub fn on_delete_ok(&mut self)
        requires
            old(self).deleted < u64::MAX,
        ensures
            final(self).deleted == old(self).deleted + 1,
            final(self).kept == old(self).kept,
            final(self).errors == old(self).errors,
    {
        self.deleted = self.deleted + 1;
    }

    /// Record a failed delete: the message stays, the pass continues.
    pub fn on_delete_error(&mut self)
        requires
            old(self).errors < u64::MAX,
        ensures
            final(self).errors == old(self).errors + 1,
            final(self).deleted == old(self).deleted,
            final(self).kept == old(self).kept,
    {
        self.errors = self.errors + 1;
    }
}

/// Run a whole pass over a recorded sweep: classify every fetched
/// message, count successful deletes, kept media and errors. A single
/// failure never aborts the pass.
pub fn purge_channel(steps: &Vec<PurgeStep>, allowed_uris: &Vec<Vec<u8>>, now: u64, threshold: u64) -> (r: PurgeResult)
    ensures
        r.deleted == spec_deleted(steps@, allowed_uris.deep_view(), now, threshold),
        r.kept == spec_kept(steps@, allowed_uris.deep_view(), now, threshold),
        r.errors == spec_errors(steps@, allowed_uris.deep_view(), now, threshold),
{
    let mut r = PurgeResult::new();
    let n = steps.len();
    let mut i: usize = 0;
    while i < n
        invariant
            n == steps.len(),
            i <= n,
            r.deleted == spec_deleted(steps@.take(i as int), allowed_uris.deep_view(), now, threshold),
            r.kept == spec_kept(steps@.take(i as int), allowed_uris.deep_view(), now, threshold),
            r.errors == spec_errors(steps@.take(i as int), allowed_uris.deep_view(), now, threshold),
            r.deleted + r.kept + r.errors <= i,
        decreases n - i,
    {
        assert(steps@.take(i + 1).drop_last() =~= steps@.take(i as int));
        assert(steps@.take(i + 1).last() == steps@[i as int]);
        match &steps[i] {
            PurgeStep::FetchError => {
                r.on_fetch_error();
            }
            PurgeStep::Fetched { msg, delete_ok } => {
                let d = r.on_message(msg, allowed_uris, now, threshold);
                if d == Disposition::DeleteCandidate {
                    if *delete_ok {
                        r.on_delete_ok();
                    } else {
                        r.on_delete_error();
                    }
                }
            }
        }
        i = i + 1;
    }
    assert(steps@.take(n as int) =~= steps@);
    r
}

/// Every enumerated element lands in exactly one bucket: deleted, kept,
/// error, or skipped. No double counting, no silent drop.
pub proof fn lemma_each_step_counted_once(steps: Seq<PurgeStep>, allowed_uris: Seq<Seq<u8>>, now: u64, threshold: u64)
    ensures
        spec_deleted(steps, allowed_uris, now, threshold)
            + spec_kept(steps, allowed_uris, now, threshold)
            + spec_errors(steps, allowed_uris, now, threshold)
            + spec_skipped(steps, allowed_uris, now, threshold) == steps.len(),
    decreases steps.len(),
{
    if steps.len() > 0 {
        lemma_each_step_counted_once(steps.drop_last(), allowed_uris, now, threshold);
    }
}

/// The messages a pass leaves in the channel: everything except the
/// fetched deletion candidates whose delete succeeded. (A fetch failure
/// hides its element from the pass; such elements are not represented
/// here, which is why the idempotence law below asks for an error-free
/// first pass.)
pub open spec fn spec_survivors(steps: Seq<PurgeStep>, allowed_uris: Seq<Seq<u8>>, now: u64, threshold: u64) -> Seq<PurgeStep>
    decreases steps.len(),
{
    if steps.len() == 0 {
        Seq::empty()
    } else {
        let rest = spec_survivors(steps.drop_last(), allowed_uris, now, threshold);
        if step_deleted(steps.last(), allowed_uris, now, threshold) == 1 || steps.last() is FetchError {
            rest
        } else {
            rest.push(steps.last())
        }
    }
}

/// Idempotence of the purge pass: after a first pass that completed
/// without errors, a second pass over the surviving messages, against the
/// same clock reading and threshold, deletes nothing and keeps exactly
/// the messages the first pass kept.
pub proof fn lemma_purge_idempotent(steps: Seq<PurgeStep>, allowed_uris: Seq<Seq<u8>>, now: u64, threshold: u64)
    requires
        spec_errors(steps, allowed_uris, now, threshold) == 0,
    ensures
        spec_deleted(spec_survivors(steps, allowed_uris, now, threshold), allowed_uris, now, threshold) == 0,
        spec_kept(spec_survivors(steps, allowed_uris, now, threshold), allowed_uris, now, threshold)
            == spec_kept(steps, allowed_uris, now, threshold),
        spec_errors(spec_survivors(steps, allowed_uris, now, threshold), allowed_uris, now, threshold) == 0,
    decreases steps.len(),
{
    if steps.len() > 0 {
        lemma_purge_idempotent(steps.drop_last(), allowed_uris, now, threshold);
        let rest = spec_survivors(steps.drop_last(), allowed_uris, now, threshold);
        let last = steps.last();
        if step_deleted(last, allowed_uris, now, threshold) != 1 && !(last is FetchError) {
            assert(rest.push(last).drop_last() =~= rest);
        }
    }
}

} // verus!
