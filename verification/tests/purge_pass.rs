use gallery_cleaner::message::{Disposition, Msg};
use gallery_cleaner::purge::{purge_channel, PurgeResult, PurgeStep};

fn text_msg(text: &str, timestamp: u64) -> Msg {
    Msg {
        attachment_count: 0,
        content: text.as_bytes().to_vec(),
        timestamp,
    }
}

fn media_msg(timestamp: u64) -> Msg {
    Msg {
        attachment_count: 1,
        content: Vec::new(),
        timestamp,
    }
}

fn uris(list: &[&str]) -> Vec<Vec<u8>> {
    let mut v = Vec::new();
    for u in list {
        v.push(u.as_bytes().to_vec());
    }
    v
}

#[test]
fn one_fetch_error_then_nine_deletable() {
    // One fetch failure, then nine old plain-text messages whose deletes
    // all succeed: 9 deleted, 0 kept, 1 error.
    let mut steps = vec![PurgeStep::FetchError];
    for i in 0..9u64 {
        steps.push(PurgeStep::Fetched {
            msg: text_msg("old text", i),
            delete_ok: true,
        });
    }
    let allowed = uris(&["cdn.example.com"]);
    let r = purge_channel(&steps, &allowed, 1_000_000, 3600);
    assert_eq!(r.deleted, 9);
    assert_eq!(r.kept, 0);
    assert_eq!(r.errors, 1);
}

#[test]
fn old_message_deleted_on_success() {
    // Threshold one hour, age two hours, delete succeeds.
    let steps = vec![PurgeStep::Fetched {
        msg: text_msg("hello", 0),
        delete_ok: true,
    }];
    let r = purge_channel(&steps, &uris(&[]), 7200, 3600);
    assert_eq!(r.deleted, 1);
    assert_eq!(r.kept, 0);
    assert_eq!(r.errors, 0);
}

#[test]
fn failed_delete_counts_as_error_not_deletion() {
    let steps = vec![
        PurgeStep::Fetched {
            msg: text_msg("hello", 0),
            delete_ok: false,
        },
        PurgeStep::Fetched {
            msg: text_msg("world", 1),
            delete_ok: true,
        },
    ];
    let r = purge_channel(&steps, &uris(&[]), 7200, 3600);
    assert_eq!(r.deleted, 1);
    assert_eq!(r.kept, 0);
    assert_eq!(r.errors, 1);
}

#[test]
fn mixed_pass_counts_every_bucket() {
    let allowed = uris(&["cdn.example.com"]);
    let steps = vec![
        // Kept: attachment.
        PurgeStep::Fetched { msg: media_msg(0), delete_ok: true },
        // Kept: allowed link.
        PurgeStep::Fetched {
            msg: text_msg("http://cdn.example.com/a.png", 0),
            delete_ok: true,
        },
        // Deleted: old plain text.
        PurgeStep::Fetched { msg: text_msg("old", 0), delete_ok: true },
        // Skipped: young plain text.
        PurgeStep::Fetched { msg: text_msg("new", 9_000), delete_ok: true },
        // Error: fetch failure.
        PurgeStep::FetchError,
    ];
    let r = purge_channel(&steps, &allowed, 10_000, 3600);
    assert_eq!(r.deleted, 1);
    assert_eq!(r.kept, 2);
    assert_eq!(r.errors, 1);
}

#[test]
fn second_pass_after_clean_first_pass_deletes_nothing() {
    // First pass without errors; the second pass runs over what the
    // first one left behind, against the same clock reading.
    let allowed = uris(&["cdn.example.com"]);
    let now = 10_000u64;
    let threshold = 3600u64;
    let first: Vec<PurgeStep> = vec![
        PurgeStep::Fetched { msg: media_msg(0), delete_ok: true },
        PurgeStep::Fetched { msg: text_msg("old one", 0), delete_ok: true },
        PurgeStep::Fetched {
            msg: text_msg("http://cdn.example.com/b.jpg", 10),
            delete_ok: true,
        },
        PurgeStep::Fetched { msg: text_msg("recent", 9_500), delete_ok: true },
        PurgeStep::Fetched { msg: text_msg("old two", 100), delete_ok: true },
    ];
    let r1 = purge_channel(&first, &allowed, now, threshold);
    assert_eq!(r1.deleted, 2);
    assert_eq!(r1.kept, 2);
    assert_eq!(r1.errors, 0);

    // Survivors: the two kept messages and the skipped one.
    let second: Vec<PurgeStep> = vec![
        PurgeStep::Fetched { msg: media_msg(0), delete_ok: true },
        PurgeStep::Fetched {
            msg: text_msg("http://cdn.example.com/b.jpg", 10),
            delete_ok: true,
        },
        PurgeStep::Fetched { msg: text_msg("recent", 9_500), delete_ok: true },
    ];
    let r2 = purge_channel(&second, &allowed, now, threshold);
    assert_eq!(r2.deleted, 0);
    assert_eq!(r2.kept, r1.kept);
    assert_eq!(r2.errors, 0);
}

#[test]
fn empty_history_yields_zero_counters() {
    let steps: Vec<PurgeStep> = Vec::new();
    let r = purge_channel(&steps, &uris(&["x"]), 1000, 10);
    assert_eq!(r, PurgeResult { deleted: 0, kept: 0, errors: 0 });
}

#[test]
fn step_methods_drive_the_same_counters() {
    // Drive the state machine by hand, as the live client loop does.
    let allowed = uris(&["cdn.example.com"]);
    let now = 10_000u64;
    let threshold = 3600u64;
    let mut r = PurgeResult::new();
    r.on_fetch_error();
    let d1 = r.on_message(&media_msg(0), &allowed, now, threshold);
    assert_eq!(d1, Disposition::Kept);
    let d2 = r.on_message(&text_msg("old", 0), &allowed, now, threshold);
    assert_eq!(d2, Disposition::DeleteCandidate);
    r.on_delete_ok();
    let d3 = r.on_message(&text_msg("old too", 1), &allowed, now, threshold);
    assert_eq!(d3, Disposition::DeleteCandidate);
    r.on_delete_error();
    let d4 = r.on_message(&text_msg("recent", 9_900), &allowed, now, threshold);
    assert_eq!(d4, Disposition::Skipped);
    assert_eq!(r, PurgeResult { deleted: 1, kept: 1, errors: 2 });
}
