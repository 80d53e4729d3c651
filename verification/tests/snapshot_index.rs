use magik_core::snapshot_index::SnapshotIndex;
use magik_core::timestamp::Timestamp;
use magik_core::usage::{RateLimitSnapshot, StoredRateLimitSnapshot, UsageReading};

fn record(id: &str, primary: UsageReading, reset: Option<i64>) -> StoredRateLimitSnapshot {
    StoredRateLimitSnapshot::new(
        id.to_string(),
        Some(RateLimitSnapshot {
            primary_used_percent: primary,
            secondary_used_percent: UsageReading::Finite(100),
        }),
        reset.map(|secs| Timestamp::new(secs, 0)),
        None,
    )
}

#[test]
fn index_finds_the_last_record_of_each_account() {
    let records = vec![
        record("a", UsageReading::Finite(1_000), Some(10)),
        record("b", UsageReading::Finite(2_000), None),
        record("a", UsageReading::Finite(3_000), Some(30)),
    ];
    let index = SnapshotIndex::new(&records);
    assert_eq!(index.get("a").map(|r| r.primary_next_reset_at), Some(Some(Timestamp::new(30, 0))));
    assert_eq!(index.used_or_zero("a"), 3_000);
    assert_eq!(index.used_or_zero("b"), 2_000);
    assert_eq!(index.horizon("a"), Some(Timestamp::new(30, 0)));
    assert_eq!(index.horizon("b"), None);
    assert!(!index.exhausted("a"));
    assert!(index.get("c").is_none());
}

#[test]
fn index_scores_missing_and_unreadable_usage_as_zero() {
    let records = vec![
        record("nan", UsageReading::NonFinite, Some(5)),
        StoredRateLimitSnapshot::new("bare".to_string(), None, None, Some(Timestamp::new(7, 1))),
        record("full", UsageReading::Finite(10_000), None),
    ];
    let index = SnapshotIndex::new(&records);
    assert_eq!(index.used_or_zero("nan"), 0);
    assert_eq!(index.used_or_zero("bare"), 0);
    assert_eq!(index.used_or_zero("missing"), 0);
    assert!(!index.exhausted("nan"));
    assert!(!index.exhausted("bare"));
    assert!(!index.exhausted("missing"));
    assert!(index.exhausted("full"));
    assert_eq!(index.used_or_zero("full"), 10_000);
    assert_eq!(index.horizon("bare"), Some(Timestamp::new(7, 1)));
    assert_eq!(index.horizon("nan"), Some(Timestamp::new(5, 0)));
    let empty: Vec<StoredRateLimitSnapshot> = Vec::new();
    assert!(SnapshotIndex::new(&empty).get("nan").is_none());
}
