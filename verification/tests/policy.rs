use index_workers::policy::BuildReason;
use index_workers::policy::FlusherType;
use index_workers::policy::RateConfig;
use index_workers::policy::ThroughputCeiling;

fn config(passive: u32, active: u32) -> RateConfig {
    RateConfig {
        pages_per_second: ThroughputCeiling::new(active).expect("active rate must be positive"),
        passive_pages_per_second: ThroughputCeiling::new(passive)
            .expect("passive rate must be positive"),
    }
}

#[test]
fn routing_table() {
    assert_eq!(FlusherType::from(BuildReason::Backfilling), FlusherType::Backfill);
    assert_eq!(FlusherType::from(BuildReason::VersionMismatch), FlusherType::Backfill);
    assert_eq!(FlusherType::from(BuildReason::TooOld), FlusherType::LiveFlush);
    assert_eq!(FlusherType::from(BuildReason::TooLarge), FlusherType::LiveFlush);
}

#[test]
fn rate_table() {
    let cfg = config(50, 200);
    assert_eq!(BuildReason::TooOld.read_max_pages_per_second(&cfg).get(), 50);
    assert_eq!(BuildReason::VersionMismatch.read_max_pages_per_second(&cfg).get(), 50);
    assert_eq!(BuildReason::Backfilling.read_max_pages_per_second(&cfg).get(), 200);
    assert_eq!(BuildReason::TooLarge.read_max_pages_per_second(&cfg).get(), 200);
}

#[test]
fn scenario_table_class_and_tier() {
    let cfg = config(7, 9000);
    let cases: [(BuildReason, FlusherType, u32); 4] = [
        (BuildReason::TooLarge, FlusherType::LiveFlush, 9000),
        (BuildReason::Backfilling, FlusherType::Backfill, 9000),
        (BuildReason::TooOld, FlusherType::LiveFlush, 7),
        (BuildReason::VersionMismatch, FlusherType::Backfill, 7),
    ];
    for (reason, class, rate) in cases {
        assert_eq!(FlusherType::from(reason), class);
        assert_eq!(reason.read_max_pages_per_second(&cfg).get(), rate);
    }
}

#[test]
fn ceiling_rejects_zero() {
    assert!(ThroughputCeiling::new(0).is_none());
}

#[test]
fn ceiling_accepts_positive() {
    let c = ThroughputCeiling::new(1).expect("1 page/second is a valid rate");
    assert_eq!(c.get(), 1);
    let c = ThroughputCeiling::new(u32::MAX).expect("the largest rate is valid");
    assert_eq!(c.get(), u32::MAX);
}
