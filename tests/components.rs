use ssc_billing_logger::category::BillingCategory;
use ssc_billing_logger::decimal::Amount;
use ssc_billing_logger::ledger::DiscountLedger;
use ssc_billing_logger::openstack::keystone::{
    Endpoint, Project, Projects, Service, Token, User, Users,
};
use ssc_billing_logger::openstack::NameMapping;
use ssc_billing_logger::records::v1::{CloudComputeRecord, CloudStorageRecord};
use ssc_billing_logger::run::{
    check_snapshot_version, PersistentState, RunController, RunError, RunPhase,
};
use ssc_billing_logger::time::{ClockReading, Timestamp};

#[test]
fn categories_from_status() {
    for s in ["PAUSED", "SUSPENDED", "SOFT_SUSPENDED", "SOFT_DELETED", "SHUTOFF"] {
        assert_eq!(BillingCategory::from_status(s), BillingCategory::Inactive);
    }
    for s in ["DELETED", "SHELVED", "SHELVED_OFFLOADED"] {
        assert_eq!(BillingCategory::from_status(s), BillingCategory::Unbilled);
    }
    for s in ["ACTIVE", "BUILD", "", "paused"] {
        assert_eq!(BillingCategory::from_status(s), BillingCategory::Active);
    }
}

#[test]
fn ledger_record_and_consume() {
    let mut l = DiscountLedger::new();
    let v = "v1".to_owned();
    assert_eq!(l.consume(&v, 7), 7);
    assert_eq!(l.allowance(&v), None);
    l.record(&v, 10);
    assert_eq!(l.allowance(&v), Some(10));
    assert_eq!(l.consume(&v, 4), 0);
    assert_eq!(l.allowance(&v), Some(6));
    assert_eq!(l.consume(&v, 8), 2);
    assert_eq!(l.allowance(&v), Some(0));
    assert_eq!(l.consume(&v, 5), 5);
    l.record(&v, 3);
    assert_eq!(l.allowance(&v), Some(3));
    assert_eq!(l.allowance(&"v2".to_owned()), None);
}

#[test]
fn ledger_discount_formula() {
    for (d, s) in [(10u64, 25u64), (10, 10), (10, 3), (0, 5), (7, 0)] {
        let mut l = DiscountLedger::new();
        let v = "v".to_owned();
        l.record(&v, d);
        assert_eq!(l.consume(&v, s), s - d.min(s));
    }
}

fn at(secs: i64) -> Timestamp {
    Timestamp { secs, nanos: 0 }
}

#[test]
fn billing_hour_truncates() {
    assert_eq!(Timestamp { secs: 7205, nanos: 99 }.billing_hour(), at(7200));
    assert_eq!(at(7200).billing_hour(), at(7200));
    assert_eq!(at(-1).billing_hour(), at(-3600));
    assert_eq!(at(3599).plus_hour(), at(7199));
}

#[test]
fn rerun_in_same_hour_short_circuits() {
    let mut first = RunController::new(PersistentState::new(), false, false);
    assert!(first.start(at(36000 + 10)));
    assert_eq!(first.phase, RunPhase::Running { hour: at(36000) });
    assert!(first.finish(at(36000)));
    assert_eq!(first.state.last_timepoint, Some(at(36000)));

    let mut second = RunController::new(first.state, false, false);
    assert!(!second.start(at(36000 + 3000)));
    assert_eq!(second.phase, RunPhase::ShortCircuited);
    assert_eq!(second.state.last_timepoint, Some(at(36000)));

    let mut forced = RunController::new(first.state, true, false);
    assert!(forced.start(at(36000 + 3000)));
    assert_eq!(forced.phase, RunPhase::Running { hour: at(36000) });

    let mut next_hour = RunController::new(first.state, false, false);
    assert!(next_hour.start(at(39600)));
}

#[test]
fn dry_run_and_abort_keep_state() {
    let mut dry = RunController::new(PersistentState::new(), false, true);
    assert!(dry.start(at(7200)));
    assert!(!dry.finish(at(7200)));
    assert_eq!(dry.phase, RunPhase::Committed);
    assert_eq!(dry.state.last_timepoint, None);

    let mut failed = RunController::new(PersistentState::new(), false, false);
    assert!(failed.start(at(7200)));
    failed.abort();
    assert_eq!(failed.phase, RunPhase::Aborted);
    assert_eq!(failed.state.last_timepoint, None);
}

#[test]
fn snapshot_version_check() {
    assert_eq!(check_snapshot_version(2), Err(RunError::SnapshotTooOld));
    assert_eq!(check_snapshot_version(0), Err(RunError::SnapshotTooOld));
    assert_eq!(check_snapshot_version(3), Ok(()));
    assert_eq!(check_snapshot_version(4), Ok(()));
}

#[test]
fn name_mappings() {
    let users = Users {
        users: vec![
            User { id: "u1".to_owned(), name: "alice".to_owned(), domain_id: "d1".to_owned() },
            User { id: "u2".to_owned(), name: "bob".to_owned(), domain_id: "d2".to_owned() },
        ],
    };
    let m = NameMapping::from_users(users);
    assert_eq!(m.get("u1"), Some("alice".to_owned()));
    assert_eq!(m.get("u3"), None);
    assert!(m.has_name_in_domain(&"bob".to_owned(), &"d2".to_owned()));
    assert!(!m.has_name_in_domain(&"bob".to_owned(), &"d1".to_owned()));

    let projects = Projects {
        projects: vec![Project {
            id: "p1".to_owned(),
            name: "Proj".to_owned(),
            domain_id: "d1".to_owned(),
        }],
    };
    let p = NameMapping::from_projects(projects);
    assert_eq!(p.entry(&"p1".to_owned()).map(|e| e.domain_id.clone()), Some("d1".to_owned()));
    assert!(NameMapping::new().get("p1").is_none());
}

fn endpoint(region: &str, interface: &str, url: &str) -> Endpoint {
    Endpoint { region: region.to_owned(), interface: interface.to_owned(), url: url.to_owned() }
}

#[test]
fn catalog_endpoints() {
    let token = Token {
        catalog: vec![
            Service {
                name: "nova".to_owned(),
                typ: "compute".to_owned(),
                endpoints: vec![
                    endpoint("R", "public", "http://pub/"),
                    endpoint("S", "admin", "http://other-region/"),
                    endpoint("R", "admin", "http://nova-admin/"),
                    endpoint("R", "admin", "http://nova-admin-2/"),
                ],
            },
            Service {
                name: "glance".to_owned(),
                typ: "image".to_owned(),
                endpoints: vec![endpoint("R", "internal", "http://glance/")],
            },
        ],
    };
    let r = "R".to_owned();
    assert_eq!(
        token.endpoint_url(&r, &"nova".to_owned(), &"compute".to_owned()),
        Some("http://nova-admin/".to_owned())
    );
    assert_eq!(token.endpoint_url(&r, &"glance".to_owned(), &"image".to_owned()), None);
    assert_eq!(token.endpoint_url(&r, &"nova".to_owned(), &"image".to_owned()), None);
    assert_eq!(token.catalog[0].admin_url(&"S".to_owned()), Some("http://other-region/".to_owned()));
}

fn amt(m: i128, s: u32) -> Amount {
    Amount::new(m, s).unwrap()
}

#[test]
fn decimal_arithmetic() {
    assert_eq!(amt(5, 1).checked_mul(amt(3, 0)), Some(amt(15, 1)));
    assert_eq!(amt(20, 0).checked_mul(amt(1, 2)), Some(amt(20, 2)));
    assert_eq!(amt(1, 0).checked_div(amt(1048576, 0)), Some(amt(95367431640625, 20)));
    assert_eq!(amt(1, 0).checked_div(amt(0, 0)), None);
    assert_eq!(amt(15, 1).checked_add(amt(25, 2)), Some(amt(175, 2)));
    let max = Amount::new(79228162514264337593543950335, 0).unwrap();
    assert_eq!(max.checked_add(amt(1, 0)), None);
    assert_eq!(max.checked_mul(amt(2, 0)), None);
    assert!(Amount::new(79228162514264337593543950336, 0).is_none());
    assert!(Amount::new(1, 29).is_none());
    assert!(Amount::zero().is_zero());
    assert!(!amt(1, 28).is_zero());
}

#[test]
fn decimal_integer_part() {
    assert_eq!(amt(5368709120, 0).to_u64(), Some(5368709120));
    assert_eq!(amt(12345, 2).to_u64(), Some(123));
    assert_eq!(amt(-1, 0).to_u64(), None);
    assert_eq!(amt(18446744073709551616, 0).to_u64(), None);
    assert_eq!(Amount::from_u64(u64::MAX).to_u64(), Some(u64::MAX));
}

#[test]
fn sample_records() {
    let c = CloudComputeRecord::example();
    assert_eq!(c.common.instance_id, "1161cbd4-4c31-4052-8154-0c98881a1a69");
    assert_eq!(c.common.cost, amt(125, 3));
    assert_eq!(c.allocated_memory, 2048);
    assert_eq!(c.common.end_time, at(1550059200));
    assert!(c.common.create_time.secs > 1550059200);
    let s = CloudStorageRecord::example();
    assert_eq!(s.common.allocated_disk, 10737418240);
    assert_eq!(s.storage_type, "Block");
    assert!(s.common.create_time.secs > 1550059200);
}


#[test]
fn clock_readings() {
    let after = ClockReading::After { secs: 1550059200, nanos: 5 };
    assert_eq!(after.to_timestamp(), Timestamp { secs: 1550059200, nanos: 5 });
    let before = ClockReading::Before { secs: 5, nanos: 250_000_000 };
    assert_eq!(before.to_timestamp(), Timestamp { secs: -6, nanos: 750_000_000 });
    let whole = ClockReading::Before { secs: 5, nanos: 0 };
    assert_eq!(whole.to_timestamp(), Timestamp { secs: -5, nanos: 0 });
    let far = ClockReading::After { secs: u64::MAX, nanos: 0 };
    assert_eq!(far.to_timestamp(), Timestamp { secs: i64::MAX, nanos: 0 });
}

#[test]
fn name_mapping_keeps_last_duplicate() {
    let users = Users {
        users: vec![
            User { id: "u1".to_owned(), name: "alice".to_owned(), domain_id: "d1".to_owned() },
            User { id: "u1".to_owned(), name: "alicia".to_owned(), domain_id: "d1".to_owned() },
        ],
    };
    let m = NameMapping::from_users(users);
    assert_eq!(m.get("u1"), Some("alicia".to_owned()));
}
