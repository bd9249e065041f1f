use leptos_tools::{check_after_record, should_check_for_new_version, Freshness, Marker, DAY_MS};

#[test]
fn missing_marker_checks_and_records_now() {
    let d = should_check_for_new_version(&Marker::Missing, 1_000);
    assert_eq!(d, Freshness { check: true, record: Some(1_000) });
    assert!(check_after_record(&d, true));
    assert!(!check_after_record(&d, false));
}

#[test]
fn checks_at_most_once_a_day() {
    let t1: u64 = 1_700_000_000_000;
    let first = should_check_for_new_version(&Marker::Missing, t1);
    assert!(first.check);
    let written = first.record.unwrap().to_string();
    let marker = Marker::Contents(written);
    assert!(!should_check_for_new_version(&marker, t1).check);
    assert!(!should_check_for_new_version(&marker, t1 + DAY_MS).check);
    let later = should_check_for_new_version(&marker, t1 + DAY_MS + 1);
    assert_eq!(later, Freshness { check: true, record: Some(t1 + DAY_MS + 1) });
    let again = Marker::Contents(later.record.unwrap().to_string());
    assert!(!should_check_for_new_version(&again, t1 + DAY_MS + 2).check);
}

#[test]
fn bad_markers_skip_the_check() {
    let now: u64 = 1_700_000_000_000;
    assert!(!should_check_for_new_version(&Marker::Directory, now).check);
    assert!(!should_check_for_new_version(&Marker::Unavailable, now).check);
    assert!(!should_check_for_new_version(&Marker::Contents("yesterday".to_string()), now).check);
    assert!(!should_check_for_new_version(&Marker::Contents(String::new()), now).check);
    let future = Marker::Contents((now + 5).to_string());
    assert_eq!(should_check_for_new_version(&future, now), Freshness { check: false, record: None });
}

#[test]
fn no_check_means_nothing_recorded() {
    let d = Freshness { check: false, record: None };
    assert!(!check_after_record(&d, true));
}
