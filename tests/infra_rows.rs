use editoast::infra::{parse_version, Infra, InfraError, RefreshAction, RAILJSON_VERSION};

fn row(version: &str, generated: Option<Option<&str>>) -> Infra {
    Infra {
        id: Some(12),
        name: Some("test".to_string()),
        railjson_version: RAILJSON_VERSION.to_string(),
        owner: Some(5),
        version: version.to_string(),
        generated_version: generated.map(|g| g.map(|v| v.to_string())),
        locked: true,
        created: Some(100),
        modified: 200,
    }
}

#[test]
fn new_infra_starts_at_version_zero() {
    let infra = Infra::new("test".to_string(), 0, 42);
    assert_eq!(infra.name.as_deref(), Some("test"));
    assert_eq!(infra.version, "0");
    assert_eq!(infra.generated_version, None);
    assert_eq!(infra.railjson_version, "3.2.0");
    assert_eq!(infra.id, None);
    assert!(!infra.locked);
    assert_eq!(infra.created, Some(42));
    assert_eq!(infra.modified, 42);
}

#[test]
fn parse_version_reads_decimal_integers() {
    assert_eq!(parse_version("0"), Some(0));
    assert_eq!(parse_version("42"), Some(42));
    assert_eq!(parse_version("007"), Some(7));
    assert_eq!(parse_version("18446744073709551615"), Some(u64::MAX));
    assert_eq!(parse_version("18446744073709551616"), None);
    assert_eq!(parse_version(""), None);
    assert_eq!(parse_version("-1"), None);
    assert_eq!(parse_version("1a"), None);
    assert_eq!(parse_version("+1"), Some(1));
    assert_eq!(parse_version("+"), None);
    assert_eq!(parse_version("++1"), None);
    assert_eq!(parse_version("1+"), None);
}

#[test]
fn bump_version_counts_from_zero() {
    let mut infra = row("0", None);
    for k in 1..=25u64 {
        infra = infra.bump_version().unwrap();
        assert_eq!(infra.version, k.to_string());
    }
    assert_eq!(infra.id, Some(12));
    assert_eq!(infra.name.as_deref(), Some("test"));
    assert!(infra.locked);
}

#[test]
fn bump_version_drops_leading_plus() {
    assert_eq!(row("+5", None).bump_version().unwrap().version, "6");
    assert_eq!(row("+", None).bump_version().err(), Some(InfraError::ConsistencyCorruption));
}

#[test]
fn bump_version_carries_digits() {
    assert_eq!(row("9", None).bump_version().unwrap().version, "10");
    assert_eq!(row("199", None).bump_version().unwrap().version, "200");
}

#[test]
fn bump_version_refuses_corrupt_version() {
    assert_eq!(row("abc", None).bump_version().err(), Some(InfraError::ConsistencyCorruption));
    assert_eq!(row("", None).bump_version().err(), Some(InfraError::ConsistencyCorruption));
    assert_eq!(
        row("18446744073709551615", None).bump_version().err(),
        Some(InfraError::ConsistencyCorruption)
    );
}

#[test]
fn refresh_skips_fresh_cache() {
    let infra = row("3", Some(Some("3")));
    assert_eq!(infra.refresh(false), RefreshAction::Skip);
}

#[test]
fn refresh_computes_stale_cache() {
    assert_eq!(row("3", None).refresh(false), RefreshAction::Compute);
    assert_eq!(row("3", Some(None)).refresh(false), RefreshAction::Compute);
    assert_eq!(row("3", Some(Some("2"))).refresh(false), RefreshAction::Compute);
}

#[test]
fn forced_refresh_always_computes() {
    assert_eq!(row("3", Some(Some("3"))).refresh(true), RefreshAction::Compute);
    assert_eq!(row("3", None).refresh(true), RefreshAction::Compute);
}

#[test]
fn refresh_done_records_current_version() {
    let infra = row("7", Some(Some("5")));
    let refreshed = infra.refresh_done(Ok(())).unwrap();
    assert_eq!(refreshed.generated_version, Some(Some("7".to_string())));
    assert_eq!(refreshed.version, "7");
    assert_eq!(refreshed.refresh(false), RefreshAction::Skip);
}

#[test]
fn failed_compute_leaves_row_untouched() {
    let infra = row("7", Some(Some("5")));
    assert_eq!(infra.refresh_done(Err(InfraError::ComputeFailure)).err(), Some(InfraError::ComputeFailure));
    assert_eq!(infra.generated_version, Some(Some("5".to_string())));
}

#[test]
fn clear_marks_cache_cleared() {
    for generated in [None, Some(None), Some(Some("4"))] {
        let cleared = row("4", generated).clear(Ok(())).unwrap();
        assert_eq!(cleared.generated_version, Some(None));
        assert_eq!(cleared.version, "4");
        assert_eq!(cleared.refresh(false), RefreshAction::Compute);
    }
}

#[test]
fn failed_invalidation_leaves_row_untouched() {
    let infra = row("4", Some(Some("4")));
    assert_eq!(infra.clear(Err(InfraError::ComputeFailure)).err(), Some(InfraError::ComputeFailure));
    assert_eq!(infra.generated_version, Some(Some("4".to_string())));
}

#[test]
fn clone_missing_source_is_not_found() {
    assert_eq!(
        Infra::clone(None, 66, "X".to_string(), 77, 0).err(),
        Some(InfraError::NotFound { infra_id: 66 })
    );
}

#[test]
fn clone_copies_metadata() {
    let source = row("9", Some(Some("8")));
    let copy = Infra::clone(Some(source), 12, "X".to_string(), 0xfeed, 300).unwrap();
    assert_eq!(copy.name.as_deref(), Some("X"));
    assert_eq!(copy.id, None);
    assert_eq!(copy.version, "9");
    assert_eq!(copy.generated_version, Some(Some("8".to_string())));
    assert!(copy.locked);
    assert_eq!(copy.owner, Some(0xfeed));
    assert_eq!(copy.railjson_version, "3.2.0");
    assert_eq!(copy.created, Some(300));
    assert_eq!(copy.modified, 300);
}
