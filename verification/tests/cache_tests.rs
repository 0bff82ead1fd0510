use smelter::cache::{
    after_init_step, cache_metadata, clear_cache, clear_cache_for_files, format_store_error,
    get_cached_metadata, init_database, is_fresh, metadata_from_entry, migration_name, CacheEntry,
    FileIdentity, InitNext, InitStep, StoreTask,
};
use smelter::telemetry::cleanup_cutoff;
use smelter::AudioMetadata;

fn record() -> AudioMetadata {
    AudioMetadata {
        path: "/music/ES_Calm_Piano.mp3".to_string(),
        filename: "ES_Calm_Piano.mp3".to_string(),
        title: Some("Calm Piano".to_string()),
        artist: Some("Someone".to_string()),
        genre: Some("Classical".to_string()),
        mood: Some("Relaxed, Warm".to_string()),
        energy: Some("Low".to_string()),
        bpm: Some(72),
        duration_bits: Some(183.25f64.to_bits()),
        category_override: None,
    }
}

#[test]
fn lookup_after_put_gives_the_record_back() {
    let at_put = Some(FileIdentity { modified: 1_700_000_000, size: 4_096 });
    let entry = cache_metadata(&record(), &at_put);
    assert_eq!(entry.file_modified, 1_700_000_000);
    assert_eq!(entry.file_size, Some(4_096));
    assert_eq!(entry.bpm, Some(72));
    assert_eq!(get_cached_metadata(Ok(Some(entry)), &at_put), Ok(Some(record())));
}

#[test]
fn changed_time_or_size_is_a_miss() {
    let at_put = Some(FileIdentity { modified: 1_700_000_000, size: 4_096 });
    let entry = cache_metadata(&record(), &at_put);
    let later = Some(FileIdentity { modified: 1_700_000_001, size: 4_096 });
    let larger = Some(FileIdentity { modified: 1_700_000_000, size: 4_097 });
    assert_eq!(get_cached_metadata(Ok(Some(entry.clone())), &later), Ok(None));
    assert_eq!(get_cached_metadata(Ok(Some(entry.clone())), &larger), Ok(None));
    assert_eq!(get_cached_metadata(Ok(Some(entry)), &None), Ok(None));
}

#[test]
fn missing_row_is_a_miss_and_failure_is_worded() {
    let now = Some(FileIdentity { modified: 5, size: 6 });
    assert_eq!(get_cached_metadata(Ok(None), &now), Ok(None));
    assert_eq!(
        get_cached_metadata(Err("disk I/O error".to_string()), &now),
        Err("Database error: disk I/O error".to_string())
    );
}

#[test]
fn override_is_not_stored() {
    let mut chosen = record();
    chosen.category_override = Some("Mine".to_string());
    let identity = Some(FileIdentity { modified: 1, size: 2 });
    let entry = cache_metadata(&chosen, &identity);
    assert_eq!(get_cached_metadata(Ok(Some(entry)), &identity), Ok(Some(record())));
}

#[test]
fn row_gives_file_name_of_its_path() {
    let entry = CacheEntry {
        path: "/music/deep/ES_X.wav".to_string(),
        title: None,
        artist: None,
        genre: None,
        mood: None,
        energy: None,
        bpm: Some(-1),
        duration_bits: None,
        file_modified: 0,
        file_size: None,
    };
    let restored = metadata_from_entry(&entry);
    assert_eq!(restored.filename, "ES_X.wav");
    assert_eq!(restored.bpm, Some(u32::MAX));
    assert_eq!(restored.category_override, None);
    // A row without a size stands for a size of 0.
    assert!(is_fresh(0, None, &Some(FileIdentity { modified: 0, size: 0 })));
    assert!(!is_fresh(0, None, &Some(FileIdentity { modified: 0, size: 1 })));
    assert!(is_fresh(7, Some(9), &Some(FileIdentity { modified: 7, size: 9 })));
    assert!(!is_fresh(8, Some(9), &Some(FileIdentity { modified: 7, size: 9 })));
    assert!(!is_fresh(7, Some(9), &None));
}

#[test]
fn large_tempo_goes_round() {
    let mut fast = record();
    fast.bpm = Some(u32::MAX - 5);
    let identity = Some(FileIdentity { modified: 1, size: 2 });
    let entry = cache_metadata(&fast, &identity);
    assert_eq!(entry.bpm, Some(-6));
    assert_eq!(get_cached_metadata(Ok(Some(entry)), &identity), Ok(Some(fast)));
}

#[test]
fn identity_takes_over_what_the_file_tells() {
    assert_eq!(
        FileIdentity::from_stat(Some(1_700_000_000), 12),
        FileIdentity { modified: 1_700_000_000, size: 12 }
    );
    assert_eq!(FileIdentity::from_stat(None, 12), FileIdentity { modified: 0, size: 12 });
    assert_eq!(FileIdentity::from_stat(Some(u64::MAX), 1 << 63).modified, -1);
    assert_eq!(FileIdentity::from_stat(Some(u64::MAX), 1 << 63).size, i64::MIN);
}

#[test]
fn file_that_cannot_be_looked_at_is_a_miss_even_for_a_row_of_zeros() {
    let entry = cache_metadata(&record(), &None);
    assert_eq!(entry.file_modified, 0);
    assert_eq!(entry.file_size, Some(0));
    assert_eq!(get_cached_metadata(Ok(Some(entry.clone())), &None), Ok(None));
    let empty = Some(FileIdentity { modified: 0, size: 0 });
    assert_eq!(get_cached_metadata(Ok(Some(entry)), &empty), Ok(Some(record())));
}

#[test]
fn clearing_tells_the_count_taken_before() {
    assert_eq!(clear_cache(Some(3), Ok(3)), Ok(3));
    assert_eq!(clear_cache(None, Ok(7)), Ok(0));
    assert_eq!(clear_cache(Some(0), Ok(0)), Ok(0));
    assert_eq!(
        clear_cache(Some(3), Err("locked".to_string())),
        Err("Failed to clear cache: locked".to_string())
    );
}

#[test]
fn invalidating_sums_what_was_removed() {
    assert_eq!(clear_cache_for_files(&[]), Ok(0));
    assert_eq!(clear_cache_for_files(&[Some(1), None, Some(0), Some(1)]), Ok(2));
    assert_eq!(clear_cache_for_files(&[None, None]), Ok(0));
}

#[test]
fn setup_runs_its_steps_in_order() {
    let mut step = init_database();
    let mut seen = vec![step];
    loop {
        // A ledger without the record, and a store that never fails.
        match after_init_step(step, &Ok(false)) {
            InitNext::Run(next) => {
                step = next;
                seen.push(step);
            }
            InitNext::Ready => break,
            InitNext::Failed(message) => panic!("{}", message),
        }
    }
    assert_eq!(
        seen,
        vec![
            InitStep::Open,
            InitStep::CreateEntries,
            InitStep::AddSizeColumn,
            InitStep::CreateLedger,
            InitStep::CheckMigration,
            InitStep::PurgeEntries,
            InitStep::RecordMigration,
            InitStep::CreateIndex,
        ]
    );
    assert_eq!(migration_name(), "clear_stale_cache_v2");
}

#[test]
fn recorded_purge_is_not_run_again() {
    assert_eq!(
        after_init_step(InitStep::CheckMigration, &Ok(true)),
        InitNext::Run(InitStep::CreateIndex)
    );
    assert_eq!(
        after_init_step(InitStep::CheckMigration, &Err("no such table".to_string())),
        InitNext::Run(InitStep::PurgeEntries)
    );
    // What `Ok` holds has a meaning only after the ledger was asked.
    assert_eq!(
        after_init_step(InitStep::CreateLedger, &Ok(true)),
        InitNext::Run(InitStep::CheckMigration)
    );
}

#[test]
fn setup_fails_with_the_step_in_words() {
    let failed = |step| after_init_step(step, &Err("boom".to_string()));
    assert_eq!(
        failed(InitStep::Open),
        InitNext::Failed("Failed to open database: boom".to_string())
    );
    assert_eq!(
        failed(InitStep::CreateEntries),
        InitNext::Failed("Failed to create table: boom".to_string())
    );
    assert_eq!(failed(InitStep::AddSizeColumn), InitNext::Run(InitStep::CreateLedger));
    assert_eq!(
        failed(InitStep::CreateLedger),
        InitNext::Failed("Failed to create migrations table: boom".to_string())
    );
    assert_eq!(
        failed(InitStep::PurgeEntries),
        InitNext::Failed("Failed to clear cache in migration: boom".to_string())
    );
    assert_eq!(
        failed(InitStep::RecordMigration),
        InitNext::Failed("Failed to record migration: boom".to_string())
    );
    assert_eq!(
        failed(InitStep::CreateIndex),
        InitNext::Failed("Failed to create index: boom".to_string())
    );
    assert_eq!(format_store_error(StoreTask::Write, "full"), "Failed to cache metadata: full");
    assert_eq!(format_store_error(StoreTask::Lookup, "x"), "Database error: x");
}

#[test]
fn sent_events_are_kept_seven_days() {
    assert_eq!(cleanup_cutoff(1_700_000_000), 1_700_000_000 - 7 * 24 * 60 * 60);
    assert_eq!(cleanup_cutoff(0), -604_800);
}
