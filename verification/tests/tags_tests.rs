use smelter::scan::{
    is_audio_file, rescan_files, scan_audio_files, scan_directory, scan_found_files, ScanAction,
    ScanReply,
};
use smelter::tags::{
    read_audio_metadata, read_audio_metadata_full, BasicTags, Id3Tags, ReadFailure, TagSnapshot,
    TagText,
};
use smelter::AudioMetadata;

fn text(s: &str) -> Option<String> {
    Some(s.to_string())
}

fn basic(title: &str) -> BasicTags {
    BasicTags { title: text(title), artist: text("Artist"), genre: text("Genre") }
}

fn id3() -> Id3Tags {
    Id3Tags {
        basic: basic("Title"),
        content_group: None,
        mood: None,
        comment: None,
        initial_key: None,
        subtitle: None,
        bpm: None,
        items: vec![],
    }
}

fn snapshot(tags: Id3Tags) -> Result<TagSnapshot, ReadFailure> {
    Ok(TagSnapshot {
        duration_bits: 61.5f64.to_bits(),
        id3v2: Some(tags),
        primary: Some(basic("Primary")),
        first: Some(basic("First")),
    })
}

fn mood_of(tags: Id3Tags) -> Option<String> {
    read_audio_metadata_full("/m/ES_A.mp3", &snapshot(tags)).unwrap().mood
}

#[test]
fn full_record_takes_all_fields_of_the_id3_tag() {
    let mut tags = id3();
    tags.content_group = text("Relaxed, Warm");
    tags.subtitle = text("High");
    tags.bpm = text("128");
    let record = read_audio_metadata_full("/m/ES_A.mp3", &snapshot(tags)).unwrap();
    assert_eq!(
        record,
        AudioMetadata {
            path: "/m/ES_A.mp3".to_string(),
            filename: "ES_A.mp3".to_string(),
            title: text("Title"),
            artist: text("Artist"),
            genre: text("Genre"),
            mood: text("Relaxed, Warm"),
            energy: text("High"),
            bpm: Some(128),
            duration_bits: Some(61.5f64.to_bits()),
            category_override: None,
        }
    );
}

#[test]
fn mood_is_taken_from_the_first_place_that_has_one() {
    let item = |key: &str, value: &str| TagText { key: text(key), text: text(value) };
    let mut tags = id3();
    tags.initial_key = text("Upbeat");
    assert_eq!(mood_of(tags.clone()), text("Upbeat"));
    tags.items = vec![
        item("TXXX:Artist Style", "Cinematic"),
        TagText { key: None, text: text("Nameless") },
        item("VIBE", "Later"),
    ];
    assert_eq!(mood_of(tags.clone()), text("Cinematic"));
    tags.comment = text("Dark");
    assert_eq!(mood_of(tags.clone()), text("Dark"));
    tags.mood = text("Happy");
    assert_eq!(mood_of(tags.clone()), text("Happy"));
    tags.content_group = text("Epic");
    assert_eq!(mood_of(tags), text("Epic"));
}

#[test]
fn comment_with_a_sentence_is_no_mood() {
    let mut tags = id3();
    tags.comment = text("Recorded live.");
    assert_eq!(mood_of(tags.clone()), None);
    tags.comment = text(&"x".repeat(50));
    assert_eq!(mood_of(tags.clone()), None);
    tags.comment = text(&"x".repeat(49));
    assert_eq!(mood_of(tags.clone()), text(&"x".repeat(49)));
    // The length is taken in bytes.
    tags.comment = text(&"é".repeat(25));
    assert_eq!(mood_of(tags.clone()), None);
    tags.comment = text(&"é".repeat(24));
    assert_eq!(mood_of(tags), text(&"é".repeat(24)));
}

#[test]
fn item_gives_mood_by_its_frame_name_and_text() {
    let mut tags = id3();
    tags.items = vec![
        TagText { key: text("MOOD"), text: None },
        TagText { key: text("TBPM"), text: text("120") },
        TagText { key: text("My-Vibes"), text: text("Chill") },
    ];
    assert_eq!(mood_of(tags.clone()), text("Chill"));
    tags.items.truncate(2);
    assert_eq!(mood_of(tags), None);
}

#[test]
fn musical_key_is_no_mood() {
    let mut tags = id3();
    for key in ["C#m", "Am", "Gmaj", "F#", "Abc", "Calm"] {
        tags.initial_key = text(key);
        assert_eq!(mood_of(tags.clone()), None, "{}", key);
    }
    tags.initial_key = text("Dark");
    assert_eq!(mood_of(tags), text("Dark"));
}

#[test]
fn tempo_that_is_no_number_is_left_out() {
    let bpm_of = |value: &str| {
        let mut tags = id3();
        tags.bpm = text(value);
        read_audio_metadata_full("/m/ES_A.mp3", &snapshot(tags)).unwrap().bpm
    };
    assert_eq!(bpm_of("128"), Some(128));
    assert_eq!(bpm_of("128.5"), None);
    assert_eq!(bpm_of(""), None);
    assert_eq!(bpm_of("fast"), None);
}

#[test]
fn file_without_id3_tag_falls_back_to_its_usual_tag() {
    let source = Ok(TagSnapshot {
        duration_bits: 1.0f64.to_bits(),
        id3v2: None,
        primary: Some(basic("Primary")),
        first: Some(basic("First")),
    });
    let record = read_audio_metadata_full("/m/boom.wav", &source).unwrap();
    assert_eq!(record.title, text("Primary"));
    assert_eq!(record.mood, None);
    assert_eq!(record.bpm, None);
    assert_eq!(record.duration_bits, Some(1.0f64.to_bits()));
    let bare = Ok(TagSnapshot { duration_bits: 0, id3v2: None, primary: None, first: Some(basic("First")) });
    assert_eq!(read_audio_metadata_full("/m/boom.wav", &bare).unwrap().title, None);
    assert_eq!(read_audio_metadata("/m/boom.wav", &bare).unwrap().title, text("First"));
    assert_eq!(read_audio_metadata("/m/boom.wav", &source).unwrap().title, text("Primary"));
    assert_eq!(read_audio_metadata("/m/boom.wav", &snapshot(id3())).unwrap().mood, None);
}

#[test]
fn unreadable_file_is_told_in_words() {
    let open = |detail: &str| {
        read_audio_metadata_full("/m/ES_A.mp3", &Err(ReadFailure::Open(detail.to_string())))
    };
    assert_eq!(
        open("Permission denied (os error 13)"),
        Err("Permission denied: Cannot read '/m/ES_A.mp3'. Check file permissions.".to_string())
    );
    let missing =
        "File not found: Cannot read '/m/ES_A.mp3'. It may have been moved or deleted.".to_string();
    assert_eq!(open("No such file or directory (os error 2)"), Err(missing.clone()));
    assert_eq!(open("entity not found"), Err(missing));
    assert_eq!(open("busy"), Err("Cannot open '/m/ES_A.mp3': busy".to_string()));
    assert_eq!(
        read_audio_metadata_full("/m/ES_A.mp3", &Err(ReadFailure::Decode("bad frame".to_string()))),
        Err("Cannot read audio data from '/m/ES_A.mp3': bad frame".to_string())
    );
    assert_eq!(
        read_audio_metadata("/m/ES_A.mp3", &Err(ReadFailure::Open("busy".to_string()))),
        Err("Failed to open file '/m/ES_A.mp3': busy".to_string())
    );
    assert_eq!(
        read_audio_metadata("/m/ES_A.mp3", &Err(ReadFailure::Decode("bad".to_string()))),
        Err("Failed to read file '/m/ES_A.mp3': bad".to_string())
    );
}

#[test]
fn audio_files_are_known_by_extension() {
    assert!(is_audio_file("/m/a.mp3"));
    assert!(is_audio_file("/m/a.MP3"));
    assert!(is_audio_file("/m/a.Wav"));
    assert!(is_audio_file("b.x.wav"));
    assert!(!is_audio_file("/m/a.flac"));
    assert!(!is_audio_file("/m/mp3"));
    assert!(!is_audio_file("/m/.mp3"));
    assert!(!is_audio_file("/m/a.mp3/.."));
    assert!(!is_audio_file("/m/a.mp3x"));
    let entries: Vec<String> =
        ["/m", "/m/a.mp3", "/m/cover.jpg", "/m/sub/b.WAV", "/m/sub"].iter().map(|s| s.to_string()).collect();
    assert_eq!(scan_directory(&entries), vec!["/m/a.mp3".to_string(), "/m/sub/b.WAV".to_string()]);
}

fn record(path: &str) -> AudioMetadata {
    let mut record = AudioMetadata::placeholder(path);
    record.title = text("Read");
    record
}

#[test]
fn scan_asks_the_cache_first() {
    let paths = vec!["/m/ES_A.mp3".to_string(), "/m/ES_B.mp3".to_string(), "/m/ES_C.mp3".to_string()];
    let mut job = scan_audio_files(&paths);
    assert_eq!(job.action(), ScanAction::Prepare);
    job.step(ScanReply::Done);
    // The first file is in the cache.
    assert_eq!(job.action(), ScanAction::Lookup("/m/ES_A.mp3".to_string()));
    job.step(ScanReply::Found(record("/m/ES_A.mp3")));
    // The second is not: it is read, and what was read is stored.
    assert_eq!(job.action(), ScanAction::Lookup("/m/ES_B.mp3".to_string()));
    job.step(ScanReply::Missing);
    assert_eq!(job.action(), ScanAction::Read("/m/ES_B.mp3".to_string()));
    job.step(ScanReply::Found(record("/m/ES_B.mp3")));
    assert_eq!(job.action(), ScanAction::Store(record("/m/ES_B.mp3")));
    job.step(ScanReply::Failed("store is full".to_string()));
    // The cache fails on the third, which cannot be read either.
    assert_eq!(job.action(), ScanAction::Lookup("/m/ES_C.mp3".to_string()));
    job.step(ScanReply::Failed("Database error".to_string()));
    assert_eq!(job.action(), ScanAction::Read("/m/ES_C.mp3".to_string()));
    job.step(ScanReply::Failed("Cannot open".to_string()));
    assert_eq!(job.action(), ScanAction::Finished);
    assert_eq!(
        job.finish(),
        Some(Ok(vec![
            record("/m/ES_A.mp3"),
            record("/m/ES_B.mp3"),
            AudioMetadata::placeholder("/m/ES_C.mp3"),
        ]))
    );
}

#[test]
fn scan_goes_on_without_a_cache() {
    let paths = vec!["/m/ES_A.mp3".to_string(), "/m/ES_B.mp3".to_string()];
    let mut job = scan_audio_files(&paths);
    assert_eq!(scan_audio_files(&paths).finish(), None);
    assert_eq!(job.action(), ScanAction::Prepare);
    job.step(ScanReply::Failed("Failed to open database: denied".to_string()));
    // Every lookup fails, and so does every storing.
    assert_eq!(job.action(), ScanAction::Lookup("/m/ES_A.mp3".to_string()));
    job.step(ScanReply::Failed("Failed to open database: denied".to_string()));
    assert_eq!(job.action(), ScanAction::Read("/m/ES_A.mp3".to_string()));
    job.step(ScanReply::Found(record("/m/ES_A.mp3")));
    assert_eq!(job.action(), ScanAction::Store(record("/m/ES_A.mp3")));
    job.step(ScanReply::Failed("Failed to open database: denied".to_string()));
    assert_eq!(job.action(), ScanAction::Lookup("/m/ES_B.mp3".to_string()));
    job.step(ScanReply::Failed("Failed to open database: denied".to_string()));
    job.step(ScanReply::Failed("Cannot open '/m/ES_B.mp3': gone".to_string()));
    assert_eq!(job.action(), ScanAction::Finished);
    assert_eq!(
        job.finish(),
        Some(Ok(vec![record("/m/ES_A.mp3"), AudioMetadata::placeholder("/m/ES_B.mp3")]))
    );
}

#[test]
fn rescan_goes_on_where_the_cache_cannot_forget() {
    let paths = vec!["/m/ES_A.mp3".to_string()];
    let mut job = rescan_files(&paths);
    assert_eq!(job.action(), ScanAction::Invalidate(paths.clone()));
    job.step(ScanReply::Failed("Failed to open database: denied".to_string()));
    assert_eq!(job.action(), ScanAction::Read("/m/ES_A.mp3".to_string()));
    job.step(ScanReply::Found(record("/m/ES_A.mp3")));
    job.step(ScanReply::Failed("Failed to cache metadata: denied".to_string()));
    assert_eq!(job.finish(), Some(Ok(vec![record("/m/ES_A.mp3")])));
}

#[test]
fn scan_of_no_paths_is_done_after_the_setup() {
    let paths: Vec<String> = vec![];
    let mut job = scan_found_files(&paths);
    job.step(ScanReply::Failed("no store".to_string()));
    assert_eq!(job.action(), ScanAction::Finished);
    assert_eq!(job.finish(), Some(Ok(vec![])));
}

#[test]
fn rescan_forgets_and_reads() {
    let paths = vec!["/m/ES_A.mp3".to_string(), "/m/ES_B.mp3".to_string()];
    let mut job = rescan_files(&paths);
    assert_eq!(job.action(), ScanAction::Invalidate(paths.clone()));
    job.step(ScanReply::Done);
    assert_eq!(job.action(), ScanAction::Read("/m/ES_A.mp3".to_string()));
    job.step(ScanReply::Found(record("/m/ES_A.mp3")));
    assert_eq!(job.action(), ScanAction::Store(record("/m/ES_A.mp3")));
    job.step(ScanReply::Done);
    assert_eq!(job.action(), ScanAction::Read("/m/ES_B.mp3".to_string()));
    job.step(ScanReply::Failed("gone".to_string()));
    assert_eq!(
        job.finish(),
        Some(Ok(vec![record("/m/ES_A.mp3"), AudioMetadata::placeholder("/m/ES_B.mp3")]))
    );
}

#[test]
fn folder_scan_passes_over_what_cannot_be_read() {
    let paths = vec!["/m/a.mp3".to_string(), "/m/b.mp3".to_string(), "/m/c.wav".to_string()];
    let mut job = scan_found_files(&paths);
    assert_eq!(job.action(), ScanAction::Prepare);
    job.step(ScanReply::Done);
    assert_eq!(job.action(), ScanAction::Lookup("/m/a.mp3".to_string()));
    job.step(ScanReply::Missing);
    assert_eq!(job.action(), ScanAction::Read("/m/a.mp3".to_string()));
    job.step(ScanReply::Found(record("/m/a.mp3")));
    assert_eq!(job.action(), ScanAction::Store(record("/m/a.mp3")));
    job.step(ScanReply::Done);
    assert_eq!(job.action(), ScanAction::Lookup("/m/b.mp3".to_string()));
    job.step(ScanReply::Missing);
    assert_eq!(job.action(), ScanAction::Read("/m/b.mp3".to_string()));
    job.step(ScanReply::Failed("bad".to_string()));
    assert_eq!(job.action(), ScanAction::Lookup("/m/c.wav".to_string()));
    job.step(ScanReply::Found(record("/m/c.wav")));
    assert_eq!(job.action(), ScanAction::Finished);
    assert_eq!(job.finish(), Some(Ok(vec![record("/m/a.mp3"), record("/m/c.wav")])));
}

#[test]
fn placeholder_has_path_and_name_alone() {
    assert_eq!(
        AudioMetadata::placeholder("/m/in/ES_A.mp3"),
        AudioMetadata {
            path: "/m/in/ES_A.mp3".to_string(),
            filename: "ES_A.mp3".to_string(),
            title: None,
            artist: None,
            genre: None,
            mood: None,
            energy: None,
            bpm: None,
            duration_bits: None,
            category_override: None,
        }
    );
    assert_eq!(AudioMetadata::placeholder("/").filename, "Unknown");
}
