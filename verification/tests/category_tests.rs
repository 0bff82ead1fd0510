use smelter::category::{get_file_category, is_sfx_file, sanitize_folder_name};
use smelter::metadata::AudioMetadata;

fn track(filename: &str) -> AudioMetadata {
    AudioMetadata {
        path: format!("/music/{}", filename),
        filename: filename.to_string(),
        title: None,
        artist: None,
        genre: None,
        mood: None,
        energy: None,
        bpm: None,
        duration_bits: None,
        category_override: None,
    }
}

#[test]
fn mood_mode_takes_first_mood_of_list() {
    let mut file = track("ES_Calm_Piano.mp3");
    file.mood = Some("Relaxed, Warm".to_string());
    assert_eq!(get_file_category(&file, "mood"), "Relaxed");
}

#[test]
fn file_without_prefix_is_effect_under_any_mode() {
    let mut file = track("explosion_01.wav");
    file.mood = Some("Angry".to_string());
    file.genre = Some("Rock".to_string());
    file.category_override = Some("Mine".to_string());
    assert!(is_sfx_file("explosion_01.wav"));
    assert_eq!(get_file_category(&file, "mood"), "SFX");
    assert_eq!(get_file_category(&file, "genre"), "SFX");
    assert_eq!(get_file_category(&file, "anything"), "SFX");
}

#[test]
fn sanitize_replaces_reserved_and_trims() {
    assert_eq!(sanitize_folder_name("  Hip/Hop: A*B?\"<>|\\  "), "Hip_Hop_ A_B______");
    assert_eq!(sanitize_folder_name("\u{a0}Jazz\t\n"), "Jazz");
    assert_eq!(sanitize_folder_name(""), "");
}

#[test]
fn override_goes_before_genre_and_mood() {
    let mut file = track("ES_Song.mp3");
    file.genre = Some("Rock".to_string());
    file.mood = Some("Happy".to_string());
    file.category_override = Some("Mine/Own".to_string());
    assert_eq!(get_file_category(&file, "genre"), "Mine/Own");
    assert_eq!(get_file_category(&file, "mood"), "Mine/Own");
    assert_eq!(get_file_category(&file, "other"), "Mine/Own");
}

#[test]
fn genre_mode_and_unknown_fallbacks() {
    let mut file = track("ES_Song.mp3");
    assert_eq!(get_file_category(&file, "genre"), "Unknown");
    assert_eq!(get_file_category(&file, "mood"), "Unknown");
    file.genre = Some("Rock, Pop".to_string());
    file.mood = Some(" Dark ,Calm".to_string());
    assert_eq!(get_file_category(&file, "genre"), "Rock, Pop");
    assert_eq!(get_file_category(&file, "mood"), "Dark");
    assert_eq!(get_file_category(&file, "Genre"), "Unknown");
    assert_eq!(get_file_category(&file, ""), "Unknown");
    file.mood = Some(",Calm".to_string());
    assert_eq!(get_file_category(&file, "mood"), "");
    file.mood = Some("".to_string());
    assert_eq!(get_file_category(&file, "mood"), "");
}

#[test]
fn catalog_prefix_is_case_sensitive() {
    assert!(!is_sfx_file("ES_Track.mp3"));
    assert!(!is_sfx_file("ES_"));
    assert!(is_sfx_file("es_track.mp3"));
    assert!(is_sfx_file("ES"));
    assert!(is_sfx_file(""));
    assert!(is_sfx_file(" ES_Track.mp3"));
}

#[test]
fn same_record_and_mode_give_same_category() {
    let mut file = track("ES_Song.mp3");
    file.mood = Some("Dreamy, Soft".to_string());
    let again = file.duplicate();
    assert_eq!(again, file);
    assert_eq!(get_file_category(&file, "mood"), get_file_category(&again, "mood"));
    assert_eq!(get_file_category(&file, "mood"), get_file_category(&file, "mood"));
}
