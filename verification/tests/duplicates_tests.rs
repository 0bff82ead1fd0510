use smelter::duplicates::{
    delete_duplicates, duplicate_targets, find_duplicates, find_source_duplicates, DeleteAttempt,
};
use smelter::preview::{preview_organization, CategoryPreview};
use smelter::report::{FsErrorKind, FsFailure};
use smelter::{AudioMetadata, DuplicateInfo, SourceDuplicateFile, SourceDuplicateGroup};

fn file(path: &str, genre: Option<&str>) -> AudioMetadata {
    let filename = path.rsplit('/').next().unwrap().to_string();
    AudioMetadata {
        path: path.to_string(),
        filename,
        title: None,
        artist: None,
        genre: genre.map(|g| g.to_string()),
        mood: None,
        energy: None,
        bpm: None,
        duration_bits: None,
        category_override: None,
    }
}

#[test]
fn destination_duplicate_is_reported() {
    let files = vec![
        file("/in/ES_Track.mp3", Some("Ambient")),
        file("/in/ES_Other.mp3", Some("Ambient")),
        file("/in/boom.wav", None),
    ];
    let targets = duplicate_targets(&files, "/out", "genre");
    assert_eq!(
        targets,
        vec![
            "/out/Ambient/ES_Track.mp3".to_string(),
            "/out/Ambient/ES_Other.mp3".to_string(),
            "/out/SFX/boom.wav".to_string(),
        ]
    );
    let found = find_duplicates(&files, "/out", "genre", &[true, false, true]);
    assert_eq!(
        found,
        vec![
            DuplicateInfo {
                source_path: "/in/ES_Track.mp3".to_string(),
                source_filename: "ES_Track.mp3".to_string(),
                existing_path: "/out/Ambient/ES_Track.mp3".to_string(),
                category: "Ambient".to_string(),
            },
            DuplicateInfo {
                source_path: "/in/boom.wav".to_string(),
                source_filename: "boom.wav".to_string(),
                existing_path: "/out/SFX/boom.wav".to_string(),
                category: "SFX".to_string(),
            },
        ]
    );
}

#[test]
fn file_without_answer_is_no_destination_duplicate() {
    let files = vec![file("/in/ES_A.mp3", Some("Pop")), file("/in/ES_B.mp3", Some("Pop"))];
    assert_eq!(find_duplicates(&files, "/out", "genre", &[]).len(), 0);
    assert_eq!(find_duplicates(&files, "/out", "genre", &[false, true, true]).len(), 1);
    assert_eq!(find_duplicates(&[], "/out", "genre", &[true]).len(), 0);
}

#[test]
fn source_duplicates_are_grouped() {
    let files = vec![
        file("/in/a/ES_Track.mp3", Some("Ambient")),
        file("/in/b/ES_Solo.mp3", Some("Ambient")),
        file("/in/b/ES_Track.mp3", Some("Ambient")),
        file("/in/c/ES_Track.mp3", Some("Rock")),
        file("/in/d/boom.wav", Some("Rock")),
        file("/in/e/boom.wav", None),
        file("/in/f/ES_Track.mp3", Some("Ambient")),
    ];
    let groups = find_source_duplicates(&files, "genre");
    assert_eq!(
        groups,
        vec![
            SourceDuplicateGroup {
                filename: "ES_Track.mp3".to_string(),
                category: "Ambient".to_string(),
                files: vec![
                    SourceDuplicateFile { path: "/in/a/ES_Track.mp3".to_string(), folder: "a".to_string() },
                    SourceDuplicateFile { path: "/in/b/ES_Track.mp3".to_string(), folder: "b".to_string() },
                    SourceDuplicateFile { path: "/in/f/ES_Track.mp3".to_string(), folder: "f".to_string() },
                ],
            },
            SourceDuplicateGroup {
                filename: "boom.wav".to_string(),
                category: "SFX".to_string(),
                files: vec![
                    SourceDuplicateFile { path: "/in/d/boom.wav".to_string(), folder: "d".to_string() },
                    SourceDuplicateFile { path: "/in/e/boom.wav".to_string(), folder: "e".to_string() },
                ],
            },
        ]
    );
}

#[test]
fn batch_of_unique_files_has_no_source_duplicates() {
    let files = vec![
        file("/in/a/ES_Track.mp3", Some("Ambient")),
        file("/in/b/ES_Track.mp3", Some("Rock")),
        file("/in/c/ES_Other.mp3", Some("Ambient")),
    ];
    assert_eq!(find_source_duplicates(&files, "genre"), vec![]);
    assert_eq!(find_source_duplicates(&[], "genre"), vec![]);
    // Under a mode that resolves nothing both tracks are `Unknown`.
    assert_eq!(find_source_duplicates(&files, "none").len(), 1);
}

#[test]
fn categories_that_sanitize_alike_collide() {
    let files = vec![
        file("/in/a/ES_Track.mp3", Some("Hip/Hop")),
        file("/in/b/ES_Track.mp3", Some("Hip:Hop ")),
    ];
    let groups = find_source_duplicates(&files, "genre");
    assert_eq!(groups.len(), 1);
    assert_eq!(groups[0].category, "Hip_Hop");
    assert_eq!(groups[0].files.len(), 2);
}

#[test]
fn deletions_are_counted_and_failures_worded() {
    let attempts = vec![
        DeleteAttempt { path: "/out/a.mp3".to_string(), failure: None },
        DeleteAttempt {
            path: "/out/b.mp3".to_string(),
            failure: Some(FsFailure { kind: FsErrorKind::NotFound, detail: "gone".to_string() }),
        },
        DeleteAttempt { path: "/out/c.mp3".to_string(), failure: None },
        DeleteAttempt {
            path: "/out/d.mp3".to_string(),
            failure: Some(FsFailure {
                kind: FsErrorKind::PermissionDenied,
                detail: "no".to_string(),
            }),
        },
    ];
    let (deleted, errors) = delete_duplicates(&attempts).unwrap();
    assert_eq!(deleted, 2);
    assert_eq!(
        errors,
        vec![
            "File not found: Cannot delete '/out/b.mp3'. It may have been moved or deleted."
                .to_string(),
            "Permission denied: Cannot delete '/out/d.mp3'. Try choosing a different folder or check folder permissions.".to_string(),
        ]
    );
    assert_eq!(delete_duplicates(&[]), Ok((0, vec![])));
}

#[test]
fn preview_lists_names_by_category() {
    let files = vec![
        file("/in/ES_One.mp3", Some("Rock")),
        file("/in/boom.wav", Some("Rock")),
        file("/in/ES_Two.mp3", Some("Ambient")),
        file("/in/ES_Three.mp3", Some("Rock")),
        file("/in/ES_Four.mp3", None),
    ];
    let preview = preview_organization(&files, "genre");
    assert_eq!(
        preview,
        vec![
            CategoryPreview {
                category: "Rock".to_string(),
                files: vec!["ES_One.mp3".to_string(), "ES_Three.mp3".to_string()],
            },
            CategoryPreview { category: "SFX".to_string(), files: vec!["boom.wav".to_string()] },
            CategoryPreview {
                category: "Ambient".to_string(),
                files: vec!["ES_Two.mp3".to_string()],
            },
            CategoryPreview {
                category: "Unknown".to_string(),
                files: vec!["ES_Four.mp3".to_string()],
            },
        ]
    );
    assert_eq!(preview_organization(&[], "genre"), vec![]);
}
