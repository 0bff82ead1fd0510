use smelter::names::{generate_unique_filename, numbered, resolve_probe, NamePlan, UsedNames};

#[test]
fn numbered_name_goes_before_extension() {
    assert_eq!(numbered("ES_Track.mp3", 1), "ES_Track_1.mp3");
    assert_eq!(numbered("ES_Track.mp3", 12), "ES_Track_12.mp3");
    assert_eq!(numbered("a.b.c", 3), "a.b_3.c");
}

#[test]
fn numbered_name_without_extension_has_no_dot() {
    assert_eq!(numbered("README", 1), "README_1");
    assert_eq!(numbered(".hidden", 2), ".hidden_2");
    assert_eq!(numbered("trailing.", 1), "trailing_1");
    assert_eq!(numbered("..", 1), ".._1");
    assert_eq!(numbered("", 1), "_1");
}

#[test]
fn two_files_of_one_name_in_one_batch() {
    let mut used = UsedNames::new();
    let first = generate_unique_filename("out/Ambient", "ES_Track.mp3", &mut used, "Ambient");
    assert_eq!(
        first,
        NamePlan::Probe { path: "out/Ambient/ES_Track.mp3".to_string(), counter: 0 }
    );
    assert_eq!(used.get("Ambient", "ES_Track.mp3"), None);
    let first = resolve_probe("out/Ambient", "ES_Track.mp3", &mut used, "Ambient", 0, false);
    assert_eq!(first, NamePlan::Settled("ES_Track.mp3".to_string()));
    assert_eq!(used.get("Ambient", "ES_Track.mp3"), Some(0));
    let second = generate_unique_filename("out/Ambient", "ES_Track.mp3", &mut used, "Ambient");
    assert_eq!(second, NamePlan::Settled("ES_Track_1.mp3".to_string()));
    let third = generate_unique_filename("out/Ambient", "ES_Track.mp3", &mut used, "Ambient");
    assert_eq!(third, NamePlan::Settled("ES_Track_2.mp3".to_string()));
    assert_eq!(used.get("Ambient", "ES_Track.mp3"), Some(2));
}

#[test]
fn name_on_disk_is_passed_over() {
    let mut used = UsedNames::new();
    let plan = generate_unique_filename("out/Ambient", "ES_Track.mp3", &mut used, "Ambient");
    assert_eq!(
        plan,
        NamePlan::Probe { path: "out/Ambient/ES_Track.mp3".to_string(), counter: 0 }
    );
    let plan = resolve_probe("out/Ambient", "ES_Track.mp3", &mut used, "Ambient", 0, true);
    assert_eq!(
        plan,
        NamePlan::Probe { path: "out/Ambient/ES_Track_1.mp3".to_string(), counter: 1 }
    );
    let plan = resolve_probe("out/Ambient", "ES_Track.mp3", &mut used, "Ambient", 1, true);
    assert_eq!(
        plan,
        NamePlan::Probe { path: "out/Ambient/ES_Track_2.mp3".to_string(), counter: 2 }
    );
    let plan = resolve_probe("out/Ambient", "ES_Track.mp3", &mut used, "Ambient", 2, false);
    assert_eq!(plan, NamePlan::Settled("ES_Track_2.mp3".to_string()));
    // The next file of that name goes on from the number found, and the
    // disk is not asked again.
    let plan = generate_unique_filename("out/Ambient", "ES_Track.mp3", &mut used, "Ambient");
    assert_eq!(plan, NamePlan::Settled("ES_Track_3.mp3".to_string()));
}

#[test]
fn categories_count_apart() {
    let mut used = UsedNames::new();
    resolve_probe("out/A", "ES_X.wav", &mut used, "A", 0, false);
    let other = generate_unique_filename("out/B", "ES_X.wav", &mut used, "B");
    assert_eq!(other, NamePlan::Probe { path: "out/B/ES_X.wav".to_string(), counter: 0 });
    let same = generate_unique_filename("out/A", "ES_X.wav", &mut used, "A");
    assert_eq!(same, NamePlan::Settled("ES_X_1.wav".to_string()));
    let other_name = generate_unique_filename("out/A", "ES_Y.wav", &mut used, "A");
    assert_eq!(other_name, NamePlan::Probe { path: "out/A/ES_Y.wav".to_string(), counter: 0 });
}

#[test]
fn numbers_run_out() {
    let mut used = UsedNames::new();
    let plan = resolve_probe("out/A", "ES_X.wav", &mut used, "A", u32::MAX, true);
    assert_eq!(plan, NamePlan::Exhausted);
    assert_eq!(used.get("A", "ES_X.wav"), None);
    let plan = resolve_probe("out/A", "ES_X.wav", &mut used, "A", u32::MAX, false);
    assert_eq!(plan, NamePlan::Settled("ES_X_4294967295.wav".to_string()));
    let plan = generate_unique_filename("out/A", "ES_X.wav", &mut used, "A");
    assert_eq!(plan, NamePlan::Exhausted);
    assert_eq!(used.get("A", "ES_X.wav"), Some(u32::MAX));
}

#[test]
fn names_of_one_batch_differ() {
    let mut used = UsedNames::new();
    let mut names: Vec<String> = Vec::new();
    for round in 0..40 {
        let plan = generate_unique_filename("out/A", "ES_X.wav", &mut used, "A");
        let plan = match plan {
            NamePlan::Probe { counter, .. } => {
                assert_eq!(round, 0);
                resolve_probe("out/A", "ES_X.wav", &mut used, "A", counter, false)
            }
            settled => settled,
        };
        match plan {
            NamePlan::Settled(name) => {
                assert!(!names.contains(&name));
                names.push(name);
            }
            other => panic!("no name: {:?}", other),
        }
    }
    assert_eq!(names.len(), 40);
    assert_eq!(names[0], "ES_X.wav");
    assert_eq!(names[39], "ES_X_39.wav");
}
