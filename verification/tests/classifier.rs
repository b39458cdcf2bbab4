//! The Change Classifier against concrete paths, and the small
//! path-handling helpers around it.

use fileshare_build::classify::{ClassificationResult, PatternSets};
use fileshare_build::watch::{event_path, WatchEvent};
use fileshare_build::NormalizedClean;

#[test]
fn ignored_paths_set_no_flags() {
    let sets = PatternSets::defaults();
    // An editor temp marker wins over any relevant suffix.
    let r = sets.classify_file("src/index.html#");
    assert!(!r.affects_copy);
    assert!(!r.affects_build);
    let r = sets.classify_file("src/#style.css");
    assert!(!r.affects_copy);
    assert!(!r.affects_build);
    let r = sets.classify_file("src/#Main.elm#");
    assert!(!r.affects_copy);
    assert!(!r.affects_build);
}

#[test]
fn editor_swp_file_sets_no_flags() {
    let sets = PatternSets::defaults();
    let r = sets.classify_file("src/style.css.swp");
    assert!(!r.affects_copy);
    assert!(!r.affects_build);
}

#[test]
fn elm_source_flags_build_only() {
    let sets = PatternSets::defaults();
    let r = sets.classify_file("src/app.elm");
    assert!(r.affects_build);
    assert!(!r.affects_copy);
}

#[test]
fn asset_files_flag_copy_only() {
    let sets = PatternSets::defaults();
    for p in ["src/index.html", "src/style.css", "src/glue.js"] {
        let r = sets.classify_file(p);
        assert!(r.affects_copy, "{p}");
        assert!(!r.affects_build, "{p}");
    }
}

#[test]
fn unrelated_file_sets_no_flags() {
    let sets = PatternSets::defaults();
    let r = sets.classify_file("README.md");
    assert!(!r.affects_copy);
    assert!(!r.affects_build);
}

#[test]
fn suffix_must_be_a_tail() {
    let sets = PatternSets::defaults();
    // The suffix in the middle of the name does not count.
    let r = sets.classify_file("src/style.css.bak");
    assert!(!r.affects_copy);
    // A bare suffix is its own tail.
    let r = sets.classify_file(".css");
    assert!(r.affects_copy);
}

#[test]
fn directory_scan_or_reduces_over_descendants() {
    let sets = PatternSets::defaults();
    let paths: Vec<String> = ["sub/readme.md", "sub/style.css", "sub/notes.txt"]
        .iter()
        .map(|s| s.to_string())
        .collect();
    let r = sets.classify_paths(&paths);
    assert!(r.affects_copy);
    assert!(!r.affects_build);

    // The directory result equals the OR over per-file classification.
    let mut or = ClassificationResult { affects_copy: false, affects_build: false };
    for p in &paths {
        let one = sets.classify_file(p);
        or.affects_copy = or.affects_copy || one.affects_copy;
        or.affects_build = or.affects_build || one.affects_build;
    }
    assert_eq!(r, or);
}

#[test]
fn directory_scan_with_both_kinds_sets_both_flags() {
    let sets = PatternSets::defaults();
    let paths: Vec<String> = ["a.css", "b.elm", "c.html", "d.elm"]
        .iter()
        .map(|s| s.to_string())
        .collect();
    let r = sets.classify_paths(&paths);
    assert!(r.affects_copy);
    assert!(r.affects_build);
}

#[test]
fn empty_directory_sets_no_flags() {
    let sets = PatternSets::defaults();
    let r = sets.classify_paths(&Vec::new());
    assert!(!r.affects_copy);
    assert!(!r.affects_build);
}

#[test]
fn ignored_descendants_contribute_nothing() {
    let sets = PatternSets::defaults();
    let paths: Vec<String> = ["sub/#a.css#", "sub/b.txt"].iter().map(|s| s.to_string()).collect();
    let r = sets.classify_paths(&paths);
    assert!(!r.affects_copy);
    assert!(!r.affects_build);
}

#[test]
fn event_path_of_acted_on_kinds() {
    let p = "src/a.elm".to_string();
    assert_eq!(event_path(&WatchEvent::Create(p.clone())), Some(&p));
    assert_eq!(event_path(&WatchEvent::Write(p.clone())), Some(&p));
    assert_eq!(event_path(&WatchEvent::Chmod(p.clone())), Some(&p));
    assert_eq!(event_path(&WatchEvent::Remove(p.clone())), Some(&p));
    assert_eq!(event_path(&WatchEvent::NoticeRemove(p.clone())), Some(&p));
    assert_eq!(
        event_path(&WatchEvent::Rename(p.clone(), "src/b.elm".to_string())),
        Some(&p)
    );
}

#[test]
fn event_path_of_skipped_kinds() {
    assert_eq!(event_path(&WatchEvent::NoticeWrite("src/a.elm".to_string())), None);
    assert_eq!(event_path(&WatchEvent::Rescan), None);
    assert_eq!(event_path(&WatchEvent::Error), None);
}

#[test]
fn relative_tail_keeps_the_last_components() {
    let components: Vec<String> =
        ["home", "proj", "src", "sub", "style.css"].iter().map(|s| s.to_string()).collect();
    let tail = fileshare_build::assets::relative_tail(&components, 2);
    assert_eq!(tail, vec!["sub".to_string(), "style.css".to_string()]);
    let all = fileshare_build::assets::relative_tail(&components, 5);
    assert_eq!(all, components);
    let none: Vec<String> = fileshare_build::assets::relative_tail(&components, 0);
    assert!(none.is_empty());
}

#[test]
fn clean_normalization_defaults_to_everything() {
    let n = NormalizedClean::new(false, false, false, false);
    assert!(n.html && n.elm && n.rust);
    assert!(!n.doc);
    let n = NormalizedClean::new(false, false, false, true);
    assert!(n.html && n.elm && n.rust);
    assert!(n.doc);
}

#[test]
fn clean_normalization_keeps_a_narrowed_choice() {
    let n = NormalizedClean::new(true, false, false, false);
    assert!(n.html && !n.elm && !n.rust && !n.doc);
    let n = NormalizedClean::new(false, true, true, true);
    assert!(!n.html && n.elm && n.rust && n.doc);
}

#[test]
fn hello_answers_the_fixed_greeting() {
    assert_eq!(fileshare_build::backend::hello(), "Hello, world!");
}
