use std::collections::HashSet;

use rust_wall::session::{Action, Event, ImageDescriptor, Note, RunError, Session, Summary};

fn descriptor(url: &str, date: &str, attribution: &str) -> ImageDescriptor {
    ImageDescriptor {
        relative_url: url.to_string(),
        date_stamp: date.to_string(),
        attribution: attribution.to_string(),
    }
}

fn eight() -> Vec<ImageDescriptor> {
    (1..=8)
        .map(|i| descriptor(&format!("/th?id={}.jpg", i), &format!("2024010{}", i), &format!("Place {}", i)))
        .collect()
}

/// What a stub filesystem and transport saw during a run.
struct Record {
    checked: Vec<String>,
    fetched: Vec<String>,
    written: Vec<String>,
    notes: Vec<String>,
}

/// Drives a session to its end: existence is answered from `files`, every
/// download succeeds and adds its path to `files`.
fn run(dir: &str, images: Vec<ImageDescriptor>, files: &mut HashSet<String>) -> (Action, Record) {
    let mut session = Session::new(dir.to_string());
    let mut record = Record { checked: vec![], fetched: vec![], written: vec![], notes: vec![] };
    let mut images = Some(images);
    let mut action = session.pending_action();
    loop {
        let event = match &action {
            Action::FetchListing { url } => {
                record.fetched.push(url.clone());
                Event::Listed(images.take().unwrap())
            }
            Action::CheckExists { path } => {
                record.checked.push(path.clone());
                Event::Exists(files.contains(path))
            }
            Action::Save { url, path } => {
                record.fetched.push(url.clone());
                record.written.push(path.clone());
                files.insert(path.clone());
                Event::Saved
            }
            Action::Finish(_) | Action::Abort(_) => return (action, record),
        };
        let step = session.step(event);
        match step.note {
            Some(Note::Skipped(p)) => record.notes.push(format!("skip {}", p)),
            Some(Note::Downloaded(p)) => record.notes.push(format!("down {}", p)),
            None => {}
        }
        action = step.action;
    }
}

fn summary(action: &Action) -> Summary {
    match action {
        Action::Finish(s) => *s,
        other => panic!("run did not finish: {:?}", other),
    }
}

#[test]
fn fresh_session_asks_for_listing() {
    let session = Session::new("/d".to_string());
    match session.pending_action() {
        Action::FetchListing { url } => {
            assert_eq!(url, "https://www.bing.com/HPImageArchive.aspx?format=js&idx=0&n=8&mkt=en-US")
        }
        other => panic!("unexpected {:?}", other),
    }
}

#[test]
fn summary_counts_preexisting_files_as_skipped() {
    let dir = "/home/u/Pictures/wallpapers";
    let mut files = HashSet::new();
    for i in [2, 5, 7] {
        files.insert(format!("{}/bing_2024010{}_Place_{}.jpg", dir, i, i));
    }
    let (end, record) = run(dir, eight(), &mut files);
    assert_eq!(summary(&end), Summary { total: 8, downloaded: 5, skipped: 3 });
    assert_eq!(record.written.len(), 5);
    assert_eq!(files.len(), 8);
}

#[test]
fn second_run_skips_everything() {
    let dir = "/w";
    let mut files = HashSet::new();
    let (first, _) = run(dir, eight(), &mut files);
    assert_eq!(summary(&first), Summary { total: 8, downloaded: 8, skipped: 0 });
    let (second, record) = run(dir, eight(), &mut files);
    assert_eq!(summary(&second), Summary { total: 8, downloaded: 0, skipped: 8 });
    assert!(record.written.is_empty());
    assert_eq!(record.fetched.len(), 1);
}

#[test]
fn existing_file_is_never_fetched() {
    let dir = "/w";
    let mut files = HashSet::new();
    files.insert("/w/bing_20240103_Place_3.jpg".to_string());
    let (_, record) = run(dir, eight(), &mut files);
    assert!(!record.fetched.iter().any(|u| u == "https://www.bing.com/th?id=3.jpg"));
    assert!(record.fetched.iter().any(|u| u == "https://www.bing.com/th?id=4.jpg"));
    assert!(!record.written.iter().any(|p| p == "/w/bing_20240103_Place_3.jpg"));
    assert_eq!(record.checked.len(), 8);
    assert_eq!(record.notes[2], "skip /w/bing_20240103_Place_3.jpg");
    assert_eq!(record.notes[3], "down /w/bing_20240104_Place_4.jpg");
}

#[test]
fn pictures_are_handled_in_listing_order() {
    let mut files = HashSet::new();
    let (_, record) = run("/w", eight(), &mut files);
    let expected: Vec<String> = (1..=8).map(|i| format!("/w/bing_2024010{}_Place_{}.jpg", i, i)).collect();
    assert_eq!(record.checked, expected);
    assert_eq!(record.written, expected);
}

#[test]
fn parse_failure_aborts_without_writing() {
    let mut session = Session::new("/w".to_string());
    let step = session.step(Event::Failed(RunError::Parse));
    assert!(step.note.is_none());
    assert!(matches!(step.action, Action::Abort(RunError::Parse)));
    for event in [Event::Listed(eight()), Event::Exists(false), Event::Saved, Event::Failed(RunError::Network)] {
        let step = session.step(event);
        assert!(step.note.is_none());
        assert!(matches!(step.action, Action::Abort(RunError::Parse)));
    }
}

#[test]
fn network_failure_on_listing_aborts() {
    let mut session = Session::new("/w".to_string());
    let step = session.step(Event::Failed(RunError::Network));
    assert!(matches!(step.action, Action::Abort(RunError::Network)));
}

#[test]
fn failed_download_aborts() {
    let mut session = Session::new("/w".to_string());
    session.step(Event::Listed(eight()));
    let step = session.step(Event::Exists(false));
    assert!(matches!(step.action, Action::Save { .. }));
    let step = session.step(Event::Failed(RunError::Network));
    assert!(matches!(step.action, Action::Abort(RunError::Network)));
}

#[test]
fn failed_write_aborts() {
    let mut session = Session::new("/w".to_string());
    session.step(Event::Listed(eight()));
    session.step(Event::Exists(false));
    let step = session.step(Event::Failed(RunError::Io));
    assert!(step.note.is_none());
    assert!(matches!(step.action, Action::Abort(RunError::Io)));
}

#[test]
fn empty_listing_finishes_at_once() {
    let mut session = Session::new("/w".to_string());
    let step = session.step(Event::Listed(vec![]));
    assert_eq!(summary(&step.action), Summary { total: 0, downloaded: 0, skipped: 0 });
}

#[test]
fn save_asks_for_absolute_url_and_target_path() {
    let mut session = Session::new("/w".to_string());
    let step = session.step(Event::Listed(vec![descriptor("/th?id=a.jpg", "20240101", "A/B\\C D")]));
    match step.action {
        Action::CheckExists { path } => assert_eq!(path, "/w/bing_20240101_A_B_C_D.jpg"),
        other => panic!("unexpected {:?}", other),
    }
    let step = session.step(Event::Exists(false));
    match step.action {
        Action::Save { url, path } => {
            assert_eq!(url, "https://www.bing.com/th?id=a.jpg");
            assert_eq!(path, "/w/bing_20240101_A_B_C_D.jpg");
        }
        other => panic!("unexpected {:?}", other),
    }
    let step = session.step(Event::Saved);
    match step.note {
        Some(Note::Downloaded(p)) => assert_eq!(p, "/w/bing_20240101_A_B_C_D.jpg"),
        other => panic!("unexpected {:?}", other),
    }
    assert_eq!(summary(&step.action), Summary { total: 1, downloaded: 1, skipped: 0 });
}

#[test]
fn same_name_twice_is_downloaded_once() {
    let images = vec![descriptor("/a.jpg", "20240101", "Same"), descriptor("/b.jpg", "20240101", "Same")];
    let mut files = HashSet::new();
    let (end, record) = run("/w", images, &mut files);
    assert_eq!(summary(&end), Summary { total: 2, downloaded: 1, skipped: 1 });
    assert_eq!(record.written.len(), 1);
}

#[test]
fn unexpected_event_repeats_pending_action() {
    let mut session = Session::new("/w".to_string());
    let step = session.step(Event::Saved);
    assert!(step.note.is_none());
    assert!(matches!(step.action, Action::FetchListing { .. }));
    session.step(Event::Listed(eight()));
    let step = session.step(Event::Saved);
    match step.action {
        Action::CheckExists { path } => assert_eq!(path, "/w/bing_20240101_Place_1.jpg"),
        other => panic!("unexpected {:?}", other),
    }
}
