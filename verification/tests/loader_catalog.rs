//! The loader state machine and its path catalog.

use zss::catalog::PathCatalog;
use zss::loader::{ImageLoader, BARREN_PASS_FAULT};
use zss::stream::{ImageStream, PollOutcome, StreamAction};

fn paths(names: &[&str]) -> Vec<String> {
    names.iter().map(|s| s.to_string()).collect()
}

#[test]
fn refresh_keeps_exactly_the_given_paths() {
    let mut catalog = PathCatalog::new();
    let entries = paths(&["a.png", "b.jpg", "c.gif", "d.webp"]);
    catalog.refresh(entries.clone());
    let mut played = Vec::new();
    while let Some(p) = catalog.next_path() {
        played.push(p);
    }
    // a permutation: same paths, each exactly once
    let mut sorted = played.clone();
    sorted.sort();
    let mut expected = entries;
    expected.sort();
    assert_eq!(sorted, expected);
}

#[test]
fn paths_come_out_in_catalog_order() {
    // FIFO within a cycle: next_path walks the shuffled order front to
    // back, with no reordering
    let mut catalog = PathCatalog::new();
    catalog.refresh(paths(&["a", "b", "c"]));
    let play_order = catalog.paths.clone();
    let mut replayed = Vec::new();
    while let Some(p) = catalog.next_path() {
        replayed.push(p);
    }
    assert_eq!(replayed, play_order);
}

#[test]
fn an_empty_catalog_is_a_valid_state() {
    let mut catalog = PathCatalog::new();
    assert!(catalog.is_empty());
    assert_eq!(catalog.next_path(), None);
    catalog.refresh(Vec::new());
    assert!(catalog.is_empty());
}

#[test]
fn a_pass_with_a_success_is_not_barren() {
    let mut loader = ImageLoader::new();
    let empty = loader.start_pass(paths(&["a", "b"]));
    assert!(!empty);
    let _first = loader.next_path().unwrap();
    // first path fails to decode: dropped, the pass goes on
    let _second = loader.next_path().unwrap();
    loader.image_sent();
    assert_eq!(loader.next_path(), None);
    loader.end_pass();
    assert_eq!(loader.barren_passes, 0);
    assert!(!loader.starving());
}

#[test]
fn barren_cycles_block_without_failing() {
    // three shuffle cycles with no valid image: the loader waits for
    // files (start_pass says so), the stream keeps answering "no image",
    // and nothing panics or dies
    let mut loader = ImageLoader::new();
    let mut stream = ImageStream::new();
    for _ in 0..3 {
        let empty = loader.start_pass(Vec::new());
        assert!(empty);
        assert_eq!(loader.next_path(), None);
        loader.end_pass();
        assert_eq!(stream.on_poll(PollOutcome::Empty), StreamAction::NoImage);
    }
    assert_eq!(loader.barren_passes, 3);
    assert!(!loader.starving());
}

#[test]
fn nine_barren_passes_are_a_data_fault() {
    let mut loader = ImageLoader::new();
    for i in 0..BARREN_PASS_FAULT {
        assert!(!loader.starving());
        loader.start_pass(paths(&["broken"]));
        let _ = loader.next_path();
        loader.end_pass();
        assert_eq!(loader.barren_passes, i + 1);
    }
    assert!(loader.starving());
    // one good pass clears the streak
    loader.start_pass(paths(&["good"]));
    let _ = loader.next_path();
    loader.image_sent();
    loader.end_pass();
    assert!(!loader.starving());
    assert_eq!(loader.barren_passes, 0);
}
