use std::collections::VecDeque;

use velo::{append_checkpoint, record_checkpoint, AppState, Doc, SaveTabRequest, Scalar, Tab, MAX_CHECKPOINTS};

fn ring(entries: &[&str]) -> VecDeque<String> {
    entries.iter().map(|e| e.to_string()).collect()
}

#[test]
fn a_repeated_snapshot_does_not_grow_the_ring() {
    let mut history = ring(&["A", "B"]);
    append_checkpoint(&mut history, 2, "B".to_string());
    assert_eq!(history, ring(&["A", "B"]));
}

#[test]
fn a_distinct_snapshot_is_added_at_the_end() {
    let mut history = ring(&["A", "B"]);
    append_checkpoint(&mut history, 2, "C".to_string());
    assert_eq!(history, ring(&["A", "B", "C"]));
}

#[test]
fn the_oldest_entry_leaves_a_ring_that_holds_more_than_the_maximum() {
    let mut history = ring(&["A", "B", "C"]);
    append_checkpoint(&mut history, 2, "D".to_string());
    assert_eq!(history, ring(&["B", "C", "D"]));
}

#[test]
fn eviction_comes_before_the_comparison() {
    let mut history = ring(&["A", "B", "C"]);
    append_checkpoint(&mut history, 2, "C".to_string());
    assert_eq!(history, ring(&["B", "C"]));
}

#[test]
fn an_empty_ring_takes_the_first_snapshot() {
    let mut history = ring(&[]);
    append_checkpoint(&mut history, 0, "A".to_string());
    assert_eq!(history, ring(&["A"]));
    append_checkpoint(&mut history, 0, "A".to_string());
    assert_eq!(history, ring(&["A"]));
    append_checkpoint(&mut history, 0, "B".to_string());
    assert_eq!(history, ring(&["B"]));
}

#[test]
fn an_earlier_entry_may_come_back() {
    let mut history = ring(&["A", "B"]);
    append_checkpoint(&mut history, 7, "A".to_string());
    assert_eq!(history, ring(&["A", "B", "A"]));
}

#[test]
fn no_entry_repeats_the_one_before_it() {
    let mut history = ring(&[]);
    for snapshot in ["A", "A", "B", "B", "B", "A", "C", "C", "A", "A", "D", "D"] {
        append_checkpoint(&mut history, 3, snapshot.to_string());
        for pair in history.iter().zip(history.iter().skip(1)) {
            assert_ne!(pair.0, pair.1);
        }
        assert!(history.len() <= 4);
        assert_eq!(history.back().unwrap(), snapshot);
    }
    assert_eq!(history, ring(&["C", "A", "D"]));
}

fn doc_with_tabs(doc_id: u128, tab_ids: &[u128]) -> Doc {
    Doc {
        id: doc_id,
        name: "doc".to_string(),
        tags: vec![],
        tabs: tab_ids
            .iter()
            .map(|id| Tab {
                id: *id,
                name: "tab".to_string(),
                checkpoints: VecDeque::new(),
                is_active: false,
                z_index: Scalar::from_bits(0),
            })
            .collect(),
    }
}

#[test]
fn the_history_of_a_tab_is_bounded() {
    assert_eq!(MAX_CHECKPOINTS, 7);
    let mut app_state = AppState::new();
    app_state.docs.insert(1, doc_with_tabs(1, &[10, 20]));
    let request = SaveTabRequest { doc_id: 1, tab_id: 20 };
    for n in 0..12 {
        record_checkpoint(&mut app_state, &request, format!("snapshot {n}"));
        let held = app_state.docs.get(&1).unwrap().tabs[1].checkpoints.len();
        assert_eq!(held, std::cmp::min(n + 1, 8));
    }
    let doc = app_state.docs.get(&1).unwrap();
    assert!(doc.tabs[0].checkpoints.is_empty());
    assert_eq!(doc.tabs[1].checkpoints.front().unwrap(), "snapshot 4");
    assert_eq!(doc.tabs[1].checkpoints.back().unwrap(), "snapshot 11");
    record_checkpoint(&mut app_state, &request, "snapshot 11".to_string());
    let doc = app_state.docs.get(&1).unwrap();
    assert_eq!(doc.tabs[1].checkpoints.len(), 7);
    assert_eq!(doc.tabs[1].checkpoints.front().unwrap(), "snapshot 5");
    assert_eq!(doc.tabs[1].checkpoints.back().unwrap(), "snapshot 11");
}

#[test]
fn only_the_first_tab_with_the_id_records_the_snapshot() {
    let mut doc = doc_with_tabs(1, &[10, 20, 20]);
    doc.record_checkpoint(20, 7, "S".to_string());
    assert!(doc.tabs[0].checkpoints.is_empty());
    assert_eq!(doc.tabs[1].checkpoints, ring(&["S"]));
    assert!(doc.tabs[2].checkpoints.is_empty());
}

#[test]
fn a_document_without_the_tab_is_left_unchanged() {
    let mut app_state = AppState::new();
    app_state.docs.insert(1, doc_with_tabs(1, &[10]));
    record_checkpoint(&mut app_state, &SaveTabRequest { doc_id: 1, tab_id: 99 }, "S".to_string());
    let doc = app_state.docs.get(&1).unwrap();
    assert_eq!(doc.tabs.len(), 1);
    assert!(doc.tabs[0].checkpoints.is_empty());
}
