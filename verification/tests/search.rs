use std::collections::HashMap;

use velo::{
    save_to_store, AppState, Doc, IndexOperation, NodeSearchLocation, NodeUpdates, SaveStore,
    SearchIndexState, Store,
};

type Index = HashMap<(u128, u128, u128), String>;

/// Runs the operations against an index held in memory, one after the other.
fn run(index: &mut Index, operations: Vec<IndexOperation>) {
    for operation in operations {
        match operation {
            IndexOperation::DeleteTab(tab) => index.retain(|key, _| key.1 != tab),
            IndexOperation::Upsert(at, text) => {
                index.insert((at.doc_id, at.tab_id, at.node_id), text);
            }
        }
    }
}

fn at(doc_id: u128, tab_id: u128, node_id: u128) -> NodeSearchLocation {
    NodeSearchLocation { doc_id, tab_id, node_id }
}

#[test]
fn a_later_text_replaces_an_earlier_one() {
    let mut updates = NodeUpdates::new();
    assert!(updates.get(&at(1, 2, 3)).is_none());
    updates.insert(at(1, 2, 3), "first".to_string());
    updates.insert(at(1, 2, 4), "other".to_string());
    updates.insert(at(1, 2, 3), "second".to_string());
    assert_eq!(updates.get(&at(1, 2, 3)).unwrap(), "second");
    assert_eq!(updates.get(&at(1, 2, 4)).unwrap(), "other");
    assert!(updates.get(&at(1, 3, 3)).is_none());
}

#[test]
fn deletions_come_before_writes() {
    let mut state = SearchIndexState::new();
    state.node_updates.insert(at(1, 20, 7), "seven".to_string());
    state.mark_tab(10);
    state.node_updates.insert(at(1, 20, 8), "eight".to_string());
    state.mark_tab(20);
    state.mark_tab(10);

    let operations = state.take_operations();

    assert_eq!(operations.len(), 4);
    let mut deleted: Vec<u128> = Vec::new();
    for operation in &operations[..2] {
        match operation {
            IndexOperation::DeleteTab(tab) => deleted.push(*tab),
            IndexOperation::Upsert(..) => panic!("a write stands before a deletion"),
        }
    }
    deleted.sort();
    assert_eq!(deleted, vec![10, 20]);
    for operation in &operations[2..] {
        assert!(matches!(operation, IndexOperation::Upsert(..)));
    }
    assert!(state.tabs_to_delete.is_empty());
    assert!(state.node_updates.get(&at(1, 20, 7)).is_none());
    assert!(state.take_operations().is_empty());
}

#[test]
fn a_moved_node_is_indexed_under_its_new_tab_alone() {
    let mut index = Index::new();
    index.insert((1, 10, 7), "old text".to_string());
    index.insert((1, 10, 8), "stays in the tab".to_string());
    index.insert((1, 30, 9), "another tab".to_string());

    // Node 7 moved from tab 10 to tab 20; both tabs were saved.
    let mut state = SearchIndexState::new();
    state.mark_tab(10);
    state.node_updates.insert(at(1, 10, 8), "stays in the tab".to_string());
    state.mark_tab(20);
    state.node_updates.insert(at(1, 20, 7), "new text".to_string());

    run(&mut index, state.take_operations());

    assert_eq!(index.len(), 3);
    assert!(!index.contains_key(&(1, 10, 7)));
    assert_eq!(index.get(&(1, 20, 7)).unwrap(), "new text");
    assert_eq!(index.get(&(1, 10, 8)).unwrap(), "stays in the tab");
    assert_eq!(index.get(&(1, 30, 9)).unwrap(), "another tab");
    let under: Vec<_> = index.keys().filter(|key| key.2 == 7).collect();
    assert_eq!(under.len(), 1);
}

#[test]
fn a_node_written_under_both_tabs_in_one_batch_stays_under_both() {
    let mut index = Index::new();
    index.insert((1, 10, 7), "old text".to_string());
    let mut state = SearchIndexState::new();
    state.mark_tab(10);
    state.node_updates.insert(at(1, 10, 7), "saved before the move".to_string());
    state.mark_tab(20);
    state.node_updates.insert(at(1, 20, 7), "saved after the move".to_string());

    run(&mut index, state.take_operations());

    assert_eq!(index.get(&(1, 10, 7)).unwrap(), "saved before the move");
    assert_eq!(index.get(&(1, 20, 7)).unwrap(), "saved after the move");
}

#[test]
fn a_save_hands_the_pending_changes_over_once() {
    let mut app_state = AppState::new();
    app_state.docs.insert(1, Doc { id: 1, name: "doc".to_string(), tags: vec![], tabs: vec![] });
    let mut pending = SearchIndexState::new();
    pending.mark_tab(10);
    pending.node_updates.insert(at(1, 10, 7), "text".to_string());
    app_state.search_index = Some(pending);
    let mut store = Store { docs: None, tags: None, names: None, last_saved: None };
    let event = SaveStore { doc_id: 1, path: None };

    let first = save_to_store(&mut store, &mut app_state, &event);
    let operations = first.index_operations.unwrap();
    assert_eq!(operations.len(), 2);
    assert!(matches!(operations[0], IndexOperation::DeleteTab(10)));
    match &operations[1] {
        IndexOperation::Upsert(location, text) => {
            assert_eq!(*location, at(1, 10, 7));
            assert_eq!(text, "text");
        }
        IndexOperation::DeleteTab(_) => panic!("the write is missing"),
    }

    let second = save_to_store(&mut store, &mut app_state, &event);
    assert!(second.index_operations.unwrap().is_empty());
    assert!(app_state.search_index.is_some());
}
