use std::collections::{HashMap, VecDeque};
use std::path::PathBuf;

use velo::{
    plan_frame, save_to_store, AppState, Doc, Requests, SaveDocRequest, SaveEffects, SaveStore,
    Scalar, Step, Store, Tab,
};

const DOC_ID: u128 = 0x6f1c2d3e_4a5b_4c6d_8e7f_0123456789ab;
const TAB_ID: u128 = 0x0a0b0c0d_1a1b_4c1d_9e1f_abcdef012345;
const OTHER_DOC_ID: u128 = 0x99999999_8888_4777_a666_555555555555;

fn test_doc(name: &str, tags: Vec<String>) -> Doc {
    Doc {
        id: DOC_ID,
        name: name.to_string(),
        tags,
        tabs: vec![Tab {
            id: TAB_ID,
            is_active: true,
            name: "Test tab".to_string(),
            checkpoints: VecDeque::new(),
            z_index: Scalar::from_bits(1f32.to_bits()),
        }],
    }
}

fn empty_store() -> Store {
    Store { docs: None, tags: None, names: None, last_saved: None }
}

/// Runs the document-save and store-sync stages of one frame, as a schedule
/// without a tab-save stage does.
fn run_save_doc(store: &mut Store, app_state: &mut AppState, request: SaveDocRequest) -> SaveEffects {
    let mut requests = Requests::new();
    requests.save_doc = Some(request);
    let mut effects = None;
    for step in plan_frame(&mut requests, app_state) {
        if let Step::SaveToStore(event) = step {
            effects = Some(save_to_store(store, app_state, &event));
        }
    }
    assert!(requests.is_idle());
    effects.unwrap()
}

#[test]
/// No PKV with tags
fn test_save_doc1() {
    // Setup
    let temp_file_path = PathBuf::from("test_doc.json");
    let mut app_state = AppState::new();
    app_state.docs.insert(DOC_ID, test_doc("test_doc", vec!["test_tag".to_string()]));
    let request = SaveDocRequest { doc_id: DOC_ID, path: Some(temp_file_path.clone()) };
    let mut store = empty_store();

    // Run systems
    let effects = run_save_doc(&mut store, &mut app_state, request);

    // Assertions
    let saved_docs = store.docs.as_ref().unwrap();
    assert_eq!(saved_docs.get(&DOC_ID).unwrap().name, "test_doc");
    assert!(saved_docs.get(&DOC_ID).unwrap().tabs[0].is_active);
    let saved_tags = store.tags.as_ref().unwrap();
    assert_eq!(saved_tags.get(&DOC_ID).unwrap(), &vec!["test_tag".to_string()]);
    let saved_names = store.names.as_ref().unwrap();
    assert_eq!(saved_names.get(&DOC_ID).unwrap(), "test_doc");
    assert_eq!(store.last_saved.unwrap(), DOC_ID);
    let export = effects.export.unwrap();
    assert_eq!(export.path, temp_file_path);
    assert_eq!(export.doc.name, "test_doc");
    assert!(export.doc.tabs[0].is_active);
}

#[test]
///the PKV store has tags, but not for the document being saved:
fn test_save_doc2() {
    // Setup
    let temp_file_path = PathBuf::from("test_doc.json");
    let mut app_state = AppState::new();
    app_state.docs.insert(DOC_ID, test_doc("test_doc", vec!["test_tag_1".to_string()]));
    let request = SaveDocRequest { doc_id: DOC_ID, path: Some(temp_file_path.clone()) };
    let mut store = empty_store();
    let mut tags = HashMap::new();
    tags.insert(OTHER_DOC_ID, vec!["test_tag_2".to_string()]);
    store.tags = Some(tags);

    // Run systems
    let effects = run_save_doc(&mut store, &mut app_state, request);

    // Assertions
    let saved_docs = store.docs.as_ref().unwrap();
    assert_eq!(saved_docs.get(&DOC_ID).unwrap().name, "test_doc");
    assert!(saved_docs.get(&DOC_ID).unwrap().tabs[0].is_active);
    let saved_tags = store.tags.as_ref().unwrap();
    assert_eq!(saved_tags.get(&DOC_ID).unwrap(), &vec!["test_tag_1".to_string()]);
    let saved_names = store.names.as_ref().unwrap();
    assert_eq!(saved_names.get(&DOC_ID).unwrap(), "test_doc");
    assert_eq!(store.last_saved.unwrap(), DOC_ID);
    let export = effects.export.unwrap();
    assert_eq!(export.path, temp_file_path);
    assert_eq!(export.doc.name, "test_doc");
    assert!(export.doc.tabs[0].is_active);
}

#[test]
/// the PKV store already has tags for the document being saved.
fn test_save_doc3() {
    // Setup
    let temp_file_path = PathBuf::from("test_doc.json");
    let mut app_state = AppState::new();
    let existing_tags = vec!["test_tag_2".to_string(), "test_tag_1".to_string()];
    app_state.docs.insert(DOC_ID, test_doc("test_doc", vec!["test_tag_1".to_string()]));
    let request = SaveDocRequest { doc_id: DOC_ID, path: Some(temp_file_path.clone()) };
    let mut store = empty_store();
    let mut tags = HashMap::new();
    tags.insert(DOC_ID, vec!["test_tag_2".to_string()]);
    store.tags = Some(tags);

    // Run systems
    let effects = run_save_doc(&mut store, &mut app_state, request);

    // Assertions
    // Check that the document was saved to the store
    let saved_docs = store.docs.as_ref().unwrap();
    assert_eq!(saved_docs.get(&DOC_ID).unwrap().name, "test_doc");
    assert!(saved_docs.get(&DOC_ID).unwrap().tabs[0].is_active);
    // Check that the tags were saved to the store
    let saved_tags = store.tags.as_ref().unwrap();
    let expected_tags = existing_tags;
    assert_eq!(saved_tags.get(&DOC_ID).unwrap(), &expected_tags);
    // Check that the name was saved to the store
    let saved_names = store.names.as_ref().unwrap();
    assert_eq!(saved_names.get(&DOC_ID).unwrap(), "test_doc");
    // Check that the last_saved field was updated in the store
    assert_eq!(store.last_saved.unwrap(), DOC_ID);
    // Check that the document is handed out for the file at the path
    let export = effects.export.unwrap();
    assert_eq!(export.path, temp_file_path);
    assert_eq!(export.doc.name, "test_doc");
    assert!(export.doc.tabs[0].is_active);
}

#[test]
fn tags_of_two_saves_accumulate_in_order() {
    let mut app_state = AppState::new();
    let mut store = empty_store();
    let event = SaveStore { doc_id: DOC_ID, path: None };

    app_state.docs.insert(DOC_ID, test_doc("doc", vec!["x".to_string()]));
    save_to_store(&mut store, &mut app_state, &event);
    assert_eq!(store.tags.as_ref().unwrap().get(&DOC_ID).unwrap(), &vec!["x".to_string()]);

    app_state.docs.insert(DOC_ID, test_doc("doc", vec!["y".to_string()]));
    save_to_store(&mut store, &mut app_state, &event);
    assert_eq!(
        store.tags.as_ref().unwrap().get(&DOC_ID).unwrap(),
        &vec!["x".to_string(), "y".to_string()]
    );
}

#[test]
fn saving_the_same_tags_again_repeats_them() {
    let mut app_state = AppState::new();
    let mut store = empty_store();
    let event = SaveStore { doc_id: DOC_ID, path: None };
    app_state.docs.insert(DOC_ID, test_doc("doc", vec!["a".to_string(), "b".to_string()]));
    save_to_store(&mut store, &mut app_state, &event);
    save_to_store(&mut store, &mut app_state, &event);
    let expected: Vec<String> = ["a", "b", "a", "b"].iter().map(|t| t.to_string()).collect();
    assert_eq!(store.tags.as_ref().unwrap().get(&DOC_ID).unwrap(), &expected);
    assert_eq!(store.tags.as_ref().unwrap().len(), 1);
}

#[test]
fn a_changed_name_replaces_the_stored_one() {
    let mut app_state = AppState::new();
    let mut store = empty_store();
    let event = SaveStore { doc_id: DOC_ID, path: None };

    app_state.docs.insert(DOC_ID, test_doc("A", vec![]));
    save_to_store(&mut store, &mut app_state, &event);
    assert_eq!(store.names.as_ref().unwrap().get(&DOC_ID).unwrap(), "A");

    app_state.docs.insert(DOC_ID, test_doc("B", vec![]));
    save_to_store(&mut store, &mut app_state, &event);
    assert_eq!(store.names.as_ref().unwrap().get(&DOC_ID).unwrap(), "B");
    assert_eq!(store.names.as_ref().unwrap().len(), 1);
    assert_eq!(store.docs.as_ref().unwrap().get(&DOC_ID).unwrap().name, "B");
}

#[test]
fn a_save_keeps_the_entries_of_other_documents() {
    let mut app_state = AppState::new();
    app_state.docs.insert(DOC_ID, test_doc("mine", vec!["t".to_string()]));
    let mut store = empty_store();
    let mut names = HashMap::new();
    names.insert(OTHER_DOC_ID, "theirs".to_string());
    store.names = Some(names);
    store.last_saved = Some(OTHER_DOC_ID);

    let effects = save_to_store(&mut store, &mut app_state, &SaveStore { doc_id: DOC_ID, path: None });

    assert!(effects.export.is_none());
    assert!(effects.index_operations.is_none());
    let names = store.names.as_ref().unwrap();
    assert_eq!(names.len(), 2);
    assert_eq!(names.get(&OTHER_DOC_ID).unwrap(), "theirs");
    assert_eq!(names.get(&DOC_ID).unwrap(), "mine");
    assert_eq!(store.last_saved, Some(DOC_ID));
    assert_eq!(app_state.docs.len(), 1);
}

#[test]
fn a_document_held_under_another_id_is_filed_by_both() {
    // The registry key decides where the document and appended tags go; the
    // document's own id decides where its name and a first tag list go.
    let mut app_state = AppState::new();
    app_state.docs.insert(OTHER_DOC_ID, test_doc("doc", vec!["t".to_string()]));
    let mut store = empty_store();
    save_to_store(&mut store, &mut app_state, &SaveStore { doc_id: OTHER_DOC_ID, path: None });
    assert!(store.docs.as_ref().unwrap().contains_key(&OTHER_DOC_ID));
    assert_eq!(store.tags.as_ref().unwrap().get(&DOC_ID).unwrap(), &vec!["t".to_string()]);
    assert_eq!(store.names.as_ref().unwrap().get(&DOC_ID).unwrap(), "doc");
    assert_eq!(store.last_saved, Some(OTHER_DOC_ID));
}
