//! Reconciliation of one document into the persisted key-value entries:
//! the documents, the tags, the names and the last-saved marker.

use crate::document::{clone_strings, Doc, DocView};
use crate::search::{
    index_after_operations, index_after_sync, IndexOperation, NodeSearchLocation, SearchDelta,
};
use crate::state::{doc_views, AppState, SaveStore};
use std::collections::HashMap;
use std::path::PathBuf;
use vstd::prelude::*;

verus! {

/// What the key-value store holds under its four keys. A collection is `None`
/// while its key is missing or cannot be read.
#[derive(Debug)]
pub struct Store {
    pub docs: Option<HashMap<u128, Doc>>,
    pub tags: Option<HashMap<u128, Vec<String>>>,
    pub names: Option<HashMap<u128, String>>,
    pub last_saved: Option<u128>,
}

/// Mathematical model of a [`Store`].
pub struct StoreView {
    pub docs: Option<Map<u128, DocView>>,
    pub tags: Option<Map<u128, Seq<Seq<char>>>>,
    pub names: Option<Map<u128, Seq<char>>>,
    pub last_saved: Option<u128>,
}

/// The models of the tag lists of a collection, by document id.
pub open spec fn tag_views(tags: Map<u128, Vec<String>>) -> Map<u128, Seq<Seq<char>>> {
    tags.map_values(|list: Vec<String>| list.deep_view())
}

/// The models of the names of a collection, by document id.
pub open spec fn name_views(names: Map<u128, String>) -> Map<u128, Seq<char>> {
    names.map_values(|name: String| name@)
}

impl View for Store {
    type V = StoreView;

    open spec fn view(&self) -> StoreView {
        StoreView {
            docs: match self.docs {
                Some(docs) => Some(doc_views(docs@)),
                None => None,
            },
            tags: match self.tags {
                Some(tags) => Some(tag_views(tags@)),
                None => None,
            },
            names: match self.names {
                Some(names) => Some(name_views(names@)),
                None => None,
            },
            last_saved: self.last_saved,
        }
    }
}

/// The collection, or an empty one where the key is missing.
pub open spec fn present<V>(collection: Option<Map<u128, V>>) -> Map<u128, V> {
    match collection {
        Some(entries) => entries,
        None => Map::empty(),
    }
}

/// The documents after a save: the document stands under the id it was saved
/// by, whatever stood there before.
pub open spec fn docs_after_save(
    docs: Option<Map<u128, DocView>>,
    doc_id: u128,
    doc: DocView,
) -> Map<u128, DocView> {
    present(docs).insert(doc_id, doc)
}

/// The tags after a save: where the id the document was saved by has a list,
/// the document's tags are appended to it; where it has none, the document's
/// tags become the list of the document's own id.
pub open spec fn tags_after_save(
    tags: Option<Map<u128, Seq<Seq<char>>>>,
    doc_id: u128,
    doc: DocView,
) -> Map<u128, Seq<Seq<char>>> {
    let held = present(tags);
    if held.dom().contains(doc_id) {
        held.insert(doc_id, held[doc_id] + doc.tags)
    } else {
        held.insert(doc.id, doc.tags)
    }
}

/// The names after a save: the document's name stands under the document's
/// own id, whatever stood there before.
pub open spec fn names_after_save(names: Option<Map<u128, Seq<char>>>, doc: DocView) -> Map<
    u128,
    Seq<char>,
> {
    present(names).insert(doc.id, doc.name)
}

/// The store after the document `doc`, held in memory under `doc_id`, was
/// saved.
pub open spec fn store_after_save(store: StoreView, doc_id: u128, doc: DocView) -> StoreView {
    StoreView {
        docs: Some(docs_after_save(store.docs, doc_id, doc)),
        tags: Some(tags_after_save(store.tags, doc_id, doc)),
        names: Some(names_after_save(store.names, doc)),
        last_saved: Some(doc_id),
    }
}

/// Saving a document twice, under its own id, to a store that has no tags
/// for it leaves the tags of the first save followed by those of the second.
pub proof fn lemma_tags_accumulate(store: StoreView, first: DocView, second: DocView)
    requires
        first.id == second.id,
        !present(store.tags).dom().contains(first.id),
    ensures
        store_after_save(
            store_after_save(store, first.id, first),
            second.id,
            second,
        ).tags.unwrap()[first.id] == first.tags + second.tags,
{
}

/// A save never takes a tag away: the list that the id had before the save
/// is the beginning of the list it has afterwards, and the document's tags
/// are its end.
pub proof fn lemma_tags_only_grow(store: StoreView, doc_id: u128, doc: DocView)
    requires
        present(store.tags).dom().contains(doc_id),
    ensures
        ({
            let before = present(store.tags)[doc_id];
            let after = store_after_save(store, doc_id, doc).tags.unwrap()[doc_id];
            &&& after.len() == before.len() + doc.tags.len()
            &&& after.subrange(0, before.len() as int) == before
            &&& after.subrange(before.len() as int, after.len() as int) == doc.tags
        }),
{
}

/// A save replaces the stored name: after a document was saved under one
/// name and then under another, the store holds the second name alone.
pub proof fn lemma_name_replaced(store: StoreView, first: DocView, second: DocView)
    requires
        first.id == second.id,
    ensures
        store_after_save(
            store_after_save(store, first.id, first),
            second.id,
            second,
        ).names.unwrap()[first.id] == second.name,
{
}

/// A document to be written to a file.
#[derive(Debug)]
pub struct FileExport {
    pub path: PathBuf,
    pub doc: Doc,
}

/// What is left to do once the store holds the document: the file to write,
/// where the save asked for one, and the index operations to run in the
/// background, where indexing is on.
#[derive(Debug)]
pub struct SaveEffects {
    pub export: Option<FileExport>,
    pub index_operations: Option<Vec<IndexOperation>>,
}

/// Puts the document under `doc_id` in the documents collection.
fn save_doc_entry(docs: &mut Option<HashMap<u128, Doc>>, doc_id: u128, doc: &Doc)
    ensures
        final(docs).is_some(),
        doc_views(final(docs).unwrap()@) == docs_after_save(
            match *old(docs) {
                Some(held) => Some(doc_views(held@)),
                None => None,
            },
            doc_id,
            doc@,
        ),
{
    broadcast use vstd::std_specs::hash::group_hash_axioms;

    let mut held = match docs.take() {
        Some(held) => held,
        None => HashMap::new(),
    };
    let ghost before = held@;
    let copy = doc.clone();
    let _ = held.insert(doc_id, copy);
    assert(doc_views(held@) =~= doc_views(before).insert(doc_id, doc@));
    assert(doc_views(Map::<u128, Doc>::empty()) =~= Map::<u128, DocView>::empty());
    *docs = Some(held);
}

/// Appends the document's tags to the list of `doc_id`, or starts the list
/// of the document's own id with them.
fn save_tags_entry(tags: &mut Option<HashMap<u128, Vec<String>>>, doc_id: u128, doc: &Doc)
    ensures
        final(tags).is_some(),
        tag_views(final(tags).unwrap()@) == tags_after_save(
            match *old(tags) {
                Some(held) => Some(tag_views(held@)),
                None => None,
            },
            doc_id,
            doc@,
        ),
{
    broadcast use vstd::std_specs::hash::group_hash_axioms;

    let mut held = match tags.take() {
        Some(held) => held,
        None => HashMap::new(),
    };
    let ghost before = held@;
    assert(tag_views(Map::<u128, Vec<String>>::empty()) =~= Map::<u128, Seq<Seq<char>>>::empty());
    match held.remove(&doc_id) {
        Some(mut list) => {
            let ghost listed = list.deep_view();
            let mut i: usize = 0;
            while i < doc.tags.len()
                invariant
                    i <= doc.tags.len(),
                    list.len() == listed.len() + i,
                    forall|j: int| 0 <= j < listed.len() ==> list[j]@ == listed[j],
                    forall|j: int| 0 <= j < i ==> list[listed.len() + j]@ == doc.tags[j]@,
                decreases doc.tags.len() - i,
            {
                list.push(doc.tags[i].clone());
                i += 1;
            }
            assert(list.deep_view() =~= listed + doc.tags.deep_view());
            let _ = held.insert(doc_id, list);
            assert(tag_views(held@) =~= tag_views(before).insert(
                doc_id,
                tag_views(before)[doc_id] + doc@.tags,
            ));
        },
        None => {
            let list = clone_strings(&doc.tags);
            let _ = held.insert(doc.id, list);
            assert(tag_views(held@) =~= tag_views(before).insert(doc.id, doc@.tags));
        },
    }
    *tags = Some(held);
}

/// Puts the document's name under the document's own id.
fn save_name_entry(names: &mut Option<HashMap<u128, String>>, doc: &Doc)
    ensures
        final(names).is_some(),
        name_views(final(names).unwrap()@) == names_after_save(
            match *old(names) {
                Some(held) => Some(name_views(held@)),
                None => None,
            },
            doc@,
        ),
{
    broadcast use vstd::std_specs::hash::group_hash_axioms;

    let mut held = match names.take() {
        Some(held) => held,
        None => HashMap::new(),
    };
    let ghost before = held@;
    let _ = held.insert(doc.id, doc.name.clone());
    assert(name_views(held@) =~= name_views(before).insert(doc.id, doc@.name));
    assert(name_views(Map::<u128, String>::empty()) =~= Map::<u128, Seq<char>>::empty());
    *names = Some(held);
}

/// Reconciles the document named in `event` into the store: the document is
/// put under its id, its tags are appended to those stored for it, its name
/// replaces the stored one and the last-saved marker is set to it. Returns the
/// file export that the event asks for, and, where indexing is on, the pending
/// index changes as operations, leaving none pending.
pub fn save_to_store(store: &mut Store, app_state: &mut AppState, event: &SaveStore) -> (r:
    SaveEffects)
    requires
        old(app_state)@.docs.dom().contains(event.doc_id),
    ensures
        final(store)@ == store_after_save(
            old(store)@,
            event.doc_id,
            old(app_state)@.docs[event.doc_id],
        ),
        final(app_state).docs == old(app_state).docs,
        final(app_state).current_document == old(app_state).current_document,
        final(app_state).github_token == old(app_state).github_token,
        match event.path {
            Some(path) => r.export.is_some() && r.export.unwrap().path == path
                && r.export.unwrap().doc@ == old(app_state)@.docs[event.doc_id],
            None => r.export.is_none(),
        },
        match old(app_state)@.search_index {
            Some(delta) => {
                &&& final(app_state)@.search_index == Some(SearchDelta::empty())
                &&& r.index_operations.is_some()
                &&& forall|index: Map<NodeSearchLocation, Seq<char>>|
                    #[trigger] index_after_operations(index, r.index_operations.unwrap()@)
                        == index_after_sync(index, delta)
                &&& forall|i: int, j: int|
                    0 <= i < j < r.index_operations.unwrap().len() && r.index_operations.unwrap()[j]
                        is DeleteTab ==> r.index_operations.unwrap()[i] is DeleteTab
            },
            None => final(app_state)@.search_index.is_none() && r.index_operations.is_none(),
        },
{
    broadcast use vstd::std_specs::hash::group_hash_axioms;

    let doc = app_state.docs.get(&event.doc_id).unwrap();
    save_doc_entry(&mut store.docs, event.doc_id, doc);
    save_tags_entry(&mut store.tags, event.doc_id, doc);
    save_name_entry(&mut store.names, doc);
    store.last_saved = Some(event.doc_id);
    let export = match &event.path {
        Some(path) => Some(FileExport { path: path.clone(), doc: doc.clone() }),
        None => None,
    };
    let index_operations = match &mut app_state.search_index {
        Some(index) => Some(index.take_operations()),
        None => None,
    };
    SaveEffects { export, index_operations }
}

} // verus!
