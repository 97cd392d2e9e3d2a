//! Pending changes to the full-text index, gathered between saves and handed
//! over in one batch.

use std::collections::HashSet;
use vstd::prelude::*;

verus! {

/// Where a node's text lives: the document, the tab and the node.
#[derive(Clone, Copy, Debug, PartialEq, Eq, Structural)]
pub struct NodeSearchLocation {
    pub doc_id: u128,
    pub tab_id: u128,
    pub node_id: u128,
}

/// The map that a list of upserts amounts to when they are applied in order.
pub open spec fn upserts_map(entries: Seq<(NodeSearchLocation, String)>) -> Map<
    NodeSearchLocation,
    Seq<char>,
>
    decreases entries.len(),
{
    if entries.len() == 0 {
        Map::empty()
    } else {
        upserts_map(entries.drop_last()).insert(entries.last().0, entries.last().1@)
    }
}

/// A location that no entry of the list has is outside the map.
pub proof fn lemma_absent_location(entries: Seq<(NodeSearchLocation, String)>, at: NodeSearchLocation)
    requires
        forall|i: int| 0 <= i < entries.len() ==> entries[i].0 != at,
    ensures
        !upserts_map(entries).dom().contains(at),
    decreases entries.len(),
{
    if entries.len() > 0 {
        lemma_absent_location(entries.drop_last(), at);
    }
}

/// Replacing the text of the last entry for a location is an insert into the
/// map.
pub proof fn lemma_replace_entry(
    entries: Seq<(NodeSearchLocation, String)>,
    i: int,
    text: String,
)
    requires
        0 <= i < entries.len(),
        forall|j: int| i < j < entries.len() ==> entries[j].0 != entries[i].0,
    ensures
        upserts_map(entries.update(i, (entries[i].0, text))) == upserts_map(entries).insert(
            entries[i].0,
            text@,
        ),
    decreases entries.len(),
{
    let at = entries[i].0;
    let changed = entries.update(i, (at, text));
    let front = entries.drop_last();
    if i == entries.len() - 1 {
        assert(changed.drop_last() =~= front);
        assert(upserts_map(changed) =~= upserts_map(entries).insert(at, text@));
    } else {
        lemma_replace_entry(front, i, text);
        assert(changed.drop_last() =~= front.update(i, (at, text)));
        assert(changed.last() == entries.last());
        assert(entries.last().0 != at);
        assert(upserts_map(changed) =~= upserts_map(entries).insert(at, text@));
    }
}

/// Node texts waiting to be written to the index, by location.
#[derive(Debug)]
pub struct NodeUpdates {
    entries: Vec<(NodeSearchLocation, String)>,
}

impl View for NodeUpdates {
    type V = Map<NodeSearchLocation, Seq<char>>;

    closed spec fn view(&self) -> Map<NodeSearchLocation, Seq<char>> {
        upserts_map(self.entries@)
    }
}

impl NodeUpdates {
    /// An empty collection.
    pub fn new() -> (r: NodeUpdates)
        ensures
            r@ == Map::<NodeSearchLocation, Seq<char>>::empty(),
    {
        NodeUpdates { entries: Vec::new() }
    }

    /// Sets the pending text of `at`, replacing an earlier one.
    pub fn insert(&mut self, at: NodeSearchLocation, text: String)
        ensures
            final(self)@ == old(self)@.insert(at, text@),
    {
        let mut i: usize = self.entries.len();
        while i > 0
            invariant
                i <= self.entries.len(),
                self.entries@ == old(self).entries@,
                forall|j: int| i <= j < self.entries.len() ==> self.entries@[j].0 != at,
            decreases i,
        {
            i -= 1;
            if self.entries[i].0 == at {
                proof {
                    lemma_replace_entry(self.entries@, i as int, text);
                }
                self.entries.set(i, (at, text));
                return ;
            }
        }
        proof {
            assert(self.entries@.push((at, text)).drop_last() =~= self.entries@);
        }
        self.entries.push((at, text));
    }

    /// The pending text of `at`, if there is one.
    pub fn get(&self, at: &NodeSearchLocation) -> (r: Option<&String>)
        ensures
            match r {
                Some(text) => self@.contains_pair(*at, text@),
                None => !self@.dom().contains(*at),
            },
    {
        let mut i: usize = self.entries.len();
        while i > 0
            invariant
                i <= self.entries.len(),
                forall|j: int| i <= j < self.entries.len() ==> self.entries@[j].0 != *at,
            decreases i,
        {
            i -= 1;
            if self.entries[i].0 == *at {
                proof {
                    let held = self.entries@[i as int].1;
                    lemma_replace_entry(self.entries@, i as int, held);
                    assert(self.entries@.update(i as int, (*at, held)) =~= self.entries@);
                }
                return Some(&self.entries[i].1);
            }
        }
        proof {
            lemma_absent_location(self.entries@, *at);
        }
        None
    }
}

/// Mathematical model of the pending changes: the tabs whose entries are to
/// leave the index, and the texts to write.
pub struct SearchDelta {
    pub tabs_to_delete: Set<u128>,
    pub node_updates: Map<NodeSearchLocation, Seq<char>>,
}

impl SearchDelta {
    /// Nothing is pending.
    pub open spec fn empty() -> SearchDelta {
        SearchDelta { tabs_to_delete: Set::empty(), node_updates: Map::empty() }
    }
}

/// The changes that saves have gathered for the index since the last
/// hand-over.
#[derive(Debug)]
pub struct SearchIndexState {
    pub tabs_to_delete: HashSet<u128>,
    pub node_updates: NodeUpdates,
}

impl View for SearchIndexState {
    type V = SearchDelta;

    open spec fn view(&self) -> SearchDelta {
        SearchDelta { tabs_to_delete: self.tabs_to_delete@, node_updates: self.node_updates@ }
    }
}

/// One step of bringing the index up to date.
#[derive(Debug)]
pub enum IndexOperation {
    /// Remove every entry that belongs to the tab.
    DeleteTab(u128),
    /// Write the text of the node at the location.
    Upsert(NodeSearchLocation, String),
}

/// Mathematical model of an [`IndexOperation`].
pub enum IndexOperationView {
    DeleteTab(u128),
    Upsert(NodeSearchLocation, Seq<char>),
}

impl View for IndexOperation {
    type V = IndexOperationView;

    open spec fn view(&self) -> IndexOperationView {
        match self {
            IndexOperation::DeleteTab(tab) => IndexOperationView::DeleteTab(*tab),
            IndexOperation::Upsert(at, text) => IndexOperationView::Upsert(*at, text@),
        }
    }
}

/// The index without the entries of a tab.
pub open spec fn index_without_tab(
    index: Map<NodeSearchLocation, Seq<char>>,
    tab: u128,
) -> Map<NodeSearchLocation, Seq<char>> {
    Map::new(
        |at: NodeSearchLocation| index.dom().contains(at) && at.tab_id != tab,
        |at: NodeSearchLocation| index[at],
    )
}

/// The index after one operation.
pub open spec fn index_after_operation(
    index: Map<NodeSearchLocation, Seq<char>>,
    operation: IndexOperationView,
) -> Map<NodeSearchLocation, Seq<char>> {
    match operation {
        IndexOperationView::DeleteTab(tab) => index_without_tab(index, tab),
        IndexOperationView::Upsert(at, text) => index.insert(at, text),
    }
}

/// The index after a list of operations, applied in order.
pub open spec fn index_after_operations(
    index: Map<NodeSearchLocation, Seq<char>>,
    operations: Seq<IndexOperation>,
) -> Map<NodeSearchLocation, Seq<char>>
    decreases operations.len(),
{
    if operations.len() == 0 {
        index
    } else {
        index_after_operation(
            index_after_operations(index, operations.drop_last()),
            operations.last()@,
        )
    }
}

/// The index after one batch: the entries of the deleted tabs leave first,
/// then every pending text is written.
pub open spec fn index_after_sync(
    index: Map<NodeSearchLocation, Seq<char>>,
    delta: SearchDelta,
) -> Map<NodeSearchLocation, Seq<char>> {
    Map::new(
        |at: NodeSearchLocation|
            delta.node_updates.dom().contains(at) || (index.dom().contains(at)
                && !delta.tabs_to_delete.contains(at.tab_id)),
        |at: NodeSearchLocation|
            if delta.node_updates.dom().contains(at) {
                delta.node_updates[at]
            } else {
                index[at]
            },
    )
}

/// The deletions of the given tabs, in order.
pub open spec fn delete_operations(tabs: Seq<u128>) -> Seq<IndexOperation> {
    Seq::new(tabs.len(), |i: int| IndexOperation::DeleteTab(tabs[i]))
}

/// The writes of the given entries, in order.
pub open spec fn upsert_operations(entries: Seq<(NodeSearchLocation, String)>) -> Seq<
    IndexOperation,
> {
    Seq::new(entries.len(), |i: int| IndexOperation::Upsert(entries[i].0, entries[i].1))
}

/// Deleting tabs one after the other removes the entries of all of them.
pub proof fn lemma_delete_operations(index: Map<NodeSearchLocation, Seq<char>>, tabs: Seq<u128>)
    ensures
        index_after_operations(index, delete_operations(tabs)) == index_after_sync(
            index,
            SearchDelta { tabs_to_delete: tabs.to_set(), node_updates: Map::empty() },
        ),
    decreases tabs.len(),
{
    let target = index_after_sync(
        index,
        SearchDelta { tabs_to_delete: tabs.to_set(), node_updates: Map::empty() },
    );
    if tabs.len() == 0 {
        assert(index_after_operations(index, delete_operations(tabs)) =~= target);
    } else {
        let front = tabs.drop_last();
        lemma_delete_operations(index, front);
        assert(delete_operations(tabs).drop_last() =~= delete_operations(front));
        assert(delete_operations(tabs).last()@ == IndexOperationView::DeleteTab(tabs.last()));
        assert forall|tab: u128| tabs.to_set().contains(tab) <==> (front.to_set().contains(tab)
            || tab == tabs.last()) by {
            if front.contains(tab) {
                let i = choose|i: int| 0 <= i < front.len() && front[i] == tab;
                assert(tabs[i] == tab);
            }
            if tabs.contains(tab) && tab != tabs.last() {
                let i = choose|i: int| 0 <= i < tabs.len() && tabs[i] == tab;
                assert(front[i] == tab);
            }
            if tab == tabs.last() {
                assert(tabs[tabs.len() - 1] == tab);
            }
        }
        assert(index_after_operations(index, delete_operations(tabs)) =~= target);
    }
}

/// Writes that follow other operations lay the map of the written entries
/// over what those operations left.
pub proof fn lemma_upsert_operations(
    index: Map<NodeSearchLocation, Seq<char>>,
    before: Seq<IndexOperation>,
    entries: Seq<(NodeSearchLocation, String)>,
)
    ensures
        index_after_operations(index, before + upsert_operations(entries))
            == index_after_operations(index, before).union_prefer_right(upserts_map(entries)),
    decreases entries.len(),
{
    let all = before + upsert_operations(entries);
    let target = index_after_operations(index, before).union_prefer_right(upserts_map(entries));
    if entries.len() == 0 {
        assert(all =~= before);
        assert(index_after_operations(index, all) =~= target);
    } else {
        let front = entries.drop_last();
        lemma_upsert_operations(index, before, front);
        assert(all.drop_last() =~= before + upsert_operations(front));
        assert(all.last()@ == IndexOperationView::Upsert(entries.last().0, entries.last().1@));
        assert(index_after_operations(index, all) =~= target);
    }
}

/// A node that moved to another tab is found under its new tab alone once
/// the batch has run: where the tabs that held it are marked for deletion and
/// the batch writes it under the new tab only, the index afterwards holds it
/// there, with the written text, and under no other tab.
pub proof fn lemma_moved_node_indexed_once(
    index: Map<NodeSearchLocation, Seq<char>>,
    delta: SearchDelta,
    doc_id: u128,
    node_id: u128,
    new_tab: u128,
    text: Seq<char>,
)
    requires
        forall|at: NodeSearchLocation|
            at.doc_id == doc_id && at.node_id == node_id && #[trigger] index.dom().contains(at)
                ==> delta.tabs_to_delete.contains(at.tab_id),
        delta.node_updates.contains_pair(
            NodeSearchLocation { doc_id, tab_id: new_tab, node_id },
            text,
        ),
        forall|at: NodeSearchLocation|
            at.doc_id == doc_id && at.node_id == node_id
                && #[trigger] delta.node_updates.dom().contains(at) ==> at.tab_id == new_tab,
    ensures
        forall|at: NodeSearchLocation|
            at.doc_id == doc_id && at.node_id == node_id ==> (#[trigger] index_after_sync(
                index,
                delta,
            ).dom().contains(at) <==> at.tab_id == new_tab),
        index_after_sync(index, delta)[NodeSearchLocation { doc_id, tab_id: new_tab, node_id }]
            == text,
{
}

impl SearchIndexState {
    /// A state with nothing pending.
    pub fn new() -> (r: SearchIndexState)
        ensures
            r@ == SearchDelta::empty(),
    {
        SearchIndexState { tabs_to_delete: HashSet::new(), node_updates: NodeUpdates::new() }
    }

    /// Marks a tab: its entries leave the index with the next batch.
    pub fn mark_tab(&mut self, tab_id: u128)
        ensures
            final(self)@ == (SearchDelta {
                tabs_to_delete: old(self)@.tabs_to_delete.insert(tab_id),
                node_updates: old(self)@.node_updates,
            }),
    {
        let _ = self.tabs_to_delete.insert(tab_id);
    }

    /// Moves the pending changes out as the operations that bring an index up
    /// to date, deletions before writes, and leaves nothing pending.
    pub fn take_operations(&mut self) -> (r: Vec<IndexOperation>)
        ensures
            final(self)@ == SearchDelta::empty(),
            forall|index: Map<NodeSearchLocation, Seq<char>>|
                #[trigger] index_after_operations(index, r@) == index_after_sync(index, old(self)@),
            forall|i: int, j: int|
                0 <= i < j < r.len() && r[j] is DeleteTab ==> r[i] is DeleteTab,
    {
        broadcast use vstd::std_specs::hash::group_hash_axioms;

        let mut operations: Vec<IndexOperation> = Vec::new();
        let ghost before = self@;
        let ghost mut tabs: Seq<u128> = Seq::empty();
        for tab in it: self.tabs_to_delete.iter()
            invariant
                self@ == before,
                tabs.len() == it.index(),
                operations@ == delete_operations(tabs),
                forall|j: int| 0 <= j < it.index() ==> tabs[j] == *it.seq()[j],
                it.seq().unref().to_set() == before.tabs_to_delete,
                it.index() == it.seq().len() ==> tabs.to_set() == before.tabs_to_delete,
        {
            operations.push(IndexOperation::DeleteTab(*tab));
            proof {
                tabs = tabs.push(*tab);
            }
            assert(operations@ =~= delete_operations(tabs));
            assert(it.index() + 1 == it.seq().len() ==> tabs =~= it.seq().unref());
        }
        self.tabs_to_delete.clear();
        let mut updates = NodeUpdates::new();
        std::mem::swap(&mut updates, &mut self.node_updates);
        let ghost deletes = operations@;
        let ghost pending = updates.entries@;
        let entries = updates.entries;
        for entry in it: entries
            invariant
                deletes == delete_operations(tabs),
                it.seq() == pending,
                operations@ == deletes + upsert_operations(pending.take(it.index())),
        {
            operations.push(IndexOperation::Upsert(entry.0, entry.1));
            assert(pending.take(it.index() + 1).drop_last() =~= pending.take(it.index()));
            assert(operations@ =~= deletes + upsert_operations(pending.take(it.index() + 1)));
        }
        proof {
            assert(operations@ == deletes + upsert_operations(pending)) by {
                assert(pending.take(pending.len() as int) =~= pending);
            }
            assert forall|index: Map<NodeSearchLocation, Seq<char>>|
                #[trigger] index_after_operations(index, operations@) == index_after_sync(
                    index,
                    before,
                ) by {
                lemma_delete_operations(index, tabs);
                lemma_upsert_operations(index, deletes, pending);
                assert(index_after_operations(index, operations@) =~= index_after_sync(
                    index,
                    before,
                ));
            }
        }
        operations
    }
}

} // verus!
