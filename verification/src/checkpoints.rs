//! Bounded history of serialized snapshots, one ring per tab.

use crate::document::{Doc, DocView, TabView};
use crate::state::{doc_views, AppState, SaveTabRequest};
use crate::MAX_CHECKPOINTS;
use std::collections::VecDeque;
use vstd::prelude::*;

verus! {

/// The ring as it stands once eviction has run: the oldest entry leaves when
/// the ring holds more than `max` entries.
pub open spec fn ring_after_eviction(ring: Seq<Seq<char>>, max: int) -> Seq<Seq<char>> {
    if ring.len() > max {
        ring.drop_first()
    } else {
        ring
    }
}

/// The ring after one append: eviction first, then the snapshot is added
/// unless it equals the newest entry that is left.
pub open spec fn ring_after_append(ring: Seq<Seq<char>>, max: int, snapshot: Seq<char>) -> Seq<
    Seq<char>,
> {
    let kept = ring_after_eviction(ring, max);
    if kept.len() > 0 && kept.last() == snapshot {
        kept
    } else {
        kept.push(snapshot)
    }
}

/// A snapshot that repeats the newest entry never grows the ring, and leaves
/// a ring of at most `max` entries as it is. A snapshot that differs from the
/// newest entry is added at the end: to a ring of at most `max` entries, which
/// grows by one; beyond that the oldest entry leaves and the length stays. A
/// ring of at most `max + 1` entries stays within that length. Either way the
/// snapshot is the newest entry afterwards.
pub proof fn lemma_append_policy(ring: Seq<Seq<char>>, max: int, snapshot: Seq<char>)
    requires
        0 <= max,
    ensures
        ring.len() > 0 && ring.last() == snapshot ==> ring_after_append(ring, max, snapshot).len()
            <= ring.len(),
        ring.len() > 0 && ring.last() == snapshot && ring.len() <= max ==> ring_after_append(
            ring,
            max,
            snapshot,
        ) == ring,
        (ring.len() == 0 || ring.last() != snapshot) && ring.len() <= max ==> ring_after_append(
            ring,
            max,
            snapshot,
        ) == ring.push(snapshot),
        (ring.len() == 0 || ring.last() != snapshot) && ring.len() > max ==> ring_after_append(
            ring,
            max,
            snapshot,
        ) == ring.drop_first().push(snapshot),
        ring.len() <= max + 1 ==> ring_after_append(ring, max, snapshot).len() <= max + 1,
        ring_after_append(ring, max, snapshot).len() > 0,
        ring_after_append(ring, max, snapshot).last() == snapshot,
{
}

/// No entry of the ring equals the one before it.
pub open spec fn no_repeats(ring: Seq<Seq<char>>) -> bool {
    forall|i: int| 0 < i < ring.len() ==> ring[i - 1] != #[trigger] ring[i]
}

/// A history without an entry that repeats the one before it stays so under
/// every append.
pub proof fn lemma_append_keeps_no_repeats(ring: Seq<Seq<char>>, max: int, snapshot: Seq<char>)
    requires
        0 <= max,
        no_repeats(ring),
    ensures
        no_repeats(ring_after_append(ring, max, snapshot)),
{
    let kept = ring_after_eviction(ring, max);
    assert(no_repeats(kept)) by {
        if ring.len() > max {
            assert forall|i: int| 0 < i < kept.len() implies kept[i - 1] != #[trigger] kept[i] by {
                assert(kept[i] == ring[i + 1]);
                assert(kept[i - 1] == ring[i]);
            }
        }
    }
    let after = ring_after_append(ring, max, snapshot);
    if after != kept {
        assert forall|i: int| 0 < i < after.len() implies after[i - 1] != #[trigger] after[i] by {
            if i < kept.len() {
                assert(after[i] == kept[i]);
                assert(after[i - 1] == kept[i - 1]);
            }
        }
    }
}

/// Appends `snapshot` to `ring`, evicting the oldest entry first when the ring
/// holds more than `max` entries and dropping the snapshot when it repeats the
/// newest entry that is left.
pub fn append_checkpoint(ring: &mut VecDeque<String>, max: usize, snapshot: String)
    ensures
        final(ring).deep_view() == ring_after_append(
            old(ring).deep_view(),
            max as int,
            snapshot@,
        ),
        old(ring).len() > 0 && old(ring).deep_view().last() == snapshot@ ==> final(ring).len()
            <= old(ring).len(),
        (old(ring).len() == 0 || old(ring).deep_view().last() != snapshot@) && old(ring).len()
            <= max ==> final(ring).deep_view() == old(ring).deep_view().push(snapshot@),
        (old(ring).len() == 0 || old(ring).deep_view().last() != snapshot@) && old(ring).len()
            > max ==> final(ring).deep_view() == old(ring).deep_view().drop_first().push(
            snapshot@,
        ),
        old(ring).len() <= max + 1 ==> final(ring).len() <= max + 1,
{
    broadcast use vstd::std_specs::vecdeque::group_vec_dequeue_axioms;

    let ghost before = ring.deep_view();
    proof {
        lemma_append_policy(before, max as int, snapshot@);
    }
    if ring.len() > max {
        let _ = ring.pop_front();
    }
    assert(ring.deep_view() =~= ring_after_eviction(before, max as int));
    let ghost kept = ring.deep_view();
    let n: usize = ring.len();
    if n > 0 {
        let last = &ring[n - 1];
        if *last == snapshot {
            assert(kept.last() == snapshot@);
            return ;
        }
        assert(kept.last() != snapshot@);
    }
    ring.push_back(snapshot);
    assert(ring.deep_view() =~= kept.push(snapshot@));
}

/// The tab with the snapshot appended to its history.
pub open spec fn tab_after_checkpoint(tab: TabView, max: int, snapshot: Seq<char>) -> TabView {
    TabView { checkpoints: ring_after_append(tab.checkpoints, max, snapshot), ..tab }
}

/// `i` is the position of the first tab with the given id.
pub open spec fn tab_at(tabs: Seq<TabView>, tab_id: u128, i: int) -> bool {
    &&& 0 <= i < tabs.len()
    &&& tabs[i].id == tab_id
    &&& forall|j: int| 0 <= j < i ==> tabs[j].id != tab_id
}

/// The document with the snapshot appended to the history of the first tab
/// that has the given id; unchanged where no tab has it.
pub open spec fn doc_after_checkpoint(
    doc: DocView,
    tab_id: u128,
    max: int,
    snapshot: Seq<char>,
) -> DocView {
    DocView {
        tabs: Seq::new(
            doc.tabs.len(),
            |i: int|
                if tab_at(doc.tabs, tab_id, i) {
                    tab_after_checkpoint(doc.tabs[i], max, snapshot)
                } else {
                    doc.tabs[i]
                },
        ),
        ..doc
    }
}

impl Doc {
    /// Appends `snapshot` to the history of the first tab with id `tab_id`,
    /// evicting and deduplicating as [`append_checkpoint`] does. A document
    /// without such a tab is left unchanged.
    pub fn record_checkpoint(&mut self, tab_id: u128, max: usize, snapshot: String)
        ensures
            final(self)@ == doc_after_checkpoint(old(self)@, tab_id, max as int, snapshot@),
    {
        let mut i: usize = 0;
        while i < self.tabs.len()
            invariant
                i <= self.tabs.len(),
                *self == *old(self),
                forall|j: int| 0 <= j < i ==> self.tabs[j].id != tab_id,
            decreases self.tabs.len() - i,
        {
            if self.tabs[i].id == tab_id {
                append_checkpoint(&mut self.tabs[i].checkpoints, max, snapshot);
                proof {
                    let before = old(self)@;
                    let after = doc_after_checkpoint(before, tab_id, max as int, snapshot@);
                    assert(tab_at(before.tabs, tab_id, i as int));
                    assert forall|k: int| 0 <= k < before.tabs.len() implies #[trigger] self@.tabs[k]
                        == after.tabs[k] by {
                        if k != i {
                            assert(!tab_at(before.tabs, tab_id, k)) by {
                                if k > i {
                                    assert(before.tabs[i as int].id == tab_id);
                                }
                            }
                        }
                    }
                    assert(self@.tabs =~= after.tabs);
                }
                return ;
            }
            i += 1;
        }
        proof {
            let before = old(self)@;
            let after = doc_after_checkpoint(before, tab_id, max as int, snapshot@);
            assert(self@.tabs =~= after.tabs);
        }
    }
}

/// Records the serialized snapshot of the tab named in `request` in that
/// tab's history, which holds [`MAX_CHECKPOINTS`] entries before the oldest is
/// evicted.
pub fn record_checkpoint(app_state: &mut AppState, request: &SaveTabRequest, snapshot: String)
    requires
        old(app_state)@.docs.dom().contains(request.doc_id),
    ensures
        final(app_state)@.docs == old(app_state)@.docs.insert(
            request.doc_id,
            doc_after_checkpoint(
                old(app_state)@.docs[request.doc_id],
                request.tab_id,
                MAX_CHECKPOINTS as int,
                snapshot@,
            ),
        ),
        final(app_state).current_document == old(app_state).current_document,
        final(app_state).search_index == old(app_state).search_index,
        final(app_state).github_token == old(app_state).github_token,
{
    broadcast use vstd::std_specs::hash::group_hash_axioms;

    let found = app_state.docs.remove(&request.doc_id);
    let mut doc = found.unwrap();
    doc.record_checkpoint(request.tab_id, MAX_CHECKPOINTS as usize, snapshot);
    let _ = app_state.docs.insert(request.doc_id, doc);
    assert(doc_views(app_state.docs@) =~= doc_views(old(app_state).docs@).insert(
        request.doc_id,
        doc@,
    ));
}

} // verus!
