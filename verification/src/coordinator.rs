//! Request markers and the order in which one frame services them: a tab
//! snapshot comes before the document is written to the store, and a marker
//! is gone once its handler has run.

use crate::document::{Doc, DocView, TabView};
use crate::state::{AppState, SaveDocRequest, SaveStore, SaveTabRequest};
use vstd::prelude::*;

verus! {

/// Asks for a document to be brought into memory and shown.
#[derive(Clone, Copy, Debug, PartialEq, Eq, Structural)]
pub struct LoadDocRequest {
    pub doc_id: u128,
}

/// Asks for a tab to be shown from its newest checkpoint.
#[derive(Clone, Copy, Debug, PartialEq, Eq, Structural)]
pub struct LoadTabRequest {
    pub doc_id: u128,
    pub tab_id: u128,
}

/// The request markers that are present, one slot per kind of request.
#[derive(Debug)]
pub struct Requests {
    pub save_doc: Option<SaveDocRequest>,
    pub save_tab: Option<SaveTabRequest>,
    pub load_doc: Option<LoadDocRequest>,
    pub load_tab: Option<LoadTabRequest>,
}

impl Requests {
    /// No marker is present.
    pub open spec fn spec_is_idle(&self) -> bool {
        self.save_doc.is_none() && self.save_tab.is_none() && self.load_doc.is_none()
            && self.load_tab.is_none()
    }

    /// Whether no marker is present.
    #[verifier::when_used_as_spec(spec_is_idle)]
    pub fn is_idle(&self) -> (r: bool)
        ensures
            r == self.spec_is_idle(),
    {
        self.save_doc.is_none() && self.save_tab.is_none() && self.load_doc.is_none()
            && self.load_tab.is_none()
    }

    /// The state in which no marker is present.
    pub fn new() -> (r: Requests)
        ensures
            r.is_idle(),
    {
        Requests { save_doc: None, save_tab: None, load_doc: None, load_tab: None }
    }
}

/// Whether the document-save handler runs this frame: it does while its
/// marker is present.
pub fn should_save_doc(request: Option<&SaveDocRequest>) -> (r: bool)
    ensures
        r == request.is_some(),
{
    request.is_some()
}

/// Whether the tab-save handler runs this frame: it does while its marker is
/// present.
pub fn should_save_tab(request: Option<&SaveTabRequest>) -> (r: bool)
    ensures
        r == request.is_some(),
{
    request.is_some()
}

/// Removes the document-save marker once its handler has run.
pub fn remove_save_doc_request(requests: &mut Requests)
    requires
        old(requests).save_doc.is_some(),
    ensures
        final(requests).save_doc.is_none(),
        final(requests).save_tab == old(requests).save_tab,
        final(requests).load_doc == old(requests).load_doc,
        final(requests).load_tab == old(requests).load_tab,
{
    requests.save_doc = None;
}

/// Removes the tab-save marker once its handler has run.
pub fn remove_save_tab_request(requests: &mut Requests)
    requires
        old(requests).save_tab.is_some(),
    ensures
        final(requests).save_tab.is_none(),
        final(requests).save_doc == old(requests).save_doc,
        final(requests).load_doc == old(requests).load_doc,
        final(requests).load_tab == old(requests).load_tab,
{
    requests.save_tab = None;
}

/// The id of the last tab that is active, if any is.
pub open spec fn last_active_tab(tabs: Seq<TabView>) -> Option<u128>
    decreases tabs.len(),
{
    if tabs.len() == 0 {
        None
    } else if tabs.last().is_active {
        Some(tabs.last().id)
    } else {
        last_active_tab(tabs.drop_last())
    }
}

/// `i` is the position of the first tab that is active.
pub open spec fn first_active_at(tabs: Seq<TabView>, i: int) -> bool {
    &&& 0 <= i < tabs.len()
    &&& tabs[i].is_active
    &&& forall|j: int| 0 <= j < i ==> !tabs[j].is_active
}

impl Doc {
    /// The position of the first active tab, or `None` where no tab is
    /// active.
    pub fn active_tab(&self) -> (r: Option<usize>)
        ensures
            match r {
                Some(i) => first_active_at(self@.tabs, i as int),
                None => forall|j: int| 0 <= j < self@.tabs.len() ==> !self@.tabs[j].is_active,
            },
    {
        let mut i: usize = 0;
        while i < self.tabs.len()
            invariant
                i <= self.tabs.len(),
                forall|j: int| 0 <= j < i ==> !self@.tabs[j].is_active,
            decreases self.tabs.len() - i,
        {
            if self.tabs[i].is_active {
                return Some(i);
            }
            i += 1;
        }
        None
    }
}

/// What the document-save handler sets in motion: a tab-save request for the
/// active tab, where the document has one, and the event that has the
/// document written to the store afterwards.
#[derive(Debug)]
pub struct SaveDocEffects {
    pub tab_request: Option<SaveTabRequest>,
    pub store_event: SaveStore,
}

/// The tab-save request that saving the document raises.
pub open spec fn tab_request_for(doc_id: u128, tabs: Seq<TabView>) -> Option<SaveTabRequest> {
    match last_active_tab(tabs) {
        Some(tab_id) => Some(SaveTabRequest { doc_id, tab_id }),
        None => None,
    }
}

/// Services a document-save request: asks for the active tab to be saved and
/// emits the store event that carries the request's path. Where several tabs
/// are active the last one is asked for.
pub fn save_doc(request: &SaveDocRequest, app_state: &AppState) -> (r: SaveDocEffects)
    requires
        app_state@.docs.dom().contains(request.doc_id),
    ensures
        r.tab_request == tab_request_for(request.doc_id, app_state@.docs[request.doc_id].tabs),
        r.store_event.doc_id == request.doc_id,
        r.store_event.path == request.path,
{
    broadcast use vstd::std_specs::hash::group_hash_axioms;

    let doc_id = request.doc_id;
    let doc = app_state.docs.get(&doc_id).unwrap();
    let mut tab_request: Option<SaveTabRequest> = None;
    let mut i: usize = 0;
    while i < doc.tabs.len()
        invariant
            i <= doc.tabs.len(),
            tab_request == tab_request_for(doc_id, doc@.tabs.take(i as int)),
        decreases doc.tabs.len() - i,
    {
        proof {
            assert(doc@.tabs.take(i + 1).drop_last() =~= doc@.tabs.take(i as int));
        }
        if doc.tabs[i].is_active {
            tab_request = Some(SaveTabRequest { doc_id, tab_id: doc.tabs[i].id });
        }
        i += 1;
    }
    assert(doc@.tabs.take(doc.tabs.len() as int) =~= doc@.tabs);
    SaveDocEffects { tab_request, store_event: SaveStore { doc_id, path: request.path.clone() } }
}

/// One handler run of a frame, with the request it services.
#[derive(Debug)]
pub enum Step {
    /// Take the snapshot of a tab and record it as a checkpoint.
    SaveTab(SaveTabRequest),
    /// Write a document to the store.
    SaveToStore(SaveStore),
    /// Bring a document into memory.
    LoadDoc(LoadDocRequest),
    /// Show a tab from its newest checkpoint.
    LoadTab(LoadTabRequest),
}

/// The step that services a request, where there is one.
pub open spec fn step_for<R>(request: Option<R>, step: spec_fn(R) -> Step) -> Seq<Step> {
    match request {
        Some(r) => seq![step(r)],
        None => Seq::empty(),
    }
}

/// The tab-save request that a pending document save raises this frame.
pub open spec fn nested_tab_request(
    requests: Requests,
    docs: Map<u128, DocView>,
) -> Option<SaveTabRequest> {
    match requests.save_doc {
        Some(request) => tab_request_for(request.doc_id, docs[request.doc_id].tabs),
        None => None,
    }
}

/// The store event that a pending document save emits this frame.
pub open spec fn store_event_for(requests: Requests) -> Option<SaveStore> {
    match requests.save_doc {
        Some(request) => Some(SaveStore { doc_id: request.doc_id, path: request.path }),
        None => None,
    }
}

/// The handler runs of one frame, in order: the tab save that was asked for,
/// the tab save that a document save raises, the store write of that
/// document, then the loads.
pub open spec fn frame_plan(requests: Requests, docs: Map<u128, DocView>) -> Seq<Step> {
    step_for(requests.save_tab, |r: SaveTabRequest| Step::SaveTab(r)) + step_for(
        nested_tab_request(requests, docs),
        |r: SaveTabRequest| Step::SaveTab(r),
    ) + step_for(store_event_for(requests), |e: SaveStore| Step::SaveToStore(e)) + step_for(
        requests.load_doc,
        |r: LoadDocRequest| Step::LoadDoc(r),
    ) + step_for(requests.load_tab, |r: LoadTabRequest| Step::LoadTab(r))
}

/// One if the request is present, zero if not.
pub open spec fn presence<R>(request: Option<R>) -> int {
    if request.is_some() {
        1
    } else {
        0
    }
}

/// Within one frame the snapshot of the active tab is taken before the
/// document is written to the store: a document save on a document with an
/// active tab plans both steps, and no store write stands before a tab save.
pub proof fn lemma_tab_saved_before_store(requests: Requests, docs: Map<u128, DocView>)
    ensures
        requests.save_doc.is_some() ==> {
            let request = requests.save_doc.unwrap();
            let at = presence(requests.save_tab) + presence(nested_tab_request(requests, docs));
            &&& at < frame_plan(requests, docs).len()
            &&& frame_plan(requests, docs)[at] == Step::SaveToStore(
                SaveStore { doc_id: request.doc_id, path: request.path },
            )
            &&& last_active_tab(docs[request.doc_id].tabs) matches Some(tab_id) ==> frame_plan(
                requests,
                docs,
            )[at - 1] == Step::SaveTab(SaveTabRequest { doc_id: request.doc_id, tab_id })
        },
        forall|i: int, j: int|
            0 <= i < j < frame_plan(requests, docs).len() && frame_plan(requests, docs)[j]
                is SaveTab ==> !(frame_plan(requests, docs)[i] is SaveToStore),
{
}

/// Every marker that is present is serviced by one step of the frame and by
/// no other, and a frame that starts without markers runs no handler,
/// whatever the documents hold.
pub proof fn lemma_marker_serviced_once(requests: Requests, docs: Map<u128, DocView>)
    ensures
        ({
            let plan = frame_plan(requests, docs);
            let nested = nested_tab_request(requests, docs);
            let a = presence(requests.save_tab);
            let b = a + presence(nested);
            let c = b + presence(requests.save_doc);
            let d = c + presence(requests.load_doc);
            &&& plan.len() == d + presence(requests.load_tab)
            &&& requests.save_tab matches Some(r) ==> plan[0] == Step::SaveTab(r)
            &&& nested matches Some(r) ==> plan[a] == Step::SaveTab(r)
            &&& requests.save_doc matches Some(r) ==> plan[b] == Step::SaveToStore(
                SaveStore { doc_id: r.doc_id, path: r.path },
            )
            &&& requests.load_doc matches Some(r) ==> plan[c] == Step::LoadDoc(r)
            &&& requests.load_tab matches Some(r) ==> plan[d] == Step::LoadTab(r)
        }),
        requests.is_idle() ==> frame_plan(requests, docs) == Seq::<Step>::empty(),
{
}

/// Plans one frame: services every marker that is present, in the order of
/// [`frame_plan`], and removes it. A document save needs its document in
/// memory.
pub fn plan_frame(requests: &mut Requests, app_state: &AppState) -> (r: Vec<Step>)
    requires
        old(requests).save_doc matches Some(request) ==> app_state@.docs.dom().contains(
            request.doc_id,
        ),
    ensures
        r@ == frame_plan(*old(requests), app_state@.docs),
        final(requests).is_idle(),
{
    let mut steps: Vec<Step> = Vec::new();
    if should_save_tab(requests.save_tab.as_ref()) {
        steps.push(Step::SaveTab(requests.save_tab.unwrap()));
        remove_save_tab_request(requests);
    }
    if should_save_doc(requests.save_doc.as_ref()) {
        let effects = save_doc(requests.save_doc.as_ref().unwrap(), app_state);
        match effects.tab_request {
            Some(tab_request) => {
                steps.push(Step::SaveTab(tab_request));
            },
            None => {},
        }
        steps.push(Step::SaveToStore(effects.store_event));
        remove_save_doc_request(requests);
    }
    match requests.load_doc.take() {
        Some(request) => {
            steps.push(Step::LoadDoc(request));
        },
        None => {},
    }
    match requests.load_tab.take() {
        Some(request) => {
            steps.push(Step::LoadTab(request));
        },
        None => {},
    }
    assert(steps@ =~= frame_plan(*old(requests), app_state@.docs));
    steps
}

} // verus!
