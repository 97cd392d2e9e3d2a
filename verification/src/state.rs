//! Application-wide state that the save pipeline works on, and the transient
//! requests that drive it.

use crate::document::{Doc, DocView};
use crate::search::{SearchDelta, SearchIndexState};
use std::collections::HashMap;
use std::path::PathBuf;
use vstd::prelude::*;

verus! {

/// `std::path::PathBuf`, carried through as an opaque value.
#[verifier::external_type_specification]
#[verifier::external_body]
pub struct ExPathBuf(PathBuf);

/// `Clone::clone` of `std::path::PathBuf`. Trusted: the duplicate equals the
/// path it was made from.
pub assume_specification[ <PathBuf as Clone>::clone ](path: &PathBuf) -> (r: PathBuf)
    ensures
        r == *path,
;

/// Asks for a document to be saved, and exported to `path` where one is
/// given.
#[derive(Debug)]
pub struct SaveDocRequest {
    pub doc_id: u128,
    pub path: Option<PathBuf>,
}

/// Asks for the snapshot of one tab to be taken and recorded.
#[derive(Clone, Copy, Debug, PartialEq, Eq, Structural)]
pub struct SaveTabRequest {
    pub doc_id: u128,
    pub tab_id: u128,
}

/// Tells the store synchronizer to write a document, and to export it to
/// `path` where one is given.
#[derive(Debug)]
pub struct SaveStore {
    pub doc_id: u128,
    pub path: Option<PathBuf>,
}

/// The documents held in memory, the document on screen, the pending index
/// changes where indexing is on, and the access token from the configuration.
#[derive(Debug)]
pub struct AppState {
    pub docs: HashMap<u128, Doc>,
    pub current_document: Option<u128>,
    pub search_index: Option<SearchIndexState>,
    pub github_token: Option<String>,
}

/// The models of the documents of a registry, by id.
pub open spec fn doc_views(docs: Map<u128, Doc>) -> Map<u128, DocView> {
    docs.map_values(|doc: Doc| doc@)
}

/// The model of the pending index changes, where indexing is on.
pub open spec fn delta_view(index: Option<SearchIndexState>) -> Option<SearchDelta> {
    match index {
        Some(state) => Some(state@),
        None => None,
    }
}

/// Mathematical model of an [`AppState`].
pub struct AppStateView {
    pub docs: Map<u128, DocView>,
    pub current_document: Option<u128>,
    pub search_index: Option<SearchDelta>,
    pub github_token: Option<Seq<char>>,
}

impl View for AppState {
    type V = AppStateView;

    open spec fn view(&self) -> AppStateView {
        AppStateView {
            docs: doc_views(self.docs@),
            current_document: self.current_document,
            search_index: delta_view(self.search_index),
            github_token: match self.github_token {
                Some(token) => Some(token@),
                None => None,
            },
        }
    }
}

impl AppState {
    /// A state with no documents, no document on screen, indexing off and no
    /// token.
    pub fn new() -> (r: AppState)
        ensures
            r@.docs == Map::<u128, DocView>::empty(),
            r@.current_document.is_none(),
            r@.search_index.is_none(),
            r@.github_token.is_none(),
    {
        let r = AppState {
            docs: HashMap::new(),
            current_document: None,
            search_index: None,
            github_token: None,
        };
        assert(doc_views(r.docs@) =~= Map::<u128, DocView>::empty());
        r
    }
}

impl Default for AppState {
    fn default() -> (r: AppState)
        ensures
            r@.docs == Map::<u128, DocView>::empty(),
            r@.current_document.is_none(),
            r@.search_index.is_none(),
            r@.github_token.is_none(),
    {
        AppState::new()
    }
}

/// The settings read from the configuration file.
#[derive(Debug)]
pub struct Config {
    pub github_access_token: Option<String>,
}

impl Default for Config {
    fn default() -> (r: Config)
        ensures
            r.github_access_token.is_none(),
    {
        Config { github_access_token: None }
    }
}

/// The token held after the configuration was applied: the configured one
/// where the configuration names one, else the one held before.
pub open spec fn token_after_config(held: Option<Seq<char>>, config: Option<Config>) -> Option<
    Seq<char>,
> {
    match config {
        Some(Config { github_access_token: Some(token) }) => Some(token@),
        _ => held,
    }
}

/// Applies the configuration to the state. `config` is `None` where the
/// configuration file could not be read, which counts as a configuration
/// without settings.
pub fn read_native_config(app_state: &mut AppState, config: Option<Config>)
    ensures
        final(app_state)@.github_token == token_after_config(old(app_state)@.github_token, config),
        final(app_state).docs == old(app_state).docs,
        final(app_state).current_document == old(app_state).current_document,
        final(app_state).search_index == old(app_state).search_index,
{
    let config = match config {
        Some(config) => config,
        None => Config::default(),
    };
    match &config.github_access_token {
        Some(token) => {
            app_state.github_token = Some(token.clone());
        },
        None => {},
    }
}

} // verus!
