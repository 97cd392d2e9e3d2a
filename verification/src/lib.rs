//! Document persistence core of a canvas note-taking application: the document
//! model, the per-tab checkpoint history, the snapshot builder, the key-value
//! store reconciliation, the search-index hand-off and the sequencing of save
//! requests. Every function carries a contract that Verus proves.

pub mod checkpoints;
pub mod coordinator;
pub mod document;
pub mod encoding;
pub mod inbound;
pub mod scene;
pub mod search;
pub mod snapshot;
pub mod state;
pub mod store;

pub use checkpoints::{append_checkpoint, record_checkpoint};
pub use coordinator::{
    plan_frame, remove_save_doc_request, remove_save_tab_request, save_doc, should_save_doc,
    should_save_tab, LoadDocRequest, LoadTabRequest, Requests, SaveDocEffects, Step,
};
pub use document::{
    Doc, DrawingJsonNode, JsonNode, JsonNodeText, NodeType, Scalar, Tab, TextPos,
};
pub use encoding::{encode_image, PixelLayout, RasterImage};
pub use inbound::{load_from_url, InboundError};
pub use scene::{DrawingEntity, NodeEntity, Scene, ShapeEntity, TextEntity};
pub use search::{IndexOperation, NodeSearchLocation, NodeUpdates, SearchIndexState};
pub use snapshot::{save_tab, Snapshot, SnapshotError};
pub use state::{read_native_config, AppState, Config, SaveDocRequest, SaveStore, SaveTabRequest};
pub use store::{save_to_store, FileExport, SaveEffects, Store};

use vstd::prelude::*;

verus! {

/// Largest number of checkpoints a tab may hold before the oldest is evicted
/// on the next append.
pub const MAX_CHECKPOINTS: i32 = 7;

/// Largest number of saved documents kept in memory at once.
pub const MAX_SAVED_DOCS_IN_MEMORY: i32 = 7;

} // verus!
