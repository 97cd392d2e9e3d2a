//! The snapshot builder: from the visual entities of one tab to the records
//! that are serialized as the tab's checkpoint.

use crate::document::{
    DrawingJsonNode, DrawingJsonNodeView, JsonNode, JsonNodeText, JsonNodeView, Scalar,
};
use crate::encoding::{encode_image, format_id, id_text, image_text, ImageText};
use crate::scene::{
    find_node, find_shape, node_of, shape_of, DrawingEntity, NodeEntity, Scene, ShapeEntity,
    TextEntity,
};
use crate::search::{NodeSearchLocation, SearchDelta, SearchIndexState};
use crate::state::{AppState, SaveTabRequest};
use vstd::prelude::*;

verus! {

/// The full visual state of one tab. `A` is the arrow record.
#[derive(Debug)]
pub struct Snapshot<A> {
    /// Background images as base64 text of their PNG files, keyed by the
    /// hyphenated id of the text entity, in the order of the text entities.
    pub images: Vec<(String, String)>,
    pub nodes: Vec<JsonNode<String>>,
    pub arrows: Vec<A>,
    pub drawings: Vec<DrawingJsonNode<String>>,
}

/// Why no snapshot could be built.
#[derive(Clone, Copy, Debug, PartialEq, Eq, Structural)]
pub enum SnapshotError {
    /// The background image of the node could not be encoded.
    ImageEncoding { node_id: u128 },
}

/// The node record of a text entity, its shape and its top-level node.
pub open spec fn node_record(text: TextEntity, shape: ShapeEntity, top: NodeEntity) -> JsonNodeView<
    Seq<char>,
> {
    JsonNodeView {
        id: text.id,
        node_type: shape.node_type,
        x: top.x,
        y: top.y,
        z: top.z,
        width: text.width,
        height: text.height,
        text: text.last_text@,
        pos: text.text_pos,
        bg_color: shape.pair_color@,
    }
}

/// The node records of a scene: one per text entity, in order, each placed
/// where the top-level node above its shape stands.
pub open spec fn snapshot_nodes<A>(scene: Scene<A>) -> Seq<JsonNodeView<Seq<char>>> {
    Seq::new(
        scene.texts.len() as nat,
        |i: int|
            node_record(
                scene.texts[i],
                shape_of(scene.shapes@, scene.texts[i].parent),
                node_of(scene.nodes@, shape_of(scene.shapes@, scene.texts[i].parent).parent),
            ),
    )
}

/// The drawing record of a stroke.
pub open spec fn drawing_record(drawing: DrawingEntity) -> DrawingJsonNodeView<Seq<char>> {
    DrawingJsonNodeView {
        x: drawing.x,
        y: drawing.y,
        z: drawing.z,
        id: drawing.id,
        points: drawing.points@,
        drawing_color: drawing.drawing_color@,
        width: drawing.line_width,
    }
}

/// The drawing records of a scene: one per stroke, in order.
pub open spec fn snapshot_drawings(drawings: Seq<DrawingEntity>) -> Seq<
    DrawingJsonNodeView<Seq<char>>,
> {
    Seq::new(drawings.len(), |i: int| drawing_record(drawings[i]))
}

/// The background image of the text entity cannot be encoded.
pub open spec fn image_fails(text: TextEntity) -> bool {
    text.bg_image matches Some(image) && image_text(image) is Failed
}

/// `i` is the position of the first text entity whose image cannot be
/// encoded.
pub open spec fn first_failure_at(texts: Seq<TextEntity>, i: int) -> bool {
    &&& 0 <= i < texts.len()
    &&& image_fails(texts[i])
    &&& forall|j: int| 0 <= j < i ==> !image_fails(texts[j])
}

/// The image entries of a snapshot: key and base64 text of each background
/// image that holds all its pixels, in the order of the text entities.
pub open spec fn snapshot_images(texts: Seq<TextEntity>) -> Seq<(Seq<char>, Seq<char>)>
    decreases texts.len(),
{
    if texts.len() == 0 {
        Seq::empty()
    } else {
        let front = snapshot_images(texts.drop_last());
        match texts.last().bg_image {
            Some(image) => match image_text(image) {
                ImageText::Encoded(text) => front.push((id_text(texts.last().id), text)),
                _ => front,
            },
            None => front,
        }
    }
}

/// The pending node texts once the texts of the given entities are written
/// under the document and tab, in order.
pub open spec fn node_updates_after(
    updates: Map<NodeSearchLocation, Seq<char>>,
    doc_id: u128,
    tab_id: u128,
    texts: Seq<TextEntity>,
) -> Map<NodeSearchLocation, Seq<char>>
    decreases texts.len(),
{
    if texts.len() == 0 {
        updates
    } else {
        node_updates_after(updates, doc_id, tab_id, texts.drop_last()).insert(
            NodeSearchLocation { doc_id, tab_id, node_id: texts.last().id },
            texts.last().last_text@,
        )
    }
}

/// The pending index changes after a tab was saved: the tab is marked for
/// deletion, and the node texts are written where the snapshot was built.
pub open spec fn delta_after_save(
    delta: SearchDelta,
    request: SaveTabRequest,
    texts: Seq<TextEntity>,
    built: bool,
) -> SearchDelta {
    SearchDelta {
        tabs_to_delete: delta.tabs_to_delete.insert(request.tab_id),
        node_updates: if built {
            node_updates_after(delta.node_updates, request.doc_id, request.tab_id, texts)
        } else {
            delta.node_updates
        },
    }
}

/// The models of the image entries of a snapshot.
pub open spec fn image_views(images: Seq<(String, String)>) -> Seq<(Seq<char>, Seq<char>)> {
    Seq::new(images.len(), |i: int| (images[i].0@, images[i].1@))
}

/// The models of the node records of a snapshot.
pub open spec fn node_views(nodes: Seq<JsonNode<String>>) -> Seq<JsonNodeView<Seq<char>>> {
    Seq::new(nodes.len(), |i: int| nodes[i]@)
}

/// The models of the drawing records of a snapshot.
pub open spec fn drawing_views(drawings: Seq<DrawingJsonNode<String>>) -> Seq<
    DrawingJsonNodeView<Seq<char>>,
> {
    Seq::new(drawings.len(), |i: int| drawings[i]@)
}

/// Encodes the background images of the text entities, in order. Fails at
/// the first image that cannot be encoded, with the id of its node.
pub fn encode_images(texts: &Vec<TextEntity>) -> (r: Result<Vec<(String, String)>, SnapshotError>)
    ensures
        match r {
            Ok(images) => {
                &&& forall|i: int| 0 <= i < texts.len() ==> !image_fails(texts[i])
                &&& image_views(images@) == snapshot_images(texts@)
            },
            Err(SnapshotError::ImageEncoding { node_id }) => exists|i: int|
                first_failure_at(texts@, i) && node_id == texts[i].id,
        },
{
    let mut images: Vec<(String, String)> = Vec::new();
    let mut i: usize = 0;
    while i < texts.len()
        invariant
            i <= texts.len(),
            forall|j: int| 0 <= j < i ==> !image_fails(texts[j]),
            image_views(images@) == snapshot_images(texts@.take(i as int)),
        decreases texts.len() - i,
    {
        let ghost before = images@;
        proof {
            assert(texts@.take(i + 1).drop_last() =~= texts@.take(i as int));
            assert(texts@.take(i + 1).last() == texts[i as int]);
        }
        match &texts[i].bg_image {
            None => {},
            Some(image) => {
                match encode_image(image) {
                    Err(_) => {
                        assert(first_failure_at(texts@, i as int));
                        return Err(SnapshotError::ImageEncoding { node_id: texts[i].id });
                    },
                    Ok(None) => {},
                    Ok(Some(text)) => {
                        images.push((format_id(texts[i].id), text));
                        assert(image_views(images@) =~= image_views(before).push(
                            (id_text(texts[i as int].id), text@),
                        ));
                    },
                }
            },
        }
        i += 1;
    }
    assert(texts@.take(texts.len() as int) =~= texts@);
    Ok(images)
}

/// A copy of the path of a stroke.
fn copy_points(points: &Vec<(Scalar, Scalar)>) -> (r: Vec<(Scalar, Scalar)>)
    ensures
        r@ == points@,
{
    let mut out: Vec<(Scalar, Scalar)> = Vec::new();
    let mut i: usize = 0;
    while i < points.len()
        invariant
            i <= points.len(),
            out@ == points@.take(i as int),
        decreases points.len() - i,
    {
        out.push(points[i]);
        assert(out@ =~= points@.take(i + 1));
        i += 1;
    }
    assert(points@.take(points.len() as int) =~= points@);
    out
}

/// The drawing records of the strokes, in order.
pub fn collect_drawings(drawings: &Vec<DrawingEntity>) -> (r: Vec<DrawingJsonNode<String>>)
    ensures
        drawing_views(r@) == snapshot_drawings(drawings@),
{
    let mut out: Vec<DrawingJsonNode<String>> = Vec::new();
    let mut i: usize = 0;
    while i < drawings.len()
        invariant
            i <= drawings.len(),
            out.len() == i,
            forall|j: int| 0 <= j < i ==> out[j]@ == drawing_record(drawings[j]),
        decreases drawings.len() - i,
    {
        let drawing = &drawings[i];
        out.push(
            DrawingJsonNode {
                x: drawing.x,
                y: drawing.y,
                z: drawing.z,
                id: drawing.id,
                points: copy_points(&drawing.points),
                drawing_color: drawing.drawing_color.clone(),
                width: drawing.line_width,
            },
        );
        i += 1;
    }
    assert(drawing_views(out@) =~= snapshot_drawings(drawings@));
    out
}

/// The node records of the text entities, in order; the text of each is
/// also written to the pending index changes, where indexing is on.
pub fn collect_nodes<A>(
    scene: &Scene<A>,
    request: &SaveTabRequest,
    search_index: &mut Option<SearchIndexState>,
) -> (r: Vec<JsonNode<String>>)
    requires
        scene.is_well_formed(),
    ensures
        node_views(r@) == snapshot_nodes(*scene),
        match *old(search_index) {
            None => final(search_index).is_none(),
            Some(before) => final(search_index).is_some() && final(search_index).unwrap()@
                == (SearchDelta {
                tabs_to_delete: before@.tabs_to_delete,
                node_updates: node_updates_after(
                    before@.node_updates,
                    request.doc_id,
                    request.tab_id,
                    scene.texts@,
                ),
            }),
        },
{
    let mut out: Vec<JsonNode<String>> = Vec::new();
    let mut i: usize = 0;
    while i < scene.texts.len()
        invariant
            i <= scene.texts.len(),
            scene.is_well_formed(),
            out.len() == i,
            forall|j: int| 0 <= j < i ==> out[j]@ == snapshot_nodes(*scene)[j],
            match *old(search_index) {
                None => search_index.is_none(),
                Some(before) => search_index.is_some() && search_index.unwrap()@ == (SearchDelta {
                    tabs_to_delete: before@.tabs_to_delete,
                    node_updates: node_updates_after(
                        before@.node_updates,
                        request.doc_id,
                        request.tab_id,
                        scene.texts@.take(i as int),
                    ),
                }),
            },
        decreases scene.texts.len() - i,
    {
        let text = &scene.texts[i];
        assert(crate::scene::text_is_anchored(scene.texts[i as int], scene.shapes@, scene.nodes@));
        let shape = &scene.shapes[find_shape(&scene.shapes, text.parent).unwrap()];
        let top = &scene.nodes[find_node(&scene.nodes, shape.parent).unwrap()];
        out.push(
            JsonNode {
                node_type: shape.node_type,
                id: text.id,
                x: top.x,
                y: top.y,
                z: top.z,
                width: text.width,
                height: text.height,
                bg_color: shape.pair_color.clone(),
                text: JsonNodeText { text: text.last_text.clone(), pos: text.text_pos },
            },
        );
        proof {
            assert(scene.texts@.take(i + 1).drop_last() =~= scene.texts@.take(i as int));
            assert(scene.texts@.take(i + 1).last() == scene.texts[i as int]);
        }
        match search_index {
            Some(index) => {
                index.node_updates.insert(
                    NodeSearchLocation {
                        doc_id: request.doc_id,
                        tab_id: request.tab_id,
                        node_id: text.id,
                    },
                    text.last_text.clone(),
                );
            },
            None => {},
        }
        i += 1;
    }
    assert(scene.texts@.take(scene.texts.len() as int) =~= scene.texts@);
    assert(node_views(out@) =~= snapshot_nodes(*scene));
    out
}

/// Builds the snapshot of the tab named in `request` from its scene, and
/// gathers the index changes that the save brings: the tab is marked for
/// deletion from the index and the text of every node is set to be written
/// again. Fails, with the node texts not gathered, where a background image
/// cannot be encoded. The documents are left as they are: the checkpoint is
/// recorded with [`record_checkpoint`](crate::checkpoints::record_checkpoint)
/// once the snapshot is serialized.
pub fn save_tab<A>(scene: Scene<A>, request: &SaveTabRequest, app_state: &mut AppState) -> (r:
    Result<Snapshot<A>, SnapshotError>)
    requires
        scene.is_well_formed(),
    ensures
        final(app_state).docs == old(app_state).docs,
        final(app_state).current_document == old(app_state).current_document,
        final(app_state).github_token == old(app_state).github_token,
        final(app_state)@.search_index == match old(app_state)@.search_index {
            None => None::<SearchDelta>,
            Some(delta) => Some(delta_after_save(delta, *request, scene.texts@, r.is_ok())),
        },
        match r {
            Ok(snapshot) => {
                &&& forall|i: int| 0 <= i < scene.texts.len() ==> !image_fails(scene.texts[i])
                &&& image_views(snapshot.images@) == snapshot_images(scene.texts@)
                &&& node_views(snapshot.nodes@) == snapshot_nodes(scene)
                &&& snapshot.arrows == scene.arrows
                &&& drawing_views(snapshot.drawings@) == snapshot_drawings(scene.drawings@)
            },
            Err(SnapshotError::ImageEncoding { node_id }) => exists|i: int|
                first_failure_at(scene.texts@, i) && node_id == scene.texts[i].id,
        },
{
    match &mut app_state.search_index {
        Some(index) => {
            index.mark_tab(request.tab_id);
        },
        None => {},
    }
    let images = match encode_images(&scene.texts) {
        Ok(images) => images,
        Err(e) => {
            return Err(e);
        },
    };
    let nodes = collect_nodes(&scene, request, &mut app_state.search_index);
    let drawings = collect_drawings(&scene.drawings);
    Ok(Snapshot { images, nodes, arrows: scene.arrows, drawings })
}

} // verus!
