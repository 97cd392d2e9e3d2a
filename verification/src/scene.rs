//! The live scene as the snapshot builder reads it: the visual entities of
//! one tab, held as plain values.

use crate::document::{NodeType, Scalar, TextPos};
use crate::encoding::RasterImage;
use vstd::prelude::*;

verus! {

/// A text-bearing entity: the text of a node, its editor's size and
/// anchoring, and the entity of the shape that owns it.
#[derive(Debug)]
pub struct TextEntity {
    pub id: u128,
    pub last_text: String,
    pub parent: u64,
    pub width: Scalar,
    pub height: Scalar,
    pub text_pos: TextPos,
    pub bg_image: Option<RasterImage>,
}

/// A shape entity: the outline and color of a node, and the entity of the
/// top-level node that owns it.
#[derive(Debug)]
pub struct ShapeEntity {
    pub entity: u64,
    pub parent: u64,
    pub node_type: NodeType,
    pub pair_color: String,
}

/// A top-level node entity and its position on the canvas.
#[derive(Debug)]
pub struct NodeEntity {
    pub entity: u64,
    pub x: Scalar,
    pub y: Scalar,
    pub z: Scalar,
}

/// A freehand stroke: its position, its path, its color and its line width.
#[derive(Debug)]
pub struct DrawingEntity {
    pub id: u128,
    pub x: Scalar,
    pub y: Scalar,
    pub z: Scalar,
    pub points: Vec<(Scalar, Scalar)>,
    pub drawing_color: String,
    pub line_width: Scalar,
}

/// The visual entities of one tab. `A` is the arrow record, which the
/// library carries through untouched.
#[derive(Debug)]
pub struct Scene<A> {
    pub texts: Vec<TextEntity>,
    pub shapes: Vec<ShapeEntity>,
    pub nodes: Vec<NodeEntity>,
    pub arrows: Vec<A>,
    pub drawings: Vec<DrawingEntity>,
}

/// `i` is the position of the first shape with the given entity.
pub open spec fn shape_at(shapes: Seq<ShapeEntity>, entity: u64, i: int) -> bool {
    &&& 0 <= i < shapes.len()
    &&& shapes[i].entity == entity
    &&& forall|j: int| 0 <= j < i ==> shapes[j].entity != entity
}

/// Some shape has the given entity.
pub open spec fn has_shape(shapes: Seq<ShapeEntity>, entity: u64) -> bool {
    exists|i: int| shape_at(shapes, entity, i)
}

/// The first shape with the given entity.
pub open spec fn shape_of(shapes: Seq<ShapeEntity>, entity: u64) -> ShapeEntity {
    shapes[choose|i: int| shape_at(shapes, entity, i)]
}

/// `i` is the position of the first top-level node with the given entity.
pub open spec fn node_at(nodes: Seq<NodeEntity>, entity: u64, i: int) -> bool {
    &&& 0 <= i < nodes.len()
    &&& nodes[i].entity == entity
    &&& forall|j: int| 0 <= j < i ==> nodes[j].entity != entity
}

/// Some top-level node has the given entity.
pub open spec fn has_node(nodes: Seq<NodeEntity>, entity: u64) -> bool {
    exists|i: int| node_at(nodes, entity, i)
}

/// The first top-level node with the given entity.
pub open spec fn node_of(nodes: Seq<NodeEntity>, entity: u64) -> NodeEntity {
    nodes[choose|i: int| node_at(nodes, entity, i)]
}

/// The text entity has a shape, and that shape has a top-level node.
pub open spec fn text_is_anchored(
    text: TextEntity,
    shapes: Seq<ShapeEntity>,
    nodes: Seq<NodeEntity>,
) -> bool {
    has_shape(shapes, text.parent) && has_node(nodes, shape_of(shapes, text.parent).parent)
}

/// The position of the first shape with the given entity.
pub fn find_shape(shapes: &Vec<ShapeEntity>, entity: u64) -> (r: Option<usize>)
    ensures
        match r {
            Some(i) => shape_at(shapes@, entity, i as int) && shapes[i as int] == shape_of(
                shapes@,
                entity,
            ),
            None => !has_shape(shapes@, entity),
        },
{
    let mut i: usize = 0;
    while i < shapes.len()
        invariant
            i <= shapes.len(),
            forall|j: int| 0 <= j < i ==> shapes[j].entity != entity,
        decreases shapes.len() - i,
    {
        if shapes[i].entity == entity {
            proof {
                let k = choose|k: int| shape_at(shapes@, entity, k);
                assert(shape_at(shapes@, entity, i as int));
                assert(k == i) by {
                    if k < i {
                        assert(shapes[k].entity != entity);
                    }
                }
            }
            return Some(i);
        }
        i += 1;
    }
    None
}

/// The position of the first top-level node with the given entity.
pub fn find_node(nodes: &Vec<NodeEntity>, entity: u64) -> (r: Option<usize>)
    ensures
        match r {
            Some(i) => node_at(nodes@, entity, i as int) && nodes[i as int] == node_of(
                nodes@,
                entity,
            ),
            None => !has_node(nodes@, entity),
        },
{
    let mut i: usize = 0;
    while i < nodes.len()
        invariant
            i <= nodes.len(),
            forall|j: int| 0 <= j < i ==> nodes[j].entity != entity,
        decreases nodes.len() - i,
    {
        if nodes[i].entity == entity {
            proof {
                let k = choose|k: int| node_at(nodes@, entity, k);
                assert(node_at(nodes@, entity, i as int));
                assert(k == i) by {
                    if k < i {
                        assert(nodes[k].entity != entity);
                    }
                }
            }
            return Some(i);
        }
        i += 1;
    }
    None
}

impl<A> Scene<A> {
    /// Every text entity has a shape parent and a top-level node above it.
    pub open spec fn spec_is_well_formed(&self) -> bool {
        forall|i: int|
            0 <= i < self.texts.len() ==> text_is_anchored(
                #[trigger] self.texts[i],
                self.shapes@,
                self.nodes@,
            )
    }

    /// Whether every text entity has a shape parent and a top-level node
    /// above it.
    #[verifier::when_used_as_spec(spec_is_well_formed)]
    pub fn is_well_formed(&self) -> (r: bool)
        ensures
            r == self.spec_is_well_formed(),
    {
        let mut i: usize = 0;
        while i < self.texts.len()
            invariant
                i <= self.texts.len(),
                forall|j: int|
                    0 <= j < i ==> text_is_anchored(
                        #[trigger] self.texts[j],
                        self.shapes@,
                        self.nodes@,
                    ),
            decreases self.texts.len() - i,
        {
            match find_shape(&self.shapes, self.texts[i].parent) {
                None => {
                    assert(!text_is_anchored(self.texts[i as int], self.shapes@, self.nodes@));
                    return false;
                },
                Some(s) => {
                    if find_node(&self.nodes, self.shapes[s].parent).is_none() {
                        assert(!text_is_anchored(self.texts[i as int], self.shapes@, self.nodes@));
                        return false;
                    }
                },
            }
            i += 1;
        }
        true
    }
}

} // verus!
