//! The document model: documents, tabs, and the node, drawing and text
//! records that a tab snapshot is made of.

use std::collections::VecDeque;
use vstd::prelude::*;

verus! {

/// A single-precision number held by its IEEE-754 bit pattern. The library
/// carries geometry through without doing arithmetic on it.
#[derive(Clone, Copy, Debug, PartialEq, Eq, Structural)]
pub struct Scalar {
    pub bits: u32,
}

impl Scalar {
    /// The scalar with the given bit pattern.
    pub fn from_bits(bits: u32) -> (r: Scalar)
        ensures
            r.bits == bits,
    {
        Scalar { bits }
    }

    /// The bit pattern of the scalar.
    pub fn to_bits(&self) -> (r: u32)
        ensures
            r == self.bits,
    {
        self.bits
    }
}

impl Default for Scalar {
    /// Positive zero.
    fn default() -> (r: Scalar)
        ensures
            r.bits == 0,
    {
        Scalar { bits: 0 }
    }
}

/// The outline a node is drawn with.
#[derive(Clone, Copy, Debug, PartialEq, Eq, Structural)]
pub enum NodeType {
    Rect,
    Paper,
    Circle,
}

impl Default for NodeType {
    fn default() -> (r: NodeType)
        ensures
            r == NodeType::Rect,
    {
        NodeType::Rect
    }
}

/// Where a node's text is anchored.
#[derive(Clone, Copy, Debug, PartialEq, Eq, Structural)]
pub enum TextPos {
    Center,
    TopLeft,
}

impl Default for TextPos {
    fn default() -> (r: TextPos)
        ensures
            r == TextPos::Center,
    {
        TextPos::Center
    }
}

/// The text of a node and its anchoring.
#[derive(Debug)]
pub struct JsonNodeText {
    pub text: String,
    pub pos: TextPos,
}

/// Mathematical model of a [`JsonNodeText`].
pub struct JsonNodeTextView {
    pub text: Seq<char>,
    pub pos: TextPos,
}

impl View for JsonNodeText {
    type V = JsonNodeTextView;

    open spec fn view(&self) -> JsonNodeTextView {
        JsonNodeTextView { text: self.text@, pos: self.pos }
    }
}

impl Clone for JsonNodeText {
    fn clone(&self) -> (r: JsonNodeText)
        ensures
            r@ == self@,
    {
        JsonNodeText { text: self.text.clone(), pos: self.pos }
    }
}

impl Default for JsonNodeText {
    fn default() -> (r: JsonNodeText)
        ensures
            r@.text == Seq::<char>::empty(),
            r@.pos == TextPos::Center,
    {
        JsonNodeText { text: String::new(), pos: TextPos::Center }
    }
}

/// One node of a tab snapshot. `T` is the background styling value.
#[derive(Debug)]
pub struct JsonNode<T> {
    pub id: u128,
    pub node_type: NodeType,
    pub x: Scalar,
    pub y: Scalar,
    pub z: Scalar,
    pub width: Scalar,
    pub height: Scalar,
    pub text: JsonNodeText,
    pub bg_color: T,
}

impl<T: Default> Default for JsonNode<T> {
    /// The node with the nil id, the rectangular outline, zero geometry,
    /// empty centered text and the default background.
    fn default() -> (r: JsonNode<T>)
        ensures
            r.id == 0,
            r.node_type == NodeType::Rect,
            r.x.bits == 0 && r.y.bits == 0 && r.z.bits == 0,
            r.width.bits == 0 && r.height.bits == 0,
            r.text@.text == Seq::<char>::empty(),
            r.text@.pos == TextPos::Center,
    {
        JsonNode {
            id: 0,
            node_type: NodeType::default(),
            x: Scalar::default(),
            y: Scalar::default(),
            z: Scalar::default(),
            width: Scalar::default(),
            height: Scalar::default(),
            text: JsonNodeText::default(),
            bg_color: T::default(),
        }
    }
}

/// Mathematical model of a [`JsonNode`].
pub struct JsonNodeView<C> {
    pub id: u128,
    pub node_type: NodeType,
    pub x: Scalar,
    pub y: Scalar,
    pub z: Scalar,
    pub width: Scalar,
    pub height: Scalar,
    pub text: Seq<char>,
    pub pos: TextPos,
    pub bg_color: C,
}

impl<T: View> View for JsonNode<T> {
    type V = JsonNodeView<T::V>;

    open spec fn view(&self) -> JsonNodeView<T::V> {
        JsonNodeView {
            id: self.id,
            node_type: self.node_type,
            x: self.x,
            y: self.y,
            z: self.z,
            width: self.width,
            height: self.height,
            text: self.text.text@,
            pos: self.text.pos,
            bg_color: self.bg_color@,
        }
    }
}

/// One freehand stroke of a tab snapshot. `T` is the stroke's color value.
#[derive(Debug)]
pub struct DrawingJsonNode<T> {
    pub x: Scalar,
    pub y: Scalar,
    pub z: Scalar,
    pub id: u128,
    pub points: Vec<(Scalar, Scalar)>,
    pub drawing_color: T,
    pub width: Scalar,
}

/// Mathematical model of a [`DrawingJsonNode`].
pub struct DrawingJsonNodeView<C> {
    pub x: Scalar,
    pub y: Scalar,
    pub z: Scalar,
    pub id: u128,
    pub points: Seq<(Scalar, Scalar)>,
    pub drawing_color: C,
    pub width: Scalar,
}

impl<T: View> View for DrawingJsonNode<T> {
    type V = DrawingJsonNodeView<T::V>;

    open spec fn view(&self) -> DrawingJsonNodeView<T::V> {
        DrawingJsonNodeView {
            x: self.x,
            y: self.y,
            z: self.z,
            id: self.id,
            points: self.points@,
            drawing_color: self.drawing_color@,
            width: self.width,
        }
    }
}

/// A sub-canvas of a document, with its own checkpoint history.
#[derive(Debug)]
pub struct Tab {
    pub id: u128,
    pub name: String,
    pub checkpoints: VecDeque<String>,
    pub is_active: bool,
    pub z_index: Scalar,
}

/// Mathematical model of a [`Tab`].
pub struct TabView {
    pub id: u128,
    pub name: Seq<char>,
    pub checkpoints: Seq<Seq<char>>,
    pub is_active: bool,
    pub z_index: Scalar,
}

impl View for Tab {
    type V = TabView;

    open spec fn view(&self) -> TabView {
        TabView {
            id: self.id,
            name: self.name@,
            checkpoints: self.checkpoints.deep_view(),
            is_active: self.is_active,
            z_index: self.z_index,
        }
    }
}

/// The models of a sequence of tabs, in order.
pub open spec fn tab_views(tabs: Seq<Tab>) -> Seq<TabView> {
    Seq::new(tabs.len(), |i: int| tabs[i]@)
}

/// A top-level persisted unit: a name, tags and an ordered list of tabs.
#[derive(Debug)]
pub struct Doc {
    pub id: u128,
    pub name: String,
    pub tabs: Vec<Tab>,
    pub tags: Vec<String>,
}

/// Mathematical model of a [`Doc`].
pub struct DocView {
    pub id: u128,
    pub name: Seq<char>,
    pub tabs: Seq<TabView>,
    pub tags: Seq<Seq<char>>,
}

impl View for Doc {
    type V = DocView;

    open spec fn view(&self) -> DocView {
        DocView {
            id: self.id,
            name: self.name@,
            tabs: tab_views(self.tabs@),
            tags: self.tags.deep_view(),
        }
    }
}

/// A copy of a list of strings, text for text.
pub fn clone_strings(items: &Vec<String>) -> (r: Vec<String>)
    ensures
        r.deep_view() == items.deep_view(),
{
    let mut out: Vec<String> = Vec::new();
    let mut i: usize = 0;
    while i < items.len()
        invariant
            i <= items.len(),
            out.len() == i,
            forall|j: int| 0 <= j < i ==> out[j]@ == items[j]@,
        decreases items.len() - i,
    {
        out.push(items[i].clone());
        i += 1;
    }
    assert(out.deep_view() =~= items.deep_view());
    out
}

impl Clone for Tab {
    fn clone(&self) -> (r: Tab)
        ensures
            r@ == self@,
    {
        broadcast use vstd::std_specs::vecdeque::group_vec_dequeue_axioms;

        let mut checkpoints: VecDeque<String> = VecDeque::new();
        let mut i: usize = 0;
        while i < self.checkpoints.len()
            invariant
                i <= self.checkpoints.len(),
                checkpoints.len() == i,
                forall|j: int| 0 <= j < i ==> checkpoints@[j]@ == self.checkpoints@[j]@,
            decreases self.checkpoints.len() - i,
        {
            checkpoints.push_back(self.checkpoints[i].clone());
            i += 1;
        }
        assert(checkpoints.deep_view() =~= self.checkpoints.deep_view());
        Tab {
            id: self.id,
            name: self.name.clone(),
            checkpoints,
            is_active: self.is_active,
            z_index: self.z_index,
        }
    }
}

impl Clone for Doc {
    fn clone(&self) -> (r: Doc)
        ensures
            r@ == self@,
    {
        let mut tabs: Vec<Tab> = Vec::new();
        let mut i: usize = 0;
        while i < self.tabs.len()
            invariant
                i <= self.tabs.len(),
                tabs.len() == i,
                forall|j: int| 0 <= j < i ==> tabs[j]@ == self.tabs[j]@,
            decreases self.tabs.len() - i,
        {
            tabs.push(self.tabs[i].clone());
            i += 1;
        }
        assert(tab_views(tabs@) =~= tab_views(self.tabs@));
        Doc { id: self.id, name: self.name.clone(), tabs, tags: clone_strings(&self.tags) }
    }
}

} // verus!
