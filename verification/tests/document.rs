use std::collections::VecDeque;

use velo::{Doc, JsonNode, JsonNodeText, NodeType, Scalar, Tab, TextPos};

#[test]
fn defaults_stand_in_for_what_a_record_leaves_out() {
    assert_eq!(NodeType::default(), NodeType::Rect);
    assert_eq!(TextPos::default(), TextPos::Center);
    let text = JsonNodeText::default();
    assert_eq!(text.text, "");
    assert_eq!(text.pos, TextPos::Center);
    let node: JsonNode<(String, u32)> = JsonNode::default();
    assert_eq!(node.id, 0);
    assert_eq!(node.node_type, NodeType::Rect);
    assert_eq!(f32::from_bits(node.x.to_bits()), 0.0);
    assert_eq!(f32::from_bits(node.width.to_bits()), 0.0);
    assert_eq!(node.text.text, "");
    assert_eq!(node.text.pos, TextPos::Center);
    assert_eq!(node.bg_color, (String::new(), 0));
}

#[test]
fn a_scalar_keeps_every_bit_of_its_number() {
    for value in [0.0f32, -0.0, 1.5, -273.15, f32::MAX, f32::MIN_POSITIVE, f32::INFINITY] {
        let scalar = Scalar::from_bits(value.to_bits());
        assert_eq!(scalar.to_bits(), value.to_bits());
        assert_eq!(f32::from_bits(scalar.to_bits()).to_bits(), value.to_bits());
    }
    let nan = Scalar::from_bits(f32::NAN.to_bits());
    assert!(f32::from_bits(nan.to_bits()).is_nan());
    assert_eq!(Scalar::default().to_bits(), 0);
}

#[test]
fn a_copy_of_a_document_holds_the_same_values() {
    let doc = Doc {
        id: 7,
        name: "notes".to_string(),
        tags: vec!["a".to_string(), "b".to_string()],
        tabs: vec![
            Tab {
                id: 8,
                name: "first".to_string(),
                checkpoints: VecDeque::from(vec!["one".to_string(), "two".to_string()]),
                is_active: false,
                z_index: Scalar::from_bits(1f32.to_bits()),
            },
            Tab {
                id: 9,
                name: "second".to_string(),
                checkpoints: VecDeque::new(),
                is_active: true,
                z_index: Scalar::from_bits(2f32.to_bits()),
            },
        ],
    };
    let copy = doc.clone();
    assert_eq!(copy.id, 7);
    assert_eq!(copy.name, "notes");
    assert_eq!(copy.tags, doc.tags);
    assert_eq!(copy.tabs.len(), 2);
    for (mine, theirs) in copy.tabs.iter().zip(&doc.tabs) {
        assert_eq!(mine.id, theirs.id);
        assert_eq!(mine.name, theirs.name);
        assert_eq!(mine.checkpoints, theirs.checkpoints);
        assert_eq!(mine.is_active, theirs.is_active);
        assert_eq!(mine.z_index, theirs.z_index);
    }
    let text = JsonNodeText { text: "t".to_string(), pos: TextPos::TopLeft };
    let again = text.clone();
    assert_eq!(again.text, "t");
    assert_eq!(again.pos, TextPos::TopLeft);
}
