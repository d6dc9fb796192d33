use slime_sim::render::vertex_arrays::{AttribPointer, AttributeDescription, AttributeLayout};
use slime_sim::render::GlDataType;

#[test]
fn screen_quad_layout() {
    // position and texture coordinate, two floats each
    let mut layout = AttributeLayout::new();
    layout.vector(GlDataType::Float, 2);
    layout.vector(GlDataType::Float, 2);
    assert_eq!(layout.stride(), 16);
    assert_eq!(layout.len(), 2);
    let pointers = layout.pointers().unwrap();
    assert_eq!(
        pointers,
        vec![
            AttribPointer {
                index: 0,
                size: 2,
                kind: GlDataType::Float,
                normalized: false,
                stride: 16,
                offset: 0,
            },
            AttribPointer {
                index: 1,
                size: 2,
                kind: GlDataType::Float,
                normalized: false,
                stride: 16,
                offset: 8,
            },
        ]
    );
}

#[test]
fn builders_chain_and_record_attributes() {
    let mut layout = AttributeLayout::new();
    layout
        .number(GlDataType::UnsignedByte)
        .number_normalized(GlDataType::Short)
        .vector(GlDataType::Double, 3);
    assert_eq!(layout.stride(), 1 + 2 + 24);
    assert_eq!(
        layout.attribute(0),
        AttributeDescription { kind: GlDataType::UnsignedByte, number: 1, normalized: false }
    );
    assert_eq!(
        layout.attribute(1),
        AttributeDescription { kind: GlDataType::Short, number: 1, normalized: true }
    );
    assert_eq!(
        layout.attribute(2),
        AttributeDescription { kind: GlDataType::Double, number: 3, normalized: false }
    );
    let offsets: Vec<usize> = layout.pointers().unwrap().iter().map(|p| p.offset).collect();
    assert_eq!(offsets, vec![0, 1, 3]);
}

#[test]
fn vector_normalized_grows_stride_by_one_component() {
    let mut layout = AttributeLayout::new();
    layout.vector_normalized(GlDataType::Float, 3);
    layout.number(GlDataType::Int);
    // the stride counts one float for the normalized vector ...
    assert_eq!(layout.stride(), 4 + 4);
    // ... while the offsets count all three of its components
    let pointers = layout.pointers().unwrap();
    assert_eq!(pointers[1].offset, 12);
    assert_eq!(pointers[1].stride, 8);
    assert!(pointers[0].normalized);
}

#[test]
fn empty_layout_has_no_pointers() {
    let layout = AttributeLayout::new();
    assert_eq!(layout.stride(), 0);
    assert_eq!(layout.pointers(), Some(vec![]));
}

#[test]
fn pointers_refuse_a_layout_too_large_to_address() {
    let mut layout = AttributeLayout::new();
    layout.vector_normalized(GlDataType::Double, usize::MAX);
    assert_eq!(layout.stride(), 8);
    assert_eq!(layout.pointers(), None);
}
