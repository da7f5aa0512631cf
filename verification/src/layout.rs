//! Byte layout of the packed hardware vertex record.
//!
//! A vertex is `{position: 2 x f32, texcoord: 2 x f32, color: 4 x u8}`,
//! packed with no padding. The stride and the per-field byte offsets are
//! computed once and reused both for every attribute binding and for
//! describing the target format to the geometry converter.

use vstd::prelude::*;

verus! {

/// Bytes of one 32-bit float component.
pub const FLOAT_BYTES: usize = 4;
/// Components in the position field.
pub const POSITION_COMPONENTS: usize = 2;
/// Components in the texture-coordinate field.
pub const TEXCOORD_COMPONENTS: usize = 2;
/// Components in the color field, one byte each.
pub const COLOR_COMPONENTS: usize = 4;

/// Stride and per-field byte offsets of the packed vertex record.
#[derive(Clone, Copy, Debug, PartialEq, Eq, Structural)]
pub struct VertexLayout {
    /// Byte offset of the position field.
    pub position_offset: usize,
    /// Byte offset of the texture-coordinate field.
    pub texcoord_offset: usize,
    /// Byte offset of the color field.
    pub color_offset: usize,
    /// Bytes from one vertex to the next; also the packed record size.
    pub stride: usize,
}

/// The one layout this backend uses: fields in declaration order,
/// each directly after the previous one.
pub open spec fn vertex_layout_spec() -> VertexLayout {
    VertexLayout {
        position_offset: 0,
        texcoord_offset: (POSITION_COMPONENTS * FLOAT_BYTES) as usize,
        color_offset: ((POSITION_COMPONENTS + TEXCOORD_COMPONENTS) * FLOAT_BYTES) as usize,
        stride: ((POSITION_COMPONENTS + TEXCOORD_COMPONENTS) * FLOAT_BYTES
            + COLOR_COMPONENTS) as usize,
    }
}

/// A layout is well formed when the fields stand in declaration order,
/// start at the record's first byte and fit inside the stride.
pub open spec fn layout_wf(l: VertexLayout) -> bool {
    l.position_offset == 0
        && l.position_offset < l.texcoord_offset
        && l.texcoord_offset < l.color_offset
        && l.color_offset < l.stride
}

impl VertexLayout {
    /// Compute the layout by accumulating the packed field sizes.
    pub fn new() -> (l: VertexLayout)
        ensures
            l == vertex_layout_spec(),
    {
        let position_offset: usize = 0;
        let texcoord_offset: usize = position_offset + POSITION_COMPONENTS * FLOAT_BYTES;
        let color_offset: usize = texcoord_offset + TEXCOORD_COMPONENTS * FLOAT_BYTES;
        let stride: usize = color_offset + COLOR_COMPONENTS;
        VertexLayout { position_offset, texcoord_offset, color_offset, stride }
    }
}

/// Law: the computed field offsets are strictly increasing, begin at zero
/// and stay below the stride, and the stride equals the packed size of the
/// three fields, so attribute bindings never alias and never read past a
/// vertex record.
pub proof fn lemma_vertex_layout_invariant()
    ensures
        layout_wf(vertex_layout_spec()),
        vertex_layout_spec().stride == POSITION_COMPONENTS * FLOAT_BYTES
            + TEXCOORD_COMPONENTS * FLOAT_BYTES + COLOR_COMPONENTS,
{
}

} // verus!
