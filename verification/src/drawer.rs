//! The frame translator and the cross-frame render state.
//!
//! `RenderState` models everything that survives across frames: the
//! buffer capacities, the vertex layout, the resolved attribute and
//! uniform locations of the shader program, and the identifiers of the
//! font-atlas textures. `Drawer` owns one frame's staging data — the
//! command list and the converted vertex and index bytes — together with
//! the converter settings and the null-texture descriptor, and turns the
//! staged commands into a draw plan.

use crate::command::{plan_draw, plan_spec, total_elems, DrawCall, DrawCommand};
use crate::layout::{vertex_layout_spec, VertexLayout};
use crate::options::DrawOptions;
use crate::projection::Projection;
use crate::scale::{unit_scale, Scale};
use vstd::prelude::*;

verus! {

/// Curve, arc and circle tessellation segment count of the converter.
pub const TESSELLATION_SEGMENTS: u32 = 22;

/// Component type of a vertex attribute.
#[derive(Clone, Copy, Debug, PartialEq, Eq, Structural)]
pub enum AttribComponentType {
    /// 32-bit float components.
    Float,
    /// Unsigned byte components.
    UnsignedByte,
}

/// One vertex-attribute binding of the draw setup.
#[derive(Clone, Copy, Debug, PartialEq, Eq, Structural)]
pub struct AttribBinding {
    /// Attribute location in the shader program.
    pub location: u32,
    /// Number of components read per vertex.
    pub components: u32,
    /// Component type.
    pub component_type: AttribComponentType,
    /// Whether integer components are normalized to `[0, 1]`.
    pub normalized: bool,
    /// Bytes from one vertex to the next.
    pub stride: usize,
    /// Byte offset of the attribute inside a vertex.
    pub offset: usize,
}

/// The converter's global settings, configured at the start of every
/// frame.
#[derive(Clone, Copy, Debug, PartialEq, Eq, Structural)]
pub struct ConvertSettings {
    /// Flat alpha applied to all geometry.
    pub global_alpha: Scale,
    /// Antialiasing for lines.
    pub line_aa: bool,
    /// Antialiasing for filled shapes.
    pub shape_aa: bool,
    /// Segments per tessellated circle.
    pub circle_segment_count: u32,
    /// Segments per tessellated arc.
    pub arc_segment_count: u32,
    /// Segments per tessellated curve.
    pub curve_segment_count: u32,
    /// Bytes of one converted vertex.
    pub vertex_size: usize,
}

/// The settings every frame begins with: flat alpha one, antialiasing on
/// for lines and shapes, fixed tessellation, and the packed vertex size.
pub open spec fn default_settings() -> ConvertSettings {
    ConvertSettings {
        global_alpha: unit_scale(),
        line_aa: true,
        shape_aa: true,
        circle_segment_count: TESSELLATION_SEGMENTS,
        arc_segment_count: TESSELLATION_SEGMENTS,
        curve_segment_count: TESSELLATION_SEGMENTS,
        vertex_size: vertex_layout_spec().stride,
    }
}

/// Build the settings every frame begins with.
pub fn default_convert_settings() -> (s: ConvertSettings)
    ensures
        s == default_settings(),
{
    let layout = VertexLayout::new();
    ConvertSettings {
        global_alpha: Scale::one(),
        line_aa: true,
        shape_aa: true,
        circle_segment_count: TESSELLATION_SEGMENTS,
        arc_segment_count: TESSELLATION_SEGMENTS,
        curve_segment_count: TESSELLATION_SEGMENTS,
        vertex_size: layout.stride,
    }
}

/// The reserved texture reference the converter uses for texture-less
/// geometry.
#[derive(Clone, Copy, Debug, PartialEq, Eq, Structural)]
pub struct NullTexture {
    /// Identifier of the texture a texture-less command samples.
    pub texture: i32,
}

/// Everything that survives across frames.
#[derive(Debug)]
pub struct RenderState {
    /// Capacity of the device vertex buffer, in bytes.
    pub max_vertex_bytes: usize,
    /// Capacity of the device index buffer, in bytes.
    pub max_index_bytes: usize,
    /// The packed vertex layout.
    pub layout: VertexLayout,
    /// Resolved location of the position attribute; absent when the
    /// program does not define it, and then never bound.
    pub position_aloc: Option<u32>,
    /// Resolved location of the texture-coordinate attribute.
    pub texcoord_aloc: Option<u32>,
    /// Resolved location of the color attribute.
    pub color_aloc: Option<u32>,
    /// Resolved location of the projection-matrix uniform.
    pub mvp_uloc: Option<u32>,
    /// Resolved location of the texture-sampler uniform.
    pub texture_uloc: Option<u32>,
    /// Identifiers of the font-atlas textures, in creation order.
    pub font_texture_ids: Vec<u32>,
}

/// The attribute bindings a render state asks for: position, texture
/// coordinate and color, in that order, each bound at its layout offset
/// with the layout's stride — and each skipped when its location is
/// absent, so an unresolved name disables that attribute instead of
/// binding a bogus location.
pub open spec fn bindings_spec(s: RenderState) -> Seq<AttribBinding> {
    let position = match s.position_aloc {
        Some(loc) => seq![
            AttribBinding {
                location: loc,
                components: 2,
                component_type: AttribComponentType::Float,
                normalized: false,
                stride: s.layout.stride,
                offset: s.layout.position_offset,
            },
        ],
        None => Seq::empty(),
    };
    let texcoord = match s.texcoord_aloc {
        Some(loc) => seq![
            AttribBinding {
                location: loc,
                components: 2,
                component_type: AttribComponentType::Float,
                normalized: false,
                stride: s.layout.stride,
                offset: s.layout.texcoord_offset,
            },
        ],
        None => Seq::empty(),
    };
    let color = match s.color_aloc {
        Some(loc) => seq![
            AttribBinding {
                location: loc,
                components: 4,
                component_type: AttribComponentType::UnsignedByte,
                normalized: true,
                stride: s.layout.stride,
                offset: s.layout.color_offset,
            },
        ],
        None => Seq::empty(),
    };
    position + texcoord + color
}

impl RenderState {
    /// A fresh render state for device buffers of the given byte
    /// capacities: layout computed, no locations resolved yet, no font
    /// textures.
    pub fn new(max_vertex_buffer: usize, max_element_buffer: usize) -> (s: RenderState)
        ensures
            s.max_vertex_bytes == max_vertex_buffer,
            s.max_index_bytes == max_element_buffer,
            s.layout == vertex_layout_spec(),
            s.position_aloc == None::<u32>,
            s.texcoord_aloc == None::<u32>,
            s.color_aloc == None::<u32>,
            s.mvp_uloc == None::<u32>,
            s.texture_uloc == None::<u32>,
            s.font_texture_ids@ == Seq::<u32>::empty(),
    {
        RenderState {
            max_vertex_bytes: max_vertex_buffer,
            max_index_bytes: max_element_buffer,
            layout: VertexLayout::new(),
            position_aloc: None,
            texcoord_aloc: None,
            color_aloc: None,
            mvp_uloc: None,
            texture_uloc: None,
            font_texture_ids: Vec::new(),
        }
    }

    /// Record the attribute and uniform locations resolved from the
    /// compiled shader program; an absent name stays absent.
    pub fn set_locations(
        &mut self,
        position: Option<u32>,
        texcoord: Option<u32>,
        color: Option<u32>,
        mvp: Option<u32>,
        texture: Option<u32>,
    )
        ensures
            final(self).position_aloc == position,
            final(self).texcoord_aloc == texcoord,
            final(self).color_aloc == color,
            final(self).mvp_uloc == mvp,
            final(self).texture_uloc == texture,
            final(self).max_vertex_bytes == old(self).max_vertex_bytes,
            final(self).max_index_bytes == old(self).max_index_bytes,
            final(self).layout == old(self).layout,
            final(self).font_texture_ids@ == old(self).font_texture_ids@,
    {
        self.position_aloc = position;
        self.texcoord_aloc = texcoord;
        self.color_aloc = color;
        self.mvp_uloc = mvp;
        self.texture_uloc = texture;
    }

    /// Record a new font-atlas texture and hand back its reference.
    /// The reference's integer value equals the texture identifier —
    /// an identity the geometry converter relies on when it later names
    /// the texture in a draw command.
    pub fn add_font_texture(&mut self, tex_id: u32) -> (handle: i32)
        requires
            tex_id <= i32::MAX as u32,
        ensures
            handle == tex_id as i32,
            final(self).font_texture_ids@ == old(self).font_texture_ids@.push(tex_id),
            final(self).max_vertex_bytes == old(self).max_vertex_bytes,
            final(self).max_index_bytes == old(self).max_index_bytes,
            final(self).layout == old(self).layout,
            final(self).position_aloc == old(self).position_aloc,
            final(self).texcoord_aloc == old(self).texcoord_aloc,
            final(self).color_aloc == old(self).color_aloc,
            final(self).mvp_uloc == old(self).mvp_uloc,
            final(self).texture_uloc == old(self).texture_uloc,
    {
        self.font_texture_ids.push(tex_id);
        tex_id as i32
    }

    /// The vertex-attribute bindings to install before the draw loop.
    pub fn attrib_bindings(&self) -> (v: Vec<AttribBinding>)
        ensures
            v@ == bindings_spec(*self),
    {
        let mut v: Vec<AttribBinding> = Vec::new();
        if let Some(loc) = self.position_aloc {
            v.push(
                AttribBinding {
                    location: loc,
                    components: 2,
                    component_type: AttribComponentType::Float,
                    normalized: false,
                    stride: self.layout.stride,
                    offset: self.layout.position_offset,
                },
            );
        }
        if let Some(loc) = self.texcoord_aloc {
            v.push(
                AttribBinding {
                    location: loc,
                    components: 2,
                    component_type: AttribComponentType::Float,
                    normalized: false,
                    stride: self.layout.stride,
                    offset: self.layout.texcoord_offset,
                },
            );
        }
        if let Some(loc) = self.color_aloc {
            v.push(
                AttribBinding {
                    location: loc,
                    components: 4,
                    component_type: AttribComponentType::UnsignedByte,
                    normalized: true,
                    stride: self.layout.stride,
                    offset: self.layout.color_offset,
                },
            );
        }
        proof {
            assert(v@ =~= bindings_spec(*self));
        }
        v
    }
}

/// The spec-level image of a drawer: staging contents as sequences,
/// everything else as it stands.
#[verifier::ext_equal]
pub struct DrawerModel {
    /// Cross-frame render state.
    pub state: RenderState,
    /// Converter settings.
    pub settings: ConvertSettings,
    /// Null-texture descriptor.
    pub null: NullTexture,
    /// Staged draw commands.
    pub commands: Seq<DrawCommand>,
    /// Staged converted vertex bytes.
    pub vertex_data: Seq<u8>,
    /// Staged converted index bytes.
    pub index_data: Seq<u8>,
}

/// What beginning a frame does to a drawer: the staging buffers are
/// truncated to empty and the converter settings are reset; the render
/// state and the null texture stay.
pub open spec fn begin_frame_spec(m: DrawerModel) -> DrawerModel {
    DrawerModel {
        commands: Seq::empty(),
        vertex_data: Seq::empty(),
        index_data: Seq::empty(),
        settings: default_settings(),
        ..m
    }
}

/// Law: beginning a frame is idempotent — a second reset with nothing
/// staged in between changes nothing.
pub proof fn lemma_begin_frame_idempotent(m: DrawerModel)
    ensures
        begin_frame_spec(begin_frame_spec(m)) == begin_frame_spec(m),
{
    assert(begin_frame_spec(begin_frame_spec(m)) =~= begin_frame_spec(m));
}

/// The per-frame translator.
pub struct Drawer {
    /// Cross-frame render state.
    pub state: RenderState,
    /// Converter settings of the current frame.
    pub settings: ConvertSettings,
    /// Null-texture descriptor handed to the converter.
    pub null: NullTexture,
    /// Staging buffer of draw commands, filled by the converter.
    pub commands: Vec<DrawCommand>,
    /// Staging buffer of converted vertex bytes.
    pub vertex_data: Vec<u8>,
    /// Staging buffer of converted index bytes.
    pub index_data: Vec<u8>,
}

impl Drawer {
    /// The drawer's spec-level image.
    pub open spec fn model(self) -> DrawerModel {
        DrawerModel {
            state: self.state,
            settings: self.settings,
            null: self.null,
            commands: self.commands@,
            vertex_data: self.vertex_data@,
            index_data: self.index_data@,
        }
    }

    /// A fresh drawer for device buffers of the given byte capacities:
    /// empty staging, default converter settings, a zero null texture
    /// and a fresh render state.
    pub fn new(max_vertex_buffer: usize, max_element_buffer: usize) -> (d: Drawer)
        ensures
            d.state.max_vertex_bytes == max_vertex_buffer,
            d.state.max_index_bytes == max_element_buffer,
            d.state.layout == vertex_layout_spec(),
            d.state.position_aloc == None::<u32>,
            d.state.texcoord_aloc == None::<u32>,
            d.state.color_aloc == None::<u32>,
            d.state.mvp_uloc == None::<u32>,
            d.state.texture_uloc == None::<u32>,
            d.state.font_texture_ids@ == Seq::<u32>::empty(),
            d.settings == default_settings(),
            d.null == (NullTexture { texture: 0 }),
            d.commands@ == Seq::<DrawCommand>::empty(),
            d.vertex_data@ == Seq::<u8>::empty(),
            d.index_data@ == Seq::<u8>::empty(),
    {
        Drawer {
            state: RenderState::new(max_vertex_buffer, max_element_buffer),
            settings: default_convert_settings(),
            null: NullTexture { texture: 0 },
            commands: Vec::new(),
            vertex_data: Vec::new(),
            index_data: Vec::new(),
        }
    }

    /// Begin a frame: truncate the staging buffers to empty (their
    /// capacity is retained) and reset the converter settings.
    pub fn begin_frame(&mut self)
        ensures
            final(self).model() == begin_frame_spec(old(self).model()),
    {
        self.commands.clear();
        self.vertex_data.clear();
        self.index_data.clear();
        self.settings = default_convert_settings();
        proof {
            assert(final(self).model() =~= begin_frame_spec(old(self).model()));
        }
    }

    /// Stage one frame's converted geometry: the command list and the
    /// packed vertex and index bytes the converter produced.
    pub fn load_converted(
        &mut self,
        commands: Vec<DrawCommand>,
        vertex_data: Vec<u8>,
        index_data: Vec<u8>,
    )
        ensures
            final(self).commands@ == commands@,
            final(self).vertex_data@ == vertex_data@,
            final(self).index_data@ == index_data@,
            final(self).state == old(self).state,
            final(self).settings == old(self).settings,
            final(self).null == old(self).null,
    {
        self.commands = commands;
        self.vertex_data = vertex_data;
        self.index_data = index_data;
    }

    /// The byte counts to copy from the staging buffers into the device
    /// buffers: a partial overwrite from offset zero of exactly the
    /// staged content.
    pub fn upload_lengths(&self) -> (r: (usize, usize))
        ensures
            r.0 == self.vertex_data@.len(),
            r.1 == self.index_data@.len(),
    {
        (self.vertex_data.len(), self.index_data.len())
    }

    /// Translate the staged command list into this frame's draw plan.
    pub fn draw(&self, options: &DrawOptions) -> (plan: Vec<DrawCall>)
        requires
            options.wf(),
            total_elems(self.commands@) <= u64::MAX,
        ensures
            plan@ == plan_spec(self.commands@, *options, 0),
    {
        plan_draw(&self.commands, options)
    }

    /// Translate the staged command list into this frame's draw plan,
    /// or nothing when the staged element counts exceed the 64-bit
    /// index cursor.
    pub fn try_draw(&self, options: &DrawOptions) -> (r: Option<Vec<DrawCall>>)
        requires
            options.wf(),
        ensures
            match r {
                Some(plan) => total_elems(self.commands@) <= u64::MAX && plan@ == plan_spec(
                    self.commands@,
                    *options,
                    0,
                ),
                None => total_elems(self.commands@) > u64::MAX,
            },
    {
        match crate::command::checked_total(&self.commands) {
            Some(_) => Some(plan_draw(&self.commands, options)),
            None => None,
        }
    }

    /// The device-pixel scissor bounds of one command's clip rectangle.
    pub fn clip_rect(&self, rect: &crate::clip::RectL, options: &DrawOptions) -> (s:
        crate::clip::Scissor)
        requires
            options.wf(),
        ensures
            s == crate::clip::scissor_spec(*rect, *options),
    {
        crate::clip::compute_scissor(rect, options)
    }

    /// The projection of a frame with the given options.
    pub fn get_projection(&self, options: &DrawOptions) -> (p: Projection)
        requires
            options.wf(),
        ensures
            p.eff_width as int == crate::numeric::scaled_ceil(
                options.display_width as int,
                crate::options::fx_num(*options),
                crate::options::fx_den(*options),
            ),
            p.eff_height as int == crate::numeric::scaled_ceil(
                options.display_height as int,
                crate::options::fy_num(*options),
                crate::options::fy_den(*options),
            ),
            p.wf(),
    {
        Projection::from_options(options)
    }

    /// Record a new font-atlas texture and hand back its reference,
    /// whose integer value equals the texture identifier.
    pub fn add_font_texture(&mut self, tex_id: u32) -> (handle: i32)
        requires
            tex_id <= i32::MAX as u32,
        ensures
            handle == tex_id as i32,
            final(self).state.font_texture_ids@ == old(self).state.font_texture_ids@.push(tex_id),
            final(self).state.max_vertex_bytes == old(self).state.max_vertex_bytes,
            final(self).state.max_index_bytes == old(self).state.max_index_bytes,
            final(self).state.layout == old(self).state.layout,
            final(self).state.position_aloc == old(self).state.position_aloc,
            final(self).state.texcoord_aloc == old(self).state.texcoord_aloc,
            final(self).state.color_aloc == old(self).state.color_aloc,
            final(self).state.mvp_uloc == old(self).state.mvp_uloc,
            final(self).state.texture_uloc == old(self).state.texture_uloc,
            final(self).settings == old(self).settings,
            final(self).null == old(self).null,
            final(self).commands@ == old(self).commands@,
            final(self).vertex_data@ == old(self).vertex_data@,
            final(self).index_data@ == old(self).index_data@,
    {
        self.state.add_font_texture(tex_id)
    }

    /// The null-texture descriptor.
    pub fn get_null(&self) -> (n: &NullTexture)
        ensures
            n == &self.null,
    {
        &self.null
    }

    /// The null-texture descriptor, for the atlas bake step to fill in.
    pub fn get_null_mut(&mut self) -> (n: &mut NullTexture)
        ensures
            *n == old(self).null,
            final(self).null == *final(n),
            final(self).state == old(self).state,
            final(self).settings == old(self).settings,
            final(self).commands@ == old(self).commands@,
            final(self).vertex_data@ == old(self).vertex_data@,
            final(self).index_data@ == old(self).index_data@,
    {
        &mut self.null
    }

    /// The staged command list.
    pub fn staged_commands(&self) -> (v: &Vec<DrawCommand>)
        ensures
            v == &self.commands,
    {
        &self.commands
    }

    /// The staged vertex bytes.
    pub fn vertex_staging(&self) -> (v: &Vec<u8>)
        ensures
            v == &self.vertex_data,
    {
        &self.vertex_data
    }

    /// The staged index bytes.
    pub fn index_staging(&self) -> (v: &Vec<u8>)
        ensures
            v == &self.index_data,
    {
        &self.index_data
    }
}

} // verus!
