//! The closed sets of values that the driver accepts for its enumerated
//! parameters. Each member stands for exactly one driver constant.

use vstd::prelude::*;
use crate::constants;

verus! {

/// A binding point for buffer objects.
#[derive(Debug, Clone, Copy, PartialEq, Eq, Structural)]
pub enum BufferTarget {
    ArrayBuffer,
    AtomicCounterBuffer,
    CopyReadBuffer,
    CopyWriteBuffer,
    DispatchIndirectBuffer,
    DrawIndirectBuffer,
    ElementArrayBuffer,
    PixelPackBuffer,
    PixelUnpackBuffer,
    QueryBuffer,
    ShaderStorageBuffer,
    TextureBuffer,
    TransformFeedbackBuffer,
    UniformBuffer,
}

impl BufferTarget {
    /// The driver constant that this member stands for.
    pub open spec fn gl_value(self) -> u32 {
        match self {
            BufferTarget::ArrayBuffer => 0x8892u32,
            BufferTarget::AtomicCounterBuffer => 0x92C0u32,
            BufferTarget::CopyReadBuffer => 0x8F36u32,
            BufferTarget::CopyWriteBuffer => 0x8F37u32,
            BufferTarget::DispatchIndirectBuffer => 0x90EEu32,
            BufferTarget::DrawIndirectBuffer => 0x8F3Fu32,
            BufferTarget::ElementArrayBuffer => 0x8893u32,
            BufferTarget::PixelPackBuffer => 0x88EBu32,
            BufferTarget::PixelUnpackBuffer => 0x88ECu32,
            BufferTarget::QueryBuffer => 0x9192u32,
            BufferTarget::ShaderStorageBuffer => 0x90D2u32,
            BufferTarget::TextureBuffer => 0x8C2Au32,
            BufferTarget::TransformFeedbackBuffer => 0x8C8Eu32,
            BufferTarget::UniformBuffer => 0x8A11u32,
        }
    }

    /// The driver constant to pass for this member.
    pub fn gl_enum(self) -> (r: u32)
        ensures
            r == self.gl_value(),
    {
        match self {
            BufferTarget::ArrayBuffer => constants::array_buffer(),
            BufferTarget::AtomicCounterBuffer => constants::atomic_counter_buffer(),
            BufferTarget::CopyReadBuffer => constants::copy_read_buffer(),
            BufferTarget::CopyWriteBuffer => constants::copy_write_buffer(),
            BufferTarget::DispatchIndirectBuffer => constants::dispatch_indirect_buffer(),
            BufferTarget::DrawIndirectBuffer => constants::draw_indirect_buffer(),
            BufferTarget::ElementArrayBuffer => constants::element_array_buffer(),
            BufferTarget::PixelPackBuffer => constants::pixel_pack_buffer(),
            BufferTarget::PixelUnpackBuffer => constants::pixel_unpack_buffer(),
            BufferTarget::QueryBuffer => constants::query_buffer(),
            BufferTarget::ShaderStorageBuffer => constants::shader_storage_buffer(),
            BufferTarget::TextureBuffer => constants::texture_buffer(),
            BufferTarget::TransformFeedbackBuffer => constants::transform_feedback_buffer(),
            BufferTarget::UniformBuffer => constants::uniform_buffer(),
        }
    }

    /// The member that stands for a driver constant, or `None` where no
    /// member does.
    pub open spec fn from_gl_value(value: u32) -> Option<BufferTarget> {
        if value == 0x8892u32 {
            Some(BufferTarget::ArrayBuffer)
        } else if value == 0x92C0u32 {
            Some(BufferTarget::AtomicCounterBuffer)
        } else if value == 0x8F36u32 {
            Some(BufferTarget::CopyReadBuffer)
        } else if value == 0x8F37u32 {
            Some(BufferTarget::CopyWriteBuffer)
        } else if value == 0x90EEu32 {
            Some(BufferTarget::DispatchIndirectBuffer)
        } else if value == 0x8F3Fu32 {
            Some(BufferTarget::DrawIndirectBuffer)
        } else if value == 0x8893u32 {
            Some(BufferTarget::ElementArrayBuffer)
        } else if value == 0x88EBu32 {
            Some(BufferTarget::PixelPackBuffer)
        } else if value == 0x88ECu32 {
            Some(BufferTarget::PixelUnpackBuffer)
        } else if value == 0x9192u32 {
            Some(BufferTarget::QueryBuffer)
        } else if value == 0x90D2u32 {
            Some(BufferTarget::ShaderStorageBuffer)
        } else if value == 0x8C2Au32 {
            Some(BufferTarget::TextureBuffer)
        } else if value == 0x8C8Eu32 {
            Some(BufferTarget::TransformFeedbackBuffer)
        } else if value == 0x8A11u32 {
            Some(BufferTarget::UniformBuffer)
        } else {
            None
        }
    }

    /// Reads a driver constant back into the member that stands for it.
    pub fn from_gl_enum(value: u32) -> (r: Option<BufferTarget>)
        ensures
            r == Self::from_gl_value(value),
    {
        if value == constants::array_buffer() {
            Some(BufferTarget::ArrayBuffer)
        } else if value == constants::atomic_counter_buffer() {
            Some(BufferTarget::AtomicCounterBuffer)
        } else if value == constants::copy_read_buffer() {
            Some(BufferTarget::CopyReadBuffer)
        } else if value == constants::copy_write_buffer() {
            Some(BufferTarget::CopyWriteBuffer)
        } else if value == constants::dispatch_indirect_buffer() {
            Some(BufferTarget::DispatchIndirectBuffer)
        } else if value == constants::draw_indirect_buffer() {
            Some(BufferTarget::DrawIndirectBuffer)
        } else if value == constants::element_array_buffer() {
            Some(BufferTarget::ElementArrayBuffer)
        } else if value == constants::pixel_pack_buffer() {
            Some(BufferTarget::PixelPackBuffer)
        } else if value == constants::pixel_unpack_buffer() {
            Some(BufferTarget::PixelUnpackBuffer)
        } else if value == constants::query_buffer() {
            Some(BufferTarget::QueryBuffer)
        } else if value == constants::shader_storage_buffer() {
            Some(BufferTarget::ShaderStorageBuffer)
        } else if value == constants::texture_buffer() {
            Some(BufferTarget::TextureBuffer)
        } else if value == constants::transform_feedback_buffer() {
            Some(BufferTarget::TransformFeedbackBuffer)
        } else if value == constants::uniform_buffer() {
            Some(BufferTarget::UniformBuffer)
        } else {
            None
        }
    }

    /// The constant of a member reads back as that member.
    pub proof fn lemma_round_trip(member: BufferTarget)
        ensures
            Self::from_gl_value(member.gl_value()) == Some(member),
    {
    }

    /// A constant reads back as a member only if it is that member's
    /// constant, and as none only if it is no member's.
    pub proof fn lemma_from_gl_value(value: u32)
        ensures
            match Self::from_gl_value(value) {
                Some(member) => member.gl_value() == value,
                None => forall|member: BufferTarget| #[trigger] member.gl_value() != value,
            },
    {
    }

    /// No two members share a driver constant.
    pub proof fn lemma_gl_value_injective(a: BufferTarget, b: BufferTarget)
        requires
            a.gl_value() == b.gl_value(),
        ensures
            a == b,
    {
    }
}

/// A binding point for texture objects.
#[derive(Debug, Clone, Copy, PartialEq, Eq, Structural)]
pub enum TextureTarget {
    Texture1D,
    Texture1DArray,
    Texture2D,
    Texture2DArray,
    Texture2DMultisample,
    Texture2DMultisampleArray,
    Texture3D,
    TextureCubeMap,
    TextureCubeMapArray,
    TextureRectangle,
}

impl TextureTarget {
    /// The driver constant that this member stands for.
    pub open spec fn gl_value(self) -> u32 {
        match self {
            TextureTarget::Texture1D => 0x0DE0u32,
            TextureTarget::Texture1DArray => 0x8C18u32,
            TextureTarget::Texture2D => 0x0DE1u32,
            TextureTarget::Texture2DArray => 0x8C1Au32,
            TextureTarget::Texture2DMultisample => 0x9100u32,
            TextureTarget::Texture2DMultisampleArray => 0x9102u32,
            TextureTarget::Texture3D => 0x806Fu32,
            TextureTarget::TextureCubeMap => 0x8513u32,
            TextureTarget::TextureCubeMapArray => 0x9009u32,
            TextureTarget::TextureRectangle => 0x84F5u32,
        }
    }

    /// The driver constant to pass for this member.
    pub fn gl_enum(self) -> (r: u32)
        ensures
            r == self.gl_value(),
    {
        match self {
            TextureTarget::Texture1D => constants::texture_1d(),
            TextureTarget::Texture1DArray => constants::texture_1d_array(),
            TextureTarget::Texture2D => constants::texture_2d(),
            TextureTarget::Texture2DArray => constants::texture_2d_array(),
            TextureTarget::Texture2DMultisample => constants::texture_2d_multisample(),
            TextureTarget::Texture2DMultisampleArray => constants::texture_2d_multisample_array(),
            TextureTarget::Texture3D => constants::texture_3d(),
            TextureTarget::TextureCubeMap => constants::texture_cube_map(),
            TextureTarget::TextureCubeMapArray => constants::texture_cube_map_array(),
            TextureTarget::TextureRectangle => constants::texture_rectangle(),
        }
    }

    /// The member that stands for a driver constant, or `None` where no
    /// member does.
    pub open spec fn from_gl_value(value: u32) -> Option<TextureTarget> {
        if value == 0x0DE0u32 {
            Some(TextureTarget::Texture1D)
        } else if value == 0x8C18u32 {
            Some(TextureTarget::Texture1DArray)
        } else if value == 0x0DE1u32 {
            Some(TextureTarget::Texture2D)
        } else if value == 0x8C1Au32 {
            Some(TextureTarget::Texture2DArray)
        } else if value == 0x9100u32 {
            Some(TextureTarget::Texture2DMultisample)
        } else if value == 0x9102u32 {
            Some(TextureTarget::Texture2DMultisampleArray)
        } else if value == 0x806Fu32 {
            Some(TextureTarget::Texture3D)
        } else if value == 0x8513u32 {
            Some(TextureTarget::TextureCubeMap)
        } else if value == 0x9009u32 {
            Some(TextureTarget::TextureCubeMapArray)
        } else if value == 0x84F5u32 {
            Some(TextureTarget::TextureRectangle)
        } else {
            None
        }
    }

    /// Reads a driver constant back into the member that stands for it.
    pub fn from_gl_enum(value: u32) -> (r: Option<TextureTarget>)
        ensures
            r == Self::from_gl_value(value),
    {
        if value == constants::texture_1d() {
            Some(TextureTarget::Texture1D)
        } else if value == constants::texture_1d_array() {
            Some(TextureTarget::Texture1DArray)
        } else if value == constants::texture_2d() {
            Some(TextureTarget::Texture2D)
        } else if value == constants::texture_2d_array() {
            Some(TextureTarget::Texture2DArray)
        } else if value == constants::texture_2d_multisample() {
            Some(TextureTarget::Texture2DMultisample)
        } else if value == constants::texture_2d_multisample_array() {
            Some(TextureTarget::Texture2DMultisampleArray)
        } else if value == constants::texture_3d() {
            Some(TextureTarget::Texture3D)
        } else if value == constants::texture_cube_map() {
            Some(TextureTarget::TextureCubeMap)
        } else if value == constants::texture_cube_map_array() {
            Some(TextureTarget::TextureCubeMapArray)
        } else if value == constants::texture_rectangle() {
            Some(TextureTarget::TextureRectangle)
        } else {
            None
        }
    }

    /// The constant of a member reads back as that member.
    pub proof fn lemma_round_trip(member: TextureTarget)
        ensures
            Self::from_gl_value(member.gl_value()) == Some(member),
    {
    }

    /// A constant reads back as a member only if it is that member's
    /// constant, and as none only if it is no member's.
    pub proof fn lemma_from_gl_value(value: u32)
        ensures
            match Self::from_gl_value(value) {
                Some(member) => member.gl_value() == value,
                None => forall|member: TextureTarget| #[trigger] member.gl_value() != value,
            },
    {
    }

    /// No two members share a driver constant.
    pub proof fn lemma_gl_value_injective(a: TextureTarget, b: TextureTarget)
        requires
            a.gl_value() == b.gl_value(),
        ensures
            a == b,
    {
    }
}

/// How texture coordinates outside the unit square are resolved.
#[derive(Debug, Clone, Copy, PartialEq, Eq, Structural)]
pub enum TextureWrap {
    ClampToEdge,
    ClampToBorder,
    MirroredRepeat,
    Repeat,
    MirrorClampToEdge,
}

impl TextureWrap {
    /// The driver constant that this member stands for.
    pub open spec fn gl_value(self) -> u32 {
        match self {
            TextureWrap::ClampToEdge => 0x812Fu32,
            TextureWrap::ClampToBorder => 0x812Du32,
            TextureWrap::MirroredRepeat => 0x8370u32,
            TextureWrap::Repeat => 0x2901u32,
            TextureWrap::MirrorClampToEdge => 0x8743u32,
        }
    }

    /// The driver constant to pass for this member.
    pub fn gl_enum(self) -> (r: u32)
        ensures
            r == self.gl_value(),
    {
        match self {
            TextureWrap::ClampToEdge => constants::clamp_to_edge(),
            TextureWrap::ClampToBorder => constants::clamp_to_border(),
            TextureWrap::MirroredRepeat => constants::mirrored_repeat(),
            TextureWrap::Repeat => constants::repeat(),
            TextureWrap::MirrorClampToEdge => constants::mirror_clamp_to_edge(),
        }
    }

    /// The member that stands for a driver constant, or `None` where no
    /// member does.
    pub open spec fn from_gl_value(value: u32) -> Option<TextureWrap> {
        if value == 0x812Fu32 {
            Some(TextureWrap::ClampToEdge)
        } else if value == 0x812Du32 {
            Some(TextureWrap::ClampToBorder)
        } else if value == 0x8370u32 {
            Some(TextureWrap::MirroredRepeat)
        } else if value == 0x2901u32 {
            Some(TextureWrap::Repeat)
        } else if value == 0x8743u32 {
            Some(TextureWrap::MirrorClampToEdge)
        } else {
            None
        }
    }

    /// Reads a driver constant back into the member that stands for it.
    pub fn from_gl_enum(value: u32) -> (r: Option<TextureWrap>)
        ensures
            r == Self::from_gl_value(value),
    {
        if value == constants::clamp_to_edge() {
            Some(TextureWrap::ClampToEdge)
        } else if value == constants::clamp_to_border() {
            Some(TextureWrap::ClampToBorder)
        } else if value == constants::mirrored_repeat() {
            Some(TextureWrap::MirroredRepeat)
        } else if value == constants::repeat() {
            Some(TextureWrap::Repeat)
        } else if value == constants::mirror_clamp_to_edge() {
            Some(TextureWrap::MirrorClampToEdge)
        } else {
            None
        }
    }

    /// The constant of a member reads back as that member.
    pub proof fn lemma_round_trip(member: TextureWrap)
        ensures
            Self::from_gl_value(member.gl_value()) == Some(member),
    {
    }

    /// A constant reads back as a member only if it is that member's
    /// constant, and as none only if it is no member's.
    pub proof fn lemma_from_gl_value(value: u32)
        ensures
            match Self::from_gl_value(value) {
                Some(member) => member.gl_value() == value,
                None => forall|member: TextureWrap| #[trigger] member.gl_value() != value,
            },
    {
    }

    /// No two members share a driver constant.
    pub proof fn lemma_gl_value_injective(a: TextureWrap, b: TextureWrap)
        requires
            a.gl_value() == b.gl_value(),
        ensures
            a == b,
    {
    }
}

/// The primitive that a draw call assembles from the vertices.
#[derive(Debug, Clone, Copy, PartialEq, Eq, Structural)]
pub enum DrawMode {
    Points,
    LineStrip,
    LineLoop,
    Lines,
    LineStripAdjacency,
    LinesAdjacency,
    TriangleStrip,
    TriangleFan,
    Triangles,
    TriangleStripAdjacency,
    TrianglesAdjacency,
    Patches,
}

impl DrawMode {
    /// The driver constant that this member stands for.
    pub open spec fn gl_value(self) -> u32 {
        match self {
            DrawMode::Points => 0x0000u32,
            DrawMode::LineStrip => 0x0003u32,
            DrawMode::LineLoop => 0x0002u32,
            DrawMode::Lines => 0x0001u32,
            DrawMode::LineStripAdjacency => 0x000Bu32,
            DrawMode::LinesAdjacency => 0x000Au32,
            DrawMode::TriangleStrip => 0x0005u32,
            DrawMode::TriangleFan => 0x0006u32,
            DrawMode::Triangles => 0x0004u32,
            DrawMode::TriangleStripAdjacency => 0x000Du32,
            DrawMode::TrianglesAdjacency => 0x000Cu32,
            DrawMode::Patches => 0x000Eu32,
        }
    }

    /// The driver constant to pass for this member.
    pub fn gl_enum(self) -> (r: u32)
        ensures
            r == self.gl_value(),
    {
        match self {
            DrawMode::Points => constants::points(),
            DrawMode::LineStrip => constants::line_strip(),
            DrawMode::LineLoop => constants::line_loop(),
            DrawMode::Lines => constants::lines(),
            DrawMode::LineStripAdjacency => constants::line_strip_adjacency(),
            DrawMode::LinesAdjacency => constants::lines_adjacency(),
            DrawMode::TriangleStrip => constants::triangle_strip(),
            DrawMode::TriangleFan => constants::triangle_fan(),
            DrawMode::Triangles => constants::triangles(),
            DrawMode::TriangleStripAdjacency => constants::triangle_strip_adjacency(),
            DrawMode::TrianglesAdjacency => constants::triangles_adjacency(),
            DrawMode::Patches => constants::patches(),
        }
    }

    /// The member that stands for a driver constant, or `None` where no
    /// member does.
    pub open spec fn from_gl_value(value: u32) -> Option<DrawMode> {
        if value == 0x0000u32 {
            Some(DrawMode::Points)
        } else if value == 0x0003u32 {
            Some(DrawMode::LineStrip)
        } else if value == 0x0002u32 {
            Some(DrawMode::LineLoop)
        } else if value == 0x0001u32 {
            Some(DrawMode::Lines)
        } else if value == 0x000Bu32 {
            Some(DrawMode::LineStripAdjacency)
        } else if value == 0x000Au32 {
            Some(DrawMode::LinesAdjacency)
        } else if value == 0x0005u32 {
            Some(DrawMode::TriangleStrip)
        } else if value == 0x0006u32 {
            Some(DrawMode::TriangleFan)
        } else if value == 0x0004u32 {
            Some(DrawMode::Triangles)
        } else if value == 0x000Du32 {
            Some(DrawMode::TriangleStripAdjacency)
        } else if value == 0x000Cu32 {
            Some(DrawMode::TrianglesAdjacency)
        } else if value == 0x000Eu32 {
            Some(DrawMode::Patches)
        } else {
            None
        }
    }

    /// Reads a driver constant back into the member that stands for it.
    pub fn from_gl_enum(value: u32) -> (r: Option<DrawMode>)
        ensures
            r == Self::from_gl_value(value),
    {
        if value == constants::points() {
            Some(DrawMode::Points)
        } else if value == constants::line_strip() {
            Some(DrawMode::LineStrip)
        } else if value == constants::line_loop() {
            Some(DrawMode::LineLoop)
        } else if value == constants::lines() {
            Some(DrawMode::Lines)
        } else if value == constants::line_strip_adjacency() {
            Some(DrawMode::LineStripAdjacency)
        } else if value == constants::lines_adjacency() {
            Some(DrawMode::LinesAdjacency)
        } else if value == constants::triangle_strip() {
            Some(DrawMode::TriangleStrip)
        } else if value == constants::triangle_fan() {
            Some(DrawMode::TriangleFan)
        } else if value == constants::triangles() {
            Some(DrawMode::Triangles)
        } else if value == constants::triangle_strip_adjacency() {
            Some(DrawMode::TriangleStripAdjacency)
        } else if value == constants::triangles_adjacency() {
            Some(DrawMode::TrianglesAdjacency)
        } else if value == constants::patches() {
            Some(DrawMode::Patches)
        } else {
            None
        }
    }

    /// The constant of a member reads back as that member.
    pub proof fn lemma_round_trip(member: DrawMode)
        ensures
            Self::from_gl_value(member.gl_value()) == Some(member),
    {
    }

    /// A constant reads back as a member only if it is that member's
    /// constant, and as none only if it is no member's.
    pub proof fn lemma_from_gl_value(value: u32)
        ensures
            match Self::from_gl_value(value) {
                Some(member) => member.gl_value() == value,
                None => forall|member: DrawMode| #[trigger] member.gl_value() != value,
            },
    {
    }

    /// No two members share a driver constant.
    pub proof fn lemma_gl_value_injective(a: DrawMode, b: DrawMode)
        requires
            a.gl_value() == b.gl_value(),
        ensures
            a == b,
    {
    }
}

/// The filter used when a texture is drawn smaller than its size.
#[derive(Debug, Clone, Copy, PartialEq, Eq, Structural)]
pub enum MinFilter {
    Nearest,
    Linear,
    NearestMipmapNearest,
    LinearMipmapNearest,
    NearestMipmapLinear,
    LinearMipmapLinear,
}

impl MinFilter {
    /// The driver constant that this member stands for.
    pub open spec fn gl_value(self) -> u32 {
        match self {
            MinFilter::Nearest => 0x2600u32,
            MinFilter::Linear => 0x2601u32,
            MinFilter::NearestMipmapNearest => 0x2700u32,
            MinFilter::LinearMipmapNearest => 0x2701u32,
            MinFilter::NearestMipmapLinear => 0x2702u32,
            MinFilter::LinearMipmapLinear => 0x2703u32,
        }
    }

    /// The driver constant to pass for this member.
    pub fn gl_enum(self) -> (r: u32)
        ensures
            r == self.gl_value(),
    {
        match self {
            MinFilter::Nearest => constants::nearest(),
            MinFilter::Linear => constants::linear(),
            MinFilter::NearestMipmapNearest => constants::nearest_mipmap_nearest(),
            MinFilter::LinearMipmapNearest => constants::linear_mipmap_nearest(),
            MinFilter::NearestMipmapLinear => constants::nearest_mipmap_linear(),
            MinFilter::LinearMipmapLinear => constants::linear_mipmap_linear(),
        }
    }

    /// The member that stands for a driver constant, or `None` where no
    /// member does.
    pub open spec fn from_gl_value(value: u32) -> Option<MinFilter> {
        if value == 0x2600u32 {
            Some(MinFilter::Nearest)
        } else if value == 0x2601u32 {
            Some(MinFilter::Linear)
        } else if value == 0x2700u32 {
            Some(MinFilter::NearestMipmapNearest)
        } else if value == 0x2701u32 {
            Some(MinFilter::LinearMipmapNearest)
        } else if value == 0x2702u32 {
            Some(MinFilter::NearestMipmapLinear)
        } else if value == 0x2703u32 {
            Some(MinFilter::LinearMipmapLinear)
        } else {
            None
        }
    }

    /// Reads a driver constant back into the member that stands for it.
    pub fn from_gl_enum(value: u32) -> (r: Option<MinFilter>)
        ensures
            r == Self::from_gl_value(value),
    {
        if value == constants::nearest() {
            Some(MinFilter::Nearest)
        } else if value == constants::linear() {
            Some(MinFilter::Linear)
        } else if value == constants::nearest_mipmap_nearest() {
            Some(MinFilter::NearestMipmapNearest)
        } else if value == constants::linear_mipmap_nearest() {
            Some(MinFilter::LinearMipmapNearest)
        } else if value == constants::nearest_mipmap_linear() {
            Some(MinFilter::NearestMipmapLinear)
        } else if value == constants::linear_mipmap_linear() {
            Some(MinFilter::LinearMipmapLinear)
        } else {
            None
        }
    }

    /// The constant of a member reads back as that member.
    pub proof fn lemma_round_trip(member: MinFilter)
        ensures
            Self::from_gl_value(member.gl_value()) == Some(member),
    {
    }

    /// A constant reads back as a member only if it is that member's
    /// constant, and as none only if it is no member's.
    pub proof fn lemma_from_gl_value(value: u32)
        ensures
            match Self::from_gl_value(value) {
                Some(member) => member.gl_value() == value,
                None => forall|member: MinFilter| #[trigger] member.gl_value() != value,
            },
    {
    }

    /// No two members share a driver constant.
    pub proof fn lemma_gl_value_injective(a: MinFilter, b: MinFilter)
        requires
            a.gl_value() == b.gl_value(),
        ensures
            a == b,
    {
    }
}

/// The filter used when a texture is drawn larger than its size.
#[derive(Debug, Clone, Copy, PartialEq, Eq, Structural)]
pub enum MagFilter {
    Nearest,
    Linear,
}

impl MagFilter {
    /// The driver constant that this member stands for.
    pub open spec fn gl_value(self) -> u32 {
        match self {
            MagFilter::Nearest => 0x2600u32,
            MagFilter::Linear => 0x2601u32,
        }
    }

    /// The driver constant to pass for this member.
    pub fn gl_enum(self) -> (r: u32)
        ensures
            r == self.gl_value(),
    {
        match self {
            MagFilter::Nearest => constants::nearest(),
            MagFilter::Linear => constants::linear(),
        }
    }

    /// The member that stands for a driver constant, or `None` where no
    /// member does.
    pub open spec fn from_gl_value(value: u32) -> Option<MagFilter> {
        if value == 0x2600u32 {
            Some(MagFilter::Nearest)
        } else if value == 0x2601u32 {
            Some(MagFilter::Linear)
        } else {
            None
        }
    }

    /// Reads a driver constant back into the member that stands for it.
    pub fn from_gl_enum(value: u32) -> (r: Option<MagFilter>)
        ensures
            r == Self::from_gl_value(value),
    {
        if value == constants::nearest() {
            Some(MagFilter::Nearest)
        } else if value == constants::linear() {
            Some(MagFilter::Linear)
        } else {
            None
        }
    }

    /// The constant of a member reads back as that member.
    pub proof fn lemma_round_trip(member: MagFilter)
        ensures
            Self::from_gl_value(member.gl_value()) == Some(member),
    {
    }

    /// A constant reads back as a member only if it is that member's
    /// constant, and as none only if it is no member's.
    pub proof fn lemma_from_gl_value(value: u32)
        ensures
            match Self::from_gl_value(value) {
                Some(member) => member.gl_value() == value,
                None => forall|member: MagFilter| #[trigger] member.gl_value() != value,
            },
    {
    }

    /// No two members share a driver constant.
    pub proof fn lemma_gl_value_injective(a: MagFilter, b: MagFilter)
        requires
            a.gl_value() == b.gl_value(),
        ensures
            a == b,
    {
    }
}

/// How often a buffer's storage is written and what reads it.
#[derive(Debug, Clone, Copy, PartialEq, Eq, Structural)]
pub enum BufferUsageHint {
    StreamDraw,
    StreamRead,
    StreamCopy,
    StaticDraw,
    StaticRead,
    StaticCopy,
    DynamicDraw,
    DynamicRead,
    DynamicCopy,
}

impl BufferUsageHint {
    /// The driver constant that this member stands for.
    pub open spec fn gl_value(self) -> u32 {
        match self {
            BufferUsageHint::StreamDraw => 0x88E0u32,
            BufferUsageHint::StreamRead => 0x88E1u32,
            BufferUsageHint::StreamCopy => 0x88E2u32,
            BufferUsageHint::StaticDraw => 0x88E4u32,
            BufferUsageHint::StaticRead => 0x88E5u32,
            BufferUsageHint::StaticCopy => 0x88E6u32,
            BufferUsageHint::DynamicDraw => 0x88E8u32,
            BufferUsageHint::DynamicRead => 0x88E9u32,
            BufferUsageHint::DynamicCopy => 0x88EAu32,
        }
    }

    /// The driver constant to pass for this member.
    pub fn gl_enum(self) -> (r: u32)
        ensures
            r == self.gl_value(),
    {
        match self {
            BufferUsageHint::StreamDraw => constants::stream_draw(),
            BufferUsageHint::StreamRead => constants::stream_read(),
            BufferUsageHint::StreamCopy => constants::stream_copy(),
            BufferUsageHint::StaticDraw => constants::static_draw(),
            BufferUsageHint::StaticRead => constants::static_read(),
            BufferUsageHint::StaticCopy => constants::static_copy(),
            BufferUsageHint::DynamicDraw => constants::dynamic_draw(),
            BufferUsageHint::DynamicRead => constants::dynamic_read(),
            BufferUsageHint::DynamicCopy => constants::dynamic_copy(),
        }
    }

    /// The member that stands for a driver constant, or `None` where no
    /// member does.
    pub open spec fn from_gl_value(value: u32) -> Option<BufferUsageHint> {
        if value == 0x88E0u32 {
            Some(BufferUsageHint::StreamDraw)
        } else if value == 0x88E1u32 {
            Some(BufferUsageHint::StreamRead)
        } else if value == 0x88E2u32 {
            Some(BufferUsageHint::StreamCopy)
        } else if value == 0x88E4u32 {
            Some(BufferUsageHint::StaticDraw)
        } else if value == 0x88E5u32 {
            Some(BufferUsageHint::StaticRead)
        } else if value == 0x88E6u32 {
            Some(BufferUsageHint::StaticCopy)
        } else if value == 0x88E8u32 {
            Some(BufferUsageHint::DynamicDraw)
        } else if value == 0x88E9u32 {
            Some(BufferUsageHint::DynamicRead)
        } else if value == 0x88EAu32 {
            Some(BufferUsageHint::DynamicCopy)
        } else {
            None
        }
    }

    /// Reads a driver constant back into the member that stands for it.
    pub fn from_gl_enum(value: u32) -> (r: Option<BufferUsageHint>)
        ensures
            r == Self::from_gl_value(value),
    {
        if value == constants::stream_draw() {
            Some(BufferUsageHint::StreamDraw)
        } else if value == constants::stream_read() {
            Some(BufferUsageHint::StreamRead)
        } else if value == constants::stream_copy() {
            Some(BufferUsageHint::StreamCopy)
        } else if value == constants::static_draw() {
            Some(BufferUsageHint::StaticDraw)
        } else if value == constants::static_read() {
            Some(BufferUsageHint::StaticRead)
        } else if value == constants::static_copy() {
            Some(BufferUsageHint::StaticCopy)
        } else if value == constants::dynamic_draw() {
            Some(BufferUsageHint::DynamicDraw)
        } else if value == constants::dynamic_read() {
            Some(BufferUsageHint::DynamicRead)
        } else if value == constants::dynamic_copy() {
            Some(BufferUsageHint::DynamicCopy)
        } else {
            None
        }
    }

    /// The constant of a member reads back as that member.
    pub proof fn lemma_round_trip(member: BufferUsageHint)
        ensures
            Self::from_gl_value(member.gl_value()) == Some(member),
    {
    }

    /// A constant reads back as a member only if it is that member's
    /// constant, and as none only if it is no member's.
    pub proof fn lemma_from_gl_value(value: u32)
        ensures
            match Self::from_gl_value(value) {
                Some(member) => member.gl_value() == value,
                None => forall|member: BufferUsageHint| #[trigger] member.gl_value() != value,
            },
    {
    }

    /// No two members share a driver constant.
    pub proof fn lemma_gl_value_injective(a: BufferUsageHint, b: BufferUsageHint)
        requires
            a.gl_value() == b.gl_value(),
        ensures
            a == b,
    {
    }
}

/// The pipeline stage that a shader object is compiled for.
#[derive(Debug, Clone, Copy, PartialEq, Eq, Structural)]
pub enum ShaderType {
    ComputeShader,
    VertexShader,
    TessControlShader,
    TessEvaluationShader,
    GeometryShader,
    FragmentShader,
}

impl ShaderType {
    /// The driver constant that this member stands for.
    pub open spec fn gl_value(self) -> u32 {
        match self {
            ShaderType::ComputeShader => 0x91B9u32,
            ShaderType::VertexShader => 0x8B31u32,
            ShaderType::TessControlShader => 0x8E88u32,
            ShaderType::TessEvaluationShader => 0x8E87u32,
            ShaderType::GeometryShader => 0x8DD9u32,
            ShaderType::FragmentShader => 0x8B30u32,
        }
    }

    /// The driver constant to pass for this member.
    pub fn gl_enum(self) -> (r: u32)
        ensures
            r == self.gl_value(),
    {
        match self {
            ShaderType::ComputeShader => constants::compute_shader(),
            ShaderType::VertexShader => constants::vertex_shader(),
            ShaderType::TessControlShader => constants::tess_control_shader(),
            ShaderType::TessEvaluationShader => constants::tess_evaluation_shader(),
            ShaderType::GeometryShader => constants::geometry_shader(),
            ShaderType::FragmentShader => constants::fragment_shader(),
        }
    }

    /// The member that stands for a driver constant, or `None` where no
    /// member does.
    pub open spec fn from_gl_value(value: u32) -> Option<ShaderType> {
        if value == 0x91B9u32 {
            Some(ShaderType::ComputeShader)
        } else if value == 0x8B31u32 {
            Some(ShaderType::VertexShader)
        } else if value == 0x8E88u32 {
            Some(ShaderType::TessControlShader)
        } else if value == 0x8E87u32 {
            Some(ShaderType::TessEvaluationShader)
        } else if value == 0x8DD9u32 {
            Some(ShaderType::GeometryShader)
        } else if value == 0x8B30u32 {
            Some(ShaderType::FragmentShader)
        } else {
            None
        }
    }

    /// Reads a driver constant back into the member that stands for it.
    pub fn from_gl_enum(value: u32) -> (r: Option<ShaderType>)
        ensures
            r == Self::from_gl_value(value),
    {
        if value == constants::compute_shader() {
            Some(ShaderType::ComputeShader)
        } else if value == constants::vertex_shader() {
            Some(ShaderType::VertexShader)
        } else if value == constants::tess_control_shader() {
            Some(ShaderType::TessControlShader)
        } else if value == constants::tess_evaluation_shader() {
            Some(ShaderType::TessEvaluationShader)
        } else if value == constants::geometry_shader() {
            Some(ShaderType::GeometryShader)
        } else if value == constants::fragment_shader() {
            Some(ShaderType::FragmentShader)
        } else {
            None
        }
    }

    /// The constant of a member reads back as that member.
    pub proof fn lemma_round_trip(member: ShaderType)
        ensures
            Self::from_gl_value(member.gl_value()) == Some(member),
    {
    }

    /// A constant reads back as a member only if it is that member's
    /// constant, and as none only if it is no member's.
    pub proof fn lemma_from_gl_value(value: u32)
        ensures
            match Self::from_gl_value(value) {
                Some(member) => member.gl_value() == value,
                None => forall|member: ShaderType| #[trigger] member.gl_value() != value,
            },
    {
    }

    /// No two members share a driver constant.
    pub proof fn lemma_gl_value_injective(a: ShaderType, b: ShaderType)
        requires
            a.gl_value() == b.gl_value(),
        ensures
            a == b,
    {
    }
}

/// The integer width of the indices in an element buffer.
#[derive(Debug, Clone, Copy, PartialEq, Eq, Structural)]
pub enum DrawElementsType {
    U8,
    U16,
    U32,
}

impl DrawElementsType {
    /// The driver constant that this member stands for.
    pub open spec fn gl_value(self) -> u32 {
        match self {
            DrawElementsType::U8 => 0x1401u32,
            DrawElementsType::U16 => 0x1403u32,
            DrawElementsType::U32 => 0x1405u32,
        }
    }

    /// The driver constant to pass for this member.
    pub fn gl_enum(self) -> (r: u32)
        ensures
            r == self.gl_value(),
    {
        match self {
            DrawElementsType::U8 => constants::unsigned_byte(),
            DrawElementsType::U16 => constants::unsigned_short(),
            DrawElementsType::U32 => constants::unsigned_int(),
        }
    }

    /// The member that stands for a driver constant, or `None` where no
    /// member does.
    pub open spec fn from_gl_value(value: u32) -> Option<DrawElementsType> {
        if value == 0x1401u32 {
            Some(DrawElementsType::U8)
        } else if value == 0x1403u32 {
            Some(DrawElementsType::U16)
        } else if value == 0x1405u32 {
            Some(DrawElementsType::U32)
        } else {
            None
        }
    }

    /// Reads a driver constant back into the member that stands for it.
    pub fn from_gl_enum(value: u32) -> (r: Option<DrawElementsType>)
        ensures
            r == Self::from_gl_value(value),
    {
        if value == constants::unsigned_byte() {
            Some(DrawElementsType::U8)
        } else if value == constants::unsigned_short() {
            Some(DrawElementsType::U16)
        } else if value == constants::unsigned_int() {
            Some(DrawElementsType::U32)
        } else {
            None
        }
    }

    /// The constant of a member reads back as that member.
    pub proof fn lemma_round_trip(member: DrawElementsType)
        ensures
            Self::from_gl_value(member.gl_value()) == Some(member),
    {
    }

    /// A constant reads back as a member only if it is that member's
    /// constant, and as none only if it is no member's.
    pub proof fn lemma_from_gl_value(value: u32)
        ensures
            match Self::from_gl_value(value) {
                Some(member) => member.gl_value() == value,
                None => forall|member: DrawElementsType| #[trigger] member.gl_value() != value,
            },
    {
    }

    /// No two members share a driver constant.
    pub proof fn lemma_gl_value_injective(a: DrawElementsType, b: DrawElementsType)
        requires
            a.gl_value() == b.gl_value(),
        ensures
            a == b,
    {
    }
}

} // verus!
