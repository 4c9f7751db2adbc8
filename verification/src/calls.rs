//! What the driver's calls are handed.
//!
//! Each operation below takes typed arguments and gives the plain values of
//! one driver call, in the integer types of the driver's interface. A
//! `requires` holds what the operation demands of its caller; where there is
//! one, a function beside it tests the same condition at run time.

use vstd::prelude::*;
use core::ops::Range;
use pixel_formats::r8g8b8a8_Srgb;
use crate::constants;
use crate::context::EzGl;
use crate::params::{
    BufferTarget, BufferUsageHint, DrawElementsType, DrawMode, MagFilter, MinFilter, TextureTarget,
    TextureWrap,
};

verus! {

/// `pixel_formats::r8g8b8a8_Srgb`, one decoded pixel. Only the number of
/// pixels is read here, never a pixel.
#[verifier::external_type_specification]
#[verifier::external_body]
pub struct ExSrgbPixel(r8g8b8a8_Srgb);

/// The element layout of a vertex attribute whose data arrives in the shader
/// as a vector of floats.
#[derive(Debug, Clone, Copy, PartialEq, Eq, Structural)]
pub enum VertexAttribPointerTy {
    /// Two 32-bit floats.
    Float2,
    /// Three 32-bit floats.
    Float3,
}

impl VertexAttribPointerTy {
    /// The number of components of one element.
    pub open spec fn size_value(self) -> i32 {
        match self {
            VertexAttribPointerTy::Float2 => 2i32,
            VertexAttribPointerTy::Float3 => 3i32,
        }
    }

    /// The number of components of one element.
    pub fn size(self) -> (r: i32)
        ensures
            r == self.size_value(),
    {
        match self {
            VertexAttribPointerTy::Float2 => 2,
            VertexAttribPointerTy::Float3 => 3,
        }
    }

    /// The driver constant of the component type, `GL_FLOAT` for both.
    pub fn component_type(self) -> (r: u32)
        ensures
            r == 0x1406u32,
    {
        constants::float()
    }

    /// Whether integer data is to be normalized on load: never, for floats.
    pub fn normalized(self) -> (r: bool)
        ensures
            !r,
    {
        false
    }
}

/// The arguments of `glBufferData`, without the data pointer.
#[derive(Debug, Clone, Copy, PartialEq, Eq, Structural)]
pub struct BufferDataCall {
    pub target: u32,
    pub size: isize,
    pub usage: u32,
}

/// The arguments of `glTexParameteri`.
#[derive(Debug, Clone, Copy, PartialEq, Eq, Structural)]
pub struct TexParameterCall {
    pub target: u32,
    pub name: u32,
    pub value: i32,
}

/// The arguments of `glTexImage2D`, without the pixel pointer.
#[derive(Debug, Clone, Copy, PartialEq, Eq, Structural)]
pub struct TexImage2dCall {
    pub target: u32,
    pub level: i32,
    pub internal_format: i32,
    pub width: i32,
    pub height: i32,
    pub border: i32,
    pub format: u32,
    pub pixel_type: u32,
}

/// The arguments of `glEnable` or `glDisable`.
#[derive(Debug, Clone, Copy, PartialEq, Eq, Structural)]
pub struct CapabilityCall {
    pub capability: u32,
    /// `true` for `glEnable`, `false` for `glDisable`.
    pub enable: bool,
}

/// The arguments of `glDrawArrays`.
#[derive(Debug, Clone, Copy, PartialEq, Eq, Structural)]
pub struct DrawArraysCall {
    pub mode: u32,
    pub first: i32,
    pub count: i32,
}

/// The arguments of `glDrawElements`.
#[derive(Debug, Clone, Copy, PartialEq, Eq, Structural)]
pub struct DrawElementsCall {
    pub mode: u32,
    pub count: i32,
    pub index_type: u32,
    /// The position in the bound element buffer, passed in place of a pointer.
    pub offset: usize,
}

/// The arguments of `glVertexAttribPointer`.
#[derive(Debug, Clone, Copy, PartialEq, Eq, Structural)]
pub struct VertexAttribPointerCall {
    pub index: u32,
    pub size: i32,
    pub component_type: u32,
    pub normalized: bool,
    pub stride: i32,
    /// The position in one vertex record, passed in place of a pointer.
    pub offset: usize,
}

/// A draw over `start..end` is accepted when the range is not empty and both
/// its start and its length fit the driver's signed 32-bit integers.
pub open spec fn accepts_draw_arrays(start: usize, end: usize) -> bool {
    start < end && start <= i32::MAX && end - start <= i32::MAX
}

/// An indexed draw over `start..end` is accepted when the range is not empty
/// and its length fits the driver's signed 32-bit integers.
pub open spec fn accepts_draw_elements(start: usize, end: usize) -> bool {
    start < end && end - start <= i32::MAX
}

/// An image of `width` by `height` is accepted for `pixel_count` pixels when
/// the pixels are exactly those of the image and both sides fit the driver's
/// signed 32-bit integers.
pub open spec fn accepts_tex_image_2d(width: usize, height: usize, pixel_count: nat) -> bool {
    width * height == pixel_count && width <= i32::MAX && height <= i32::MAX
}

/// The row alignments that the driver knows for pixel data in memory.
pub open spec fn known_unpack_alignment(align: usize) -> bool {
    align == 1 || align == 2 || align == 4 || align == 8
}

/// The first texture unit's driver constant, `GL_TEXTURE0`; unit `n` is this
/// plus `n`.
pub open spec fn texture_unit_base() -> u32 {
    0x84C0u32
}

impl EzGl {
    /// Allocating new storage for the buffer bound to `target` and copying
    /// `data` into it: the whole of `data`, never a part.
    pub fn buffer_data(target: BufferTarget, data: &[u8], usage: BufferUsageHint) -> (call:
        BufferDataCall)
        requires
            data@.len() <= isize::MAX,
        ensures
            call == (BufferDataCall {
                target: target.gl_value(),
                size: data@.len() as isize,
                usage: usage.gl_value(),
            }),
    {
        BufferDataCall {
            target: target.gl_enum(),
            size: data.len() as isize,
            usage: usage.gl_enum(),
        }
    }

    /// Setting how the texture bound to `target` wraps along S.
    pub fn set_texture_wrap_s(target: TextureTarget, wrap: TextureWrap) -> (call: TexParameterCall)
        ensures
            call == (TexParameterCall {
                target: target.gl_value(),
                name: 0x2802u32,
                value: wrap.gl_value() as i32,
            }),
            call.value >= 0,
    {
        TexParameterCall {
            target: target.gl_enum(),
            name: constants::texture_wrap_s(),
            value: wrap.gl_enum() as i32,
        }
    }

    /// Setting how the texture bound to `target` wraps along T.
    pub fn set_texture_wrap_t(target: TextureTarget, wrap: TextureWrap) -> (call: TexParameterCall)
        ensures
            call == (TexParameterCall {
                target: target.gl_value(),
                name: 0x2803u32,
                value: wrap.gl_value() as i32,
            }),
            call.value >= 0,
    {
        TexParameterCall {
            target: target.gl_enum(),
            name: constants::texture_wrap_t(),
            value: wrap.gl_enum() as i32,
        }
    }

    /// Setting the minification filter of the texture bound to `target`.
    pub fn set_texture_min_filter(target: TextureTarget, filter: MinFilter) -> (call:
        TexParameterCall)
        ensures
            call == (TexParameterCall {
                target: target.gl_value(),
                name: 0x2801u32,
                value: filter.gl_value() as i32,
            }),
            call.value >= 0,
    {
        TexParameterCall {
            target: target.gl_enum(),
            name: constants::texture_min_filter(),
            value: filter.gl_enum() as i32,
        }
    }

    /// Setting the magnification filter of the texture bound to `target`.
    pub fn set_texture_mag_filter(target: TextureTarget, filter: MagFilter) -> (call:
        TexParameterCall)
        ensures
            call == (TexParameterCall {
                target: target.gl_value(),
                name: 0x2800u32,
                value: filter.gl_value() as i32,
            }),
            call.value >= 0,
    {
        TexParameterCall {
            target: target.gl_enum(),
            name: constants::texture_mag_filter(),
            value: filter.gl_enum() as i32,
        }
    }

    /// Whether [`EzGl::tex_image_2d`] accepts an image of these dimensions
    /// for this many pixels.
    pub fn tex_image_2d_accepts(width: usize, height: usize, pixel_count: usize) -> (ok: bool)
        ensures
            ok == accepts_tex_image_2d(width, height, pixel_count as nat),
    {
        if width > 0x7FFF_FFFF || height > 0x7FFF_FFFF {
            return false;
        }
        match width.checked_mul(height) {
            Some(product) => product == pixel_count,
            None => false,
        }
    }

    /// Uploading a decoded bitmap of `width` by `height` pixels, 8 bits per
    /// channel in sRGB with alpha, as level `level` of the texture bound to
    /// `target`.
    pub fn tex_image_2d(
        target: TextureTarget,
        level: i32,
        width: usize,
        height: usize,
        pixels: &[r8g8b8a8_Srgb],
    ) -> (call: TexImage2dCall)
        requires
            accepts_tex_image_2d(width, height, pixels@.len()),
        ensures
            call == (TexImage2dCall {
                target: target.gl_value(),
                level,
                internal_format: 0x8C43i32,
                width: width as i32,
                height: height as i32,
                border: 0i32,
                format: 0x1908u32,
                pixel_type: 0x1401u32,
            }),
            call.width * call.height == pixels@.len(),
    {
        TexImage2dCall {
            target: target.gl_enum(),
            level,
            internal_format: constants::srgb8_alpha8() as i32,
            width: width as i32,
            height: height as i32,
            border: 0,
            format: constants::rgba(),
            pixel_type: constants::unsigned_byte(),
        }
    }

    /// Switching the conversion to sRGB on writes to the framebuffer.
    pub fn enable_framebuffer_srgb(enabled: bool) -> (call: CapabilityCall)
        ensures
            call == (CapabilityCall { capability: 0x8DB9u32, enable: enabled }),
    {
        CapabilityCall { capability: constants::framebuffer_srgb(), enable: enabled }
    }

    /// Switching multisampling.
    pub fn enable_multisample(enabled: bool) -> (call: CapabilityCall)
        ensures
            call == (CapabilityCall { capability: 0x809Du32, enable: enabled }),
    {
        CapabilityCall { capability: constants::multisample(), enable: enabled }
    }

    /// Switching the depth test.
    pub fn enable_depth_test(enabled: bool) -> (call: CapabilityCall)
        ensures
            call == (CapabilityCall { capability: 0x0B71u32, enable: enabled }),
    {
        CapabilityCall { capability: constants::depth_test(), enable: enabled }
    }

    /// Whether `align` is a row alignment that the driver knows.
    pub fn is_unpack_alignment(align: usize) -> (ok: bool)
        ensures
            ok == known_unpack_alignment(align),
    {
        align == 1 || align == 2 || align == 4 || align == 8
    }

    /// The value to set as the row alignment of pixel data read from memory.
    pub fn set_pixel_store_unpack_alignment(align: usize) -> (value: i32)
        requires
            known_unpack_alignment(align),
        ensures
            value == align,
    {
        align as i32
    }

    /// The mask that clears the color buffer alone.
    pub fn clear_color_buffer() -> (mask: u32)
        ensures
            mask == 0x4000u32,
    {
        constants::color_buffer_bit()
    }

    /// The mask that clears the color buffer and the depth buffer together.
    pub fn clear_color_and_depth_buffer() -> (mask: u32)
        ensures
            mask == 0x4100u32,
    {
        assert(0x4000u32 | 0x0100u32 == 0x4100u32) by (bit_vector);
        constants::color_buffer_bit() | constants::depth_buffer_bit()
    }

    /// The number of texture units that all stages together can use, from
    /// the driver's answer.
    pub fn get_max_combined_texture_image_units(raw: i32) -> (units: u32)
        requires
            raw >= 0,
        ensures
            units == raw,
    {
        raw as u32
    }

    /// Whether unit `unit` has a driver constant: whether `GL_TEXTURE0` plus
    /// `unit` fits the driver's unsigned 32-bit integers.
    pub fn is_texture_unit(unit: u32) -> (ok: bool)
        ensures
            ok == (texture_unit_base() + unit <= u32::MAX),
    {
        unit <= 0xFFFF_FFFF - 0x84C0
    }

    /// The driver constant that selects texture unit `unit`.
    pub fn set_active_texture_unit(unit: u32) -> (constant: u32)
        requires
            texture_unit_base() + unit <= u32::MAX,
        ensures
            constant == texture_unit_base() + unit,
    {
        constants::texture0() + unit
    }

    /// Whether `raw` can be the driver's answer for the active texture unit:
    /// whether it is the constant of a unit.
    pub fn is_texture_unit_constant(raw: i32) -> (ok: bool)
        ensures
            ok == (raw >= texture_unit_base()),
    {
        raw >= 0x84C0
    }

    /// The texture unit that the driver reports as active, from the constant
    /// it answered with.
    pub fn get_active_texture_unit(raw: i32) -> (unit: u32)
        requires
            raw >= texture_unit_base(),
        ensures
            unit == raw - texture_unit_base(),
    {
        raw as u32 - constants::texture0()
    }

    /// Whether [`EzGl::draw_arrays`] accepts this range.
    pub fn draw_arrays_accepts(range: &Range<usize>) -> (ok: bool)
        ensures
            ok == accepts_draw_arrays(range.start, range.end),
    {
        range.start < range.end && range.start <= 0x7FFF_FFFF && range.end - range.start
            <= 0x7FFF_FFFF
    }

    /// Drawing the vertices `range` of the bound array data as `mode`.
    ///
    /// An empty range is refused, not drawn as nothing. The caller answers
    /// for the enabled attribute pointers and for the range lying within the
    /// bound buffers: the driver reads what it is told to.
    pub fn draw_arrays(mode: DrawMode, range: Range<usize>) -> (call: DrawArraysCall)
        requires
            accepts_draw_arrays(range.start, range.end),
        ensures
            call == (DrawArraysCall {
                mode: mode.gl_value(),
                first: range.start as i32,
                count: (range.end - range.start) as i32,
            }),
            call.count > 0,
            call.first + call.count == range.end,
    {
        DrawArraysCall {
            mode: mode.gl_enum(),
            first: range.start as i32,
            count: (range.end - range.start) as i32,
        }
    }

    /// Whether [`EzGl::draw_elements`] accepts this range.
    pub fn draw_elements_accepts(range: &Range<usize>) -> (ok: bool)
        ensures
            ok == accepts_draw_elements(range.start, range.end),
    {
        range.start < range.end && range.end - range.start <= 0x7FFF_FFFF
    }

    /// Drawing the elements `range` of the bound element buffer, whose
    /// indices are of type `index_type`, as `mode`.
    ///
    /// An empty range is refused, not drawn as nothing. The caller answers
    /// for the enabled attribute pointers and for every index read lying
    /// within the bound buffers.
    pub fn draw_elements(index_type: DrawElementsType, mode: DrawMode, range: Range<usize>) -> (call:
        DrawElementsCall)
        requires
            accepts_draw_elements(range.start, range.end),
        ensures
            call == (DrawElementsCall {
                mode: mode.gl_value(),
                count: (range.end - range.start) as i32,
                index_type: index_type.gl_value(),
                offset: range.start,
            }),
            call.count > 0,
            call.offset + call.count == range.end,
    {
        DrawElementsCall {
            mode: mode.gl_enum(),
            count: (range.end - range.start) as i32,
            index_type: index_type.gl_enum(),
            offset: range.start,
        }
    }

    /// Describing attribute `index` of the bound vertex array: elements of
    /// layout `layout`, found `offset` bytes into each vertex record of
    /// `stride` bytes. Nothing is checked against the size of a buffer; that
    /// is left to the draw.
    pub fn vertex_attrib_f32_pointer(
        layout: VertexAttribPointerTy,
        index: u32,
        stride: usize,
        offset: usize,
    ) -> (call: VertexAttribPointerCall)
        requires
            stride <= i32::MAX,
        ensures
            call == (VertexAttribPointerCall {
                index,
                size: layout.size_value(),
                component_type: 0x1406u32,
                normalized: false,
                stride: stride as i32,
                offset,
            }),
            call.stride == stride,
    {
        VertexAttribPointerCall {
            index,
            size: layout.size(),
            component_type: layout.component_type(),
            normalized: layout.normalized(),
            stride: stride as i32,
            offset,
        }
    }
}

} // verus!
