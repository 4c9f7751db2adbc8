//! The driver's symbolic constants, taken from `gl_constants`.
//!
//! Verus cannot read a constant of another crate, so each one is handed over
//! by a small function whose contract repeats the declared value. Nothing
//! proves these contracts: they are to be read against `gl_constants`.

use vstd::prelude::*;

verus! {

/// `gl_constants::GL_ARRAY_BUFFER`, declared there as `0x8892`.
#[verifier::external_body]
pub(crate) fn array_buffer() -> (r: u32)
    ensures
        r == 0x8892u32,
{
    gl_constants::GL_ARRAY_BUFFER
}

/// `gl_constants::GL_ATOMIC_COUNTER_BUFFER`, declared there as `0x92C0`.
#[verifier::external_body]
pub(crate) fn atomic_counter_buffer() -> (r: u32)
    ensures
        r == 0x92C0u32,
{
    gl_constants::GL_ATOMIC_COUNTER_BUFFER
}

/// `gl_constants::GL_COPY_READ_BUFFER`, declared there as `0x8F36`.
#[verifier::external_body]
pub(crate) fn copy_read_buffer() -> (r: u32)
    ensures
        r == 0x8F36u32,
{
    gl_constants::GL_COPY_READ_BUFFER
}

/// `gl_constants::GL_COPY_WRITE_BUFFER`, declared there as `0x8F37`.
#[verifier::external_body]
pub(crate) fn copy_write_buffer() -> (r: u32)
    ensures
        r == 0x8F37u32,
{
    gl_constants::GL_COPY_WRITE_BUFFER
}

/// `gl_constants::GL_DISPATCH_INDIRECT_BUFFER`, declared there as `0x90EE`.
#[verifier::external_body]
pub(crate) fn dispatch_indirect_buffer() -> (r: u32)
    ensures
        r == 0x90EEu32,
{
    gl_constants::GL_DISPATCH_INDIRECT_BUFFER
}

/// `gl_constants::GL_DRAW_INDIRECT_BUFFER`, declared there as `0x8F3F`.
#[verifier::external_body]
pub(crate) fn draw_indirect_buffer() -> (r: u32)
    ensures
        r == 0x8F3Fu32,
{
    gl_constants::GL_DRAW_INDIRECT_BUFFER
}

/// `gl_constants::GL_ELEMENT_ARRAY_BUFFER`, declared there as `0x8893`.
#[verifier::external_body]
pub(crate) fn element_array_buffer() -> (r: u32)
    ensures
        r == 0x8893u32,
{
    gl_constants::GL_ELEMENT_ARRAY_BUFFER
}

/// `gl_constants::GL_PIXEL_PACK_BUFFER`, declared there as `0x88EB`.
#[verifier::external_body]
pub(crate) fn pixel_pack_buffer() -> (r: u32)
    ensures
        r == 0x88EBu32,
{
    gl_constants::GL_PIXEL_PACK_BUFFER
}

/// `gl_constants::GL_PIXEL_UNPACK_BUFFER`, declared there as `0x88EC`.
#[verifier::external_body]
pub(crate) fn pixel_unpack_buffer() -> (r: u32)
    ensures
        r == 0x88ECu32,
{
    gl_constants::GL_PIXEL_UNPACK_BUFFER
}

/// `gl_constants::GL_QUERY_BUFFER`, declared there as `0x9192`.
#[verifier::external_body]
pub(crate) fn query_buffer() -> (r: u32)
    ensures
        r == 0x9192u32,
{
    gl_constants::GL_QUERY_BUFFER
}

/// `gl_constants::GL_SHADER_STORAGE_BUFFER`, declared there as `0x90D2`.
#[verifier::external_body]
pub(crate) fn shader_storage_buffer() -> (r: u32)
    ensures
        r == 0x90D2u32,
{
    gl_constants::GL_SHADER_STORAGE_BUFFER
}

/// `gl_constants::GL_TEXTURE_BUFFER`, declared there as `0x8C2A`.
#[verifier::external_body]
pub(crate) fn texture_buffer() -> (r: u32)
    ensures
        r == 0x8C2Au32,
{
    gl_constants::GL_TEXTURE_BUFFER
}

/// `gl_constants::GL_TRANSFORM_FEEDBACK_BUFFER`, declared there as `0x8C8E`.
#[verifier::external_body]
pub(crate) fn transform_feedback_buffer() -> (r: u32)
    ensures
        r == 0x8C8Eu32,
{
    gl_constants::GL_TRANSFORM_FEEDBACK_BUFFER
}

/// `gl_constants::GL_UNIFORM_BUFFER`, declared there as `0x8A11`.
#[verifier::external_body]
pub(crate) fn uniform_buffer() -> (r: u32)
    ensures
        r == 0x8A11u32,
{
    gl_constants::GL_UNIFORM_BUFFER
}

/// `gl_constants::GL_TEXTURE_1D`, declared there as `0x0DE0`.
#[verifier::external_body]
pub(crate) fn texture_1d() -> (r: u32)
    ensures
        r == 0x0DE0u32,
{
    gl_constants::GL_TEXTURE_1D
}

/// `gl_constants::GL_TEXTURE_1D_ARRAY`, declared there as `0x8C18`.
#[verifier::external_body]
pub(crate) fn texture_1d_array() -> (r: u32)
    ensures
        r == 0x8C18u32,
{
    gl_constants::GL_TEXTURE_1D_ARRAY
}

/// `gl_constants::GL_TEXTURE_2D`, declared there as `0x0DE1`.
#[verifier::external_body]
pub(crate) fn texture_2d() -> (r: u32)
    ensures
        r == 0x0DE1u32,
{
    gl_constants::GL_TEXTURE_2D
}

/// `gl_constants::GL_TEXTURE_2D_ARRAY`, declared there as `0x8C1A`.
#[verifier::external_body]
pub(crate) fn texture_2d_array() -> (r: u32)
    ensures
        r == 0x8C1Au32,
{
    gl_constants::GL_TEXTURE_2D_ARRAY
}

/// `gl_constants::GL_TEXTURE_2D_MULTISAMPLE`, declared there as `0x9100`.
#[verifier::external_body]
pub(crate) fn texture_2d_multisample() -> (r: u32)
    ensures
        r == 0x9100u32,
{
    gl_constants::GL_TEXTURE_2D_MULTISAMPLE
}

/// `gl_constants::GL_TEXTURE_2D_MULTISAMPLE_ARRAY`, declared there as `0x9102`.
#[verifier::external_body]
pub(crate) fn texture_2d_multisample_array() -> (r: u32)
    ensures
        r == 0x9102u32,
{
    gl_constants::GL_TEXTURE_2D_MULTISAMPLE_ARRAY
}

/// `gl_constants::GL_TEXTURE_3D`, declared there as `0x806F`.
#[verifier::external_body]
pub(crate) fn texture_3d() -> (r: u32)
    ensures
        r == 0x806Fu32,
{
    gl_constants::GL_TEXTURE_3D
}

/// `gl_constants::GL_TEXTURE_CUBE_MAP`, declared there as `0x8513`.
#[verifier::external_body]
pub(crate) fn texture_cube_map() -> (r: u32)
    ensures
        r == 0x8513u32,
{
    gl_constants::GL_TEXTURE_CUBE_MAP
}

/// `gl_constants::GL_TEXTURE_CUBE_MAP_ARRAY`, declared there as `0x9009`.
#[verifier::external_body]
pub(crate) fn texture_cube_map_array() -> (r: u32)
    ensures
        r == 0x9009u32,
{
    gl_constants::GL_TEXTURE_CUBE_MAP_ARRAY
}

/// `gl_constants::GL_TEXTURE_RECTANGLE`, declared there as `0x84F5`.
#[verifier::external_body]
pub(crate) fn texture_rectangle() -> (r: u32)
    ensures
        r == 0x84F5u32,
{
    gl_constants::GL_TEXTURE_RECTANGLE
}

/// `gl_constants::GL_CLAMP_TO_EDGE`, declared there as `0x812F`.
#[verifier::external_body]
pub(crate) fn clamp_to_edge() -> (r: u32)
    ensures
        r == 0x812Fu32,
{
    gl_constants::GL_CLAMP_TO_EDGE
}

/// `gl_constants::GL_CLAMP_TO_BORDER`, declared there as `0x812D`.
#[verifier::external_body]
pub(crate) fn clamp_to_border() -> (r: u32)
    ensures
        r == 0x812Du32,
{
    gl_constants::GL_CLAMP_TO_BORDER
}

/// `gl_constants::GL_MIRRORED_REPEAT`, declared there as `0x8370`.
#[verifier::external_body]
pub(crate) fn mirrored_repeat() -> (r: u32)
    ensures
        r == 0x8370u32,
{
    gl_constants::GL_MIRRORED_REPEAT
}

/// `gl_constants::GL_REPEAT`, declared there as `0x2901`.
#[verifier::external_body]
pub(crate) fn repeat() -> (r: u32)
    ensures
        r == 0x2901u32,
{
    gl_constants::GL_REPEAT
}

/// `gl_constants::GL_MIRROR_CLAMP_TO_EDGE`, declared there as `0x8743`.
#[verifier::external_body]
pub(crate) fn mirror_clamp_to_edge() -> (r: u32)
    ensures
        r == 0x8743u32,
{
    gl_constants::GL_MIRROR_CLAMP_TO_EDGE
}

/// `gl_constants::GL_POINTS`, declared there as `0x0000`.
#[verifier::external_body]
pub(crate) fn points() -> (r: u32)
    ensures
        r == 0x0000u32,
{
    gl_constants::GL_POINTS
}

/// `gl_constants::GL_LINE_STRIP`, declared there as `0x0003`.
#[verifier::external_body]
pub(crate) fn line_strip() -> (r: u32)
    ensures
        r == 0x0003u32,
{
    gl_constants::GL_LINE_STRIP
}

/// `gl_constants::GL_LINE_LOOP`, declared there as `0x0002`.
#[verifier::external_body]
pub(crate) fn line_loop() -> (r: u32)
    ensures
        r == 0x0002u32,
{
    gl_constants::GL_LINE_LOOP
}

/// `gl_constants::GL_LINES`, declared there as `0x0001`.
#[verifier::external_body]
pub(crate) fn lines() -> (r: u32)
    ensures
        r == 0x0001u32,
{
    gl_constants::GL_LINES
}

/// `gl_constants::GL_LINE_STRIP_ADJACENCY`, declared there as `0x000B`.
#[verifier::external_body]
pub(crate) fn line_strip_adjacency() -> (r: u32)
    ensures
        r == 0x000Bu32,
{
    gl_constants::GL_LINE_STRIP_ADJACENCY
}

/// `gl_constants::GL_LINES_ADJACENCY`, declared there as `0x000A`.
#[verifier::external_body]
pub(crate) fn lines_adjacency() -> (r: u32)
    ensures
        r == 0x000Au32,
{
    gl_constants::GL_LINES_ADJACENCY
}

/// `gl_constants::GL_TRIANGLE_STRIP`, declared there as `0x0005`.
#[verifier::external_body]
pub(crate) fn triangle_strip() -> (r: u32)
    ensures
        r == 0x0005u32,
{
    gl_constants::GL_TRIANGLE_STRIP
}

/// `gl_constants::GL_TRIANGLE_FAN`, declared there as `0x0006`.
#[verifier::external_body]
pub(crate) fn triangle_fan() -> (r: u32)
    ensures
        r == 0x0006u32,
{
    gl_constants::GL_TRIANGLE_FAN
}

/// `gl_constants::GL_TRIANGLES`, declared there as `0x0004`.
#[verifier::external_body]
pub(crate) fn triangles() -> (r: u32)
    ensures
        r == 0x0004u32,
{
    gl_constants::GL_TRIANGLES
}

/// `gl_constants::GL_TRIANGLE_STRIP_ADJACENCY`, declared there as `0x000D`.
#[verifier::external_body]
pub(crate) fn triangle_strip_adjacency() -> (r: u32)
    ensures
        r == 0x000Du32,
{
    gl_constants::GL_TRIANGLE_STRIP_ADJACENCY
}

/// `gl_constants::GL_TRIANGLES_ADJACENCY`, declared there as `0x000C`.
#[verifier::external_body]
pub(crate) fn triangles_adjacency() -> (r: u32)
    ensures
        r == 0x000Cu32,
{
    gl_constants::GL_TRIANGLES_ADJACENCY
}

/// `gl_constants::GL_PATCHES`, declared there as `0x000E`.
#[verifier::external_body]
pub(crate) fn patches() -> (r: u32)
    ensures
        r == 0x000Eu32,
{
    gl_constants::GL_PATCHES
}

/// `gl_constants::GL_NEAREST`, declared there as `0x2600`.
#[verifier::external_body]
pub(crate) fn nearest() -> (r: u32)
    ensures
        r == 0x2600u32,
{
    gl_constants::GL_NEAREST
}

/// `gl_constants::GL_LINEAR`, declared there as `0x2601`.
#[verifier::external_body]
pub(crate) fn linear() -> (r: u32)
    ensures
        r == 0x2601u32,
{
    gl_constants::GL_LINEAR
}

/// `gl_constants::GL_NEAREST_MIPMAP_NEAREST`, declared there as `0x2700`.
#[verifier::external_body]
pub(crate) fn nearest_mipmap_nearest() -> (r: u32)
    ensures
        r == 0x2700u32,
{
    gl_constants::GL_NEAREST_MIPMAP_NEAREST
}

/// `gl_constants::GL_LINEAR_MIPMAP_NEAREST`, declared there as `0x2701`.
#[verifier::external_body]
pub(crate) fn linear_mipmap_nearest() -> (r: u32)
    ensures
        r == 0x2701u32,
{
    gl_constants::GL_LINEAR_MIPMAP_NEAREST
}

/// `gl_constants::GL_NEAREST_MIPMAP_LINEAR`, declared there as `0x2702`.
#[verifier::external_body]
pub(crate) fn nearest_mipmap_linear() -> (r: u32)
    ensures
        r == 0x2702u32,
{
    gl_constants::GL_NEAREST_MIPMAP_LINEAR
}

/// `gl_constants::GL_LINEAR_MIPMAP_LINEAR`, declared there as `0x2703`.
#[verifier::external_body]
pub(crate) fn linear_mipmap_linear() -> (r: u32)
    ensures
        r == 0x2703u32,
{
    gl_constants::GL_LINEAR_MIPMAP_LINEAR
}

/// `gl_constants::GL_STREAM_DRAW`, declared there as `0x88E0`.
#[verifier::external_body]
pub(crate) fn stream_draw() -> (r: u32)
    ensures
        r == 0x88E0u32,
{
    gl_constants::GL_STREAM_DRAW
}

/// `gl_constants::GL_STREAM_READ`, declared there as `0x88E1`.
#[verifier::external_body]
pub(crate) fn stream_read() -> (r: u32)
    ensures
        r == 0x88E1u32,
{
    gl_constants::GL_STREAM_READ
}

/// `gl_constants::GL_STREAM_COPY`, declared there as `0x88E2`.
#[verifier::external_body]
pub(crate) fn stream_copy() -> (r: u32)
    ensures
        r == 0x88E2u32,
{
    gl_constants::GL_STREAM_COPY
}

/// `gl_constants::GL_STATIC_DRAW`, declared there as `0x88E4`.
#[verifier::external_body]
pub(crate) fn static_draw() -> (r: u32)
    ensures
        r == 0x88E4u32,
{
    gl_constants::GL_STATIC_DRAW
}

/// `gl_constants::GL_STATIC_READ`, declared there as `0x88E5`.
#[verifier::external_body]
pub(crate) fn static_read() -> (r: u32)
    ensures
        r == 0x88E5u32,
{
    gl_constants::GL_STATIC_READ
}

/// `gl_constants::GL_STATIC_COPY`, declared there as `0x88E6`.
#[verifier::external_body]
pub(crate) fn static_copy() -> (r: u32)
    ensures
        r == 0x88E6u32,
{
    gl_constants::GL_STATIC_COPY
}

/// `gl_constants::GL_DYNAMIC_DRAW`, declared there as `0x88E8`.
#[verifier::external_body]
pub(crate) fn dynamic_draw() -> (r: u32)
    ensures
        r == 0x88E8u32,
{
    gl_constants::GL_DYNAMIC_DRAW
}

/// `gl_constants::GL_DYNAMIC_READ`, declared there as `0x88E9`.
#[verifier::external_body]
pub(crate) fn dynamic_read() -> (r: u32)
    ensures
        r == 0x88E9u32,
{
    gl_constants::GL_DYNAMIC_READ
}

/// `gl_constants::GL_DYNAMIC_COPY`, declared there as `0x88EA`.
#[verifier::external_body]
pub(crate) fn dynamic_copy() -> (r: u32)
    ensures
        r == 0x88EAu32,
{
    gl_constants::GL_DYNAMIC_COPY
}

/// `gl_constants::GL_COMPUTE_SHADER`, declared there as `0x91B9`.
#[verifier::external_body]
pub(crate) fn compute_shader() -> (r: u32)
    ensures
        r == 0x91B9u32,
{
    gl_constants::GL_COMPUTE_SHADER
}

/// `gl_constants::GL_VERTEX_SHADER`, declared there as `0x8B31`.
#[verifier::external_body]
pub(crate) fn vertex_shader() -> (r: u32)
    ensures
        r == 0x8B31u32,
{
    gl_constants::GL_VERTEX_SHADER
}

/// `gl_constants::GL_TESS_CONTROL_SHADER`, declared there as `0x8E88`.
#[verifier::external_body]
pub(crate) fn tess_control_shader() -> (r: u32)
    ensures
        r == 0x8E88u32,
{
    gl_constants::GL_TESS_CONTROL_SHADER
}

/// `gl_constants::GL_TESS_EVALUATION_SHADER`, declared there as `0x8E87`.
#[verifier::external_body]
pub(crate) fn tess_evaluation_shader() -> (r: u32)
    ensures
        r == 0x8E87u32,
{
    gl_constants::GL_TESS_EVALUATION_SHADER
}

/// `gl_constants::GL_GEOMETRY_SHADER`, declared there as `0x8DD9`.
#[verifier::external_body]
pub(crate) fn geometry_shader() -> (r: u32)
    ensures
        r == 0x8DD9u32,
{
    gl_constants::GL_GEOMETRY_SHADER
}

/// `gl_constants::GL_FRAGMENT_SHADER`, declared there as `0x8B30`.
#[verifier::external_body]
pub(crate) fn fragment_shader() -> (r: u32)
    ensures
        r == 0x8B30u32,
{
    gl_constants::GL_FRAGMENT_SHADER
}

/// `gl_constants::GL_UNSIGNED_BYTE`, declared there as `0x1401`.
#[verifier::external_body]
pub(crate) fn unsigned_byte() -> (r: u32)
    ensures
        r == 0x1401u32,
{
    gl_constants::GL_UNSIGNED_BYTE
}

/// `gl_constants::GL_UNSIGNED_SHORT`, declared there as `0x1403`.
#[verifier::external_body]
pub(crate) fn unsigned_short() -> (r: u32)
    ensures
        r == 0x1403u32,
{
    gl_constants::GL_UNSIGNED_SHORT
}

/// `gl_constants::GL_UNSIGNED_INT`, declared there as `0x1405`.
#[verifier::external_body]
pub(crate) fn unsigned_int() -> (r: u32)
    ensures
        r == 0x1405u32,
{
    gl_constants::GL_UNSIGNED_INT
}

/// `gl_constants::GL_DEBUG_SOURCE_API`, declared there as `0x8246`.
#[verifier::external_body]
pub(crate) fn debug_source_api() -> (r: u32)
    ensures
        r == 0x8246u32,
{
    gl_constants::GL_DEBUG_SOURCE_API
}

/// `gl_constants::GL_DEBUG_SOURCE_WINDOW_SYSTEM`, declared there as `0x8247`.
#[verifier::external_body]
pub(crate) fn debug_source_window_system() -> (r: u32)
    ensures
        r == 0x8247u32,
{
    gl_constants::GL_DEBUG_SOURCE_WINDOW_SYSTEM
}

/// `gl_constants::GL_DEBUG_SOURCE_SHADER_COMPILER`, declared there as `0x8248`.
#[verifier::external_body]
pub(crate) fn debug_source_shader_compiler() -> (r: u32)
    ensures
        r == 0x8248u32,
{
    gl_constants::GL_DEBUG_SOURCE_SHADER_COMPILER
}

/// `gl_constants::GL_DEBUG_SOURCE_THIRD_PARTY`, declared there as `0x8249`.
#[verifier::external_body]
pub(crate) fn debug_source_third_party() -> (r: u32)
    ensures
        r == 0x8249u32,
{
    gl_constants::GL_DEBUG_SOURCE_THIRD_PARTY
}

/// `gl_constants::GL_DEBUG_SOURCE_APPLICATION`, declared there as `0x824A`.
#[verifier::external_body]
pub(crate) fn debug_source_application() -> (r: u32)
    ensures
        r == 0x824Au32,
{
    gl_constants::GL_DEBUG_SOURCE_APPLICATION
}

/// `gl_constants::GL_DEBUG_TYPE_ERROR`, declared there as `0x824C`.
#[verifier::external_body]
pub(crate) fn debug_type_error() -> (r: u32)
    ensures
        r == 0x824Cu32,
{
    gl_constants::GL_DEBUG_TYPE_ERROR
}

/// `gl_constants::GL_DEBUG_TYPE_DEPRECATED_BEHAVIOR`, declared there as `0x824D`.
#[verifier::external_body]
pub(crate) fn debug_type_deprecated_behavior() -> (r: u32)
    ensures
        r == 0x824Du32,
{
    gl_constants::GL_DEBUG_TYPE_DEPRECATED_BEHAVIOR
}

/// `gl_constants::GL_DEBUG_TYPE_UNDEFINED_BEHAVIOR`, declared there as `0x824E`.
#[verifier::external_body]
pub(crate) fn debug_type_undefined_behavior() -> (r: u32)
    ensures
        r == 0x824Eu32,
{
    gl_constants::GL_DEBUG_TYPE_UNDEFINED_BEHAVIOR
}

/// `gl_constants::GL_DEBUG_TYPE_PORTABILITY`, declared there as `0x824F`.
#[verifier::external_body]
pub(crate) fn debug_type_portability() -> (r: u32)
    ensures
        r == 0x824Fu32,
{
    gl_constants::GL_DEBUG_TYPE_PORTABILITY
}

/// `gl_constants::GL_DEBUG_TYPE_PERFORMANCE`, declared there as `0x8250`.
#[verifier::external_body]
pub(crate) fn debug_type_performance() -> (r: u32)
    ensures
        r == 0x8250u32,
{
    gl_constants::GL_DEBUG_TYPE_PERFORMANCE
}

/// `gl_constants::GL_DEBUG_TYPE_MARKER`, declared there as `0x8268`.
#[verifier::external_body]
pub(crate) fn debug_type_marker() -> (r: u32)
    ensures
        r == 0x8268u32,
{
    gl_constants::GL_DEBUG_TYPE_MARKER
}

/// `gl_constants::GL_DEBUG_SEVERITY_HIGH`, declared there as `0x9146`.
#[verifier::external_body]
pub(crate) fn debug_severity_high() -> (r: u32)
    ensures
        r == 0x9146u32,
{
    gl_constants::GL_DEBUG_SEVERITY_HIGH
}

/// `gl_constants::GL_DEBUG_SEVERITY_MEDIUM`, declared there as `0x9147`.
#[verifier::external_body]
pub(crate) fn debug_severity_medium() -> (r: u32)
    ensures
        r == 0x9147u32,
{
    gl_constants::GL_DEBUG_SEVERITY_MEDIUM
}

/// `gl_constants::GL_DEBUG_SEVERITY_LOW`, declared there as `0x9148`.
#[verifier::external_body]
pub(crate) fn debug_severity_low() -> (r: u32)
    ensures
        r == 0x9148u32,
{
    gl_constants::GL_DEBUG_SEVERITY_LOW
}

/// `gl_constants::GL_DEBUG_SEVERITY_NOTIFICATION`, declared there as `0x826B`.
#[verifier::external_body]
pub(crate) fn debug_severity_notification() -> (r: u32)
    ensures
        r == 0x826Bu32,
{
    gl_constants::GL_DEBUG_SEVERITY_NOTIFICATION
}

/// `gl_constants::GL_FLOAT`, declared there as `0x1406`.
#[verifier::external_body]
pub(crate) fn float() -> (r: u32)
    ensures
        r == 0x1406u32,
{
    gl_constants::GL_FLOAT
}

/// `gl_constants::GL_SRGB8_ALPHA8`, declared there as `0x8C43`.
#[verifier::external_body]
pub(crate) fn srgb8_alpha8() -> (r: u32)
    ensures
        r == 0x8C43u32,
{
    gl_constants::GL_SRGB8_ALPHA8
}

/// `gl_constants::GL_RGBA`, declared there as `0x1908`.
#[verifier::external_body]
pub(crate) fn rgba() -> (r: u32)
    ensures
        r == 0x1908u32,
{
    gl_constants::GL_RGBA
}

/// `gl_constants::GL_TEXTURE0`, declared there as `0x84C0`.
#[verifier::external_body]
pub(crate) fn texture0() -> (r: u32)
    ensures
        r == 0x84C0u32,
{
    gl_constants::GL_TEXTURE0
}

/// `gl_constants::GL_FRAMEBUFFER_SRGB`, declared there as `0x8DB9`.
#[verifier::external_body]
pub(crate) fn framebuffer_srgb() -> (r: u32)
    ensures
        r == 0x8DB9u32,
{
    gl_constants::GL_FRAMEBUFFER_SRGB
}

/// `gl_constants::GL_MULTISAMPLE`, declared there as `0x809D`.
#[verifier::external_body]
pub(crate) fn multisample() -> (r: u32)
    ensures
        r == 0x809Du32,
{
    gl_constants::GL_MULTISAMPLE
}

/// `gl_constants::GL_DEPTH_TEST`, declared there as `0x0B71`.
#[verifier::external_body]
pub(crate) fn depth_test() -> (r: u32)
    ensures
        r == 0x0B71u32,
{
    gl_constants::GL_DEPTH_TEST
}

/// `gl_constants::GL_TEXTURE_WRAP_S`, declared there as `0x2802`.
#[verifier::external_body]
pub(crate) fn texture_wrap_s() -> (r: u32)
    ensures
        r == 0x2802u32,
{
    gl_constants::GL_TEXTURE_WRAP_S
}

/// `gl_constants::GL_TEXTURE_WRAP_T`, declared there as `0x2803`.
#[verifier::external_body]
pub(crate) fn texture_wrap_t() -> (r: u32)
    ensures
        r == 0x2803u32,
{
    gl_constants::GL_TEXTURE_WRAP_T
}

/// `gl_constants::GL_TEXTURE_MIN_FILTER`, declared there as `0x2801`.
#[verifier::external_body]
pub(crate) fn texture_min_filter() -> (r: u32)
    ensures
        r == 0x2801u32,
{
    gl_constants::GL_TEXTURE_MIN_FILTER
}

/// `gl_constants::GL_TEXTURE_MAG_FILTER`, declared there as `0x2800`.
#[verifier::external_body]
pub(crate) fn texture_mag_filter() -> (r: u32)
    ensures
        r == 0x2800u32,
{
    gl_constants::GL_TEXTURE_MAG_FILTER
}

/// `gl_constants::GL_COLOR_BUFFER_BIT`, declared there as `0x4000`.
#[verifier::external_body]
pub(crate) fn color_buffer_bit() -> (r: u32)
    ensures
        r == 0x4000u32,
{
    gl_constants::GL_COLOR_BUFFER_BIT
}

/// `gl_constants::GL_DEPTH_BUFFER_BIT`, declared there as `0x0100`.
#[verifier::external_body]
pub(crate) fn depth_buffer_bit() -> (r: u32)
    ensures
        r == 0x0100u32,
{
    gl_constants::GL_DEPTH_BUFFER_BIT
}

} // verus!
