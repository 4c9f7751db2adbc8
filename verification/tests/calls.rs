use ezgl::{
    BufferDataCall, BufferTarget, BufferUsageHint, CapabilityCall, DrawArraysCall,
    DrawElementsCall, DrawElementsType, DrawMode, EzGl, MagFilter, MinFilter, TexImage2dCall,
    TexParameterCall, TextureTarget, TextureWrap, VertexAttribPointerCall, VertexAttribPointerTy,
};
use gl_constants::{
    GL_ARRAY_BUFFER, GL_CLAMP_TO_BORDER, GL_COLOR_BUFFER_BIT, GL_DEPTH_BUFFER_BIT, GL_DEPTH_TEST,
    GL_ELEMENT_ARRAY_BUFFER, GL_FLOAT, GL_FRAMEBUFFER_SRGB, GL_LINEAR, GL_LINEAR_MIPMAP_LINEAR,
    GL_MULTISAMPLE, GL_REPEAT, GL_RGBA, GL_SRGB8_ALPHA8, GL_STATIC_DRAW, GL_STREAM_COPY,
    GL_TEXTURE0, GL_TEXTURE_2D, GL_TEXTURE_MAG_FILTER, GL_TEXTURE_MIN_FILTER, GL_TEXTURE_WRAP_S,
    GL_TEXTURE_WRAP_T, GL_TRIANGLES, GL_TRIANGLE_STRIP, GL_UNSIGNED_BYTE, GL_UNSIGNED_INT,
    GL_UNSIGNED_SHORT,
};
use pixel_formats::r8g8b8a8_Srgb;

#[test]
fn buffer_data_hands_over_the_whole_payload() {
    let data = [0u8; 80];
    let call = EzGl::buffer_data(BufferTarget::ArrayBuffer, &data, BufferUsageHint::StaticDraw);
    assert_eq!(call, BufferDataCall { target: GL_ARRAY_BUFFER, size: 80, usage: GL_STATIC_DRAW });
}

#[test]
fn buffer_data_of_nothing_has_size_zero() {
    let call =
        EzGl::buffer_data(BufferTarget::ElementArrayBuffer, &[], BufferUsageHint::StreamCopy);
    assert_eq!(
        call,
        BufferDataCall { target: GL_ELEMENT_ARRAY_BUFFER, size: 0, usage: GL_STREAM_COPY }
    );
}

#[test]
fn buffer_data_knows_all_nine_usage_hints() {
    let hints = [
        BufferUsageHint::StreamDraw,
        BufferUsageHint::StreamRead,
        BufferUsageHint::StreamCopy,
        BufferUsageHint::StaticDraw,
        BufferUsageHint::StaticRead,
        BufferUsageHint::StaticCopy,
        BufferUsageHint::DynamicDraw,
        BufferUsageHint::DynamicRead,
        BufferUsageHint::DynamicCopy,
    ];
    for hint in hints {
        let call = EzGl::buffer_data(BufferTarget::ArrayBuffer, &[1, 2, 3], hint);
        assert_eq!(call.usage, hint.gl_enum());
        assert_eq!(call.size, 3);
    }
}

#[test]
fn texture_wrap_is_set_per_axis() {
    let s = EzGl::set_texture_wrap_s(TextureTarget::Texture2D, TextureWrap::Repeat);
    assert_eq!(
        s,
        TexParameterCall { target: GL_TEXTURE_2D, name: GL_TEXTURE_WRAP_S, value: 0x2901 }
    );
    assert_eq!(s.value, GL_REPEAT as i32);
    let t = EzGl::set_texture_wrap_t(TextureTarget::Texture2D, TextureWrap::ClampToBorder);
    assert_eq!(
        t,
        TexParameterCall { target: GL_TEXTURE_2D, name: GL_TEXTURE_WRAP_T, value: 0x812D }
    );
    assert_eq!(t.value, GL_CLAMP_TO_BORDER as i32);
}

#[test]
fn texture_filters_are_set_under_their_own_names() {
    let min =
        EzGl::set_texture_min_filter(TextureTarget::Texture2D, MinFilter::LinearMipmapLinear);
    assert_eq!(min.name, GL_TEXTURE_MIN_FILTER);
    assert_eq!(min.value, GL_LINEAR_MIPMAP_LINEAR as i32);
    assert_eq!(min.target, GL_TEXTURE_2D);
    let mag = EzGl::set_texture_mag_filter(TextureTarget::Texture2D, MagFilter::Linear);
    assert_eq!(mag.name, GL_TEXTURE_MAG_FILTER);
    assert_eq!(mag.value, GL_LINEAR as i32);
    assert_eq!(mag.value, 0x2601);
}

#[test]
fn setting_the_same_state_twice_gives_the_same_call() {
    let first = EzGl::set_texture_wrap_s(TextureTarget::Texture3D, TextureWrap::MirroredRepeat);
    let second = EzGl::set_texture_wrap_s(TextureTarget::Texture3D, TextureWrap::MirroredRepeat);
    assert_eq!(first, second);
}

#[test]
fn an_image_is_uploaded_with_its_dimensions() {
    let pixels = [r8g8b8a8_Srgb { r: 1, g: 2, b: 3, a: 4 }; 6];
    assert!(EzGl::tex_image_2d_accepts(3, 2, pixels.len()));
    let call = EzGl::tex_image_2d(TextureTarget::Texture2D, 0, 3, 2, &pixels);
    assert_eq!(
        call,
        TexImage2dCall {
            target: GL_TEXTURE_2D,
            level: 0,
            internal_format: GL_SRGB8_ALPHA8 as i32,
            width: 3,
            height: 2,
            border: 0,
            format: GL_RGBA,
            pixel_type: GL_UNSIGNED_BYTE,
        }
    );
    assert_eq!(call.internal_format, 0x8C43);
}

#[test]
fn an_image_whose_pixels_do_not_match_its_dimensions_is_refused() {
    assert!(!EzGl::tex_image_2d_accepts(3, 2, 5));
    assert!(!EzGl::tex_image_2d_accepts(3, 2, 7));
    assert!(!EzGl::tex_image_2d_accepts(0, 2, 1));
    assert!(EzGl::tex_image_2d_accepts(0, 2, 0));
    assert!(EzGl::tex_image_2d_accepts(1, 1, 1));
}

#[test]
fn an_image_too_large_for_the_driver_is_refused() {
    let limit = i32::MAX as usize;
    assert!(EzGl::tex_image_2d_accepts(limit, 1, limit));
    assert!(!EzGl::tex_image_2d_accepts(limit + 1, 1, limit + 1));
    assert!(!EzGl::tex_image_2d_accepts(1, limit + 1, limit + 1));
    assert!(!EzGl::tex_image_2d_accepts(usize::MAX, 2, usize::MAX.wrapping_mul(2)));
    assert!(!EzGl::tex_image_2d_accepts(usize::MAX, usize::MAX, 1));
}

#[test]
fn capabilities_are_switched_on_and_off() {
    assert_eq!(
        EzGl::enable_framebuffer_srgb(true),
        CapabilityCall { capability: GL_FRAMEBUFFER_SRGB, enable: true }
    );
    assert_eq!(
        EzGl::enable_framebuffer_srgb(false),
        CapabilityCall { capability: GL_FRAMEBUFFER_SRGB, enable: false }
    );
    assert_eq!(
        EzGl::enable_multisample(true),
        CapabilityCall { capability: GL_MULTISAMPLE, enable: true }
    );
    assert_eq!(
        EzGl::enable_multisample(false),
        CapabilityCall { capability: 0x809D, enable: false }
    );
    assert_eq!(
        EzGl::enable_depth_test(true),
        CapabilityCall { capability: GL_DEPTH_TEST, enable: true }
    );
    assert_eq!(EzGl::enable_depth_test(false), CapabilityCall { capability: 0x0B71, enable: false });
}

#[test]
fn clear_masks_combine_the_buffer_bits() {
    assert_eq!(EzGl::clear_color_buffer(), GL_COLOR_BUFFER_BIT);
    assert_eq!(EzGl::clear_color_and_depth_buffer(), GL_COLOR_BUFFER_BIT | GL_DEPTH_BUFFER_BIT);
    assert_eq!(EzGl::clear_color_and_depth_buffer(), 0x4100);
}

#[test]
fn unpack_alignments_are_one_two_four_and_eight() {
    for align in 0usize..20 {
        let known = align == 1 || align == 2 || align == 4 || align == 8;
        assert_eq!(EzGl::is_unpack_alignment(align), known);
    }
    assert!(!EzGl::is_unpack_alignment(usize::MAX));
    assert_eq!(EzGl::set_pixel_store_unpack_alignment(1), 1);
    assert_eq!(EzGl::set_pixel_store_unpack_alignment(4), 4);
    assert_eq!(EzGl::set_pixel_store_unpack_alignment(8), 8);
}

#[test]
fn texture_units_count_from_the_first_units_constant() {
    assert_eq!(EzGl::set_active_texture_unit(0), GL_TEXTURE0);
    assert_eq!(EzGl::set_active_texture_unit(1), 0x84C1);
    assert_eq!(EzGl::set_active_texture_unit(31), GL_TEXTURE0 + 31);
    assert_eq!(EzGl::get_active_texture_unit(0x84C0), 0);
    assert_eq!(EzGl::get_active_texture_unit(0x84C5), 5);
}

#[test]
fn the_active_texture_unit_reads_back_as_set() {
    for unit in [0u32, 1, 2, 15, 31, 79, 1000] {
        assert!(EzGl::is_texture_unit(unit));
        let constant = EzGl::set_active_texture_unit(unit);
        assert_eq!(EzGl::get_active_texture_unit(constant as i32), unit);
    }
}

#[test]
fn an_answer_below_the_first_units_constant_names_no_unit() {
    assert!(EzGl::is_texture_unit_constant(0x84C0));
    assert!(EzGl::is_texture_unit_constant(i32::MAX));
    assert!(!EzGl::is_texture_unit_constant(0x84BF));
    assert!(!EzGl::is_texture_unit_constant(0));
    assert!(!EzGl::is_texture_unit_constant(-1));
}

#[test]
fn a_unit_without_a_constant_is_no_texture_unit() {
    assert!(EzGl::is_texture_unit(u32::MAX - 0x84C0));
    assert!(!EzGl::is_texture_unit(u32::MAX - 0x84C0 + 1));
    assert!(!EzGl::is_texture_unit(u32::MAX));
}

#[test]
fn the_unit_count_is_the_drivers_answer() {
    assert_eq!(EzGl::get_max_combined_texture_image_units(0), 0);
    assert_eq!(EzGl::get_max_combined_texture_image_units(192), 192);
    assert_eq!(EzGl::get_max_combined_texture_image_units(i32::MAX), 0x7FFF_FFFF);
}

#[test]
fn draw_arrays_starts_at_the_range_and_counts_its_length() {
    assert!(EzGl::draw_arrays_accepts(&(0..3)));
    assert_eq!(
        EzGl::draw_arrays(DrawMode::Triangles, 0..3),
        DrawArraysCall { mode: GL_TRIANGLES, first: 0, count: 3 }
    );
    assert!(EzGl::draw_arrays_accepts(&(4..10)));
    assert_eq!(
        EzGl::draw_arrays(DrawMode::TriangleStrip, 4..10),
        DrawArraysCall { mode: GL_TRIANGLE_STRIP, first: 4, count: 6 }
    );
}

#[test]
fn draw_arrays_refuses_an_empty_range() {
    assert!(!EzGl::draw_arrays_accepts(&(0..0)));
    assert!(!EzGl::draw_arrays_accepts(&(3..3)));
    assert!(!EzGl::draw_arrays_accepts(&(usize::MAX..usize::MAX)));
}

#[test]
fn draw_arrays_refuses_a_reversed_range() {
    assert!(!EzGl::draw_arrays_accepts(&(5..2)));
    assert!(!EzGl::draw_arrays_accepts(&(1..0)));
}

#[test]
fn draw_arrays_refuses_what_the_driver_cannot_count() {
    let limit = i32::MAX as usize;
    assert!(EzGl::draw_arrays_accepts(&(0..limit)));
    assert!(!EzGl::draw_arrays_accepts(&(0..limit + 1)));
    assert!(EzGl::draw_arrays_accepts(&(limit..limit + 1)));
    assert!(!EzGl::draw_arrays_accepts(&(limit + 1..limit + 2)));
    let call = EzGl::draw_arrays(DrawMode::Points, limit..limit + 1);
    assert_eq!(call.first, i32::MAX);
    assert_eq!(call.count, 1);
}

#[test]
fn draw_elements_counts_the_range_and_starts_at_its_offset() {
    assert!(EzGl::draw_elements_accepts(&(0..6)));
    assert_eq!(
        EzGl::draw_elements(DrawElementsType::U32, DrawMode::Triangles, 0..6),
        DrawElementsCall { mode: GL_TRIANGLES, count: 6, index_type: GL_UNSIGNED_INT, offset: 0 }
    );
    assert_eq!(
        EzGl::draw_elements(DrawElementsType::U16, DrawMode::Triangles, 3..6),
        DrawElementsCall { mode: 4, count: 3, index_type: GL_UNSIGNED_SHORT, offset: 3 }
    );
    assert_eq!(
        EzGl::draw_elements(DrawElementsType::U8, DrawMode::Lines, 2..4),
        DrawElementsCall { mode: 1, count: 2, index_type: GL_UNSIGNED_BYTE, offset: 2 }
    );
}

#[test]
fn draw_elements_refuses_an_empty_range() {
    assert!(!EzGl::draw_elements_accepts(&(0..0)));
    assert!(!EzGl::draw_elements_accepts(&(6..6)));
    assert!(!EzGl::draw_elements_accepts(&(7..6)));
}

#[test]
fn draw_elements_refuses_what_the_driver_cannot_count() {
    let limit = i32::MAX as usize;
    assert!(EzGl::draw_elements_accepts(&(0..limit)));
    assert!(!EzGl::draw_elements_accepts(&(0..limit + 1)));
    assert!(EzGl::draw_elements_accepts(&(limit + 5..limit + 6)));
}

#[test]
fn vertex_attributes_of_a_quad_with_positions_and_uv() {
    let stride = 5 * 4;
    let position = EzGl::vertex_attrib_f32_pointer(VertexAttribPointerTy::Float3, 0, stride, 0);
    assert_eq!(
        position,
        VertexAttribPointerCall {
            index: 0,
            size: 3,
            component_type: GL_FLOAT,
            normalized: false,
            stride: 20,
            offset: 0,
        }
    );
    let uv = EzGl::vertex_attrib_f32_pointer(VertexAttribPointerTy::Float2, 1, stride, 3 * 4);
    assert_eq!(
        uv,
        VertexAttribPointerCall {
            index: 1,
            size: 2,
            component_type: 0x1406,
            normalized: false,
            stride: 20,
            offset: 12,
        }
    );
}

#[test]
fn element_layouts_describe_float_vectors() {
    assert_eq!(VertexAttribPointerTy::Float2.size(), 2);
    assert_eq!(VertexAttribPointerTy::Float3.size(), 3);
    assert_eq!(VertexAttribPointerTy::Float2.component_type(), GL_FLOAT);
    assert_eq!(VertexAttribPointerTy::Float3.component_type(), GL_FLOAT);
    assert!(!VertexAttribPointerTy::Float2.normalized());
    assert!(!VertexAttribPointerTy::Float3.normalized());
}
