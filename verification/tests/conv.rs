use gpu_track::conv::{
    binding_size, buffer_usage, color_write, map_address_mode, map_anisotropy_clamp,
    map_bind_group_layout_entries, map_bind_group_layout_entry, map_blend_factor,
    map_blend_operation, map_buffer_binding_type, map_buffer_range, map_compare_function,
    map_cull_mode, map_filter_mode, map_front_face, map_index_format, map_input_step_mode,
    map_map_mode, map_present_mode, map_primitive_topology, map_shader_language,
    map_texture_aspect, map_texture_dimension, map_texture_format, map_texture_view_dimension,
    map_vertex_format, shader_stage, texture_dimension,
};
use gpu_track::conv::{
    AddressMode, BindGroupLayoutEntry, BindingError, BlendFactor, BlendOperation,
    BufferBindingLayout, BufferBindingType, CompareFunction, Face, FilterMode, FrontFace, HostMap,
    IndexFormat, InputStepMode, PresentMode, PrimitiveTopology, RawBindGroupLayoutEntry,
    ShaderLanguage, TextureAspect, TextureDimension, TextureViewDimension, VertexFormat,
};
use gpu_track::conv::{BUFFER_USAGES, COLOR_WRITES, SHADER_STAGES};
use gpu_track::resource::TextureFormat;

fn raw(buffer_type: u32) -> RawBindGroupLayoutEntry {
    RawBindGroupLayoutEntry {
        binding: 3,
        visibility: 5,
        buffer_type,
        has_dynamic_offset: true,
        min_binding_size: 64,
        sampler_type: 0,
        texture_sample_type: 0,
        storage_texture_access: 0,
    }
}

#[test]
fn texture_formats_by_enumerator() {
    let expected = [
        (0x01, TextureFormat::R8Unorm),
        (0x02, TextureFormat::R8Snorm),
        (0x03, TextureFormat::R8Uint),
        (0x04, TextureFormat::R8Sint),
        (0x05, TextureFormat::R16Uint),
        (0x06, TextureFormat::R16Sint),
        (0x07, TextureFormat::R16Float),
        (0x08, TextureFormat::Rg8Unorm),
        (0x09, TextureFormat::Rg8Snorm),
        (0x0a, TextureFormat::Rg8Uint),
        (0x0b, TextureFormat::Rg8Sint),
        (0x0c, TextureFormat::R32Float),
        (0x0d, TextureFormat::R32Uint),
        (0x0e, TextureFormat::R32Sint),
        (0x0f, TextureFormat::Rg16Uint),
        (0x10, TextureFormat::Rg16Sint),
        (0x11, TextureFormat::Rg16Float),
        (0x12, TextureFormat::Rgba8Unorm),
        (0x13, TextureFormat::Rgba8UnormSrgb),
        (0x14, TextureFormat::Rgba8Snorm),
        (0x15, TextureFormat::Rgba8Uint),
        (0x16, TextureFormat::Rgba8Sint),
        (0x17, TextureFormat::Bgra8Unorm),
        (0x18, TextureFormat::Bgra8UnormSrgb),
        (0x19, TextureFormat::Rgb10a2Unorm),
        (0x1c, TextureFormat::Rg32Float),
        (0x1d, TextureFormat::Rg32Uint),
        (0x1e, TextureFormat::Rg32Sint),
        (0x1f, TextureFormat::Rgba16Uint),
        (0x20, TextureFormat::Rgba16Sint),
        (0x21, TextureFormat::Rgba16Float),
        (0x22, TextureFormat::Rgba32Float),
        (0x23, TextureFormat::Rgba32Uint),
        (0x24, TextureFormat::Rgba32Sint),
        (0x25, TextureFormat::Depth32Float),
        (0x26, TextureFormat::Depth24Plus),
        (0x27, TextureFormat::Depth24PlusStencil8),
    ];
    for (value, format) in expected {
        assert_eq!(map_texture_format(value), Some(format), "{:#x}", value);
    }
    let named: Vec<u32> = expected.iter().map(|pair| pair.0).collect();
    for value in 0..0x100u32 {
        if !named.contains(&value) {
            assert_eq!(map_texture_format(value), None, "{:#x}", value);
        }
    }
    assert_eq!(map_texture_format(0x7fff_ffff), None);
}

#[test]
fn texture_dimensions_by_enumerator() {
    assert_eq!(texture_dimension(0), Some(TextureDimension::D1));
    assert_eq!(texture_dimension(1), Some(TextureDimension::D2));
    assert_eq!(texture_dimension(2), Some(TextureDimension::D3));
    assert_eq!(texture_dimension(3), None);
    assert_eq!(map_texture_dimension(0), TextureDimension::D1);
    assert_eq!(map_texture_dimension(1), TextureDimension::D2);
    assert_eq!(map_texture_dimension(2), TextureDimension::D3);
}

#[test]
fn texture_view_dimensions_by_enumerator() {
    assert_eq!(map_texture_view_dimension(0), None);
    assert_eq!(map_texture_view_dimension(1), Some(TextureViewDimension::D1));
    assert_eq!(map_texture_view_dimension(2), Some(TextureViewDimension::D2));
    assert_eq!(map_texture_view_dimension(3), Some(TextureViewDimension::D2Array));
    assert_eq!(map_texture_view_dimension(4), Some(TextureViewDimension::Cube));
    assert_eq!(map_texture_view_dimension(5), Some(TextureViewDimension::CubeArray));
    assert_eq!(map_texture_view_dimension(6), Some(TextureViewDimension::D3));
    assert_eq!(map_texture_view_dimension(7), None);
}

#[test]
fn sampler_enumerators() {
    assert_eq!(map_address_mode(0), Some(AddressMode::Repeat));
    assert_eq!(map_address_mode(1), Some(AddressMode::MirrorRepeat));
    assert_eq!(map_address_mode(2), Some(AddressMode::ClampToEdge));
    assert_eq!(map_address_mode(3), None);
    assert_eq!(map_filter_mode(0), Some(FilterMode::Nearest));
    assert_eq!(map_filter_mode(1), Some(FilterMode::Linear));
    assert_eq!(map_filter_mode(2), None);
    let compare = [
        (1, CompareFunction::Never),
        (2, CompareFunction::Less),
        (3, CompareFunction::LessEqual),
        (4, CompareFunction::Greater),
        (5, CompareFunction::GreaterEqual),
        (6, CompareFunction::Equal),
        (7, CompareFunction::NotEqual),
        (8, CompareFunction::Always),
    ];
    for (value, function) in compare {
        assert_eq!(map_compare_function(value), Some(function));
    }
    assert_eq!(map_compare_function(0), None);
    assert_eq!(map_compare_function(9), None);
}

#[test]
fn anisotropy_fits_a_byte_or_is_none() {
    assert_eq!(map_anisotropy_clamp(0), None);
    assert_eq!(map_anisotropy_clamp(1), Some(1));
    assert_eq!(map_anisotropy_clamp(16), Some(16));
    assert_eq!(map_anisotropy_clamp(255), Some(255));
    assert_eq!(map_anisotropy_clamp(256), None);
    assert_eq!(map_anisotropy_clamp(u16::MAX), None);
}

#[test]
fn view_and_swapchain_enumerators() {
    assert_eq!(map_texture_aspect(0), Some(TextureAspect::All));
    assert_eq!(map_texture_aspect(1), Some(TextureAspect::StencilOnly));
    assert_eq!(map_texture_aspect(2), Some(TextureAspect::DepthOnly));
    assert_eq!(map_texture_aspect(3), None);
    assert_eq!(map_present_mode(0), Some(PresentMode::Immediate));
    assert_eq!(map_present_mode(1), Some(PresentMode::Mailbox));
    assert_eq!(map_present_mode(2), Some(PresentMode::Fifo));
    assert_eq!(map_present_mode(3), None);
}

#[test]
fn pipeline_enumerators() {
    let topology = [
        PrimitiveTopology::PointList,
        PrimitiveTopology::LineList,
        PrimitiveTopology::LineStrip,
        PrimitiveTopology::TriangleList,
        PrimitiveTopology::TriangleStrip,
    ];
    for (value, expected) in topology.iter().enumerate() {
        assert_eq!(map_primitive_topology(value as u32), Some(*expected));
    }
    assert_eq!(map_primitive_topology(5), None);
    assert_eq!(map_index_format(0), None);
    assert_eq!(map_index_format(1), Some(IndexFormat::Uint16));
    assert_eq!(map_index_format(2), Some(IndexFormat::Uint32));
    assert_eq!(map_index_format(3), None);
    assert_eq!(map_input_step_mode(0), Some(InputStepMode::Vertex));
    assert_eq!(map_input_step_mode(1), Some(InputStepMode::Instance));
    assert_eq!(map_input_step_mode(2), None);
    assert_eq!(map_front_face(0), Some(FrontFace::Ccw));
    assert_eq!(map_front_face(1), Some(FrontFace::Cw));
    assert_eq!(map_front_face(2), None);
    assert_eq!(map_cull_mode(0), None);
    assert_eq!(map_cull_mode(1), Some(Face::Front));
    assert_eq!(map_cull_mode(2), Some(Face::Back));
    assert_eq!(map_cull_mode(3), None);
}

#[test]
fn blend_enumerators() {
    let factors = [
        BlendFactor::Zero,
        BlendFactor::One,
        BlendFactor::Src,
        BlendFactor::OneMinusSrc,
        BlendFactor::SrcAlpha,
        BlendFactor::OneMinusSrcAlpha,
        BlendFactor::Dst,
        BlendFactor::OneMinusDst,
        BlendFactor::DstAlpha,
        BlendFactor::OneMinusDstAlpha,
        BlendFactor::SrcAlphaSaturated,
        BlendFactor::Constant,
        BlendFactor::OneMinusConstant,
    ];
    for (value, expected) in factors.iter().enumerate() {
        assert_eq!(map_blend_factor(value as u32), Some(*expected));
    }
    assert_eq!(map_blend_factor(13), None);
    let operations = [
        BlendOperation::Add,
        BlendOperation::Subtract,
        BlendOperation::ReverseSubtract,
        BlendOperation::Min,
        BlendOperation::Max,
    ];
    for (value, expected) in operations.iter().enumerate() {
        assert_eq!(map_blend_operation(value as u32), Some(*expected));
    }
    assert_eq!(map_blend_operation(5), None);
}

#[test]
fn vertex_formats_by_enumerator() {
    let formats = [
        VertexFormat::Uint8x2,
        VertexFormat::Uint8x4,
        VertexFormat::Sint8x2,
        VertexFormat::Sint8x4,
        VertexFormat::Unorm8x2,
        VertexFormat::Unorm8x4,
        VertexFormat::Snorm8x2,
        VertexFormat::Snorm8x4,
        VertexFormat::Uint16x2,
        VertexFormat::Uint16x4,
        VertexFormat::Sint16x2,
        VertexFormat::Sint16x4,
        VertexFormat::Unorm16x2,
        VertexFormat::Unorm16x4,
        VertexFormat::Snorm16x2,
        VertexFormat::Snorm16x4,
        VertexFormat::Float16x2,
        VertexFormat::Float16x4,
        VertexFormat::Float32,
        VertexFormat::Float32x2,
        VertexFormat::Float32x3,
        VertexFormat::Float32x4,
        VertexFormat::Uint32,
        VertexFormat::Uint32x2,
        VertexFormat::Uint32x3,
        VertexFormat::Uint32x4,
        VertexFormat::Sint32,
        VertexFormat::Sint32x2,
        VertexFormat::Sint32x3,
        VertexFormat::Sint32x4,
    ];
    assert_eq!(map_vertex_format(0), None);
    for (index, expected) in formats.iter().enumerate() {
        assert_eq!(map_vertex_format(index as u32 + 1), Some(*expected));
    }
    assert_eq!(map_vertex_format(31), None);
}

#[test]
fn map_modes_and_shader_sources() {
    assert_eq!(map_map_mode(1), Some(HostMap::Read));
    assert_eq!(map_map_mode(2), Some(HostMap::Write));
    assert_eq!(map_map_mode(0), None);
    assert_eq!(map_map_mode(3), None);
    assert_eq!(map_shader_language(true, true), Some(ShaderLanguage::Wgsl));
    assert_eq!(map_shader_language(true, false), Some(ShaderLanguage::Wgsl));
    assert_eq!(map_shader_language(false, true), Some(ShaderLanguage::SpirV));
    assert_eq!(map_shader_language(false, false), None);
}

#[test]
fn flags_are_checked_against_their_type() {
    assert_eq!(BUFFER_USAGES, 0x1ff);
    assert_eq!(SHADER_STAGES, 0x7);
    assert_eq!(COLOR_WRITES, 0xf);
    assert_eq!(buffer_usage(0), Some(0));
    assert_eq!(buffer_usage(4 | 32), Some(36));
    assert_eq!(buffer_usage(0x1ff), Some(0x1ff));
    assert_eq!(buffer_usage(0x200), None);
    assert_eq!(buffer_usage(u32::MAX), None);
    assert_eq!(shader_stage(0), Some(0));
    assert_eq!(shader_stage(7), Some(7));
    assert_eq!(shader_stage(8), None);
    assert_eq!(shader_stage(1 | 16), None);
    assert_eq!(color_write(15), Some(15));
    assert_eq!(color_write(5), Some(5));
    assert_eq!(color_write(16), None);
}

#[test]
fn binding_sizes_and_mapped_ranges() {
    assert_eq!(binding_size(0), None);
    assert_eq!(binding_size(1), Some(1));
    assert_eq!(binding_size(u64::MAX), Some(u64::MAX));
    assert_eq!(map_buffer_range(0, 0), Some((0, 0)));
    assert_eq!(map_buffer_range(16, 48), Some((16, 64)));
    assert_eq!(map_buffer_range(usize::MAX, 0), Some((usize::MAX as u64, usize::MAX as u64)));
    assert_eq!(map_buffer_range(usize::MAX, 1), None);
    assert_eq!(map_buffer_range(1, usize::MAX), None);
}

#[test]
fn buffer_binding_types_by_enumerator() {
    assert_eq!(map_buffer_binding_type(0), None);
    assert_eq!(map_buffer_binding_type(1), Some(BufferBindingType::Uniform));
    assert_eq!(map_buffer_binding_type(2), Some(BufferBindingType::Storage { read_only: false }));
    assert_eq!(map_buffer_binding_type(3), Some(BufferBindingType::Storage { read_only: true }));
    assert_eq!(map_buffer_binding_type(4), None);
}

#[test]
fn a_buffer_entry_is_taken() {
    assert_eq!(
        map_bind_group_layout_entry(raw(3)),
        Ok(BindGroupLayoutEntry {
            binding: 3,
            visibility: 5,
            ty: BufferBindingLayout {
                ty: BufferBindingType::Storage { read_only: true },
                has_dynamic_offset: true,
                min_binding_size: Some(64),
            },
        })
    );
    let mut unsized_uniform = raw(1);
    unsized_uniform.min_binding_size = 0;
    unsized_uniform.has_dynamic_offset = false;
    assert_eq!(
        map_bind_group_layout_entry(unsized_uniform),
        Ok(BindGroupLayoutEntry {
            binding: 3,
            visibility: 5,
            ty: BufferBindingLayout {
                ty: BufferBindingType::Uniform,
                has_dynamic_offset: false,
                min_binding_size: None,
            },
        })
    );
}

#[test]
fn other_entries_are_refused_in_order() {
    let mut entry = raw(9);
    entry.visibility = 8;
    assert_eq!(map_bind_group_layout_entry(entry), Err(BindingError::UnknownBufferType(9)));
    entry.buffer_type = 1;
    assert_eq!(map_bind_group_layout_entry(entry), Err(BindingError::Visibility));
    entry.buffer_type = 0;
    assert_eq!(map_bind_group_layout_entry(entry), Err(BindingError::NoType));
    entry.storage_texture_access = 1;
    assert_eq!(map_bind_group_layout_entry(entry), Err(BindingError::StorageTexture));
    entry.sampler_type = 2;
    assert_eq!(map_bind_group_layout_entry(entry), Err(BindingError::Sampler));
    entry.texture_sample_type = 1;
    assert_eq!(map_bind_group_layout_entry(entry), Err(BindingError::Texture));
}

#[test]
fn entries_are_read_in_order_until_one_fails() {
    assert_eq!(map_bind_group_layout_entries(&Vec::new()), Ok(Vec::new()));
    let good = vec![raw(1), raw(2), raw(3)];
    let entries = map_bind_group_layout_entries(&good).unwrap();
    assert_eq!(entries.len(), 3);
    assert_eq!(entries[0].ty.ty, BufferBindingType::Uniform);
    assert_eq!(entries[1].ty.ty, BufferBindingType::Storage { read_only: false });
    assert_eq!(entries[2].ty.ty, BufferBindingType::Storage { read_only: true });
    let mut sampler = raw(1);
    sampler.sampler_type = 1;
    let bad = vec![raw(1), raw(7), sampler];
    assert_eq!(
        map_bind_group_layout_entries(&bad),
        Err(BindingError::UnknownBufferType(7))
    );
    let bad = vec![sampler, raw(7)];
    assert_eq!(map_bind_group_layout_entries(&bad), Err(BindingError::Sampler));
}
