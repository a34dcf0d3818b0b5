//! From the values of the C API to those of the library: what each
//! enumerator names, which flags are flags, and what the fields of a
//! descriptor add up to.
//!
//! Nothing here fails by stopping the program. A value that names nothing
//! comes back as `None` or as an error, and the caller decides.

use vstd::prelude::*;
use crate::native;
use crate::native::EnumConstant;
use crate::resource::TextureFormat;

verus! {

/// How a sampler treats coordinates outside the texture.
#[derive(Clone, Copy, Debug, PartialEq, Eq)]
pub enum AddressMode {
    ClampToEdge,
    Repeat,
    MirrorRepeat,
}

/// How a sampler blends neighbouring texels.
#[derive(Clone, Copy, Debug, PartialEq, Eq)]
pub enum FilterMode {
    Nearest,
    Linear,
}

/// The test of a comparison sampler or a depth test.
#[derive(Clone, Copy, Debug, PartialEq, Eq)]
pub enum CompareFunction {
    Never,
    Less,
    Equal,
    LessEqual,
    Greater,
    NotEqual,
    GreaterEqual,
    Always,
}

/// The planes of a texture that a view shows.
#[derive(Clone, Copy, Debug, PartialEq, Eq)]
pub enum TextureAspect {
    All,
    StencilOnly,
    DepthOnly,
}

/// How a swapchain paces its presents.
#[derive(Clone, Copy, Debug, PartialEq, Eq)]
pub enum PresentMode {
    Immediate,
    Mailbox,
    Fifo,
}

/// How vertices are assembled into primitives.
#[derive(Clone, Copy, Debug, PartialEq, Eq)]
pub enum PrimitiveTopology {
    PointList,
    LineList,
    LineStrip,
    TriangleList,
    TriangleStrip,
}

/// The width of an index.
#[derive(Clone, Copy, Debug, PartialEq, Eq)]
pub enum IndexFormat {
    Uint16,
    Uint32,
}

/// A factor of the blend equation.
#[derive(Clone, Copy, Debug, PartialEq, Eq)]
pub enum BlendFactor {
    Zero,
    One,
    Src,
    OneMinusSrc,
    SrcAlpha,
    OneMinusSrcAlpha,
    Dst,
    OneMinusDst,
    DstAlpha,
    OneMinusDstAlpha,
    SrcAlphaSaturated,
    Constant,
    OneMinusConstant,
}

/// The operator of the blend equation.
#[derive(Clone, Copy, Debug, PartialEq, Eq)]
pub enum BlendOperation {
    Add,
    Subtract,
    ReverseSubtract,
    Min,
    Max,
}

/// The format of a vertex attribute.
#[derive(Clone, Copy, Debug, PartialEq, Eq)]
pub enum VertexFormat {
    Uint8x2,
    Uint8x4,
    Sint8x2,
    Sint8x4,
    Unorm8x2,
    Unorm8x4,
    Snorm8x2,
    Snorm8x4,
    Uint16x2,
    Uint16x4,
    Sint16x2,
    Sint16x4,
    Unorm16x2,
    Unorm16x4,
    Snorm16x2,
    Snorm16x4,
    Float16x2,
    Float16x4,
    Float32,
    Float32x2,
    Float32x3,
    Float32x4,
    Uint32,
    Uint32x2,
    Uint32x3,
    Uint32x4,
    Sint32,
    Sint32x2,
    Sint32x3,
    Sint32x4,
}

/// The shape that a view gives a texture.
#[derive(Clone, Copy, Debug, PartialEq, Eq)]
pub enum TextureViewDimension {
    D1,
    D2,
    D2Array,
    Cube,
    CubeArray,
    D3,
}

/// The number of dimensions of a texture.
#[derive(Clone, Copy, Debug, PartialEq, Eq)]
pub enum TextureDimension {
    D1,
    D2,
    D3,
}

/// Whether a vertex buffer advances with each vertex or with each instance.
#[derive(Clone, Copy, Debug, PartialEq, Eq)]
pub enum InputStepMode {
    Vertex,
    Instance,
}

/// The winding of the front of a triangle.
#[derive(Clone, Copy, Debug, PartialEq, Eq)]
pub enum FrontFace {
    Ccw,
    Cw,
}

/// A side of a triangle.
#[derive(Clone, Copy, Debug, PartialEq, Eq)]
pub enum Face {
    Front,
    Back,
}

/// What the host does with a mapped buffer.
#[derive(Clone, Copy, Debug, PartialEq, Eq)]
pub enum HostMap {
    Write,
    Read,
}

/// The `AddressMode` that an enumerator of `WGPUAddressMode` names, if it names one.
pub open spec fn address_mode_of(value: EnumConstant) -> Option<AddressMode> {
    if value == native::WGPUAddressMode_ClampToEdge {
        Some(AddressMode::ClampToEdge)
    } else if value == native::WGPUAddressMode_Repeat {
        Some(AddressMode::Repeat)
    } else if value == native::WGPUAddressMode_MirrorRepeat {
        Some(AddressMode::MirrorRepeat)
    } else {
        None
    }
}

pub fn map_address_mode(value: EnumConstant) -> (r: Option<AddressMode>)
    ensures
        r == address_mode_of(value),
{
    if value == native::WGPUAddressMode_ClampToEdge {
        Some(AddressMode::ClampToEdge)
    } else if value == native::WGPUAddressMode_Repeat {
        Some(AddressMode::Repeat)
    } else if value == native::WGPUAddressMode_MirrorRepeat {
        Some(AddressMode::MirrorRepeat)
    } else {
        None
    }
}

/// The `FilterMode` that an enumerator of `WGPUFilterMode` names, if it names one.
pub open spec fn filter_mode_of(value: EnumConstant) -> Option<FilterMode> {
    if value == native::WGPUFilterMode_Nearest {
        Some(FilterMode::Nearest)
    } else if value == native::WGPUFilterMode_Linear {
        Some(FilterMode::Linear)
    } else {
        None
    }
}

pub fn map_filter_mode(value: EnumConstant) -> (r: Option<FilterMode>)
    ensures
        r == filter_mode_of(value),
{
    if value == native::WGPUFilterMode_Nearest {
        Some(FilterMode::Nearest)
    } else if value == native::WGPUFilterMode_Linear {
        Some(FilterMode::Linear)
    } else {
        None
    }
}

/// The `CompareFunction` that an enumerator of `WGPUCompareFunction` names, if it names one.
pub open spec fn compare_function_of(value: EnumConstant) -> Option<CompareFunction> {
    if value == native::WGPUCompareFunction_Never {
        Some(CompareFunction::Never)
    } else if value == native::WGPUCompareFunction_Less {
        Some(CompareFunction::Less)
    } else if value == native::WGPUCompareFunction_Equal {
        Some(CompareFunction::Equal)
    } else if value == native::WGPUCompareFunction_LessEqual {
        Some(CompareFunction::LessEqual)
    } else if value == native::WGPUCompareFunction_Greater {
        Some(CompareFunction::Greater)
    } else if value == native::WGPUCompareFunction_NotEqual {
        Some(CompareFunction::NotEqual)
    } else if value == native::WGPUCompareFunction_GreaterEqual {
        Some(CompareFunction::GreaterEqual)
    } else if value == native::WGPUCompareFunction_Always {
        Some(CompareFunction::Always)
    } else {
        None
    }
}

pub fn map_compare_function(value: EnumConstant) -> (r: Option<CompareFunction>)
    ensures
        r == compare_function_of(value),
{
    if value == native::WGPUCompareFunction_Never {
        Some(CompareFunction::Never)
    } else if value == native::WGPUCompareFunction_Less {
        Some(CompareFunction::Less)
    } else if value == native::WGPUCompareFunction_Equal {
        Some(CompareFunction::Equal)
    } else if value == native::WGPUCompareFunction_LessEqual {
        Some(CompareFunction::LessEqual)
    } else if value == native::WGPUCompareFunction_Greater {
        Some(CompareFunction::Greater)
    } else if value == native::WGPUCompareFunction_NotEqual {
        Some(CompareFunction::NotEqual)
    } else if value == native::WGPUCompareFunction_GreaterEqual {
        Some(CompareFunction::GreaterEqual)
    } else if value == native::WGPUCompareFunction_Always {
        Some(CompareFunction::Always)
    } else {
        None
    }
}

/// The `TextureAspect` that an enumerator of `WGPUTextureAspect` names, if it names one.
pub open spec fn texture_aspect_of(value: EnumConstant) -> Option<TextureAspect> {
    if value == native::WGPUTextureAspect_All {
        Some(TextureAspect::All)
    } else if value == native::WGPUTextureAspect_StencilOnly {
        Some(TextureAspect::StencilOnly)
    } else if value == native::WGPUTextureAspect_DepthOnly {
        Some(TextureAspect::DepthOnly)
    } else {
        None
    }
}

pub fn map_texture_aspect(value: EnumConstant) -> (r: Option<TextureAspect>)
    ensures
        r == texture_aspect_of(value),
{
    if value == native::WGPUTextureAspect_All {
        Some(TextureAspect::All)
    } else if value == native::WGPUTextureAspect_StencilOnly {
        Some(TextureAspect::StencilOnly)
    } else if value == native::WGPUTextureAspect_DepthOnly {
        Some(TextureAspect::DepthOnly)
    } else {
        None
    }
}

/// The `PresentMode` that an enumerator of `WGPUPresentMode` names, if it names one.
pub open spec fn present_mode_of(value: EnumConstant) -> Option<PresentMode> {
    if value == native::WGPUPresentMode_Immediate {
        Some(PresentMode::Immediate)
    } else if value == native::WGPUPresentMode_Mailbox {
        Some(PresentMode::Mailbox)
    } else if value == native::WGPUPresentMode_Fifo {
        Some(PresentMode::Fifo)
    } else {
        None
    }
}

pub fn map_present_mode(value: EnumConstant) -> (r: Option<PresentMode>)
    ensures
        r == present_mode_of(value),
{
    if value == native::WGPUPresentMode_Immediate {
        Some(PresentMode::Immediate)
    } else if value == native::WGPUPresentMode_Mailbox {
        Some(PresentMode::Mailbox)
    } else if value == native::WGPUPresentMode_Fifo {
        Some(PresentMode::Fifo)
    } else {
        None
    }
}

/// The `PrimitiveTopology` that an enumerator of `WGPUPrimitiveTopology` names, if it names one.
pub open spec fn primitive_topology_of(value: EnumConstant) -> Option<PrimitiveTopology> {
    if value == native::WGPUPrimitiveTopology_PointList {
        Some(PrimitiveTopology::PointList)
    } else if value == native::WGPUPrimitiveTopology_LineList {
        Some(PrimitiveTopology::LineList)
    } else if value == native::WGPUPrimitiveTopology_LineStrip {
        Some(PrimitiveTopology::LineStrip)
    } else if value == native::WGPUPrimitiveTopology_TriangleList {
        Some(PrimitiveTopology::TriangleList)
    } else if value == native::WGPUPrimitiveTopology_TriangleStrip {
        Some(PrimitiveTopology::TriangleStrip)
    } else {
        None
    }
}

pub fn map_primitive_topology(value: EnumConstant) -> (r: Option<PrimitiveTopology>)
    ensures
        r == primitive_topology_of(value),
{
    if value == native::WGPUPrimitiveTopology_PointList {
        Some(PrimitiveTopology::PointList)
    } else if value == native::WGPUPrimitiveTopology_LineList {
        Some(PrimitiveTopology::LineList)
    } else if value == native::WGPUPrimitiveTopology_LineStrip {
        Some(PrimitiveTopology::LineStrip)
    } else if value == native::WGPUPrimitiveTopology_TriangleList {
        Some(PrimitiveTopology::TriangleList)
    } else if value == native::WGPUPrimitiveTopology_TriangleStrip {
        Some(PrimitiveTopology::TriangleStrip)
    } else {
        None
    }
}

/// The `IndexFormat` that an enumerator of `WGPUIndexFormat` names, if it names one.
pub open spec fn index_format_of(value: EnumConstant) -> Option<IndexFormat> {
    if value == native::WGPUIndexFormat_Uint16 {
        Some(IndexFormat::Uint16)
    } else if value == native::WGPUIndexFormat_Uint32 {
        Some(IndexFormat::Uint32)
    } else {
        None
    }
}

pub fn map_index_format(value: EnumConstant) -> (r: Option<IndexFormat>)
    ensures
        r == index_format_of(value),
{
    if value == native::WGPUIndexFormat_Uint16 {
        Some(IndexFormat::Uint16)
    } else if value == native::WGPUIndexFormat_Uint32 {
        Some(IndexFormat::Uint32)
    } else {
        None
    }
}

/// The `BlendFactor` that an enumerator of `WGPUBlendFactor` names, if it names one.
pub open spec fn blend_factor_of(value: EnumConstant) -> Option<BlendFactor> {
    if value == native::WGPUBlendFactor_Zero {
        Some(BlendFactor::Zero)
    } else if value == native::WGPUBlendFactor_One {
        Some(BlendFactor::One)
    } else if value == native::WGPUBlendFactor_SrcColor {
        Some(BlendFactor::Src)
    } else if value == native::WGPUBlendFactor_OneMinusSrcColor {
        Some(BlendFactor::OneMinusSrc)
    } else if value == native::WGPUBlendFactor_SrcAlpha {
        Some(BlendFactor::SrcAlpha)
    } else if value == native::WGPUBlendFactor_OneMinusSrcAlpha {
        Some(BlendFactor::OneMinusSrcAlpha)
    } else if value == native::WGPUBlendFactor_DstColor {
        Some(BlendFactor::Dst)
    } else if value == native::WGPUBlendFactor_OneMinusDstColor {
        Some(BlendFactor::OneMinusDst)
    } else if value == native::WGPUBlendFactor_DstAlpha {
        Some(BlendFactor::DstAlpha)
    } else if value == native::WGPUBlendFactor_OneMinusDstAlpha {
        Some(BlendFactor::OneMinusDstAlpha)
    } else if value == native::WGPUBlendFactor_SrcAlphaSaturated {
        Some(BlendFactor::SrcAlphaSaturated)
    } else if value == native::WGPUBlendFactor_BlendColor {
        Some(BlendFactor::Constant)
    } else if value == native::WGPUBlendFactor_OneMinusBlendColor {
        Some(BlendFactor::OneMinusConstant)
    } else {
        None
    }
}

pub fn map_blend_factor(value: EnumConstant) -> (r: Option<BlendFactor>)
    ensures
        r == blend_factor_of(value),
{
    if value == native::WGPUBlendFactor_Zero {
        Some(BlendFactor::Zero)
    } else if value == native::WGPUBlendFactor_One {
        Some(BlendFactor::One)
    } else if value == native::WGPUBlendFactor_SrcColor {
        Some(BlendFactor::Src)
    } else if value == native::WGPUBlendFactor_OneMinusSrcColor {
        Some(BlendFactor::OneMinusSrc)
    } else if value == native::WGPUBlendFactor_SrcAlpha {
        Some(BlendFactor::SrcAlpha)
    } else if value == native::WGPUBlendFactor_OneMinusSrcAlpha {
        Some(BlendFactor::OneMinusSrcAlpha)
    } else if value == native::WGPUBlendFactor_DstColor {
        Some(BlendFactor::Dst)
    } else if value == native::WGPUBlendFactor_OneMinusDstColor {
        Some(BlendFactor::OneMinusDst)
    } else if value == native::WGPUBlendFactor_DstAlpha {
        Some(BlendFactor::DstAlpha)
    } else if value == native::WGPUBlendFactor_OneMinusDstAlpha {
        Some(BlendFactor::OneMinusDstAlpha)
    } else if value == native::WGPUBlendFactor_SrcAlphaSaturated {
        Some(BlendFactor::SrcAlphaSaturated)
    } else if value == native::WGPUBlendFactor_BlendColor {
        Some(BlendFactor::Constant)
    } else if value == native::WGPUBlendFactor_OneMinusBlendColor {
        Some(BlendFactor::OneMinusConstant)
    } else {
        None
    }
}

/// The `BlendOperation` that an enumerator of `WGPUBlendOperation` names, if it names one.
pub open spec fn blend_operation_of(value: EnumConstant) -> Option<BlendOperation> {
    if value == native::WGPUBlendOperation_Add {
        Some(BlendOperation::Add)
    } else if value == native::WGPUBlendOperation_Subtract {
        Some(BlendOperation::Subtract)
    } else if value == native::WGPUBlendOperation_ReverseSubtract {
        Some(BlendOperation::ReverseSubtract)
    } else if value == native::WGPUBlendOperation_Min {
        Some(BlendOperation::Min)
    } else if value == native::WGPUBlendOperation_Max {
        Some(BlendOperation::Max)
    } else {
        None
    }
}

pub fn map_blend_operation(value: EnumConstant) -> (r: Option<BlendOperation>)
    ensures
        r == blend_operation_of(value),
{
    if value == native::WGPUBlendOperation_Add {
        Some(BlendOperation::Add)
    } else if value == native::WGPUBlendOperation_Subtract {
        Some(BlendOperation::Subtract)
    } else if value == native::WGPUBlendOperation_ReverseSubtract {
        Some(BlendOperation::ReverseSubtract)
    } else if value == native::WGPUBlendOperation_Min {
        Some(BlendOperation::Min)
    } else if value == native::WGPUBlendOperation_Max {
        Some(BlendOperation::Max)
    } else {
        None
    }
}

/// The `VertexFormat` that an enumerator of `WGPUVertexFormat` names, if it names one.
pub open spec fn vertex_format_of(value: EnumConstant) -> Option<VertexFormat> {
    if value == native::WGPUVertexFormat_Uint8x2 {
        Some(VertexFormat::Uint8x2)
    } else if value == native::WGPUVertexFormat_Uint8x4 {
        Some(VertexFormat::Uint8x4)
    } else if value == native::WGPUVertexFormat_Sint8x2 {
        Some(VertexFormat::Sint8x2)
    } else if value == native::WGPUVertexFormat_Sint8x4 {
        Some(VertexFormat::Sint8x4)
    } else if value == native::WGPUVertexFormat_Unorm8x2 {
        Some(VertexFormat::Unorm8x2)
    } else if value == native::WGPUVertexFormat_Unorm8x4 {
        Some(VertexFormat::Unorm8x4)
    } else if value == native::WGPUVertexFormat_Snorm8x2 {
        Some(VertexFormat::Snorm8x2)
    } else if value == native::WGPUVertexFormat_Snorm8x4 {
        Some(VertexFormat::Snorm8x4)
    } else if value == native::WGPUVertexFormat_Uint16x2 {
        Some(VertexFormat::Uint16x2)
    } else if value == native::WGPUVertexFormat_Uint16x4 {
        Some(VertexFormat::Uint16x4)
    } else if value == native::WGPUVertexFormat_Sint16x2 {
        Some(VertexFormat::Sint16x2)
    } else if value == native::WGPUVertexFormat_Sint16x4 {
        Some(VertexFormat::Sint16x4)
    } else if value == native::WGPUVertexFormat_Unorm16x2 {
        Some(VertexFormat::Unorm16x2)
    } else if value == native::WGPUVertexFormat_Unorm16x4 {
        Some(VertexFormat::Unorm16x4)
    } else if value == native::WGPUVertexFormat_Snorm16x2 {
        Some(VertexFormat::Snorm16x2)
    } else if value == native::WGPUVertexFormat_Snorm16x4 {
        Some(VertexFormat::Snorm16x4)
    } else if value == native::WGPUVertexFormat_Float16x2 {
        Some(VertexFormat::Float16x2)
    } else if value == native::WGPUVertexFormat_Float16x4 {
        Some(VertexFormat::Float16x4)
    } else if value == native::WGPUVertexFormat_Float32 {
        Some(VertexFormat::Float32)
    } else if value == native::WGPUVertexFormat_Float32x2 {
        Some(VertexFormat::Float32x2)
    } else if value == native::WGPUVertexFormat_Float32x3 {
        Some(VertexFormat::Float32x3)
    } else if value == native::WGPUVertexFormat_Float32x4 {
        Some(VertexFormat::Float32x4)
    } else if value == native::WGPUVertexFormat_Uint32 {
        Some(VertexFormat::Uint32)
    } else if value == native::WGPUVertexFormat_Uint32x2 {
        Some(VertexFormat::Uint32x2)
    } else if value == native::WGPUVertexFormat_Uint32x3 {
        Some(VertexFormat::Uint32x3)
    } else if value == native::WGPUVertexFormat_Uint32x4 {
        Some(VertexFormat::Uint32x4)
    } else if value == native::WGPUVertexFormat_Sint32 {
        Some(VertexFormat::Sint32)
    } else if value == native::WGPUVertexFormat_Sint32x2 {
        Some(VertexFormat::Sint32x2)
    } else if value == native::WGPUVertexFormat_Sint32x3 {
        Some(VertexFormat::Sint32x3)
    } else if value == native::WGPUVertexFormat_Sint32x4 {
        Some(VertexFormat::Sint32x4)
    } else {
        None
    }
}

pub fn map_vertex_format(value: EnumConstant) -> (r: Option<VertexFormat>)
    ensures
        r == vertex_format_of(value),
{
    if value == native::WGPUVertexFormat_Uint8x2 {
        Some(VertexFormat::Uint8x2)
    } else if value == native::WGPUVertexFormat_Uint8x4 {
        Some(VertexFormat::Uint8x4)
    } else if value == native::WGPUVertexFormat_Sint8x2 {
        Some(VertexFormat::Sint8x2)
    } else if value == native::WGPUVertexFormat_Sint8x4 {
        Some(VertexFormat::Sint8x4)
    } else if value == native::WGPUVertexFormat_Unorm8x2 {
        Some(VertexFormat::Unorm8x2)
    } else if value == native::WGPUVertexFormat_Unorm8x4 {
        Some(VertexFormat::Unorm8x4)
    } else if value == native::WGPUVertexFormat_Snorm8x2 {
        Some(VertexFormat::Snorm8x2)
    } else if value == native::WGPUVertexFormat_Snorm8x4 {
        Some(VertexFormat::Snorm8x4)
    } else if value == native::WGPUVertexFormat_Uint16x2 {
        Some(VertexFormat::Uint16x2)
    } else if value == native::WGPUVertexFormat_Uint16x4 {
        Some(VertexFormat::Uint16x4)
    } else if value == native::WGPUVertexFormat_Sint16x2 {
        Some(VertexFormat::Sint16x2)
    } else if value == native::WGPUVertexFormat_Sint16x4 {
        Some(VertexFormat::Sint16x4)
    } else if value == native::WGPUVertexFormat_Unorm16x2 {
        Some(VertexFormat::Unorm16x2)
    } else if value == native::WGPUVertexFormat_Unorm16x4 {
        Some(VertexFormat::Unorm16x4)
    } else if value == native::WGPUVertexFormat_Snorm16x2 {
        Some(VertexFormat::Snorm16x2)
    } else if value == native::WGPUVertexFormat_Snorm16x4 {
        Some(VertexFormat::Snorm16x4)
    } else if value == native::WGPUVertexFormat_Float16x2 {
        Some(VertexFormat::Float16x2)
    } else if value == native::WGPUVertexFormat_Float16x4 {
        Some(VertexFormat::Float16x4)
    } else if value == native::WGPUVertexFormat_Float32 {
        Some(VertexFormat::Float32)
    } else if value == native::WGPUVertexFormat_Float32x2 {
        Some(VertexFormat::Float32x2)
    } else if value == native::WGPUVertexFormat_Float32x3 {
        Some(VertexFormat::Float32x3)
    } else if value == native::WGPUVertexFormat_Float32x4 {
        Some(VertexFormat::Float32x4)
    } else if value == native::WGPUVertexFormat_Uint32 {
        Some(VertexFormat::Uint32)
    } else if value == native::WGPUVertexFormat_Uint32x2 {
        Some(VertexFormat::Uint32x2)
    } else if value == native::WGPUVertexFormat_Uint32x3 {
        Some(VertexFormat::Uint32x3)
    } else if value == native::WGPUVertexFormat_Uint32x4 {
        Some(VertexFormat::Uint32x4)
    } else if value == native::WGPUVertexFormat_Sint32 {
        Some(VertexFormat::Sint32)
    } else if value == native::WGPUVertexFormat_Sint32x2 {
        Some(VertexFormat::Sint32x2)
    } else if value == native::WGPUVertexFormat_Sint32x3 {
        Some(VertexFormat::Sint32x3)
    } else if value == native::WGPUVertexFormat_Sint32x4 {
        Some(VertexFormat::Sint32x4)
    } else {
        None
    }
}

/// The `TextureViewDimension` that an enumerator of `WGPUTextureViewDimension` names, if it names one.
pub open spec fn texture_view_dimension_of(value: EnumConstant) -> Option<TextureViewDimension> {
    if value == native::WGPUTextureViewDimension_1D {
        Some(TextureViewDimension::D1)
    } else if value == native::WGPUTextureViewDimension_2D {
        Some(TextureViewDimension::D2)
    } else if value == native::WGPUTextureViewDimension_2DArray {
        Some(TextureViewDimension::D2Array)
    } else if value == native::WGPUTextureViewDimension_Cube {
        Some(TextureViewDimension::Cube)
    } else if value == native::WGPUTextureViewDimension_CubeArray {
        Some(TextureViewDimension::CubeArray)
    } else if value == native::WGPUTextureViewDimension_3D {
        Some(TextureViewDimension::D3)
    } else {
        None
    }
}

pub fn map_texture_view_dimension(value: EnumConstant) -> (r: Option<TextureViewDimension>)
    ensures
        r == texture_view_dimension_of(value),
{
    if value == native::WGPUTextureViewDimension_1D {
        Some(TextureViewDimension::D1)
    } else if value == native::WGPUTextureViewDimension_2D {
        Some(TextureViewDimension::D2)
    } else if value == native::WGPUTextureViewDimension_2DArray {
        Some(TextureViewDimension::D2Array)
    } else if value == native::WGPUTextureViewDimension_Cube {
        Some(TextureViewDimension::Cube)
    } else if value == native::WGPUTextureViewDimension_CubeArray {
        Some(TextureViewDimension::CubeArray)
    } else if value == native::WGPUTextureViewDimension_3D {
        Some(TextureViewDimension::D3)
    } else {
        None
    }
}

/// The `TextureDimension` that an enumerator of `WGPUTextureDimension` names, if it names one.
pub open spec fn texture_dimension_of(value: EnumConstant) -> Option<TextureDimension> {
    if value == native::WGPUTextureDimension_1D {
        Some(TextureDimension::D1)
    } else if value == native::WGPUTextureDimension_2D {
        Some(TextureDimension::D2)
    } else if value == native::WGPUTextureDimension_3D {
        Some(TextureDimension::D3)
    } else {
        None
    }
}

/// Reads the dimension of a texture descriptor.
pub fn texture_dimension(value: EnumConstant) -> (r: Option<TextureDimension>)
    ensures
        r == texture_dimension_of(value),
{
    if value == native::WGPUTextureDimension_1D {
        Some(TextureDimension::D1)
    } else if value == native::WGPUTextureDimension_2D {
        Some(TextureDimension::D2)
    } else if value == native::WGPUTextureDimension_3D {
        Some(TextureDimension::D3)
    } else {
        None
    }
}

/// The dimension that an enumerator names. For an enumerator that may name
/// none, there is `texture_dimension`.
pub fn map_texture_dimension(value: EnumConstant) -> (r: TextureDimension)
    requires
        texture_dimension_of(value) is Some,
    ensures
        Some(r) == texture_dimension_of(value),
{
    if value == native::WGPUTextureDimension_1D {
        TextureDimension::D1
    } else if value == native::WGPUTextureDimension_2D {
        TextureDimension::D2
    } else {
        TextureDimension::D3
    }
}

/// The `TextureFormat` that an enumerator of `WGPUTextureFormat` names, if it names one.
pub open spec fn texture_format_of(value: EnumConstant) -> Option<TextureFormat> {
    if value == native::WGPUTextureFormat_R8Unorm {
        Some(TextureFormat::R8Unorm)
    } else if value == native::WGPUTextureFormat_R8Snorm {
        Some(TextureFormat::R8Snorm)
    } else if value == native::WGPUTextureFormat_R8Uint {
        Some(TextureFormat::R8Uint)
    } else if value == native::WGPUTextureFormat_R8Sint {
        Some(TextureFormat::R8Sint)
    } else if value == native::WGPUTextureFormat_R16Uint {
        Some(TextureFormat::R16Uint)
    } else if value == native::WGPUTextureFormat_R16Sint {
        Some(TextureFormat::R16Sint)
    } else if value == native::WGPUTextureFormat_R16Float {
        Some(TextureFormat::R16Float)
    } else if value == native::WGPUTextureFormat_RG8Unorm {
        Some(TextureFormat::Rg8Unorm)
    } else if value == native::WGPUTextureFormat_RG8Snorm {
        Some(TextureFormat::Rg8Snorm)
    } else if value == native::WGPUTextureFormat_RG8Uint {
        Some(TextureFormat::Rg8Uint)
    } else if value == native::WGPUTextureFormat_RG8Sint {
        Some(TextureFormat::Rg8Sint)
    } else if value == native::WGPUTextureFormat_R32Float {
        Some(TextureFormat::R32Float)
    } else if value == native::WGPUTextureFormat_R32Uint {
        Some(TextureFormat::R32Uint)
    } else if value == native::WGPUTextureFormat_R32Sint {
        Some(TextureFormat::R32Sint)
    } else if value == native::WGPUTextureFormat_RG16Uint {
        Some(TextureFormat::Rg16Uint)
    } else if value == native::WGPUTextureFormat_RG16Sint {
        Some(TextureFormat::Rg16Sint)
    } else if value == native::WGPUTextureFormat_RG16Float {
        Some(TextureFormat::Rg16Float)
    } else if value == native::WGPUTextureFormat_RGBA8Unorm {
        Some(TextureFormat::Rgba8Unorm)
    } else if value == native::WGPUTextureFormat_RGBA8UnormSrgb {
        Some(TextureFormat::Rgba8UnormSrgb)
    } else if value == native::WGPUTextureFormat_RGBA8Snorm {
        Some(TextureFormat::Rgba8Snorm)
    } else if value == native::WGPUTextureFormat_RGBA8Uint {
        Some(TextureFormat::Rgba8Uint)
    } else if value == native::WGPUTextureFormat_RGBA8Sint {
        Some(TextureFormat::Rgba8Sint)
    } else if value == native::WGPUTextureFormat_BGRA8Unorm {
        Some(TextureFormat::Bgra8Unorm)
    } else if value == native::WGPUTextureFormat_BGRA8UnormSrgb {
        Some(TextureFormat::Bgra8UnormSrgb)
    } else if value == native::WGPUTextureFormat_RGB10A2Unorm {
        Some(TextureFormat::Rgb10a2Unorm)
    } else if value == native::WGPUTextureFormat_RG32Float {
        Some(TextureFormat::Rg32Float)
    } else if value == native::WGPUTextureFormat_RG32Uint {
        Some(TextureFormat::Rg32Uint)
    } else if value == native::WGPUTextureFormat_RG32Sint {
        Some(TextureFormat::Rg32Sint)
    } else if value == native::WGPUTextureFormat_RGBA16Uint {
        Some(TextureFormat::Rgba16Uint)
    } else if value == native::WGPUTextureFormat_RGBA16Sint {
        Some(TextureFormat::Rgba16Sint)
    } else if value == native::WGPUTextureFormat_RGBA16Float {
        Some(TextureFormat::Rgba16Float)
    } else if value == native::WGPUTextureFormat_RGBA32Float {
        Some(TextureFormat::Rgba32Float)
    } else if value == native::WGPUTextureFormat_RGBA32Uint {
        Some(TextureFormat::Rgba32Uint)
    } else if value == native::WGPUTextureFormat_RGBA32Sint {
        Some(TextureFormat::Rgba32Sint)
    } else if value == native::WGPUTextureFormat_Depth32Float {
        Some(TextureFormat::Depth32Float)
    } else if value == native::WGPUTextureFormat_Depth24Plus {
        Some(TextureFormat::Depth24Plus)
    } else if value == native::WGPUTextureFormat_Depth24PlusStencil8 {
        Some(TextureFormat::Depth24PlusStencil8)
    } else {
        None
    }
}

pub fn map_texture_format(value: EnumConstant) -> (r: Option<TextureFormat>)
    ensures
        r == texture_format_of(value),
{
    if value == native::WGPUTextureFormat_R8Unorm {
        Some(TextureFormat::R8Unorm)
    } else if value == native::WGPUTextureFormat_R8Snorm {
        Some(TextureFormat::R8Snorm)
    } else if value == native::WGPUTextureFormat_R8Uint {
        Some(TextureFormat::R8Uint)
    } else if value == native::WGPUTextureFormat_R8Sint {
        Some(TextureFormat::R8Sint)
    } else if value == native::WGPUTextureFormat_R16Uint {
        Some(TextureFormat::R16Uint)
    } else if value == native::WGPUTextureFormat_R16Sint {
        Some(TextureFormat::R16Sint)
    } else if value == native::WGPUTextureFormat_R16Float {
        Some(TextureFormat::R16Float)
    } else if value == native::WGPUTextureFormat_RG8Unorm {
        Some(TextureFormat::Rg8Unorm)
    } else if value == native::WGPUTextureFormat_RG8Snorm {
        Some(TextureFormat::Rg8Snorm)
    } else if value == native::WGPUTextureFormat_RG8Uint {
        Some(TextureFormat::Rg8Uint)
    } else if value == native::WGPUTextureFormat_RG8Sint {
        Some(TextureFormat::Rg8Sint)
    } else if value == native::WGPUTextureFormat_R32Float {
        Some(TextureFormat::R32Float)
    } else if value == native::WGPUTextureFormat_R32Uint {
        Some(TextureFormat::R32Uint)
    } else if value == native::WGPUTextureFormat_R32Sint {
        Some(TextureFormat::R32Sint)
    } else if value == native::WGPUTextureFormat_RG16Uint {
        Some(TextureFormat::Rg16Uint)
    } else if value == native::WGPUTextureFormat_RG16Sint {
        Some(TextureFormat::Rg16Sint)
    } else if value == native::WGPUTextureFormat_RG16Float {
        Some(TextureFormat::Rg16Float)
    } else if value == native::WGPUTextureFormat_RGBA8Unorm {
        Some(TextureFormat::Rgba8Unorm)
    } else if value == native::WGPUTextureFormat_RGBA8UnormSrgb {
        Some(TextureFormat::Rgba8UnormSrgb)
    } else if value == native::WGPUTextureFormat_RGBA8Snorm {
        Some(TextureFormat::Rgba8Snorm)
    } else if value == native::WGPUTextureFormat_RGBA8Uint {
        Some(TextureFormat::Rgba8Uint)
    } else if value == native::WGPUTextureFormat_RGBA8Sint {
        Some(TextureFormat::Rgba8Sint)
    } else if value == native::WGPUTextureFormat_BGRA8Unorm {
        Some(TextureFormat::Bgra8Unorm)
    } else if value == native::WGPUTextureFormat_BGRA8UnormSrgb {
        Some(TextureFormat::Bgra8UnormSrgb)
    } else if value == native::WGPUTextureFormat_RGB10A2Unorm {
        Some(TextureFormat::Rgb10a2Unorm)
    } else if value == native::WGPUTextureFormat_RG32Float {
        Some(TextureFormat::Rg32Float)
    } else if value == native::WGPUTextureFormat_RG32Uint {
        Some(TextureFormat::Rg32Uint)
    } else if value == native::WGPUTextureFormat_RG32Sint {
        Some(TextureFormat::Rg32Sint)
    } else if value == native::WGPUTextureFormat_RGBA16Uint {
        Some(TextureFormat::Rgba16Uint)
    } else if value == native::WGPUTextureFormat_RGBA16Sint {
        Some(TextureFormat::Rgba16Sint)
    } else if value == native::WGPUTextureFormat_RGBA16Float {
        Some(TextureFormat::Rgba16Float)
    } else if value == native::WGPUTextureFormat_RGBA32Float {
        Some(TextureFormat::Rgba32Float)
    } else if value == native::WGPUTextureFormat_RGBA32Uint {
        Some(TextureFormat::Rgba32Uint)
    } else if value == native::WGPUTextureFormat_RGBA32Sint {
        Some(TextureFormat::Rgba32Sint)
    } else if value == native::WGPUTextureFormat_Depth32Float {
        Some(TextureFormat::Depth32Float)
    } else if value == native::WGPUTextureFormat_Depth24Plus {
        Some(TextureFormat::Depth24Plus)
    } else if value == native::WGPUTextureFormat_Depth24PlusStencil8 {
        Some(TextureFormat::Depth24PlusStencil8)
    } else {
        None
    }
}

/// The `InputStepMode` that an enumerator of `WGPUInputStepMode` names, if it names one.
pub open spec fn input_step_mode_of(value: EnumConstant) -> Option<InputStepMode> {
    if value == native::WGPUInputStepMode_Vertex {
        Some(InputStepMode::Vertex)
    } else if value == native::WGPUInputStepMode_Instance {
        Some(InputStepMode::Instance)
    } else {
        None
    }
}

pub fn map_input_step_mode(value: EnumConstant) -> (r: Option<InputStepMode>)
    ensures
        r == input_step_mode_of(value),
{
    if value == native::WGPUInputStepMode_Vertex {
        Some(InputStepMode::Vertex)
    } else if value == native::WGPUInputStepMode_Instance {
        Some(InputStepMode::Instance)
    } else {
        None
    }
}

/// The `FrontFace` that an enumerator of `WGPUFrontFace` names, if it names one.
pub open spec fn front_face_of(value: EnumConstant) -> Option<FrontFace> {
    if value == native::WGPUFrontFace_CCW {
        Some(FrontFace::Ccw)
    } else if value == native::WGPUFrontFace_CW {
        Some(FrontFace::Cw)
    } else {
        None
    }
}

pub fn map_front_face(value: EnumConstant) -> (r: Option<FrontFace>)
    ensures
        r == front_face_of(value),
{
    if value == native::WGPUFrontFace_CCW {
        Some(FrontFace::Ccw)
    } else if value == native::WGPUFrontFace_CW {
        Some(FrontFace::Cw)
    } else {
        None
    }
}

/// The side that a cull mode removes, if it removes one.
pub open spec fn cull_mode_of(value: EnumConstant) -> Option<Face> {
    if value == native::WGPUCullMode_Front {
        Some(Face::Front)
    } else if value == native::WGPUCullMode_Back {
        Some(Face::Back)
    } else {
        None
    }
}

pub fn map_cull_mode(value: EnumConstant) -> (r: Option<Face>)
    ensures
        r == cull_mode_of(value),
{
    if value == native::WGPUCullMode_Front {
        Some(Face::Front)
    } else if value == native::WGPUCullMode_Back {
        Some(Face::Back)
    } else {
        None
    }
}

/// What a map mode lets the host do, if it is a map mode.
pub open spec fn mode_of(value: EnumConstant) -> Option<HostMap> {
    if value == native::WGPUMapMode_Write {
        Some(HostMap::Write)
    } else if value == native::WGPUMapMode_Read {
        Some(HostMap::Read)
    } else {
        None
    }
}

pub fn map_map_mode(value: EnumConstant) -> (r: Option<HostMap>)
    ensures
        r == mode_of(value),
{
    if value == native::WGPUMapMode_Write {
        Some(HostMap::Write)
    } else if value == native::WGPUMapMode_Read {
        Some(HostMap::Read)
    } else {
        None
    }
}

/// How a shader reads a buffer binding.
#[derive(Clone, Copy, Debug, PartialEq, Eq)]
pub enum BufferBindingType {
    Uniform,
    Storage { read_only: bool },
}

/// The `BufferBindingType` that an enumerator of `WGPUBufferBindingType`
/// names, if it names one.
pub open spec fn buffer_binding_type_of(value: EnumConstant) -> Option<BufferBindingType> {
    if value == native::WGPUBufferBindingType_Uniform {
        Some(BufferBindingType::Uniform)
    } else if value == native::WGPUBufferBindingType_Storage {
        Some(BufferBindingType::Storage { read_only: false })
    } else if value == native::WGPUBufferBindingType_ReadOnlyStorage {
        Some(BufferBindingType::Storage { read_only: true })
    } else {
        None
    }
}

pub fn map_buffer_binding_type(value: EnumConstant) -> (r: Option<BufferBindingType>)
    ensures
        r == buffer_binding_type_of(value),
{
    if value == native::WGPUBufferBindingType_Uniform {
        Some(BufferBindingType::Uniform)
    } else if value == native::WGPUBufferBindingType_Storage {
        Some(BufferBindingType::Storage { read_only: false })
    } else if value == native::WGPUBufferBindingType_ReadOnlyStorage {
        Some(BufferBindingType::Storage { read_only: true })
    } else {
        None
    }
}

/// A buffer bound in a bind group layout.
#[derive(Clone, Copy, Debug, PartialEq, Eq)]
pub struct BufferBindingLayout {
    pub ty: BufferBindingType,
    pub has_dynamic_offset: bool,
    /// The least size of a buffer bound here, if one is asked for.
    pub min_binding_size: Option<u64>,
}

/// One entry of a bind group layout.
#[derive(Clone, Copy, Debug, PartialEq, Eq)]
pub struct BindGroupLayoutEntry {
    pub binding: u32,
    /// The shader stages that see the binding, one bit for each.
    pub visibility: u32,
    pub ty: BufferBindingLayout,
}

/// The fields of a layout entry of the C API that say what is bound.
#[derive(Clone, Copy, Debug, PartialEq, Eq)]
pub struct RawBindGroupLayoutEntry {
    pub binding: u32,
    pub visibility: u32,
    pub buffer_type: EnumConstant,
    pub has_dynamic_offset: bool,
    pub min_binding_size: u64,
    pub sampler_type: EnumConstant,
    pub texture_sample_type: EnumConstant,
    pub storage_texture_access: EnumConstant,
}

/// Why a layout entry of the C API cannot be taken.
#[derive(Clone, Copy, Debug, PartialEq, Eq)]
pub enum BindingError {
    /// The entry binds a texture.
    Texture,
    /// The entry binds a sampler.
    Sampler,
    /// The entry binds a storage texture.
    StorageTexture,
    /// The entry binds a buffer of a type that has no name.
    UnknownBufferType(EnumConstant),
    /// The entry binds nothing.
    NoType,
    /// A bit of the visibility is no shader stage.
    Visibility,
}

/// The flags of `wgpu_types::BufferUsage`.
pub const BUFFER_USAGES: u32 = 511;

/// The flags of `wgpu_types::ShaderStage`.
pub const SHADER_STAGES: u32 = 7;

/// The flags of `wgpu_types::ColorWrite`.
pub const COLOR_WRITES: u32 = 15;

/// `bits`, if every bit among them is in `flags`.
pub open spec fn flags_within(bits: u32, flags: u32) -> Option<u32> {
    if bits & !flags == 0 {
        Some(bits)
    } else {
        None
    }
}

/// The size that a binding asks for: none where the C API says zero.
pub open spec fn binding_size_of(size: u64) -> Option<u64> {
    if size == 0 {
        None
    } else {
        Some(size)
    }
}

/// The layout entry that an entry of the C API stands for. A texture, a
/// sampler and a storage texture are looked for in this order before the
/// buffer, and each of them is refused. The visibility is looked at last.
pub open spec fn bind_group_layout_entry_of(raw: RawBindGroupLayoutEntry) -> Result<
    BindGroupLayoutEntry,
    BindingError,
> {
    if raw.texture_sample_type != native::WGPUTextureSampleType_Undefined {
        Err(BindingError::Texture)
    } else if raw.sampler_type != native::WGPUSamplerBindingType_Undefined {
        Err(BindingError::Sampler)
    } else if raw.storage_texture_access != native::WGPUStorageTextureAccess_Undefined {
        Err(BindingError::StorageTexture)
    } else if raw.buffer_type == native::WGPUBufferBindingType_Undefined {
        Err(BindingError::NoType)
    } else {
        match buffer_binding_type_of(raw.buffer_type) {
            None => Err(BindingError::UnknownBufferType(raw.buffer_type)),
            Some(ty) => match flags_within(raw.visibility, SHADER_STAGES) {
                None => Err(BindingError::Visibility),
                Some(visibility) => Ok(
                    BindGroupLayoutEntry {
                        binding: raw.binding,
                        visibility,
                        ty: BufferBindingLayout {
                            ty,
                            has_dynamic_offset: raw.has_dynamic_offset,
                            min_binding_size: binding_size_of(raw.min_binding_size),
                        },
                    },
                ),
            },
        }
    }
}

/// Calls `wgpu_types::BufferUsage::from_bits`, and `bits` on what it
/// returns. Not proved: that `from_bits` accepts exactly the values with no
/// bit outside the nine flags of `BufferUsage` (the bits 1 to 256), and that
/// `bits` gives back the value that was accepted.
#[verifier::external_body]
fn accepted_buffer_usage(bits: u32) -> (r: Option<u32>)
    ensures
        r == flags_within(bits, BUFFER_USAGES),
{
    match wgpu_types::BufferUsage::from_bits(bits) {
        Some(usage) => Some(usage.bits()),
        None => None,
    }
}

/// Calls `wgpu_types::ShaderStage::from_bits`, and `bits` on what it
/// returns. Not proved: that `from_bits` accepts exactly the values with no
/// bit outside the flags of `ShaderStage` (the bits 1, 2 and 4), and that
/// `bits` gives back the value that was accepted.
#[verifier::external_body]
fn accepted_shader_stage(bits: u32) -> (r: Option<u32>)
    ensures
        r == flags_within(bits, SHADER_STAGES),
{
    match wgpu_types::ShaderStage::from_bits(bits) {
        Some(stage) => Some(stage.bits()),
        None => None,
    }
}

/// Calls `wgpu_types::ColorWrite::from_bits`, and `bits` on what it
/// returns. Not proved: that `from_bits` accepts exactly the values with no
/// bit outside the flags of `ColorWrite` (the bits 1, 2, 4 and 8), and that
/// `bits` gives back the value that was accepted.
#[verifier::external_body]
fn accepted_color_write(bits: u32) -> (r: Option<u32>)
    ensures
        r == flags_within(bits, COLOR_WRITES),
{
    match wgpu_types::ColorWrite::from_bits(bits) {
        Some(mask) => Some(mask.bits()),
        None => None,
    }
}

/// Reads the usage bits of a buffer descriptor.
pub fn buffer_usage(bits: u32) -> (r: Option<u32>)
    ensures
        r == flags_within(bits, BUFFER_USAGES),
{
    accepted_buffer_usage(bits)
}

/// Reads the visibility bits of a layout entry.
pub fn shader_stage(bits: u32) -> (r: Option<u32>)
    ensures
        r == flags_within(bits, SHADER_STAGES),
{
    accepted_shader_stage(bits)
}

/// Reads the write mask of a colour target.
pub fn color_write(bits: u32) -> (r: Option<u32>)
    ensures
        r == flags_within(bits, COLOR_WRITES),
{
    accepted_color_write(bits)
}

/// Reads the size of a binding.
pub fn binding_size(size: u64) -> (r: Option<u64>)
    ensures
        r == binding_size_of(size),
{
    if size == 0 {
        None
    } else {
        Some(size)
    }
}

/// Reads one entry of a bind group layout.
pub fn map_bind_group_layout_entry(raw: RawBindGroupLayoutEntry) -> (r: Result<
    BindGroupLayoutEntry,
    BindingError,
>)
    ensures
        r == bind_group_layout_entry_of(raw),
{
    if raw.texture_sample_type != native::WGPUTextureSampleType_Undefined {
        return Err(BindingError::Texture);
    }
    if raw.sampler_type != native::WGPUSamplerBindingType_Undefined {
        return Err(BindingError::Sampler);
    }
    if raw.storage_texture_access != native::WGPUStorageTextureAccess_Undefined {
        return Err(BindingError::StorageTexture);
    }
    if raw.buffer_type == native::WGPUBufferBindingType_Undefined {
        return Err(BindingError::NoType);
    }
    let ty = match map_buffer_binding_type(raw.buffer_type) {
        Some(ty) => ty,
        None => {
            return Err(BindingError::UnknownBufferType(raw.buffer_type));
        },
    };
    let visibility = match shader_stage(raw.visibility) {
        Some(visibility) => visibility,
        None => {
            return Err(BindingError::Visibility);
        },
    };
    Ok(
        BindGroupLayoutEntry {
            binding: raw.binding,
            visibility,
            ty: BufferBindingLayout {
                ty,
                has_dynamic_offset: raw.has_dynamic_offset,
                min_binding_size: binding_size(raw.min_binding_size),
            },
        },
    )
}

/// Reads every entry of a bind group layout, in order. The first entry
/// that cannot be taken decides: its error is returned.
pub fn map_bind_group_layout_entries(raw: &Vec<RawBindGroupLayoutEntry>) -> (r: Result<
    Vec<BindGroupLayoutEntry>,
    BindingError,
>)
    ensures
        match r {
            Ok(entries) => {
                &&& entries@.len() == raw@.len()
                &&& forall|i: int|
                    0 <= i < raw@.len() ==> bind_group_layout_entry_of(#[trigger] raw@[i]) == Ok::<
                        BindGroupLayoutEntry,
                        BindingError,
                    >(entries@[i])
            },
            Err(error) => exists|i: int|
                {
                    &&& 0 <= i < raw@.len()
                    &&& bind_group_layout_entry_of(#[trigger] raw@[i]) == Err::<
                        BindGroupLayoutEntry,
                        BindingError,
                    >(error)
                    &&& forall|j: int| 0 <= j < i ==> bind_group_layout_entry_of(#[trigger] raw@[j]) is Ok
                },
        },
{
    let mut entries: Vec<BindGroupLayoutEntry> = Vec::new();
    let mut i: usize = 0;
    while i < raw.len()
        invariant
            i <= raw@.len(),
            entries@.len() == i,
            forall|j: int|
                0 <= j < i ==> bind_group_layout_entry_of(#[trigger] raw@[j]) == Ok::<
                    BindGroupLayoutEntry,
                    BindingError,
                >(entries@[j]),
        decreases raw@.len() - i,
    {
        match map_bind_group_layout_entry(raw[i]) {
            Ok(entry) => {
                entries.push(entry);
            },
            Err(error) => {
                assert(bind_group_layout_entry_of(raw@[i as int]) == Err::<
                    BindGroupLayoutEntry,
                    BindingError,
                >(error));
                return Err(error);
            },
        }
        i = i + 1;
    }
    Ok(entries)
}

/// The bytes of a buffer that a mapping of `size` bytes at `offset` covers,
/// as first byte and end. There is none where the end is beyond what the
/// machine can address.
pub open spec fn mapped_range_of(offset: usize, size: usize) -> Option<(u64, u64)> {
    if offset + size <= usize::MAX {
        Some((offset as u64, (offset + size) as u64))
    } else {
        None
    }
}

pub fn map_buffer_range(offset: usize, size: usize) -> (r: Option<(u64, u64)>)
    ensures
        r == mapped_range_of(offset, size),
{
    match offset.checked_add(size) {
        Some(end) => Some((offset as u64, end as u64)),
        None => None,
    }
}

/// The limit of anisotropy that a sampler descriptor asks for: none where
/// the C API says zero, and none where it says more than a byte holds.
pub open spec fn anisotropy_clamp_of(max_anisotropy: u16) -> Option<u8> {
    if 1 <= max_anisotropy <= u8::MAX {
        Some(max_anisotropy as u8)
    } else {
        None
    }
}

pub fn map_anisotropy_clamp(max_anisotropy: u16) -> (r: Option<u8>)
    ensures
        r == anisotropy_clamp_of(max_anisotropy),
{
    if 1 <= max_anisotropy && max_anisotropy <= 255 {
        Some(max_anisotropy as u8)
    } else {
        None
    }
}

/// The language of a shader module.
#[derive(Clone, Copy, Debug, PartialEq, Eq)]
pub enum ShaderLanguage {
    Wgsl,
    SpirV,
}

/// The source that a shader module is made from, given which sources its
/// descriptor carries: the WGSL text where there is one, the SPIR-V words
/// otherwise.
pub open spec fn shader_language_of(has_wgsl: bool, has_spirv: bool) -> Option<ShaderLanguage> {
    if has_wgsl {
        Some(ShaderLanguage::Wgsl)
    } else if has_spirv {
        Some(ShaderLanguage::SpirV)
    } else {
        None
    }
}

pub fn map_shader_language(has_wgsl: bool, has_spirv: bool) -> (r: Option<ShaderLanguage>)
    ensures
        r == shader_language_of(has_wgsl, has_spirv),
{
    if has_wgsl {
        Some(ShaderLanguage::Wgsl)
    } else if has_spirv {
        Some(ShaderLanguage::SpirV)
    } else {
        None
    }
}

/// No two enumerators name the same texture format.
pub proof fn law_texture_formats_are_distinct(a: EnumConstant, b: EnumConstant)
    requires
        texture_format_of(a) is Some,
        a != b,
    ensures
        texture_format_of(a) != texture_format_of(b),
{
}

/// No two enumerators name the same vertex format.
pub proof fn law_vertex_formats_are_distinct(a: EnumConstant, b: EnumConstant)
    requires
        vertex_format_of(a) is Some,
        a != b,
    ensures
        vertex_format_of(a) != vertex_format_of(b),
{
}

} // verus!
