//! The enumerators of the C API, as far as the library reads them.

#![allow(non_upper_case_globals)]

use vstd::prelude::*;

verus! {

/// An enumerator of the C API.
pub type EnumConstant = u32;

pub const WGPUBufferBindingType_Undefined: EnumConstant = 0;

pub const WGPUBufferBindingType_Uniform: EnumConstant = 1;

pub const WGPUBufferBindingType_Storage: EnumConstant = 2;

pub const WGPUBufferBindingType_ReadOnlyStorage: EnumConstant = 3;

pub const WGPUSamplerBindingType_Undefined: EnumConstant = 0;

pub const WGPUTextureSampleType_Undefined: EnumConstant = 0;

pub const WGPUStorageTextureAccess_Undefined: EnumConstant = 0;

pub const WGPUMapMode_Read: EnumConstant = 1;

pub const WGPUMapMode_Write: EnumConstant = 2;

pub const WGPUInputStepMode_Vertex: EnumConstant = 0;

pub const WGPUInputStepMode_Instance: EnumConstant = 1;

pub const WGPUFrontFace_CCW: EnumConstant = 0;

pub const WGPUFrontFace_CW: EnumConstant = 1;

pub const WGPUCullMode_None: EnumConstant = 0;

pub const WGPUCullMode_Front: EnumConstant = 1;

pub const WGPUCullMode_Back: EnumConstant = 2;

pub const WGPUTextureDimension_1D: EnumConstant = 0;

pub const WGPUTextureDimension_2D: EnumConstant = 1;

pub const WGPUTextureDimension_3D: EnumConstant = 2;

pub const WGPUTextureViewDimension_Undefined: EnumConstant = 0;

pub const WGPUTextureViewDimension_1D: EnumConstant = 1;

pub const WGPUTextureViewDimension_2D: EnumConstant = 2;

pub const WGPUTextureViewDimension_2DArray: EnumConstant = 3;

pub const WGPUTextureViewDimension_Cube: EnumConstant = 4;

pub const WGPUTextureViewDimension_CubeArray: EnumConstant = 5;

pub const WGPUTextureViewDimension_3D: EnumConstant = 6;

pub const WGPUTextureFormat_Undefined: EnumConstant = 0;

pub const WGPUTextureFormat_R8Unorm: EnumConstant = 1;

pub const WGPUTextureFormat_R8Snorm: EnumConstant = 2;

pub const WGPUTextureFormat_R8Uint: EnumConstant = 3;

pub const WGPUTextureFormat_R8Sint: EnumConstant = 4;

pub const WGPUTextureFormat_R16Uint: EnumConstant = 5;

pub const WGPUTextureFormat_R16Sint: EnumConstant = 6;

pub const WGPUTextureFormat_R16Float: EnumConstant = 7;

pub const WGPUTextureFormat_RG8Unorm: EnumConstant = 8;

pub const WGPUTextureFormat_RG8Snorm: EnumConstant = 9;

pub const WGPUTextureFormat_RG8Uint: EnumConstant = 10;

pub const WGPUTextureFormat_RG8Sint: EnumConstant = 11;

pub const WGPUTextureFormat_R32Float: EnumConstant = 12;

pub const WGPUTextureFormat_R32Uint: EnumConstant = 13;

pub const WGPUTextureFormat_R32Sint: EnumConstant = 14;

pub const WGPUTextureFormat_RG16Uint: EnumConstant = 15;

pub const WGPUTextureFormat_RG16Sint: EnumConstant = 16;

pub const WGPUTextureFormat_RG16Float: EnumConstant = 17;

pub const WGPUTextureFormat_RGBA8Unorm: EnumConstant = 18;

pub const WGPUTextureFormat_RGBA8UnormSrgb: EnumConstant = 19;

pub const WGPUTextureFormat_RGBA8Snorm: EnumConstant = 20;

pub const WGPUTextureFormat_RGBA8Uint: EnumConstant = 21;

pub const WGPUTextureFormat_RGBA8Sint: EnumConstant = 22;

pub const WGPUTextureFormat_BGRA8Unorm: EnumConstant = 23;

pub const WGPUTextureFormat_BGRA8UnormSrgb: EnumConstant = 24;

pub const WGPUTextureFormat_RGB10A2Unorm: EnumConstant = 25;

pub const WGPUTextureFormat_RG11B10Ufloat: EnumConstant = 26;

pub const WGPUTextureFormat_RGB9E5Ufloat: EnumConstant = 27;

pub const WGPUTextureFormat_RG32Float: EnumConstant = 28;

pub const WGPUTextureFormat_RG32Uint: EnumConstant = 29;

pub const WGPUTextureFormat_RG32Sint: EnumConstant = 30;

pub const WGPUTextureFormat_RGBA16Uint: EnumConstant = 31;

pub const WGPUTextureFormat_RGBA16Sint: EnumConstant = 32;

pub const WGPUTextureFormat_RGBA16Float: EnumConstant = 33;

pub const WGPUTextureFormat_RGBA32Float: EnumConstant = 34;

pub const WGPUTextureFormat_RGBA32Uint: EnumConstant = 35;

pub const WGPUTextureFormat_RGBA32Sint: EnumConstant = 36;

pub const WGPUTextureFormat_Depth32Float: EnumConstant = 37;

pub const WGPUTextureFormat_Depth24Plus: EnumConstant = 38;

pub const WGPUTextureFormat_Depth24PlusStencil8: EnumConstant = 39;

pub const WGPUAddressMode_Repeat: EnumConstant = 0;

pub const WGPUAddressMode_MirrorRepeat: EnumConstant = 1;

pub const WGPUAddressMode_ClampToEdge: EnumConstant = 2;

pub const WGPUFilterMode_Nearest: EnumConstant = 0;

pub const WGPUFilterMode_Linear: EnumConstant = 1;

pub const WGPUCompareFunction_Undefined: EnumConstant = 0;

pub const WGPUCompareFunction_Never: EnumConstant = 1;

pub const WGPUCompareFunction_Less: EnumConstant = 2;

pub const WGPUCompareFunction_LessEqual: EnumConstant = 3;

pub const WGPUCompareFunction_Greater: EnumConstant = 4;

pub const WGPUCompareFunction_GreaterEqual: EnumConstant = 5;

pub const WGPUCompareFunction_Equal: EnumConstant = 6;

pub const WGPUCompareFunction_NotEqual: EnumConstant = 7;

pub const WGPUCompareFunction_Always: EnumConstant = 8;

pub const WGPUTextureAspect_All: EnumConstant = 0;

pub const WGPUTextureAspect_StencilOnly: EnumConstant = 1;

pub const WGPUTextureAspect_DepthOnly: EnumConstant = 2;

pub const WGPUPresentMode_Immediate: EnumConstant = 0;

pub const WGPUPresentMode_Mailbox: EnumConstant = 1;

pub const WGPUPresentMode_Fifo: EnumConstant = 2;

pub const WGPUPrimitiveTopology_PointList: EnumConstant = 0;

pub const WGPUPrimitiveTopology_LineList: EnumConstant = 1;

pub const WGPUPrimitiveTopology_LineStrip: EnumConstant = 2;

pub const WGPUPrimitiveTopology_TriangleList: EnumConstant = 3;

pub const WGPUPrimitiveTopology_TriangleStrip: EnumConstant = 4;

pub const WGPUIndexFormat_Undefined: EnumConstant = 0;

pub const WGPUIndexFormat_Uint16: EnumConstant = 1;

pub const WGPUIndexFormat_Uint32: EnumConstant = 2;

pub const WGPUBlendFactor_Zero: EnumConstant = 0;

pub const WGPUBlendFactor_One: EnumConstant = 1;

pub const WGPUBlendFactor_SrcColor: EnumConstant = 2;

pub const WGPUBlendFactor_OneMinusSrcColor: EnumConstant = 3;

pub const WGPUBlendFactor_SrcAlpha: EnumConstant = 4;

pub const WGPUBlendFactor_OneMinusSrcAlpha: EnumConstant = 5;

pub const WGPUBlendFactor_DstColor: EnumConstant = 6;

pub const WGPUBlendFactor_OneMinusDstColor: EnumConstant = 7;

pub const WGPUBlendFactor_DstAlpha: EnumConstant = 8;

pub const WGPUBlendFactor_OneMinusDstAlpha: EnumConstant = 9;

pub const WGPUBlendFactor_SrcAlphaSaturated: EnumConstant = 10;

pub const WGPUBlendFactor_BlendColor: EnumConstant = 11;

pub const WGPUBlendFactor_OneMinusBlendColor: EnumConstant = 12;

pub const WGPUBlendOperation_Add: EnumConstant = 0;

pub const WGPUBlendOperation_Subtract: EnumConstant = 1;

pub const WGPUBlendOperation_ReverseSubtract: EnumConstant = 2;

pub const WGPUBlendOperation_Min: EnumConstant = 3;

pub const WGPUBlendOperation_Max: EnumConstant = 4;

pub const WGPUVertexFormat_Undefined: EnumConstant = 0;

pub const WGPUVertexFormat_Uint8x2: EnumConstant = 1;

pub const WGPUVertexFormat_Uint8x4: EnumConstant = 2;

pub const WGPUVertexFormat_Sint8x2: EnumConstant = 3;

pub const WGPUVertexFormat_Sint8x4: EnumConstant = 4;

pub const WGPUVertexFormat_Unorm8x2: EnumConstant = 5;

pub const WGPUVertexFormat_Unorm8x4: EnumConstant = 6;

pub const WGPUVertexFormat_Snorm8x2: EnumConstant = 7;

pub const WGPUVertexFormat_Snorm8x4: EnumConstant = 8;

pub const WGPUVertexFormat_Uint16x2: EnumConstant = 9;

pub const WGPUVertexFormat_Uint16x4: EnumConstant = 10;

pub const WGPUVertexFormat_Sint16x2: EnumConstant = 11;

pub const WGPUVertexFormat_Sint16x4: EnumConstant = 12;

pub const WGPUVertexFormat_Unorm16x2: EnumConstant = 13;

pub const WGPUVertexFormat_Unorm16x4: EnumConstant = 14;

pub const WGPUVertexFormat_Snorm16x2: EnumConstant = 15;

pub const WGPUVertexFormat_Snorm16x4: EnumConstant = 16;

pub const WGPUVertexFormat_Float16x2: EnumConstant = 17;

pub const WGPUVertexFormat_Float16x4: EnumConstant = 18;

pub const WGPUVertexFormat_Float32: EnumConstant = 19;

pub const WGPUVertexFormat_Float32x2: EnumConstant = 20;

pub const WGPUVertexFormat_Float32x3: EnumConstant = 21;

pub const WGPUVertexFormat_Float32x4: EnumConstant = 22;

pub const WGPUVertexFormat_Uint32: EnumConstant = 23;

pub const WGPUVertexFormat_Uint32x2: EnumConstant = 24;

pub const WGPUVertexFormat_Uint32x3: EnumConstant = 25;

pub const WGPUVertexFormat_Uint32x4: EnumConstant = 26;

pub const WGPUVertexFormat_Sint32: EnumConstant = 27;

pub const WGPUVertexFormat_Sint32x2: EnumConstant = 28;

pub const WGPUVertexFormat_Sint32x3: EnumConstant = 29;

pub const WGPUVertexFormat_Sint32x4: EnumConstant = 30;

} // verus!
