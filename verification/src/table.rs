//! The fixed table of basic-type spellings.
//!
//! The table is a total, exhaustive mapping from surface spellings to
//! canonical [`BasicTy`] variants: any spelling not present is not a basic
//! type, by construction.  It is split into families so that each mapping is
//! stated once as a specification function and once as an executable lookup
//! proved against it.

use vstd::prelude::*;

use crate::ascii::str_eq;
use crate::syntax::BasicTy;

verus! {

/// Square and rectangular single-precision matrices; the bare spelling of a
/// square matrix and its explicit-square spelling are aliases of one variant.
pub open spec fn mat_ty_of(s: Seq<char>) -> Option<BasicTy> {
    if s == "mat2"@ || s == "mat2x2"@ {
        Some(BasicTy::Mat2)
    } else if s == "mat3"@ || s == "mat3x3"@ {
        Some(BasicTy::Mat3)
    } else if s == "mat4"@ || s == "mat4x4"@ {
        Some(BasicTy::Mat4)
    } else if s == "mat2x3"@ {
        Some(BasicTy::Mat23)
    } else if s == "mat2x4"@ {
        Some(BasicTy::Mat24)
    } else if s == "mat3x2"@ {
        Some(BasicTy::Mat32)
    } else if s == "mat3x4"@ {
        Some(BasicTy::Mat34)
    } else if s == "mat4x2"@ {
        Some(BasicTy::Mat42)
    } else if s == "mat4x3"@ {
        Some(BasicTy::Mat43)
    } else {
        None
    }
}

fn mat_lookup(s: &str) -> (r: Option<BasicTy>)
    ensures
        r == mat_ty_of(s@),
{
    if str_eq(s, "mat2") || str_eq(s, "mat2x2") {
        Some(BasicTy::Mat2)
    } else if str_eq(s, "mat3") || str_eq(s, "mat3x3") {
        Some(BasicTy::Mat3)
    } else if str_eq(s, "mat4") || str_eq(s, "mat4x4") {
        Some(BasicTy::Mat4)
    } else if str_eq(s, "mat2x3") {
        Some(BasicTy::Mat23)
    } else if str_eq(s, "mat2x4") {
        Some(BasicTy::Mat24)
    } else if str_eq(s, "mat3x2") {
        Some(BasicTy::Mat32)
    } else if str_eq(s, "mat3x4") {
        Some(BasicTy::Mat34)
    } else if str_eq(s, "mat4x2") {
        Some(BasicTy::Mat42)
    } else if str_eq(s, "mat4x3") {
        Some(BasicTy::Mat43)
    } else {
        None
    }
}

/// Double-precision matrices, aliased exactly as the single-precision ones.
pub open spec fn dmat_ty_of(s: Seq<char>) -> Option<BasicTy> {
    if s == "dmat2"@ || s == "dmat2x2"@ {
        Some(BasicTy::DMat2)
    } else if s == "dmat3"@ || s == "dmat3x3"@ {
        Some(BasicTy::DMat3)
    } else if s == "dmat4"@ || s == "dmat4x4"@ {
        Some(BasicTy::DMat4)
    } else if s == "dmat2x3"@ {
        Some(BasicTy::DMat23)
    } else if s == "dmat2x4"@ {
        Some(BasicTy::DMat24)
    } else if s == "dmat3x2"@ {
        Some(BasicTy::DMat32)
    } else if s == "dmat3x4"@ {
        Some(BasicTy::DMat34)
    } else if s == "dmat4x2"@ {
        Some(BasicTy::DMat42)
    } else if s == "dmat4x3"@ {
        Some(BasicTy::DMat43)
    } else {
        None
    }
}

fn dmat_lookup(s: &str) -> (r: Option<BasicTy>)
    ensures
        r == dmat_ty_of(s@),
{
    if str_eq(s, "dmat2") || str_eq(s, "dmat2x2") {
        Some(BasicTy::DMat2)
    } else if str_eq(s, "dmat3") || str_eq(s, "dmat3x3") {
        Some(BasicTy::DMat3)
    } else if str_eq(s, "dmat4") || str_eq(s, "dmat4x4") {
        Some(BasicTy::DMat4)
    } else if str_eq(s, "dmat2x3") {
        Some(BasicTy::DMat23)
    } else if str_eq(s, "dmat2x4") {
        Some(BasicTy::DMat24)
    } else if str_eq(s, "dmat3x2") {
        Some(BasicTy::DMat32)
    } else if str_eq(s, "dmat3x4") {
        Some(BasicTy::DMat34)
    } else if str_eq(s, "dmat4x2") {
        Some(BasicTy::DMat42)
    } else if str_eq(s, "dmat4x3") {
        Some(BasicTy::DMat43)
    } else {
        None
    }
}

/// Scalar types and the atomic counter type.
pub open spec fn scalar_ty_of(s: Seq<char>) -> Option<BasicTy> {
    if s == "bool"@ {
        Some(BasicTy::Bool)
    } else if s == "int"@ {
        Some(BasicTy::Int)
    } else if s == "uint"@ {
        Some(BasicTy::UInt)
    } else if s == "float"@ {
        Some(BasicTy::Float)
    } else if s == "double"@ {
        Some(BasicTy::Double)
    } else if s == "atomic_uint"@ {
        Some(BasicTy::AtomicUInt)
    } else {
        None
    }
}

fn scalar_lookup(s: &str) -> (r: Option<BasicTy>)
    ensures
        r == scalar_ty_of(s@),
{
    if str_eq(s, "bool") {
        Some(BasicTy::Bool)
    } else if str_eq(s, "int") {
        Some(BasicTy::Int)
    } else if str_eq(s, "uint") {
        Some(BasicTy::UInt)
    } else if str_eq(s, "float") {
        Some(BasicTy::Float)
    } else if str_eq(s, "double") {
        Some(BasicTy::Double)
    } else if str_eq(s, "atomic_uint") {
        Some(BasicTy::AtomicUInt)
    } else {
        None
    }
}

/// Vectors of two to four components over each scalar kind.
pub open spec fn vec_ty_of(s: Seq<char>) -> Option<BasicTy> {
    if s == "vec2"@ {
        Some(BasicTy::Vec2)
    } else if s == "vec3"@ {
        Some(BasicTy::Vec3)
    } else if s == "vec4"@ {
        Some(BasicTy::Vec4)
    } else if s == "dvec2"@ {
        Some(BasicTy::DVec2)
    } else if s == "dvec3"@ {
        Some(BasicTy::DVec3)
    } else if s == "dvec4"@ {
        Some(BasicTy::DVec4)
    } else if s == "bvec2"@ {
        Some(BasicTy::BVec2)
    } else if s == "bvec3"@ {
        Some(BasicTy::BVec3)
    } else if s == "bvec4"@ {
        Some(BasicTy::BVec4)
    } else if s == "ivec2"@ {
        Some(BasicTy::IVec2)
    } else if s == "ivec3"@ {
        Some(BasicTy::IVec3)
    } else if s == "ivec4"@ {
        Some(BasicTy::IVec4)
    } else if s == "uvec2"@ {
        Some(BasicTy::UVec2)
    } else if s == "uvec3"@ {
        Some(BasicTy::UVec3)
    } else if s == "uvec4"@ {
        Some(BasicTy::UVec4)
    } else {
        None
    }
}

fn vec_lookup(s: &str) -> (r: Option<BasicTy>)
    ensures
        r == vec_ty_of(s@),
{
    if str_eq(s, "vec2") {
        Some(BasicTy::Vec2)
    } else if str_eq(s, "vec3") {
        Some(BasicTy::Vec3)
    } else if str_eq(s, "vec4") {
        Some(BasicTy::Vec4)
    } else if str_eq(s, "dvec2") {
        Some(BasicTy::DVec2)
    } else if str_eq(s, "dvec3") {
        Some(BasicTy::DVec3)
    } else if str_eq(s, "dvec4") {
        Some(BasicTy::DVec4)
    } else if str_eq(s, "bvec2") {
        Some(BasicTy::BVec2)
    } else if str_eq(s, "bvec3") {
        Some(BasicTy::BVec3)
    } else if str_eq(s, "bvec4") {
        Some(BasicTy::BVec4)
    } else if str_eq(s, "ivec2") {
        Some(BasicTy::IVec2)
    } else if str_eq(s, "ivec3") {
        Some(BasicTy::IVec3)
    } else if str_eq(s, "ivec4") {
        Some(BasicTy::IVec4)
    } else if str_eq(s, "uvec2") {
        Some(BasicTy::UVec2)
    } else if str_eq(s, "uvec3") {
        Some(BasicTy::UVec3)
    } else if str_eq(s, "uvec4") {
        Some(BasicTy::UVec4)
    } else {
        None
    }
}

/// Floating-point sampler and image handles, including the shadow-comparison
/// samplers.
pub open spec fn sampler_ty_of(s: Seq<char>) -> Option<BasicTy> {
    if s == "sampler1D"@ {
        Some(BasicTy::Sampler1D)
    } else if s == "image1D"@ {
        Some(BasicTy::Image1D)
    } else if s == "sampler2D"@ {
        Some(BasicTy::Sampler2D)
    } else if s == "image2D"@ {
        Some(BasicTy::Image2D)
    } else if s == "sampler3D"@ {
        Some(BasicTy::Sampler3D)
    } else if s == "image3D"@ {
        Some(BasicTy::Image3D)
    } else if s == "samplerCube"@ {
        Some(BasicTy::SamplerCube)
    } else if s == "imageCube"@ {
        Some(BasicTy::ImageCube)
    } else if s == "sampler2DRect"@ {
        Some(BasicTy::Sampler2DRect)
    } else if s == "image2DRect"@ {
        Some(BasicTy::Image2DRect)
    } else if s == "sampler1DArray"@ {
        Some(BasicTy::Sampler1DArray)
    } else if s == "image1DArray"@ {
        Some(BasicTy::Image1DArray)
    } else if s == "sampler2DArray"@ {
        Some(BasicTy::Sampler2DArray)
    } else if s == "image2DArray"@ {
        Some(BasicTy::Image2DArray)
    } else if s == "samplerBuffer"@ {
        Some(BasicTy::SamplerBuffer)
    } else if s == "imageBuffer"@ {
        Some(BasicTy::ImageBuffer)
    } else if s == "sampler2DMS"@ {
        Some(BasicTy::Sampler2DMS)
    } else if s == "image2DMS"@ {
        Some(BasicTy::Image2DMS)
    } else if s == "sampler2DMSArray"@ {
        Some(BasicTy::Sampler2DMSArray)
    } else if s == "image2DMSArray"@ {
        Some(BasicTy::Image2DMSArray)
    } else if s == "samplerCubeArray"@ {
        Some(BasicTy::SamplerCubeArray)
    } else if s == "imageCubeArray"@ {
        Some(BasicTy::ImageCubeArray)
    } else if s == "sampler1DShadow"@ {
        Some(BasicTy::Sampler1DShadow)
    } else if s == "sampler2DShadow"@ {
        Some(BasicTy::Sampler2DShadow)
    } else if s == "sampler2DRectShadow"@ {
        Some(BasicTy::Sampler2DRectShadow)
    } else if s == "sampler1DArrayShadow"@ {
        Some(BasicTy::Sampler1DArrayShadow)
    } else if s == "sampler2DArrayShadow"@ {
        Some(BasicTy::Sampler2DArrayShadow)
    } else if s == "samplerCubeShadow"@ {
        Some(BasicTy::SamplerCubeShadow)
    } else if s == "samplerCubeArrayShadow"@ {
        Some(BasicTy::SamplerCubeArrayShadow)
    } else {
        None
    }
}

fn sampler_lookup(s: &str) -> (r: Option<BasicTy>)
    ensures
        r == sampler_ty_of(s@),
{
    if str_eq(s, "sampler1D") {
        Some(BasicTy::Sampler1D)
    } else if str_eq(s, "image1D") {
        Some(BasicTy::Image1D)
    } else if str_eq(s, "sampler2D") {
        Some(BasicTy::Sampler2D)
    } else if str_eq(s, "image2D") {
        Some(BasicTy::Image2D)
    } else if str_eq(s, "sampler3D") {
        Some(BasicTy::Sampler3D)
    } else if str_eq(s, "image3D") {
        Some(BasicTy::Image3D)
    } else if str_eq(s, "samplerCube") {
        Some(BasicTy::SamplerCube)
    } else if str_eq(s, "imageCube") {
        Some(BasicTy::ImageCube)
    } else if str_eq(s, "sampler2DRect") {
        Some(BasicTy::Sampler2DRect)
    } else if str_eq(s, "image2DRect") {
        Some(BasicTy::Image2DRect)
    } else if str_eq(s, "sampler1DArray") {
        Some(BasicTy::Sampler1DArray)
    } else if str_eq(s, "image1DArray") {
        Some(BasicTy::Image1DArray)
    } else if str_eq(s, "sampler2DArray") {
        Some(BasicTy::Sampler2DArray)
    } else if str_eq(s, "image2DArray") {
        Some(BasicTy::Image2DArray)
    } else if str_eq(s, "samplerBuffer") {
        Some(BasicTy::SamplerBuffer)
    } else if str_eq(s, "imageBuffer") {
        Some(BasicTy::ImageBuffer)
    } else if str_eq(s, "sampler2DMS") {
        Some(BasicTy::Sampler2DMS)
    } else if str_eq(s, "image2DMS") {
        Some(BasicTy::Image2DMS)
    } else if str_eq(s, "sampler2DMSArray") {
        Some(BasicTy::Sampler2DMSArray)
    } else if str_eq(s, "image2DMSArray") {
        Some(BasicTy::Image2DMSArray)
    } else if str_eq(s, "samplerCubeArray") {
        Some(BasicTy::SamplerCubeArray)
    } else if str_eq(s, "imageCubeArray") {
        Some(BasicTy::ImageCubeArray)
    } else if str_eq(s, "sampler1DShadow") {
        Some(BasicTy::Sampler1DShadow)
    } else if str_eq(s, "sampler2DShadow") {
        Some(BasicTy::Sampler2DShadow)
    } else if str_eq(s, "sampler2DRectShadow") {
        Some(BasicTy::Sampler2DRectShadow)
    } else if str_eq(s, "sampler1DArrayShadow") {
        Some(BasicTy::Sampler1DArrayShadow)
    } else if str_eq(s, "sampler2DArrayShadow") {
        Some(BasicTy::Sampler2DArrayShadow)
    } else if str_eq(s, "samplerCubeShadow") {
        Some(BasicTy::SamplerCubeShadow)
    } else if str_eq(s, "samplerCubeArrayShadow") {
        Some(BasicTy::SamplerCubeArrayShadow)
    } else {
        None
    }
}

/// Signed-integer sampler and image handles.  The spelling `isampler2MS` is
/// irregular next to the rest of the family but is kept exactly as the
/// recognized surface form, for compatibility with existing sources.
pub open spec fn isampler_ty_of(s: Seq<char>) -> Option<BasicTy> {
    if s == "isampler1D"@ {
        Some(BasicTy::ISampler1D)
    } else if s == "iimage1D"@ {
        Some(BasicTy::IImage1D)
    } else if s == "isampler2D"@ {
        Some(BasicTy::ISampler2D)
    } else if s == "iimage2D"@ {
        Some(BasicTy::IImage2D)
    } else if s == "isampler3D"@ {
        Some(BasicTy::ISampler3D)
    } else if s == "iimage3D"@ {
        Some(BasicTy::IImage3D)
    } else if s == "isamplerCube"@ {
        Some(BasicTy::ISamplerCube)
    } else if s == "iimageCube"@ {
        Some(BasicTy::IImageCube)
    } else if s == "isampler2DRect"@ {
        Some(BasicTy::ISampler2DRect)
    } else if s == "iimage2DRect"@ {
        Some(BasicTy::IImage2DRect)
    } else if s == "isampler1DArray"@ {
        Some(BasicTy::ISampler1DArray)
    } else if s == "iimage1DArray"@ {
        Some(BasicTy::IImage1DArray)
    } else if s == "isampler2DArray"@ {
        Some(BasicTy::ISampler2DArray)
    } else if s == "iimage2DArray"@ {
        Some(BasicTy::IImage2DArray)
    } else if s == "isamplerBuffer"@ {
        Some(BasicTy::ISamplerBuffer)
    } else if s == "iimageBuffer"@ {
        Some(BasicTy::IImageBuffer)
    } else if s == "isampler2MS"@ {
        Some(BasicTy::ISampler2DMS)
    } else if s == "iimage2DMS"@ {
        Some(BasicTy::IImage2DMS)
    } else if s == "isampler2DMSArray"@ {
        Some(BasicTy::ISampler2DMSArray)
    } else if s == "iimage2DMSArray"@ {
        Some(BasicTy::IImage2DMSArray)
    } else if s == "isamplerCubeArray"@ {
        Some(BasicTy::ISamplerCubeArray)
    } else if s == "iimageCubeArray"@ {
        Some(BasicTy::IImageCubeArray)
    } else {
        None
    }
}

fn isampler_lookup(s: &str) -> (r: Option<BasicTy>)
    ensures
        r == isampler_ty_of(s@),
{
    if str_eq(s, "isampler1D") {
        Some(BasicTy::ISampler1D)
    } else if str_eq(s, "iimage1D") {
        Some(BasicTy::IImage1D)
    } else if str_eq(s, "isampler2D") {
        Some(BasicTy::ISampler2D)
    } else if str_eq(s, "iimage2D") {
        Some(BasicTy::IImage2D)
    } else if str_eq(s, "isampler3D") {
        Some(BasicTy::ISampler3D)
    } else if str_eq(s, "iimage3D") {
        Some(BasicTy::IImage3D)
    } else if str_eq(s, "isamplerCube") {
        Some(BasicTy::ISamplerCube)
    } else if str_eq(s, "iimageCube") {
        Some(BasicTy::IImageCube)
    } else if str_eq(s, "isampler2DRect") {
        Some(BasicTy::ISampler2DRect)
    } else if str_eq(s, "iimage2DRect") {
        Some(BasicTy::IImage2DRect)
    } else if str_eq(s, "isampler1DArray") {
        Some(BasicTy::ISampler1DArray)
    } else if str_eq(s, "iimage1DArray") {
        Some(BasicTy::IImage1DArray)
    } else if str_eq(s, "isampler2DArray") {
        Some(BasicTy::ISampler2DArray)
    } else if str_eq(s, "iimage2DArray") {
        Some(BasicTy::IImage2DArray)
    } else if str_eq(s, "isamplerBuffer") {
        Some(BasicTy::ISamplerBuffer)
    } else if str_eq(s, "iimageBuffer") {
        Some(BasicTy::IImageBuffer)
    } else if str_eq(s, "isampler2MS") {
        Some(BasicTy::ISampler2DMS)
    } else if str_eq(s, "iimage2DMS") {
        Some(BasicTy::IImage2DMS)
    } else if str_eq(s, "isampler2DMSArray") {
        Some(BasicTy::ISampler2DMSArray)
    } else if str_eq(s, "iimage2DMSArray") {
        Some(BasicTy::IImage2DMSArray)
    } else if str_eq(s, "isamplerCubeArray") {
        Some(BasicTy::ISamplerCubeArray)
    } else if str_eq(s, "iimageCubeArray") {
        Some(BasicTy::IImageCubeArray)
    } else {
        None
    }
}

/// Unsigned-integer sampler and image handles.  The spelling
/// `uisampler1DArray` is irregular next to the rest of the family but is kept
/// exactly as the recognized surface form, for compatibility with existing
/// sources.
pub open spec fn usampler_ty_of(s: Seq<char>) -> Option<BasicTy> {
    if s == "usampler1D"@ {
        Some(BasicTy::USampler1D)
    } else if s == "uimage1D"@ {
        Some(BasicTy::UImage1D)
    } else if s == "usampler2D"@ {
        Some(BasicTy::USampler2D)
    } else if s == "uimage2D"@ {
        Some(BasicTy::UImage2D)
    } else if s == "usampler3D"@ {
        Some(BasicTy::USampler3D)
    } else if s == "uimage3D"@ {
        Some(BasicTy::UImage3D)
    } else if s == "usamplerCube"@ {
        Some(BasicTy::USamplerCube)
    } else if s == "uimageCube"@ {
        Some(BasicTy::UImageCube)
    } else if s == "usampler2DRect"@ {
        Some(BasicTy::USampler2DRect)
    } else if s == "uimage2DRect"@ {
        Some(BasicTy::UImage2DRect)
    } else if s == "uisampler1DArray"@ {
        Some(BasicTy::USampler1DArray)
    } else if s == "uimage1DArray"@ {
        Some(BasicTy::UImage1DArray)
    } else if s == "usampler2DArray"@ {
        Some(BasicTy::USampler2DArray)
    } else if s == "uimage2DArray"@ {
        Some(BasicTy::UImage2DArray)
    } else if s == "usamplerBuffer"@ {
        Some(BasicTy::USamplerBuffer)
    } else if s == "uimageBuffer"@ {
        Some(BasicTy::UImageBuffer)
    } else if s == "usampler2DMS"@ {
        Some(BasicTy::USampler2DMS)
    } else if s == "uimage2DMS"@ {
        Some(BasicTy::UImage2DMS)
    } else if s == "usampler2DMSArray"@ {
        Some(BasicTy::USampler2DMSArray)
    } else if s == "uimage2DMSArray"@ {
        Some(BasicTy::UImage2DMSArray)
    } else if s == "usamplerCubeArray"@ {
        Some(BasicTy::USamplerCubeArray)
    } else if s == "uimageCubeArray"@ {
        Some(BasicTy::UImageCubeArray)
    } else {
        None
    }
}

fn usampler_lookup(s: &str) -> (r: Option<BasicTy>)
    ensures
        r == usampler_ty_of(s@),
{
    if str_eq(s, "usampler1D") {
        Some(BasicTy::USampler1D)
    } else if str_eq(s, "uimage1D") {
        Some(BasicTy::UImage1D)
    } else if str_eq(s, "usampler2D") {
        Some(BasicTy::USampler2D)
    } else if str_eq(s, "uimage2D") {
        Some(BasicTy::UImage2D)
    } else if str_eq(s, "usampler3D") {
        Some(BasicTy::USampler3D)
    } else if str_eq(s, "uimage3D") {
        Some(BasicTy::UImage3D)
    } else if str_eq(s, "usamplerCube") {
        Some(BasicTy::USamplerCube)
    } else if str_eq(s, "uimageCube") {
        Some(BasicTy::UImageCube)
    } else if str_eq(s, "usampler2DRect") {
        Some(BasicTy::USampler2DRect)
    } else if str_eq(s, "uimage2DRect") {
        Some(BasicTy::UImage2DRect)
    } else if str_eq(s, "uisampler1DArray") {
        Some(BasicTy::USampler1DArray)
    } else if str_eq(s, "uimage1DArray") {
        Some(BasicTy::UImage1DArray)
    } else if str_eq(s, "usampler2DArray") {
        Some(BasicTy::USampler2DArray)
    } else if str_eq(s, "uimage2DArray") {
        Some(BasicTy::UImage2DArray)
    } else if str_eq(s, "usamplerBuffer") {
        Some(BasicTy::USamplerBuffer)
    } else if str_eq(s, "uimageBuffer") {
        Some(BasicTy::UImageBuffer)
    } else if str_eq(s, "usampler2DMS") {
        Some(BasicTy::USampler2DMS)
    } else if str_eq(s, "uimage2DMS") {
        Some(BasicTy::UImage2DMS)
    } else if str_eq(s, "usampler2DMSArray") {
        Some(BasicTy::USampler2DMSArray)
    } else if str_eq(s, "uimage2DMSArray") {
        Some(BasicTy::UImage2DMSArray)
    } else if str_eq(s, "usamplerCubeArray") {
        Some(BasicTy::USamplerCubeArray)
    } else if str_eq(s, "uimageCubeArray") {
        Some(BasicTy::UImageCubeArray)
    } else {
        None
    }
}

/// The whole table: the union of the disjoint families.
pub open spec fn basic_ty_of(s: Seq<char>) -> Option<BasicTy> {
    if mat_ty_of(s) is Some {
        mat_ty_of(s)
    } else if dmat_ty_of(s) is Some {
        dmat_ty_of(s)
    } else if scalar_ty_of(s) is Some {
        scalar_ty_of(s)
    } else if vec_ty_of(s) is Some {
        vec_ty_of(s)
    } else if sampler_ty_of(s) is Some {
        sampler_ty_of(s)
    } else if isampler_ty_of(s) is Some {
        isampler_ty_of(s)
    } else if usampler_ty_of(s) is Some {
        usampler_ty_of(s)
    } else {
        None
    }
}

/// Resolve a spelling against the whole table.
pub fn lookup_basic_ty(s: &str) -> (r: Option<BasicTy>)
    ensures
        r == basic_ty_of(s@),
{
    if let Some(t) = mat_lookup(s) {
        Some(t)
    } else if let Some(t) = dmat_lookup(s) {
        Some(t)
    } else if let Some(t) = scalar_lookup(s) {
        Some(t)
    } else if let Some(t) = vec_lookup(s) {
        Some(t)
    } else if let Some(t) = sampler_lookup(s) {
        Some(t)
    } else if let Some(t) = isampler_lookup(s) {
        Some(t)
    } else if let Some(t) = usampler_lookup(s) {
        Some(t)
    } else {
        None
    }
}

/// The bare square-matrix spellings and their explicit-square forms resolve
/// to one and the same canonical variant, in the single-precision and the
/// double-precision family alike; no other spelling is aliased.
pub proof fn lemma_square_matrix_aliases()
    ensures
        basic_ty_of("mat2"@) == basic_ty_of("mat2x2"@),
        basic_ty_of("mat3"@) == basic_ty_of("mat3x3"@),
        basic_ty_of("mat4"@) == basic_ty_of("mat4x4"@),
        basic_ty_of("dmat2"@) == basic_ty_of("dmat2x2"@),
        basic_ty_of("dmat3"@) == basic_ty_of("dmat3x3"@),
        basic_ty_of("dmat4"@) == basic_ty_of("dmat4x4"@),
        basic_ty_of("mat2"@) == Some(BasicTy::Mat2),
        basic_ty_of("mat3"@) == Some(BasicTy::Mat3),
        basic_ty_of("mat4"@) == Some(BasicTy::Mat4),
        basic_ty_of("dmat2"@) == Some(BasicTy::DMat2),
        basic_ty_of("dmat3"@) == Some(BasicTy::DMat3),
        basic_ty_of("dmat4"@) == Some(BasicTy::DMat4),
{
    broadcast use vstd::string::group_string_axioms;

    reveal_strlit("mat2");
    reveal_strlit("mat2x2");
    reveal_strlit("mat3");
    reveal_strlit("mat3x3");
    reveal_strlit("mat4");
    reveal_strlit("mat4x4");
    reveal_strlit("dmat2");
    reveal_strlit("dmat2x2");
    reveal_strlit("dmat3");
    reveal_strlit("dmat3x3");
    reveal_strlit("dmat4");
    reveal_strlit("dmat4x4");
    reveal_strlit("mat2x3");
    reveal_strlit("mat2x4");
    reveal_strlit("mat3x2");
    reveal_strlit("mat3x4");
    reveal_strlit("mat4x2");
    reveal_strlit("mat4x3");
    assert("mat2"@.len() == 4);
    assert("mat2x2"@.len() == 6);
    assert("mat3"@.len() == 4);
    assert("mat3x3"@.len() == 6);
    assert("mat4"@.len() == 4);
    assert("mat4x4"@.len() == 6);
    assert("dmat2"@.len() == 5);
    assert("dmat2x2"@.len() == 7);
    assert("dmat3"@.len() == 5);
    assert("dmat3x3"@.len() == 7);
    assert("dmat4"@.len() == 5);
    assert("dmat4x4"@.len() == 7);
    assert("mat2x3"@.len() == 6);
    assert("mat2x4"@.len() == 6);
    assert("mat3x2"@.len() == 6);
    assert("mat3x4"@.len() == 6);
    assert("mat4x2"@.len() == 6);
    assert("mat4x3"@.len() == 6);
    assert("mat3"@[3] != "mat2"@[3]);
    assert("mat3x3"@[3] != "mat2x2"@[3]);
    assert("mat4"@[3] != "mat2"@[3]);
    assert("mat4"@[3] != "mat3"@[3]);
    assert("mat4x4"@[3] != "mat2x2"@[3]);
    assert("mat4x4"@[3] != "mat3x3"@[3]);
    assert("dmat3"@[4] != "dmat2"@[4]);
    assert("dmat3x3"@[4] != "dmat2x2"@[4]);
    assert("dmat4"@[4] != "dmat2"@[4]);
    assert("dmat4"@[4] != "dmat3"@[4]);
    assert("dmat4x4"@[4] != "dmat2x2"@[4]);
    assert("dmat4x4"@[4] != "dmat3x3"@[4]);
    assert(mat_ty_of("mat2"@) == Some(BasicTy::Mat2));
    assert(mat_ty_of("mat2x2"@) == Some(BasicTy::Mat2));
    assert(mat_ty_of("mat3"@) == Some(BasicTy::Mat3));
    assert(mat_ty_of("mat3x3"@) == Some(BasicTy::Mat3));
    assert(mat_ty_of("mat4"@) == Some(BasicTy::Mat4));
    assert(mat_ty_of("mat4x4"@) == Some(BasicTy::Mat4));
    assert(mat_ty_of("dmat2"@) is None);
    assert(mat_ty_of("dmat2x2"@) is None);
    assert(mat_ty_of("dmat3"@) is None);
    assert(mat_ty_of("dmat3x3"@) is None);
    assert(mat_ty_of("dmat4"@) is None);
    assert(mat_ty_of("dmat4x4"@) is None);
    assert(dmat_ty_of("dmat2"@) == Some(BasicTy::DMat2));
    assert(dmat_ty_of("dmat2x2"@) == Some(BasicTy::DMat2));
    assert(dmat_ty_of("dmat3"@) == Some(BasicTy::DMat3));
    assert(dmat_ty_of("dmat3x3"@) == Some(BasicTy::DMat3));
    assert(dmat_ty_of("dmat4"@) == Some(BasicTy::DMat4));
    assert(dmat_ty_of("dmat4x4"@) == Some(BasicTy::DMat4));
}

} // verus!
