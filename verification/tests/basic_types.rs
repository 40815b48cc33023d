use glsl::parser::basic_type;
use glsl::syntax::BasicTy;

/// Resolve a spelling followed by a terminator and check that exactly the
/// spelling is consumed and the documented variant comes back.
fn resolves_to(spelling: &str, expected: BasicTy) {
    let mut buf: Vec<u8> = Vec::new();
    buf.extend_from_slice(spelling.as_bytes());
    buf.push(b' ');
    let (ty, rest) = basic_type(&buf).expect("spelling should resolve");
    assert_eq!(ty, expected);
    assert_eq!(rest, b" ");
}

#[test]
fn resolves_scalars_and_atomic() {
    resolves_to("bool", BasicTy::Bool);
    resolves_to("int", BasicTy::Int);
    resolves_to("uint", BasicTy::UInt);
    resolves_to("float", BasicTy::Float);
    resolves_to("double", BasicTy::Double);
    resolves_to("atomic_uint", BasicTy::AtomicUInt);
}

#[test]
fn resolves_vectors() {
    resolves_to("vec2", BasicTy::Vec2);
    resolves_to("vec3", BasicTy::Vec3);
    resolves_to("vec4", BasicTy::Vec4);
    resolves_to("dvec2", BasicTy::DVec2);
    resolves_to("dvec3", BasicTy::DVec3);
    resolves_to("dvec4", BasicTy::DVec4);
    resolves_to("bvec2", BasicTy::BVec2);
    resolves_to("bvec3", BasicTy::BVec3);
    resolves_to("bvec4", BasicTy::BVec4);
    resolves_to("ivec2", BasicTy::IVec2);
    resolves_to("ivec3", BasicTy::IVec3);
    resolves_to("ivec4", BasicTy::IVec4);
    resolves_to("uvec2", BasicTy::UVec2);
    resolves_to("uvec3", BasicTy::UVec3);
    resolves_to("uvec4", BasicTy::UVec4);
}

#[test]
fn resolves_matrices() {
    resolves_to("mat2", BasicTy::Mat2);
    resolves_to("mat3", BasicTy::Mat3);
    resolves_to("mat4", BasicTy::Mat4);
    resolves_to("mat2x2", BasicTy::Mat2);
    resolves_to("mat2x3", BasicTy::Mat23);
    resolves_to("mat2x4", BasicTy::Mat24);
    resolves_to("mat3x2", BasicTy::Mat32);
    resolves_to("mat3x3", BasicTy::Mat3);
    resolves_to("mat3x4", BasicTy::Mat34);
    resolves_to("mat4x2", BasicTy::Mat42);
    resolves_to("mat4x3", BasicTy::Mat43);
    resolves_to("mat4x4", BasicTy::Mat4);
}

#[test]
fn resolves_double_matrices() {
    resolves_to("dmat2", BasicTy::DMat2);
    resolves_to("dmat3", BasicTy::DMat3);
    resolves_to("dmat4", BasicTy::DMat4);
    resolves_to("dmat2x2", BasicTy::DMat2);
    resolves_to("dmat2x3", BasicTy::DMat23);
    resolves_to("dmat2x4", BasicTy::DMat24);
    resolves_to("dmat3x2", BasicTy::DMat32);
    resolves_to("dmat3x3", BasicTy::DMat3);
    resolves_to("dmat3x4", BasicTy::DMat34);
    resolves_to("dmat4x2", BasicTy::DMat42);
    resolves_to("dmat4x3", BasicTy::DMat43);
    resolves_to("dmat4x4", BasicTy::DMat4);
}

#[test]
fn resolves_float_samplers_and_images() {
    resolves_to("sampler1D", BasicTy::Sampler1D);
    resolves_to("image1D", BasicTy::Image1D);
    resolves_to("sampler2D", BasicTy::Sampler2D);
    resolves_to("image2D", BasicTy::Image2D);
    resolves_to("sampler3D", BasicTy::Sampler3D);
    resolves_to("image3D", BasicTy::Image3D);
    resolves_to("samplerCube", BasicTy::SamplerCube);
    resolves_to("imageCube", BasicTy::ImageCube);
    resolves_to("sampler2DRect", BasicTy::Sampler2DRect);
    resolves_to("image2DRect", BasicTy::Image2DRect);
    resolves_to("sampler1DArray", BasicTy::Sampler1DArray);
    resolves_to("image1DArray", BasicTy::Image1DArray);
    resolves_to("sampler2DArray", BasicTy::Sampler2DArray);
    resolves_to("image2DArray", BasicTy::Image2DArray);
    resolves_to("samplerBuffer", BasicTy::SamplerBuffer);
    resolves_to("imageBuffer", BasicTy::ImageBuffer);
    resolves_to("sampler2DMS", BasicTy::Sampler2DMS);
    resolves_to("image2DMS", BasicTy::Image2DMS);
    resolves_to("sampler2DMSArray", BasicTy::Sampler2DMSArray);
    resolves_to("image2DMSArray", BasicTy::Image2DMSArray);
    resolves_to("samplerCubeArray", BasicTy::SamplerCubeArray);
    resolves_to("imageCubeArray", BasicTy::ImageCubeArray);
}

#[test]
fn resolves_shadow_samplers() {
    resolves_to("sampler1DShadow", BasicTy::Sampler1DShadow);
    resolves_to("sampler2DShadow", BasicTy::Sampler2DShadow);
    resolves_to("sampler2DRectShadow", BasicTy::Sampler2DRectShadow);
    resolves_to("sampler1DArrayShadow", BasicTy::Sampler1DArrayShadow);
    resolves_to("sampler2DArrayShadow", BasicTy::Sampler2DArrayShadow);
    resolves_to("samplerCubeShadow", BasicTy::SamplerCubeShadow);
    resolves_to("samplerCubeArrayShadow", BasicTy::SamplerCubeArrayShadow);
}

#[test]
fn resolves_int_samplers_and_images() {
    resolves_to("isampler1D", BasicTy::ISampler1D);
    resolves_to("iimage1D", BasicTy::IImage1D);
    resolves_to("isampler2D", BasicTy::ISampler2D);
    resolves_to("iimage2D", BasicTy::IImage2D);
    resolves_to("isampler3D", BasicTy::ISampler3D);
    resolves_to("iimage3D", BasicTy::IImage3D);
    resolves_to("isamplerCube", BasicTy::ISamplerCube);
    resolves_to("iimageCube", BasicTy::IImageCube);
    resolves_to("isampler2DRect", BasicTy::ISampler2DRect);
    resolves_to("iimage2DRect", BasicTy::IImage2DRect);
    resolves_to("isampler1DArray", BasicTy::ISampler1DArray);
    resolves_to("iimage1DArray", BasicTy::IImage1DArray);
    resolves_to("isampler2DArray", BasicTy::ISampler2DArray);
    resolves_to("iimage2DArray", BasicTy::IImage2DArray);
    resolves_to("isamplerBuffer", BasicTy::ISamplerBuffer);
    resolves_to("iimageBuffer", BasicTy::IImageBuffer);
    resolves_to("isampler2MS", BasicTy::ISampler2DMS);
    resolves_to("iimage2DMS", BasicTy::IImage2DMS);
    resolves_to("isampler2DMSArray", BasicTy::ISampler2DMSArray);
    resolves_to("iimage2DMSArray", BasicTy::IImage2DMSArray);
    resolves_to("isamplerCubeArray", BasicTy::ISamplerCubeArray);
    resolves_to("iimageCubeArray", BasicTy::IImageCubeArray);
}

#[test]
fn resolves_uint_samplers_and_images() {
    resolves_to("usampler1D", BasicTy::USampler1D);
    resolves_to("uimage1D", BasicTy::UImage1D);
    resolves_to("usampler2D", BasicTy::USampler2D);
    resolves_to("uimage2D", BasicTy::UImage2D);
    resolves_to("usampler3D", BasicTy::USampler3D);
    resolves_to("uimage3D", BasicTy::UImage3D);
    resolves_to("usamplerCube", BasicTy::USamplerCube);
    resolves_to("uimageCube", BasicTy::UImageCube);
    resolves_to("usampler2DRect", BasicTy::USampler2DRect);
    resolves_to("uimage2DRect", BasicTy::UImage2DRect);
    resolves_to("uisampler1DArray", BasicTy::USampler1DArray);
    resolves_to("uimage1DArray", BasicTy::UImage1DArray);
    resolves_to("usampler2DArray", BasicTy::USampler2DArray);
    resolves_to("uimage2DArray", BasicTy::UImage2DArray);
    resolves_to("usamplerBuffer", BasicTy::USamplerBuffer);
    resolves_to("uimageBuffer", BasicTy::UImageBuffer);
    resolves_to("usampler2DMS", BasicTy::USampler2DMS);
    resolves_to("uimage2DMS", BasicTy::UImage2DMS);
    resolves_to("usampler2DMSArray", BasicTy::USampler2DMSArray);
    resolves_to("uimage2DMSArray", BasicTy::UImage2DMSArray);
    resolves_to("usamplerCubeArray", BasicTy::USamplerCubeArray);
    resolves_to("uimageCubeArray", BasicTy::UImageCubeArray);
}

