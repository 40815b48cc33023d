//! Token types produced by the recognizers, and the failure conditions.

use vstd::prelude::*;

use crate::ascii::{is_digit_char, is_word_char};

verus! {

/// A validated name token: owned text that is non-empty, does not start with
/// a decimal digit, and consists of word characters only.
#[derive(Clone, Debug, PartialEq, Eq)]
pub struct Identifier {
    name: String,
}

/// The invariant of an identifier's text.
pub open spec fn wf_identifier_chars(s: Seq<char>) -> bool {
    &&& s.len() > 0
    &&& !is_digit_char(s[0])
    &&& forall|i: int| 0 <= i < s.len() ==> is_word_char(#[trigger] s[i])
}

impl View for Identifier {
    type V = Seq<char>;

    closed spec fn view(&self) -> Seq<char> {
        self.name@
    }
}

impl Identifier {
    /// The identifier's invariant, stated over its text.
    pub open spec fn wf(&self) -> bool {
        wf_identifier_chars(self@)
    }

    /// Wrap validated text; the recognizer establishes the invariant.
    pub fn from_string(name: String) -> (r: Identifier)
        requires
            wf_identifier_chars(name@),
        ensures
            r@ == name@,
            r.wf(),
    {
        Identifier { name }
    }

    /// The identifier's text.
    pub fn name(&self) -> (r: &String)
        ensures
            r@ == self@,
    {
        &self.name
    }
}

/// How a recognizer can fail; every condition is recoverable at the grammar
/// level by backtracking to the start of the attempted token.
#[derive(Clone, Copy, Debug, PartialEq, Eq, Structural)]
pub enum ParseError {
    /// Zero qualifying characters at the cursor: try another production.
    NoMatch,
    /// A non-empty run that starts with a decimal digit, which would be
    /// ambiguous with a numeric literal.
    InvalidIdentifier,
    /// An alphanumeric run with no entry in the basic-type table.
    UnknownTypeKeyword,
    /// The buffer ended before a terminator was observed, so a streaming
    /// caller must supply more bytes before the token can be decided.
    IncompleteInput,
}

/// The closed set of built-in basic types, one variant per type meaning.
/// Several source spellings may resolve to the same variant (the square
/// matrices); the variant is the canonical tag.
#[derive(Clone, Copy, Debug, PartialEq, Eq, Structural)]
pub enum BasicTy {
    Bool,
    Int,
    UInt,
    Float,
    Double,
    Vec2,
    Vec3,
    Vec4,
    DVec2,
    DVec3,
    DVec4,
    BVec2,
    BVec3,
    BVec4,
    IVec2,
    IVec3,
    IVec4,
    UVec2,
    UVec3,
    UVec4,
    Mat2,
    Mat3,
    Mat4,
    Mat23,
    Mat24,
    Mat32,
    Mat34,
    Mat42,
    Mat43,
    DMat2,
    DMat3,
    DMat4,
    DMat23,
    DMat24,
    DMat32,
    DMat34,
    DMat42,
    DMat43,
    Sampler1D,
    Image1D,
    Sampler2D,
    Image2D,
    Sampler3D,
    Image3D,
    SamplerCube,
    ImageCube,
    Sampler2DRect,
    Image2DRect,
    Sampler1DArray,
    Image1DArray,
    Sampler2DArray,
    Image2DArray,
    SamplerBuffer,
    ImageBuffer,
    Sampler2DMS,
    Image2DMS,
    Sampler2DMSArray,
    Image2DMSArray,
    SamplerCubeArray,
    ImageCubeArray,
    Sampler1DShadow,
    Sampler2DShadow,
    Sampler2DRectShadow,
    Sampler1DArrayShadow,
    Sampler2DArrayShadow,
    SamplerCubeShadow,
    SamplerCubeArrayShadow,
    ISampler1D,
    IImage1D,
    ISampler2D,
    IImage2D,
    ISampler3D,
    IImage3D,
    ISamplerCube,
    IImageCube,
    ISampler2DRect,
    IImage2DRect,
    ISampler1DArray,
    IImage1DArray,
    ISampler2DArray,
    IImage2DArray,
    ISamplerBuffer,
    IImageBuffer,
    ISampler2DMS,
    IImage2DMS,
    ISampler2DMSArray,
    IImage2DMSArray,
    ISamplerCubeArray,
    IImageCubeArray,
    AtomicUInt,
    USampler1D,
    UImage1D,
    USampler2D,
    UImage2D,
    USampler3D,
    UImage3D,
    USamplerCube,
    UImageCube,
    USampler2DRect,
    UImage2DRect,
    USampler1DArray,
    UImage1DArray,
    USampler2DArray,
    UImage2DArray,
    USamplerBuffer,
    UImageBuffer,
    USampler2DMS,
    UImage2DMS,
    USampler2DMSArray,
    UImage2DMSArray,
    USamplerCubeArray,
    UImageCubeArray,
}

} // verus!
