//! The driver's numeric codes.
//!
//! The `gl` bindings are generated when that crate is built, so the verifier
//! cannot look inside them. Each code this library hands to the driver is
//! therefore written down here once, as a constant that contracts can
//! use, next to a small accessor that reads the constant of the same name from
//! the bindings. The accessors are the only unproved items in this module:
//! each one claims that the binding's constant has the value written here.

use vstd::prelude::*;

verus! {

/// Driver code, buffer usage: written once, drawn from a few times.
pub const STREAM_DRAW: u32 = 0x88E0;

/// Driver code, buffer usage: written once by the driver, read back a few times.
pub const STREAM_READ: u32 = 0x88E1;

/// Driver code, buffer usage: written once by the driver, used by it a few times.
pub const STREAM_COPY: u32 = 0x88E2;

/// Driver code, buffer usage: written once, drawn from many times.
pub const STATIC_DRAW: u32 = 0x88E4;

/// Driver code, buffer usage: written once by the driver, read back many times.
pub const STATIC_READ: u32 = 0x88E5;

/// Driver code, buffer usage: written once by the driver, used by it many times.
pub const STATIC_COPY: u32 = 0x88E6;

/// Driver code, buffer usage: rewritten often, drawn from many times.
pub const DYNAMIC_DRAW: u32 = 0x88E8;

/// Driver code, buffer usage: rewritten often by the driver, read back many times.
pub const DYNAMIC_READ: u32 = 0x88E9;

/// Driver code, buffer usage: rewritten often by the driver, used by it many times.
pub const DYNAMIC_COPY: u32 = 0x88EA;

/// Driver code, shader stage: fragment.
pub const FRAGMENT_SHADER: u32 = 0x8B30;

/// Driver code, shader stage: vertex.
pub const VERTEX_SHADER: u32 = 0x8B31;

/// Driver code, shader stage: geometry.
pub const GEOMETRY_SHADER: u32 = 0x8DD9;

/// Driver code, shader stage: tessellation evaluation.
pub const TESS_EVALUATION_SHADER: u32 = 0x8E87;

/// Driver code, shader stage: tessellation control.
pub const TESS_CONTROL_SHADER: u32 = 0x8E88;

/// Driver code, shader stage: compute.
pub const COMPUTE_SHADER: u32 = 0x91B9;

/// Driver code, shader parameter: whether the last compilation succeeded.
pub const COMPILE_STATUS: u32 = 0x8B81;

/// Driver code, program parameter: whether the last link succeeded.
pub const LINK_STATUS: u32 = 0x8B82;

/// Driver code, shader or program parameter: size of the information log, terminator included.
pub const INFO_LOG_LENGTH: u32 = 0x8B84;

/// Driver code, buffer binding target for vertex attributes.
pub const ARRAY_BUFFER: u32 = 0x8892;

/// Driver code, component type: 32-bit float.
pub const FLOAT: u32 = 0x1406;

/// Driver code, the driver's boolean false.
pub const FALSE: u8 = 0;

/// Reads `gl::STREAM_DRAW`. Unproved: the binding's constant is taken to be
/// `0x88E0`, the value the Khronos registry assigns to `GL_STREAM_DRAW`.
#[verifier::external_body]
pub(crate) fn gl_stream_draw() -> (code: u32)
    ensures
        code == STREAM_DRAW,
{
    gl::STREAM_DRAW
}

/// Reads `gl::STREAM_READ`. Unproved: the binding's constant is taken to be
/// `0x88E1`, the value the Khronos registry assigns to `GL_STREAM_READ`.
#[verifier::external_body]
pub(crate) fn gl_stream_read() -> (code: u32)
    ensures
        code == STREAM_READ,
{
    gl::STREAM_READ
}

/// Reads `gl::STREAM_COPY`. Unproved: the binding's constant is taken to be
/// `0x88E2`, the value the Khronos registry assigns to `GL_STREAM_COPY`.
#[verifier::external_body]
pub(crate) fn gl_stream_copy() -> (code: u32)
    ensures
        code == STREAM_COPY,
{
    gl::STREAM_COPY
}

/// Reads `gl::STATIC_DRAW`. Unproved: the binding's constant is taken to be
/// `0x88E4`, the value the Khronos registry assigns to `GL_STATIC_DRAW`.
#[verifier::external_body]
pub(crate) fn gl_static_draw() -> (code: u32)
    ensures
        code == STATIC_DRAW,
{
    gl::STATIC_DRAW
}

/// Reads `gl::STATIC_READ`. Unproved: the binding's constant is taken to be
/// `0x88E5`, the value the Khronos registry assigns to `GL_STATIC_READ`.
#[verifier::external_body]
pub(crate) fn gl_static_read() -> (code: u32)
    ensures
        code == STATIC_READ,
{
    gl::STATIC_READ
}

/// Reads `gl::STATIC_COPY`. Unproved: the binding's constant is taken to be
/// `0x88E6`, the value the Khronos registry assigns to `GL_STATIC_COPY`.
#[verifier::external_body]
pub(crate) fn gl_static_copy() -> (code: u32)
    ensures
        code == STATIC_COPY,
{
    gl::STATIC_COPY
}

/// Reads `gl::DYNAMIC_DRAW`. Unproved: the binding's constant is taken to be
/// `0x88E8`, the value the Khronos registry assigns to `GL_DYNAMIC_DRAW`.
#[verifier::external_body]
pub(crate) fn gl_dynamic_draw() -> (code: u32)
    ensures
        code == DYNAMIC_DRAW,
{
    gl::DYNAMIC_DRAW
}

/// Reads `gl::DYNAMIC_READ`. Unproved: the binding's constant is taken to be
/// `0x88E9`, the value the Khronos registry assigns to `GL_DYNAMIC_READ`.
#[verifier::external_body]
pub(crate) fn gl_dynamic_read() -> (code: u32)
    ensures
        code == DYNAMIC_READ,
{
    gl::DYNAMIC_READ
}

/// Reads `gl::DYNAMIC_COPY`. Unproved: the binding's constant is taken to be
/// `0x88EA`, the value the Khronos registry assigns to `GL_DYNAMIC_COPY`.
#[verifier::external_body]
pub(crate) fn gl_dynamic_copy() -> (code: u32)
    ensures
        code == DYNAMIC_COPY,
{
    gl::DYNAMIC_COPY
}

/// Reads `gl::FRAGMENT_SHADER`. Unproved: the binding's constant is taken to be
/// `0x8B30`, the value the Khronos registry assigns to `GL_FRAGMENT_SHADER`.
#[verifier::external_body]
pub(crate) fn gl_fragment_shader() -> (code: u32)
    ensures
        code == FRAGMENT_SHADER,
{
    gl::FRAGMENT_SHADER
}

/// Reads `gl::VERTEX_SHADER`. Unproved: the binding's constant is taken to be
/// `0x8B31`, the value the Khronos registry assigns to `GL_VERTEX_SHADER`.
#[verifier::external_body]
pub(crate) fn gl_vertex_shader() -> (code: u32)
    ensures
        code == VERTEX_SHADER,
{
    gl::VERTEX_SHADER
}

/// Reads `gl::GEOMETRY_SHADER`. Unproved: the binding's constant is taken to be
/// `0x8DD9`, the value the Khronos registry assigns to `GL_GEOMETRY_SHADER`.
#[verifier::external_body]
pub(crate) fn gl_geometry_shader() -> (code: u32)
    ensures
        code == GEOMETRY_SHADER,
{
    gl::GEOMETRY_SHADER
}

/// Reads `gl::TESS_EVALUATION_SHADER`. Unproved: the binding's constant is taken to be
/// `0x8E87`, the value the Khronos registry assigns to `GL_TESS_EVALUATION_SHADER`.
#[verifier::external_body]
pub(crate) fn gl_tess_evaluation_shader() -> (code: u32)
    ensures
        code == TESS_EVALUATION_SHADER,
{
    gl::TESS_EVALUATION_SHADER
}

/// Reads `gl::TESS_CONTROL_SHADER`. Unproved: the binding's constant is taken to be
/// `0x8E88`, the value the Khronos registry assigns to `GL_TESS_CONTROL_SHADER`.
#[verifier::external_body]
pub(crate) fn gl_tess_control_shader() -> (code: u32)
    ensures
        code == TESS_CONTROL_SHADER,
{
    gl::TESS_CONTROL_SHADER
}

/// Reads `gl::COMPUTE_SHADER`. Unproved: the binding's constant is taken to be
/// `0x91B9`, the value the Khronos registry assigns to `GL_COMPUTE_SHADER`.
#[verifier::external_body]
pub(crate) fn gl_compute_shader() -> (code: u32)
    ensures
        code == COMPUTE_SHADER,
{
    gl::COMPUTE_SHADER
}

/// Reads `gl::COMPILE_STATUS`. Unproved: the binding's constant is taken to be
/// `0x8B81`, the value the Khronos registry assigns to `GL_COMPILE_STATUS`.
#[verifier::external_body]
pub(crate) fn gl_compile_status() -> (code: u32)
    ensures
        code == COMPILE_STATUS,
{
    gl::COMPILE_STATUS
}

/// Reads `gl::LINK_STATUS`. Unproved: the binding's constant is taken to be
/// `0x8B82`, the value the Khronos registry assigns to `GL_LINK_STATUS`.
#[verifier::external_body]
pub(crate) fn gl_link_status() -> (code: u32)
    ensures
        code == LINK_STATUS,
{
    gl::LINK_STATUS
}

/// Reads `gl::INFO_LOG_LENGTH`. Unproved: the binding's constant is taken to be
/// `0x8B84`, the value the Khronos registry assigns to `GL_INFO_LOG_LENGTH`.
#[verifier::external_body]
pub(crate) fn gl_info_log_length() -> (code: u32)
    ensures
        code == INFO_LOG_LENGTH,
{
    gl::INFO_LOG_LENGTH
}

/// Reads `gl::ARRAY_BUFFER`. Unproved: the binding's constant is taken to be
/// `0x8892`, the value the Khronos registry assigns to `GL_ARRAY_BUFFER`.
#[verifier::external_body]
pub(crate) fn gl_array_buffer() -> (code: u32)
    ensures
        code == ARRAY_BUFFER,
{
    gl::ARRAY_BUFFER
}

/// Reads `gl::FLOAT`. Unproved: the binding's constant is taken to be
/// `0x1406`, the value the Khronos registry assigns to `GL_FLOAT`.
#[verifier::external_body]
pub(crate) fn gl_float() -> (code: u32)
    ensures
        code == FLOAT,
{
    gl::FLOAT
}

/// Reads `gl::FALSE`. Unproved: the binding's constant is taken to be
/// `0`, the value the Khronos registry assigns to `GL_FALSE`.
#[verifier::external_body]
pub(crate) fn gl_false() -> (code: u8)
    ensures
        code == FALSE,
{
    gl::FALSE
}

} // verus!
