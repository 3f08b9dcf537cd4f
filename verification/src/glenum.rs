//! The device's numeric command vocabulary.
//!
//! Every state value the engine hands to the device is encoded as one of
//! these enumerants. The numeric values are part of the device protocol
//! and must be reproduced bit-exactly; commands carry them as plain `u32`s.

use vstd::prelude::*;

verus! {

// Comparison functions (depth and stencil tests).
pub const GL_NEVER: u32 = 0x0200;
pub const GL_LESS: u32 = 0x0201;
pub const GL_EQUAL: u32 = 0x0202;
pub const GL_LEQUAL: u32 = 0x0203;
pub const GL_GREATER: u32 = 0x0204;
pub const GL_NOTEQUAL: u32 = 0x0205;
pub const GL_GEQUAL: u32 = 0x0206;
pub const GL_ALWAYS: u32 = 0x0207;

// Blending factors.
pub const GL_ZERO: u32 = 0;
pub const GL_ONE: u32 = 1;
pub const GL_SRC_COLOR: u32 = 0x0300;
pub const GL_ONE_MINUS_SRC_COLOR: u32 = 0x0301;
pub const GL_SRC_ALPHA: u32 = 0x0302;
pub const GL_ONE_MINUS_SRC_ALPHA: u32 = 0x0303;
pub const GL_DST_ALPHA: u32 = 0x0304;
pub const GL_ONE_MINUS_DST_ALPHA: u32 = 0x0305;
pub const GL_DST_COLOR: u32 = 0x0306;
pub const GL_ONE_MINUS_DST_COLOR: u32 = 0x0307;
pub const GL_SRC_ALPHA_SATURATE: u32 = 0x0308;
pub const GL_CONSTANT_COLOR: u32 = 0x8001;
pub const GL_ONE_MINUS_CONSTANT_COLOR: u32 = 0x8002;
pub const GL_CONSTANT_ALPHA: u32 = 0x8003;
pub const GL_ONE_MINUS_CONSTANT_ALPHA: u32 = 0x8004;

// Blending equations.
pub const GL_FUNC_ADD: u32 = 0x8006;
pub const GL_MIN: u32 = 0x8007;
pub const GL_MAX: u32 = 0x8008;
pub const GL_FUNC_SUBTRACT: u32 = 0x800A;
pub const GL_FUNC_REVERSE_SUBTRACT: u32 = 0x800B;

// Toggleable server-side capabilities.
pub const GL_LINE_SMOOTH: u32 = 0x0B20;
pub const GL_POLYGON_SMOOTH: u32 = 0x0B41;
pub const GL_CULL_FACE: u32 = 0x0B44;
pub const GL_DEPTH_TEST: u32 = 0x0B71;
pub const GL_STENCIL_TEST: u32 = 0x0B90;
pub const GL_DITHER: u32 = 0x0BD0;
pub const GL_BLEND: u32 = 0x0BE2;
pub const GL_SCISSOR_TEST: u32 = 0x0C11;
pub const GL_MULTISAMPLE: u32 = 0x809D;
pub const GL_DEPTH_CLAMP: u32 = 0x864F;
pub const GL_RASTERIZER_DISCARD: u32 = 0x8C89;
pub const GL_RASTERIZER_DISCARD_EXT: u32 = 0x8C89;
pub const GL_DEPTH_CLAMP_NEAR_AMD: u32 = 0x901E;
pub const GL_DEPTH_CLAMP_FAR_AMD: u32 = 0x901F;

// Stencil operations.
pub const GL_KEEP: u32 = 0x1E00;
pub const GL_REPLACE: u32 = 0x1E01;
pub const GL_INCR: u32 = 0x1E02;
pub const GL_DECR: u32 = 0x1E03;
pub const GL_INVERT: u32 = 0x150A;
pub const GL_INCR_WRAP: u32 = 0x8507;
pub const GL_DECR_WRAP: u32 = 0x8508;

// Face selectors.
pub const GL_FRONT: u32 = 0x0404;
pub const GL_BACK: u32 = 0x0405;
pub const GL_FRONT_AND_BACK: u32 = 0x0408;

// Polygon rasterization modes.
pub const GL_POINT: u32 = 0x1B00;
pub const GL_LINE: u32 = 0x1B01;
pub const GL_FILL: u32 = 0x1B02;

// Hint targets and hint modes.
pub const GL_LINE_SMOOTH_HINT: u32 = 0x0C52;
pub const GL_POLYGON_SMOOTH_HINT: u32 = 0x0C53;
pub const GL_DONT_CARE: u32 = 0x1100;
pub const GL_FASTEST: u32 = 0x1101;
pub const GL_NICEST: u32 = 0x1102;

// Provoking-vertex conventions.
pub const GL_FIRST_VERTEX_CONVENTION: u32 = 0x8E4D;
pub const GL_LAST_VERTEX_CONVENTION: u32 = 0x8E4E;

// Tessellation.
pub const GL_PATCH_VERTICES: u32 = 0x8E72;

// Query targets.
pub const GL_TIME_ELAPSED: u32 = 0x88BF;
pub const GL_SAMPLES_PASSED: u32 = 0x8914;
pub const GL_PRIMITIVES_GENERATED: u32 = 0x8C87;
pub const GL_TRANSFORM_FEEDBACK_PRIMITIVES_WRITTEN: u32 = 0x8C88;
pub const GL_ANY_SAMPLES_PASSED: u32 = 0x8C2F;

// Conditional-render modes.
pub const GL_QUERY_WAIT: u32 = 0x8E13;
pub const GL_QUERY_NO_WAIT: u32 = 0x8E14;
pub const GL_QUERY_BY_REGION_WAIT: u32 = 0x8E15;
pub const GL_QUERY_BY_REGION_NO_WAIT: u32 = 0x8E16;

// Primitive topologies.
pub const GL_POINTS: u32 = 0x0000;
pub const GL_LINES: u32 = 0x0001;
pub const GL_LINE_LOOP: u32 = 0x0002;
pub const GL_LINE_STRIP: u32 = 0x0003;
pub const GL_TRIANGLES: u32 = 0x0004;
pub const GL_TRIANGLE_STRIP: u32 = 0x0005;
pub const GL_TRIANGLE_FAN: u32 = 0x0006;
pub const GL_LINES_ADJACENCY: u32 = 0x000A;
pub const GL_LINE_STRIP_ADJACENCY: u32 = 0x000B;
pub const GL_TRIANGLES_ADJACENCY: u32 = 0x000C;
pub const GL_TRIANGLE_STRIP_ADJACENCY: u32 = 0x000D;
pub const GL_PATCHES: u32 = 0x000E;

// Index element types.
pub const GL_UNSIGNED_BYTE: u32 = 0x1401;
pub const GL_UNSIGNED_SHORT: u32 = 0x1403;
pub const GL_UNSIGNED_INT: u32 = 0x1405;

// Renderbuffer targets.
pub const GL_RENDERBUFFER: u32 = 0x8D41;
pub const GL_RENDERBUFFER_EXT: u32 = 0x8D41;

} // verus!
