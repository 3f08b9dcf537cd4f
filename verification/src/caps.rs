//! The capability profile of a device: API family, version, extension set
//! and numeric limits. Built once per device and read-only thereafter;
//! every command-path choice the engine makes is a pure function of it.

use vstd::prelude::*;

verus! {

/// The API family a device speaks.
#[derive(Clone, Copy, PartialEq, Eq, Structural, Debug)]
pub enum Api {
    /// The desktop API.
    Gl,
    /// The embedded-systems API.
    GlEs,
}

/// An API version: family plus major and minor number.
///
/// Versions of different families are incomparable: a version bound is
/// only met by a version of the same family.
#[derive(Clone, Copy, PartialEq, Eq, Structural, Debug)]
pub struct Version {
    /// The API family.
    pub api: Api,
    /// Major version number.
    pub major: u8,
    /// Minor version number.
    pub minor: u8,
}

/// Whether `v` is at least version `major.minor` of family `api`.
pub open spec fn version_ge(v: Version, api: Api, major: u8, minor: u8) -> bool {
    v.api == api && (v.major > major || (v.major == major && v.minor >= minor))
}

/// Whether `v` is at most version `major.minor` of family `api`.
pub open spec fn version_le(v: Version, api: Api, major: u8, minor: u8) -> bool {
    v.api == api && (v.major < major || (v.major == major && v.minor <= minor))
}

/// Whether `v` is strictly below version `major.minor` of family `api`.
pub open spec fn version_lt(v: Version, api: Api, major: u8, minor: u8) -> bool {
    v.api == api && (v.major < major || (v.major == major && v.minor < minor))
}

impl Version {
    /// Whether this version meets the bound `major.minor` of family `api`.
    pub fn at_least(&self, api: Api, major: u8, minor: u8) -> (r: bool)
        ensures
            r == version_ge(*self, api, major, minor),
    {
        self.api == api && (self.major > major || (self.major == major && self.minor >= minor))
    }

    /// Whether this version is no newer than `major.minor` of family `api`.
    pub fn at_most(&self, api: Api, major: u8, minor: u8) -> (r: bool)
        ensures
            r == version_le(*self, api, major, minor),
    {
        self.api == api && (self.major < major || (self.major == major && self.minor <= minor))
    }

    /// Whether this version is strictly below `major.minor` of family `api`.
    pub fn below(&self, api: Api, major: u8, minor: u8) -> (r: bool)
        ensures
            r == version_lt(*self, api, major, minor),
    {
        self.api == api && (self.major < major || (self.major == major && self.minor < minor))
    }
}

/// The named extensions the engine's command-path arbitration consults.
/// Each flag records whether the device advertises the extension.
#[derive(Clone, Copy, PartialEq, Eq, Structural, Debug)]
pub struct ExtensionSet {
    pub gl_arb_depth_clamp: bool,
    pub gl_nv_depth_clamp: bool,
    pub gl_amd_depth_clamp_separate: bool,
    pub gl_ext_blend_minmax: bool,
    pub gl_ext_transform_feedback: bool,
    pub gl_arb_provoking_vertex: bool,
    pub gl_ext_provoking_vertex: bool,
    pub gl_arb_es3_2_compatibility: bool,
    pub gl_oes_primitive_bounding_box: bool,
    pub gl_ext_primitive_bounding_box: bool,
    pub gl_arb_draw_elements_base_vertex: bool,
    pub gl_oes_draw_elements_base_vertex: bool,
    pub gl_arb_direct_state_access: bool,
    pub gl_apple_framebuffer_multisample: bool,
    pub gl_angle_framebuffer_multisample: bool,
    pub gl_ext_multisampled_render_to_texture: bool,
    pub gl_nv_framebuffer_multisample: bool,
    pub gl_ext_framebuffer_object: bool,
    pub gl_ext_framebuffer_multisample: bool,
}

impl ExtensionSet {
    /// An extension set with every flag off.
    pub fn none() -> (r: ExtensionSet)
        ensures
            r == ExtensionSet::spec_none(),
    {
        ExtensionSet {
            gl_arb_depth_clamp: false,
            gl_nv_depth_clamp: false,
            gl_amd_depth_clamp_separate: false,
            gl_ext_blend_minmax: false,
            gl_ext_transform_feedback: false,
            gl_arb_provoking_vertex: false,
            gl_ext_provoking_vertex: false,
            gl_arb_es3_2_compatibility: false,
            gl_oes_primitive_bounding_box: false,
            gl_ext_primitive_bounding_box: false,
            gl_arb_draw_elements_base_vertex: false,
            gl_oes_draw_elements_base_vertex: false,
            gl_arb_direct_state_access: false,
            gl_apple_framebuffer_multisample: false,
            gl_angle_framebuffer_multisample: false,
            gl_ext_multisampled_render_to_texture: false,
            gl_nv_framebuffer_multisample: false,
            gl_ext_framebuffer_object: false,
            gl_ext_framebuffer_multisample: false,
        }
    }

    /// The extension set with every flag off, as a specification value.
    pub open spec fn spec_none() -> ExtensionSet {
        ExtensionSet {
            gl_arb_depth_clamp: false,
            gl_nv_depth_clamp: false,
            gl_amd_depth_clamp_separate: false,
            gl_ext_blend_minmax: false,
            gl_ext_transform_feedback: false,
            gl_arb_provoking_vertex: false,
            gl_ext_provoking_vertex: false,
            gl_arb_es3_2_compatibility: false,
            gl_oes_primitive_bounding_box: false,
            gl_ext_primitive_bounding_box: false,
            gl_arb_draw_elements_base_vertex: false,
            gl_oes_draw_elements_base_vertex: false,
            gl_arb_direct_state_access: false,
            gl_apple_framebuffer_multisample: false,
            gl_angle_framebuffer_multisample: false,
            gl_ext_multisampled_render_to_texture: false,
            gl_nv_framebuffer_multisample: false,
            gl_ext_framebuffer_object: false,
            gl_ext_framebuffer_multisample: false,
        }
    }
}

/// An immutable snapshot of what a device can do: its version, its
/// extension set, and the numeric limits the engine checks against.
#[derive(Clone, Copy, PartialEq, Eq, Structural, Debug)]
pub struct Capabilities {
    /// The device's API version.
    pub version: Version,
    /// The extensions the device advertises.
    pub extensions: ExtensionSet,
    /// The maximum number of vertices per tessellation patch, or `None`
    /// when the device has no tessellation support.
    pub max_patch_vertices: Option<i32>,
    /// The largest width a viewport may have.
    pub max_viewport_width: u32,
    /// The largest height a viewport may have.
    pub max_viewport_height: u32,
}

} // verus!
