//! Render buffers: draw targets that cannot be sampled. The device-side
//! allocation and deletion happen outside the engine; this module holds
//! what the engine itself decides and reads: which of the device's
//! overlapping allocation and deletion entry points a capability profile
//! selects, and the plain descriptor of an allocated buffer.

use vstd::prelude::*;
use crate::caps::{Api, Capabilities, version_ge};
use crate::commands::EntryPath;

verus! {

/// The entry-point family a render-buffer allocation uses, in the fixed
/// preference order of the arbitration.
#[derive(Clone, Copy, PartialEq, Eq, Structural, Debug)]
pub enum RenderBufferStoragePath {
    /// Allocate by name, without binding: the direct-access path.
    DirectAccess,
    /// Bind, then the core multisampled storage call.
    CoreMultisample,
    /// Bind, then the first vendor multisampled storage call.
    AppleMultisample,
    /// Bind, then the second vendor multisampled storage call.
    AngleMultisample,
    /// Bind, then the render-to-texture extension's storage call.
    TextureMultisample,
    /// Bind, then the third vendor multisampled storage call.
    NvMultisample,
    /// Bind, then the core single-sample storage call.
    Core,
    /// The framebuffer-object extension's multisampled pair.
    ExtMultisample,
    /// The framebuffer-object extension's single-sample pair.
    Ext,
}

/// The allocation path a capability profile selects for a render buffer,
/// multisampled or not: direct access first, then the core paths, then
/// the named extensions in fixed order; `None` when the device has no
/// fitting path.
pub open spec fn renderbuffer_storage_path(caps: Capabilities, multisampled: bool)
    -> Option<RenderBufferStoragePath> {
    if version_ge(caps.version, Api::Gl, 4, 5) || caps.extensions.gl_arb_direct_state_access {
        Some(RenderBufferStoragePath::DirectAccess)
    } else if multisampled {
        if version_ge(caps.version, Api::Gl, 3, 0) || version_ge(caps.version, Api::GlEs, 3, 0) {
            Some(RenderBufferStoragePath::CoreMultisample)
        } else if caps.extensions.gl_apple_framebuffer_multisample {
            Some(RenderBufferStoragePath::AppleMultisample)
        } else if caps.extensions.gl_angle_framebuffer_multisample {
            Some(RenderBufferStoragePath::AngleMultisample)
        } else if caps.extensions.gl_ext_multisampled_render_to_texture {
            Some(RenderBufferStoragePath::TextureMultisample)
        } else if caps.extensions.gl_nv_framebuffer_multisample {
            Some(RenderBufferStoragePath::NvMultisample)
        } else if caps.extensions.gl_ext_framebuffer_object
            && caps.extensions.gl_ext_framebuffer_multisample {
            Some(RenderBufferStoragePath::ExtMultisample)
        } else {
            None
        }
    } else {
        if version_ge(caps.version, Api::Gl, 3, 0) || version_ge(caps.version, Api::GlEs, 2, 0) {
            Some(RenderBufferStoragePath::Core)
        } else if caps.extensions.gl_ext_framebuffer_object {
            Some(RenderBufferStoragePath::Ext)
        } else {
            None
        }
    }
}

/// Chooses the allocation entry points for a render buffer on this
/// device, or `None` when it has no fitting path.
pub fn choose_storage_path(caps: &Capabilities, multisampled: bool) -> (r: Option<
    RenderBufferStoragePath,
>)
    ensures
        r == renderbuffer_storage_path(*caps, multisampled),
{
    if caps.version.at_least(Api::Gl, 4, 5) || caps.extensions.gl_arb_direct_state_access {
        Some(RenderBufferStoragePath::DirectAccess)
    } else if multisampled {
        if caps.version.at_least(Api::Gl, 3, 0) || caps.version.at_least(Api::GlEs, 3, 0) {
            Some(RenderBufferStoragePath::CoreMultisample)
        } else if caps.extensions.gl_apple_framebuffer_multisample {
            Some(RenderBufferStoragePath::AppleMultisample)
        } else if caps.extensions.gl_angle_framebuffer_multisample {
            Some(RenderBufferStoragePath::AngleMultisample)
        } else if caps.extensions.gl_ext_multisampled_render_to_texture {
            Some(RenderBufferStoragePath::TextureMultisample)
        } else if caps.extensions.gl_nv_framebuffer_multisample {
            Some(RenderBufferStoragePath::NvMultisample)
        } else if caps.extensions.gl_ext_framebuffer_object
            && caps.extensions.gl_ext_framebuffer_multisample {
            Some(RenderBufferStoragePath::ExtMultisample)
        } else {
            None
        }
    } else {
        if caps.version.at_least(Api::Gl, 3, 0) || caps.version.at_least(Api::GlEs, 2, 0) {
            Some(RenderBufferStoragePath::Core)
        } else if caps.extensions.gl_ext_framebuffer_object {
            Some(RenderBufferStoragePath::Ext)
        } else {
            None
        }
    }
}

/// The deletion path a capability profile selects for a render buffer:
/// the core call, the framebuffer-object extension's call, or none.
pub open spec fn renderbuffer_delete_path(caps: Capabilities) -> Option<EntryPath> {
    if version_ge(caps.version, Api::Gl, 3, 0) || version_ge(caps.version, Api::GlEs, 2, 0) {
        Some(EntryPath::Core)
    } else if caps.extensions.gl_ext_framebuffer_object {
        Some(EntryPath::Ext)
    } else {
        None
    }
}

/// Chooses the deletion entry point for a render buffer on this device.
pub fn choose_delete_path(caps: &Capabilities) -> (r: Option<EntryPath>)
    ensures
        r == renderbuffer_delete_path(*caps),
{
    if caps.version.at_least(Api::Gl, 3, 0) || caps.version.at_least(Api::GlEs, 2, 0) {
        Some(EntryPath::Core)
    } else if caps.extensions.gl_ext_framebuffer_object {
        Some(EntryPath::Ext)
    } else {
        None
    }
}

/// What the engine reads of an allocated render buffer of any kind: its
/// device handle, its dimensions, and its sample count when it is
/// multisampled.
#[derive(Clone, Copy, PartialEq, Eq, Structural, Debug)]
pub struct RenderBufferAny {
    /// The device handle.
    pub id: u32,
    /// Width in pixels.
    pub width: u32,
    /// Height in pixels.
    pub height: u32,
    /// The sample count, or `None` without multisampling.
    pub samples: Option<u32>,
}

impl RenderBufferAny {
    /// The buffer's dimensions, width then height.
    pub fn get_dimensions(&self) -> (r: (u32, u32))
        ensures
            r.0 == self.width,
            r.1 == self.height,
    {
        (self.width, self.height)
    }

    /// The buffer's sample count, or `None` without multisampling.
    pub fn get_samples(&self) -> (r: Option<u32>)
        ensures
            r == self.samples,
    {
        self.samples
    }

    /// The buffer's device handle.
    pub fn get_id(&self) -> (r: u32)
        ensures
            r == self.id,
    {
        self.id
    }
}

/// A color render buffer.
#[derive(Clone, Copy, PartialEq, Eq, Structural, Debug)]
pub struct RenderBuffer {
    /// The underlying allocation.
    pub buffer: RenderBufferAny,
}

impl RenderBuffer {
    /// Wraps an allocated color render buffer.
    pub fn new(buffer: RenderBufferAny) -> (r: RenderBuffer)
        ensures
            r.buffer == buffer,
    {
        RenderBuffer { buffer }
    }

    /// The attachment this buffer backs.
    pub fn to_color_attachment(&self) -> (r: ColorAttachment)
        ensures
            r == ColorAttachment::RenderBuffer(self.buffer),
    {
        ColorAttachment::RenderBuffer(self.buffer)
    }

    /// The buffer's device handle.
    pub fn get_id(&self) -> (r: u32)
        ensures
            r == self.buffer.id,
    {
        self.buffer.get_id()
    }
}

/// A depth render buffer.
#[derive(Clone, Copy, PartialEq, Eq, Structural, Debug)]
pub struct DepthRenderBuffer {
    /// The underlying allocation.
    pub buffer: RenderBufferAny,
}

impl DepthRenderBuffer {
    /// Wraps an allocated depth render buffer.
    pub fn new(buffer: RenderBufferAny) -> (r: DepthRenderBuffer)
        ensures
            r.buffer == buffer,
    {
        DepthRenderBuffer { buffer }
    }

    /// The attachment this buffer backs.
    pub fn to_depth_attachment(&self) -> (r: DepthAttachment)
        ensures
            r == DepthAttachment::RenderBuffer(self.buffer),
    {
        DepthAttachment::RenderBuffer(self.buffer)
    }

    /// The buffer's device handle.
    pub fn get_id(&self) -> (r: u32)
        ensures
            r == self.buffer.id,
    {
        self.buffer.get_id()
    }
}

/// A stencil render buffer.
#[derive(Clone, Copy, PartialEq, Eq, Structural, Debug)]
pub struct StencilRenderBuffer {
    /// The underlying allocation.
    pub buffer: RenderBufferAny,
}

impl StencilRenderBuffer {
    /// Wraps an allocated stencil render buffer.
    pub fn new(buffer: RenderBufferAny) -> (r: StencilRenderBuffer)
        ensures
            r.buffer == buffer,
    {
        StencilRenderBuffer { buffer }
    }

    /// The attachment this buffer backs.
    pub fn to_stencil_attachment(&self) -> (r: StencilAttachment)
        ensures
            r == StencilAttachment::RenderBuffer(self.buffer),
    {
        StencilAttachment::RenderBuffer(self.buffer)
    }

    /// The buffer's device handle.
    pub fn get_id(&self) -> (r: u32)
        ensures
            r == self.buffer.id,
    {
        self.buffer.get_id()
    }
}

/// A combined depth-stencil render buffer.
#[derive(Clone, Copy, PartialEq, Eq, Structural, Debug)]
pub struct DepthStencilRenderBuffer {
    /// The underlying allocation.
    pub buffer: RenderBufferAny,
}

impl DepthStencilRenderBuffer {
    /// Wraps an allocated depth-stencil render buffer.
    pub fn new(buffer: RenderBufferAny) -> (r: DepthStencilRenderBuffer)
        ensures
            r.buffer == buffer,
    {
        DepthStencilRenderBuffer { buffer }
    }

    /// The attachment this buffer backs.
    pub fn to_depth_stencil_attachment(&self) -> (r: DepthStencilAttachment)
        ensures
            r == DepthStencilAttachment::RenderBuffer(self.buffer),
    {
        DepthStencilAttachment::RenderBuffer(self.buffer)
    }

    /// The buffer's device handle.
    pub fn get_id(&self) -> (r: u32)
        ensures
            r == self.buffer.id,
    {
        self.buffer.get_id()
    }
}

/// A color attachment, a tagged union over its backing kind.
#[derive(Clone, Copy, PartialEq, Eq, Structural, Debug)]
pub enum ColorAttachment {
    /// Backed by a render buffer.
    RenderBuffer(RenderBufferAny),
    /// Backed by a texture, by its device handle.
    Texture(u32),
}

/// A depth attachment, a tagged union over its backing kind.
#[derive(Clone, Copy, PartialEq, Eq, Structural, Debug)]
pub enum DepthAttachment {
    /// Backed by a render buffer.
    RenderBuffer(RenderBufferAny),
    /// Backed by a texture, by its device handle.
    Texture(u32),
}

/// A stencil attachment, a tagged union over its backing kind.
#[derive(Clone, Copy, PartialEq, Eq, Structural, Debug)]
pub enum StencilAttachment {
    /// Backed by a render buffer.
    RenderBuffer(RenderBufferAny),
    /// Backed by a texture, by its device handle.
    Texture(u32),
}

/// A combined depth-stencil attachment, a tagged union over its backing
/// kind.
#[derive(Clone, Copy, PartialEq, Eq, Structural, Debug)]
pub enum DepthStencilAttachment {
    /// Backed by a render buffer.
    RenderBuffer(RenderBufferAny),
    /// Backed by a texture, by its device handle.
    Texture(u32),
}

} // verus!
