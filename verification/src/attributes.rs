//! What a caller asks of a context, and how WGL is told.

use crate::constants::{
    GL_TRUE, WGL_ACCELERATION_ARB, WGL_ALPHA_BITS_ARB, WGL_COLOR_BITS_ARB,
    WGL_CONTEXT_COMPATIBILITY_PROFILE_BIT_ARB, WGL_CONTEXT_CORE_PROFILE_BIT_ARB,
    WGL_CONTEXT_MAJOR_VERSION_ARB, WGL_CONTEXT_MINOR_VERSION_ARB, WGL_CONTEXT_PROFILE_MASK_ARB,
    WGL_DEPTH_BITS_ARB, WGL_DOUBLE_BUFFER_ARB, WGL_DRAW_TO_WINDOW_ARB, WGL_FULL_ACCELERATION_ARB,
    WGL_PIXEL_TYPE_ARB, WGL_STENCIL_BITS_ARB, WGL_SUPPORT_OPENGL_ARB, WGL_TYPE_RGBA_ARB,
};
use vstd::prelude::*;

verus! {

/// A version of OpenGL.
#[derive(Clone, Copy, Debug, PartialEq, Eq, Structural)]
pub struct GLVersion {
    pub major: u8,
    pub minor: u8,
}

/// Features that a context may have.
#[derive(Clone, Copy, Debug, PartialEq, Eq, Structural)]
pub struct ContextAttributeFlags {
    /// Surfaces have an alpha channel.
    pub alpha: bool,
    /// Surfaces have a depth buffer.
    pub depth: bool,
    /// Surfaces have a stencil buffer.
    pub stencil: bool,
    /// The context has the compatibility profile of OpenGL instead of the core profile.
    pub compatibility_profile: bool,
}

/// What a caller asks of a context.
#[derive(Clone, Copy, Debug, PartialEq, Eq, Structural)]
pub struct ContextAttributes {
    pub version: GLVersion,
    pub flags: ContextAttributeFlags,
}

/// Information needed to create a context. Some APIs call this a "config" or a "pixel format".
///
/// These are local to a device.
#[derive(Clone, Copy, Debug, PartialEq, Eq, Structural)]
pub struct ContextDescriptor {
    pub pixel_format: i32,
    pub gl_version: GLVersion,
    pub compatibility_profile: bool,
}

/// The list of name and value pairs, ended by a zero, by which `wglChoosePixelFormatARB` is asked
/// for a pixel format: a hardware accelerated, double buffered RGBA format that OpenGL can draw to
/// a window with, with 32 bits of color, and with 8 bits of alpha, 24 of depth and 8 of stencil
/// where those are requested.
pub open spec fn pixel_format_request(flags: ContextAttributeFlags) -> [i32; 19] {
    [
        WGL_DRAW_TO_WINDOW_ARB as i32,
        GL_TRUE as i32,
        WGL_SUPPORT_OPENGL_ARB as i32,
        GL_TRUE as i32,
        WGL_DOUBLE_BUFFER_ARB as i32,
        GL_TRUE as i32,
        WGL_PIXEL_TYPE_ARB as i32,
        WGL_TYPE_RGBA_ARB as i32,
        WGL_ACCELERATION_ARB as i32,
        WGL_FULL_ACCELERATION_ARB as i32,
        WGL_COLOR_BITS_ARB as i32,
        32i32,
        WGL_ALPHA_BITS_ARB as i32,
        if flags.alpha { 8i32 } else { 0i32 },
        WGL_DEPTH_BITS_ARB as i32,
        if flags.depth { 24i32 } else { 0i32 },
        WGL_STENCIL_BITS_ARB as i32,
        if flags.stencil { 8i32 } else { 0i32 },
        0i32,
    ]
}

/// The attributes of a pixel format that `wglGetPixelFormatAttribivARB` is asked for.
pub open spec fn pixel_format_query() -> [i32; 3] {
    [WGL_ALPHA_BITS_ARB as i32, WGL_DEPTH_BITS_ARB as i32, WGL_STENCIL_BITS_ARB as i32]
}

/// The list of name and value pairs, ended by a zero, by which `wglCreateContextAttribsARB` is
/// asked for a context of the given version and profile.
pub open spec fn context_request(version: GLVersion, compatibility_profile: bool) -> [i32; 7] {
    [
        WGL_CONTEXT_MAJOR_VERSION_ARB as i32,
        version.major as i32,
        WGL_CONTEXT_MINOR_VERSION_ARB as i32,
        version.minor as i32,
        WGL_CONTEXT_PROFILE_MASK_ARB as i32,
        if compatibility_profile {
            WGL_CONTEXT_COMPATIBILITY_PROFILE_BIT_ARB as i32
        } else {
            WGL_CONTEXT_CORE_PROFILE_BIT_ARB as i32
        },
        0i32,
    ]
}

/// The attributes that a descriptor stands for, given how many alpha, depth and stencil bits its
/// pixel format has: its version and its profile, and each buffer that has at least one bit.
pub open spec fn attributes_of(descriptor: ContextDescriptor, bits: [i32; 3]) -> ContextAttributes {
    ContextAttributes {
        version: descriptor.gl_version,
        flags: ContextAttributeFlags {
            alpha: bits[0] > 0,
            depth: bits[1] > 0,
            stencil: bits[2] > 0,
            compatibility_profile: descriptor.compatibility_profile,
        },
    }
}

impl ContextAttributeFlags {
    /// No feature at all.
    pub fn empty() -> (flags: ContextAttributeFlags)
        ensures
            flags == (ContextAttributeFlags {
                alpha: false,
                depth: false,
                stencil: false,
                compatibility_profile: false,
            }),
    {
        ContextAttributeFlags {
            alpha: false,
            depth: false,
            stencil: false,
            compatibility_profile: false,
        }
    }

    /// The request for a pixel format with these features.
    pub fn pixel_format_attribs(&self) -> (attribs: [i32; 19])
        ensures
            attribs == pixel_format_request(*self),
    {
        let alpha_bits: i32 = if self.alpha {
            8
        } else {
            0
        };
        let depth_bits: i32 = if self.depth {
            24
        } else {
            0
        };
        let stencil_bits: i32 = if self.stencil {
            8
        } else {
            0
        };
        [
            WGL_DRAW_TO_WINDOW_ARB as i32,
            GL_TRUE as i32,
            WGL_SUPPORT_OPENGL_ARB as i32,
            GL_TRUE as i32,
            WGL_DOUBLE_BUFFER_ARB as i32,
            GL_TRUE as i32,
            WGL_PIXEL_TYPE_ARB as i32,
            WGL_TYPE_RGBA_ARB as i32,
            WGL_ACCELERATION_ARB as i32,
            WGL_FULL_ACCELERATION_ARB as i32,
            WGL_COLOR_BITS_ARB as i32,
            32,
            WGL_ALPHA_BITS_ARB as i32,
            alpha_bits,
            WGL_DEPTH_BITS_ARB as i32,
            depth_bits,
            WGL_STENCIL_BITS_ARB as i32,
            stencil_bits,
            0,
        ]
    }
}

impl ContextDescriptor {
    /// The request for a context that this descriptor describes.
    pub fn context_attribs(&self) -> (attribs: [i32; 7])
        ensures
            attribs == context_request(self.gl_version, self.compatibility_profile),
    {
        let profile_mask: u32 = if self.compatibility_profile {
            WGL_CONTEXT_COMPATIBILITY_PROFILE_BIT_ARB
        } else {
            WGL_CONTEXT_CORE_PROFILE_BIT_ARB
        };
        [
            WGL_CONTEXT_MAJOR_VERSION_ARB as i32,
            self.gl_version.major as i32,
            WGL_CONTEXT_MINOR_VERSION_ARB as i32,
            self.gl_version.minor as i32,
            WGL_CONTEXT_PROFILE_MASK_ARB as i32,
            profile_mask as i32,
            0,
        ]
    }

    /// The attributes that this descriptor stands for, given how many alpha, depth and stencil
    /// bits its pixel format has.
    pub fn attributes(&self, bits: [i32; 3]) -> (attributes: ContextAttributes)
        ensures
            attributes == attributes_of(*self, bits),
    {
        let mut flags = ContextAttributeFlags::empty();
        if bits[0] > 0 {
            flags.alpha = true;
        }
        if bits[1] > 0 {
            flags.depth = true;
        }
        if bits[2] > 0 {
            flags.stencil = true;
        }
        if self.compatibility_profile {
            flags.compatibility_profile = true;
        }
        ContextAttributes { version: self.gl_version, flags }
    }
}

} // verus!
