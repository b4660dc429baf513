//! Numbers that the WGL and OpenGL headers fix.

use vstd::prelude::*;

verus! {

pub const WGL_DRAW_TO_WINDOW_ARB: u32 = 0x2001;
pub const WGL_ACCELERATION_ARB: u32 = 0x2003;
pub const WGL_SUPPORT_OPENGL_ARB: u32 = 0x2010;
pub const WGL_DOUBLE_BUFFER_ARB: u32 = 0x2011;
pub const WGL_PIXEL_TYPE_ARB: u32 = 0x2013;
pub const WGL_COLOR_BITS_ARB: u32 = 0x2014;
pub const WGL_ALPHA_BITS_ARB: u32 = 0x201b;
pub const WGL_DEPTH_BITS_ARB: u32 = 0x2022;
pub const WGL_STENCIL_BITS_ARB: u32 = 0x2023;
pub const WGL_FULL_ACCELERATION_ARB: u32 = 0x2027;
pub const WGL_TYPE_RGBA_ARB: u32 = 0x202b;
pub const WGL_CONTEXT_MAJOR_VERSION_ARB: u32 = 0x2091;
pub const WGL_CONTEXT_MINOR_VERSION_ARB: u32 = 0x2092;
pub const WGL_CONTEXT_PROFILE_MASK_ARB: u32 = 0x9126;

pub const WGL_CONTEXT_CORE_PROFILE_BIT_ARB: u32 = 0x00000001;
pub const WGL_CONTEXT_COMPATIBILITY_PROFILE_BIT_ARB: u32 = 0x00000002;

pub const GL_TRUE: u8 = 1;
pub const GL_FRAMEBUFFER: u32 = 0x8d40;
pub const GL_READ_FRAMEBUFFER: u32 = 0x8ca8;
pub const GL_DRAW_FRAMEBUFFER: u32 = 0x8ca9;
pub const GL_DRAW_FRAMEBUFFER_BINDING: u32 = 0x8ca6;
pub const GL_READ_FRAMEBUFFER_BINDING: u32 = 0x8caa;

pub const PFD_DOUBLEBUFFER: u32 = 0x00000001;
pub const PFD_DRAW_TO_WINDOW: u32 = 0x00000004;
pub const PFD_SUPPORT_OPENGL: u32 = 0x00000020;
pub const PFD_TYPE_RGBA: u8 = 0;
pub const PFD_MAIN_PLANE: u8 = 0;

pub const CS_OWNDC: u32 = 0x00000020;
pub const COLOR_BACKGROUND: i32 = 1;
pub const WS_OVERLAPPEDWINDOW: u32 = 0x00cf0000;
pub const WS_VISIBLE: u32 = 0x10000000;
pub const WM_CREATE: u32 = 0x0001;

} // verus!
