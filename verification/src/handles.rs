//! Win32 handles as plain values.
//!
//! A handle is an integer that only the operating system can look behind. The operations of this
//! crate store handles, compare them and hand them back; they never follow one.

use vstd::prelude::*;
use windows::Win32::Graphics::OpenGL::{HGLRC, PIXELFORMATDESCRIPTOR};

verus! {

/// A window (`HWND`).
#[derive(Clone, Copy, Debug, PartialEq, Eq, Structural)]
pub struct Hwnd(pub isize);

/// A device context (`HDC`). The null handle stands for "none".
#[derive(Clone, Copy, Debug, PartialEq, Eq, Structural)]
pub struct Hdc(pub isize);

/// A WGL rendering context (`HGLRC`). The null handle stands for "none".
#[derive(Clone, Copy, Debug, PartialEq, Eq, Structural)]
pub struct Hglrc(pub isize);

impl Hdc {
    /// The null device context, which `wglMakeCurrent` takes together with the null rendering
    /// context to leave no context current.
    pub fn null() -> (dc: Hdc)
        ensures
            dc == Hdc(0),
    {
        Hdc(0)
    }
}

impl Hglrc {
    /// Whether this handle names no rendering context: null, or the all-ones handle.
    pub open spec fn invalid(self) -> bool {
        self.0 == 0 || self.0 == -1
    }

    /// The null rendering context.
    pub fn null() -> (glrc: Hglrc)
        ensures
            glrc == Hglrc(0),
            glrc.invalid(),
    {
        Hglrc(hglrc_default())
    }

    /// Whether this handle names no rendering context.
    pub fn is_invalid(&self) -> (r: bool)
        ensures
            r == self.invalid(),
    {
        hglrc_is_invalid(self.0)
    }
}

/// `HGLRC::default` of the `windows` crate: the handle whose bytes are all zero.
#[verifier::external_body]
fn hglrc_default() -> (raw: isize)
    ensures
        raw == 0,
{
    HGLRC::default().0
}

/// `HGLRC::is_invalid` of the `windows` crate: true of the handles 0 and -1 and of no other.
#[verifier::external_body]
fn hglrc_is_invalid(raw: isize) -> (r: bool)
    ensures
        r == (raw == -1 || raw == 0),
{
    HGLRC(raw).is_invalid()
}

/// The size in bytes of `PIXELFORMATDESCRIPTOR` of the `windows` crate: two 16-bit fields, twenty
/// 8-bit fields and four 32-bit fields, laid out as in C.
#[verifier::external_body]
pub(crate) fn pixel_format_descriptor_size() -> (size: usize)
    ensures
        size == 40,
{
    core::mem::size_of::<PIXELFORMATDESCRIPTOR>()
}

} // verus!
