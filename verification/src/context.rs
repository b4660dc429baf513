//! Contexts, and the surfaces that they render to.

use crate::handles::{Hglrc, Hwnd};
use vstd::prelude::*;

verus! {

/// Tells contexts apart.
#[derive(Clone, Copy, Debug, PartialEq, Eq, Structural)]
pub struct ContextID(pub u64);

/// Tells surfaces apart.
#[derive(Clone, Copy, Debug, PartialEq, Eq, Structural)]
pub struct SurfaceID(pub usize);

/// A table of OpenGL functions that was loaded while some context was current. The caller keeps
/// the table; this is the number by which it finds it.
#[derive(Clone, Copy, Debug, PartialEq, Eq, Structural)]
pub struct Gl {
    pub table: usize,
}

/// A window that is never shown and exists for its device context.
#[derive(Clone, Copy, Debug, PartialEq, Eq, Structural)]
pub struct HiddenWindow {
    pub window: Hwnd,
}

/// The size of a surface in pixels.
#[derive(Clone, Copy, Debug, PartialEq, Eq, Structural)]
pub struct Size {
    pub width: i32,
    pub height: i32,
}

/// The Win32 objects behind a surface.
#[derive(Debug, PartialEq, Eq)]
pub enum Win32Objects {
    /// A Direct3D texture.
    Texture,
    /// The client area of a window.
    Widget { window_handle: Hwnd },
}

/// Something that a context can render to.
#[derive(Debug, PartialEq, Eq)]
pub struct Surface {
    pub id: SurfaceID,
    /// The context that the surface was created with.
    pub context_id: ContextID,
    pub size: Size,
    /// The OpenGL framebuffer object to render to.
    pub framebuffer_object: u32,
    pub win32_objects: Win32Objects,
}

/// Information about a surface.
#[derive(Clone, Copy, Debug, PartialEq, Eq, Structural)]
pub struct SurfaceInfo {
    pub size: Size,
    pub id: SurfaceID,
    pub context_id: ContextID,
    pub framebuffer_object: u32,
}

/// What a context renders to.
#[derive(Debug, PartialEq, Eq)]
pub enum Framebuffer<S, E> {
    /// No target: rendering commands fail or are ignored.
    Nothing,
    /// A target that is not managed here.
    External(E),
    /// A surface, which the context owns while it is bound.
    Surface(S),
}

/// How far a context is this library's to delete.
#[derive(Clone, Copy, Debug, PartialEq, Eq, Structural)]
pub enum ContextStatus {
    /// The rendering context was created here and is deleted with the context.
    Owned,
    /// The rendering context belongs to someone else and is never deleted here.
    Referenced,
    /// The context was destroyed.
    Destroyed,
}

/// Represents an OpenGL rendering context.
///
/// A context allows you to issue rendering commands to a surface. When initially created, a
/// context has no attached surface, so rendering commands will fail or be ignored. Typically, you
/// attach a surface to the context before rendering.
///
/// Contexts take ownership of the surfaces attached to them. In order to mutate a surface in any
/// way other than rendering to it (e.g. presenting it to a window, which causes a buffer swap), it
/// must first be detached from its context. Each surface is associated with a single context upon
/// creation and may not be rendered to from any other context. However, you can wrap a surface in
/// a surface texture, which allows the surface to be read from another context.
///
/// OpenGL objects may not be shared across contexts directly, but surface textures effectively
/// allow for sharing of texture data. Contexts are local to a single thread and device.
///
/// A context must be explicitly destroyed with `destroy_context()`, or a panic will occur.
#[derive(Debug, PartialEq, Eq)]
pub struct Context {
    pub glrc: Hglrc,
    pub id: ContextID,
    pub gl: Gl,
    pub hidden_window: HiddenWindow,
    pub framebuffer: Framebuffer<Surface, ()>,
    pub status: ContextStatus,
}

/// Wrapper for a WGL `HGLRC`.
#[derive(Clone, Copy, Debug, PartialEq, Eq, Structural)]
pub struct NativeContext(pub Hglrc);

impl Surface {
    /// What is told about this surface.
    pub open spec fn info(self) -> SurfaceInfo {
        SurfaceInfo {
            size: self.size,
            id: self.id,
            context_id: self.context_id,
            framebuffer_object: self.framebuffer_object,
        }
    }
}

impl Context {
    /// The invariant of contexts: a bound surface was created with the context that it is bound
    /// to, and a destroyed context holds no rendering context.
    pub open spec fn wf(self) -> bool {
        &&& self.framebuffer matches Framebuffer::Surface(surface) ==> surface.context_id == self.id
        &&& self.status is Destroyed ==> self.glrc == Hglrc(0)
    }

    /// The window whose device context rendering goes through: that of the bound widget, or the
    /// hidden window where no widget is bound.
    pub open spec fn window(self) -> Hwnd {
        match self.framebuffer {
            Framebuffer::Surface(surface) => match surface.win32_objects {
                Win32Objects::Widget { window_handle } => window_handle,
                Win32Objects::Texture => self.hidden_window.window,
            },
            _ => self.hidden_window.window,
        }
    }

    /// This context with nothing to render to.
    pub open spec fn unbound(self) -> Context {
        Context { framebuffer: Framebuffer::Nothing, ..self }
    }

    /// This context with a surface to render to.
    pub open spec fn bound_to(self, surface: Surface) -> Context {
        Context { framebuffer: Framebuffer::Surface(surface), ..self }
    }

    /// This context after its rendering context is gone.
    pub open spec fn destroyed(self) -> Context {
        Context { glrc: Hglrc(0), status: ContextStatus::Destroyed, ..self }
    }

    /// The window whose device context rendering goes through.
    pub fn rendering_window(&self) -> (window: Hwnd)
        ensures
            window == self.window(),
    {
        match &self.framebuffer {
            Framebuffer::Surface(
                Surface { win32_objects: Win32Objects::Widget { window_handle }, .. },
            ) => *window_handle,
            Framebuffer::Surface(Surface { win32_objects: Win32Objects::Texture, .. })
            | Framebuffer::External(())
            | Framebuffer::Nothing => self.hidden_window.window,
        }
    }

    /// Whether letting go of this context is an error: it was not destroyed yet.
    pub fn must_be_destroyed(&self) -> (r: bool)
        ensures
            r == !(self.status is Destroyed),
    {
        self.status != ContextStatus::Destroyed
    }
}

} // verus!
