//! The calls that operations need from the outside, and the replies they get.
//!
//! Every call here is one that the caller makes on the thread that the operation runs on. The name
//! of the function behind a call stands in its doc comment, and so does the reply that goes with
//! it.

use crate::attributes::GLVersion;
use crate::context::{ContextID, Gl, HiddenWindow, Surface, SurfaceID};
use crate::error::Error;
use crate::extensions::{ExtensionFunction, WGLExtensionFunctions};
use crate::handles::{Hdc, Hglrc, Hwnd};
use crate::pixel_format::PixelFormatDescriptor;
use vstd::prelude::*;

verus! {

/// A call into the operating system, the OpenGL driver, or the code that manages windows and
/// surfaces.
#[derive(Debug, PartialEq, Eq)]
pub enum Call {
    /// Creates a hidden window. Reply: `HiddenWindow`.
    CreateHiddenWindow,
    /// Lets go of a hidden window. Reply: `Unit`.
    DestroyHiddenWindow(HiddenWindow),
    /// `GetDC`. Reply: `Dc`.
    GetDc(Hwnd),
    /// `ReleaseDC`. Reply: `Unit`.
    ReleaseDc { window: Hwnd, dc: Hdc },
    /// `ChoosePixelFormat`. Reply: `PixelFormat`.
    ChoosePixelFormat { dc: Hdc, descriptor: PixelFormatDescriptor },
    /// `DescribePixelFormat`. Reply: `DescribedFormat`.
    DescribePixelFormat { dc: Hdc, pixel_format: i32, size: u32 },
    /// `SetPixelFormat`. Reply: `Success`.
    SetPixelFormat { dc: Hdc, pixel_format: i32, descriptor: PixelFormatDescriptor },
    /// `GetPixelFormat`. Reply: `PixelFormat`.
    GetPixelFormat(Hdc),
    /// `wglChoosePixelFormatARB`, found at the given address, with no list of float attributes.
    /// Reply: `ChosenFormat`.
    ChoosePixelFormatArb { function: usize, dc: Hdc, attribs: [i32; 19], max_formats: u32 },
    /// `wglGetPixelFormatAttribivARB`, found at the given address. Reply: `FormatAttributes`.
    GetPixelFormatAttribivArb {
        function: usize,
        dc: Hdc,
        pixel_format: i32,
        layer_plane: i32,
        queried: [i32; 3],
    },
    /// `wglCreateContextAttribsARB`, found at the given address. Reply: `Context`.
    CreateContextAttribsArb { function: usize, dc: Hdc, share: Hglrc, request: [i32; 7] },
    /// `wglCreateContext`. Reply: `CreatedContext`.
    CreateContext(Hdc),
    /// `wglDeleteContext`. Reply: `Success`.
    DeleteContext(Hglrc),
    /// `wglMakeCurrent`. Reply: `Success`.
    MakeCurrent { dc: Hdc, glrc: Hglrc },
    /// `wglGetCurrentDC`. Reply: `Dc`.
    GetCurrentDc,
    /// `wglGetCurrentContext`. Reply: `Context`.
    GetCurrentContext,
    /// `wglGetProcAddress` on the name of an extension function. Reply: `Address`.
    GetExtensionAddress(ExtensionFunction),
    /// `wglGetProcAddress` on the name of any function. Reply: `Address`.
    GetSymbolAddress(String),
    /// `GetProcAddress` in the OpenGL library. Reply: `Address`.
    GetLibrarySymbolAddress(String),
    /// `wglGetExtensionsStringARB`, found at the given address; what is not UTF-8 in the string is
    /// replaced. Reply: `ExtensionsString`.
    GetExtensionsStringArb { function: usize, dc: Hdc },
    /// Loads the OpenGL functions of the current context, each by its name, which panics where one
    /// is not found. Reply: `Gl`.
    LoadGl,
    /// Asks the current context for its OpenGL version. Reply: `GlVersion`.
    GetGlVersion(Gl),
    /// Asks whether the current context has the compatibility profile. Reply:
    /// `CompatibilityProfile`.
    GetCompatibilityProfile(Gl),
    /// `glGetIntegerv` with one result. Reply: `Integer`.
    GetInteger { gl: Gl, name: u32 },
    /// `glBindFramebuffer`. Reply: `Unit`.
    BindFramebuffer { gl: Gl, target: u32, framebuffer: u32 },
    /// Locks a surface so that OpenGL may render to it. Reply: `Unit`.
    LockSurface(SurfaceID),
    /// Unlocks a surface so that it may be read. Reply: `Unit`.
    UnlockSurface(SurfaceID),
    /// Destroys a surface of the given context, which has nothing bound. Reply:
    /// `SurfaceDestroyed`.
    DestroySurface {
        context_id: ContextID,
        glrc: Hglrc,
        gl: Gl,
        hidden_window: HiddenWindow,
        surface: Surface,
    },
    /// `GetModuleHandleA` for the program itself. Reply: `Module`.
    GetModuleHandle,
    /// `RegisterClassA`. Reply: `Atom`.
    RegisterClass(WindowClass),
    /// `CreateWindowExA` with no extended style, no parent and no menu, and with a table of extension
    /// functions that the window procedure of the class is handed while it runs. Reply:
    /// `LoaderWindow`.
    CreateLoaderWindow { wanted: WindowRequest, table: WGLExtensionFunctions },
    /// `DestroyWindow`. Reply: `Success`.
    DestroyWindow(Hwnd),
    /// `DefWindowProcA`. Reply: `Lresult`.
    DefWindowProc { window: Hwnd, message: u32, wparam: usize, lparam: isize },
}

/// What came back from a call.
#[derive(Debug, PartialEq, Eq)]
pub enum Reply {
    /// The call is over and tells nothing.
    Unit,
    /// The hidden window that was created.
    HiddenWindow(HiddenWindow),
    /// A device context.
    Dc(Hdc),
    /// A rendering context, possibly the null handle.
    Context(Hglrc),
    /// The rendering context that was created, if one was.
    CreatedContext(Option<Hglrc>),
    /// Whether the call succeeded.
    Success(bool),
    /// The index of a pixel format; zero if there is none.
    PixelFormat(i32),
    /// What a search for pixel formats found.
    ChosenFormat { ok: bool, pixel_format: i32, count: u32 },
    /// How many pixel formats there are, zero if the call failed, and the one that was asked for.
    DescribedFormat { total: i32, descriptor: PixelFormatDescriptor },
    /// Whether the attributes could be read, and their values.
    FormatAttributes { ok: bool, values: [i32; 3] },
    /// The table of OpenGL functions that was loaded, if the loading did not panic.
    Gl(Option<Gl>),
    /// A version of OpenGL.
    GlVersion(GLVersion),
    /// Whether a context has the compatibility profile.
    CompatibilityProfile(bool),
    /// One integer.
    Integer(i32),
    /// The address of a function; zero if there is none.
    Address(usize),
    /// The names of the extensions that the driver has, with a space between each two.
    ExtensionsString(String),
    /// How the destruction of a surface ended.
    SurfaceDestroyed(Result<(), Error>),
    /// The handle of a module, if the call succeeded.
    Module(Option<isize>),
    /// The atom of a window class; zero if the call failed.
    Atom(u16),
    /// The window that was created, if one was, and the table as its procedure left it.
    LoaderWindow { window: Option<Hwnd>, functions: WGLExtensionFunctions },
    /// What a window procedure returned.
    Lresult(isize),
}

/// A window class. Its procedure is the extension loader's, and it has no icon, cursor or menu.
#[derive(Clone, Copy, Debug, PartialEq, Eq)]
pub struct WindowClass {
    pub name: &'static str,
    pub style: u32,
    pub class_extra: i32,
    pub window_extra: i32,
    pub instance: isize,
    pub background: isize,
}

/// A window to be created.
#[derive(Clone, Copy, Debug, PartialEq, Eq)]
pub struct WindowRequest {
    pub class: u16,
    pub title: &'static str,
    pub style: u32,
    pub x: i32,
    pub y: i32,
    pub width: i32,
    pub height: i32,
    pub instance: isize,
}

} // verus!
