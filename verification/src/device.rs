//! Devices, and the device contexts that their contexts are drawn through.

use crate::call::{Call, Reply};
use crate::context::{
    Context, ContextID, Framebuffer, HiddenWindow, NativeContext, Surface, SurfaceInfo,
};
use crate::error::Error;
use crate::extensions::WGLExtensionFunctions;
use crate::handles::{Hdc, Hwnd};
use crate::program::{call_dc, call_unit, starts, Operation, Program, Step};
use vstd::prelude::*;

verus! {

/// A device: what contexts are created on.
#[derive(Clone, Copy, Debug, PartialEq, Eq)]
pub struct Device {
    /// A window whose device context stands for the device.
    pub hidden_window: HiddenWindow,
    /// The extension functions of the driver.
    pub extension_functions: WGLExtensionFunctions,
}

/// A device context that was got, and has to be released.
#[derive(Clone, Copy, Debug, PartialEq, Eq, Structural)]
pub struct DCGuard {
    pub window: Hwnd,
    pub dc: Hdc,
}

/// Gets the device context of a window.
pub open spec fn get_dc_program(window: Hwnd) -> Program<DCGuard> {
    call_dc(Call::GetDc(window), |dc: Hdc| Program::Done(DCGuard { window, dc }))
}

/// Releases the device context of a guard.
pub open spec fn release_dc_program(guard: DCGuard) -> Program<()> {
    call_unit(
        Call::ReleaseDc { window: guard.window, dc: guard.dc },
        || Program::Done(()),
    )
}

/// Getting the device context of a window.
pub struct GetContextDc {
    pub window: Hwnd,
}

impl Operation for GetContextDc {
    type Output = DCGuard;

    open spec fn program(self) -> Program<DCGuard> {
        get_dc_program(self.window)
    }

    fn resume(self, reply: Reply) -> (step: Step<Self, DCGuard>) {
        match reply {
            Reply::Dc(dc) => Step::Done(DCGuard { window: self.window, dc }),
            _ => Step::Abort,
        }
    }
}

/// Releasing a device context.
pub struct ReleaseContextDc {
    pub guard: DCGuard,
}

impl Operation for ReleaseContextDc {
    type Output = ();

    open spec fn program(self) -> Program<()> {
        release_dc_program(self.guard)
    }

    fn resume(self, reply: Reply) -> (step: Step<Self, ()>) {
        match reply {
            Reply::Unit => Step::Done(()),
            _ => Step::Abort,
        }
    }
}

impl DCGuard {
    /// Releases the device context.
    pub fn drop(self) -> (step: Step<ReleaseContextDc, ()>)
        ensures
            starts(step, release_dc_program(self)),
    {
        Step::Call(
            Call::ReleaseDc { window: self.window, dc: self.dc },
            ReleaseContextDc { guard: self },
        )
    }
}

impl Device {
    /// Gets the device context that rendering to a context goes through: that of the bound widget,
    /// or that of the hidden window where no widget is bound.
    pub fn get_context_dc(&self, context: &Context) -> (step: Step<GetContextDc, DCGuard>)
        ensures
            starts(step, get_dc_program(context.window())),
    {
        let window: Hwnd = context.rendering_window();
        Step::Call(Call::GetDc(window), GetContextDc { window })
    }

    /// Returns a unique ID representing a context.
    ///
    /// This ID is unique to all currently-allocated contexts. If you destroy a context and create
    /// a new one, the new context might have the same ID as the destroyed one.
    pub fn context_id(&self, context: &Context) -> (id: ContextID)
        ensures
            id == context.id,
    {
        context.id
    }

    /// Returns various information about a surface.
    pub fn surface_info(&self, surface: &Surface) -> (info: SurfaceInfo)
        ensures
            info == surface.info(),
    {
        SurfaceInfo {
            size: surface.size,
            id: surface.id,
            context_id: surface.context_id,
            framebuffer_object: surface.framebuffer_object,
        }
    }

    /// Returns various information about the surface attached to a context.
    ///
    /// This includes, most notably, the OpenGL framebuffer object needed to render to the surface.
    pub fn context_surface_info(&self, context: &Context) -> (r: Result<Option<SurfaceInfo>, Error>)
        ensures
            r == (match context.framebuffer {
                Framebuffer::Nothing => Ok(None),
                Framebuffer::External(()) => Err(Error::ExternalRenderTarget),
                Framebuffer::Surface(surface) => Ok(Some(surface.info())),
            }),
    {
        match &context.framebuffer {
            Framebuffer::Nothing => Ok(None),
            Framebuffer::External(()) => Err(Error::ExternalRenderTarget),
            Framebuffer::Surface(surface) => Ok(Some(self.surface_info(surface))),
        }
    }

    /// Given a context, returns its underlying `HGLRC`.
    pub fn native_context(&self, context: &Context) -> (native_context: NativeContext)
        ensures
            native_context == NativeContext(context.glrc),
    {
        NativeContext(context.glrc)
    }
}

} // verus!
