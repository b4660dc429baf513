//! Attaching surfaces to contexts, and detaching them.
//!
//! An operation here owns the context while it runs, and gives it back with its result.

use crate::call::{Call, Reply};
use crate::context::{Context, Framebuffer, Surface};
use crate::current::{make_current_program, MakeContextCurrent};
use crate::device::Device;
use crate::error::Error;
use crate::handles::{Hglrc, Hwnd};
use crate::program::{bind, call_context, call_unit, starts, Operation, Program, Step};
use vstd::prelude::*;

verus! {

/// How an attempt to attach a surface ends: the context, and the surface where it was refused.
pub type BindResult = (Context, Result<(), (Error, Surface)>);

/// How an attempt to detach a surface ends: the context, and the surface where there was one.
pub type UnbindResult = (Context, Result<Option<Surface>, Error>);

/// Why a context does not take a surface, if it does not.
pub open spec fn bind_refusal(context: Context, surface: Surface) -> Option<Error> {
    if context.id != surface.context_id {
        Some(Error::IncompatibleSurface)
    } else {
        match context.framebuffer {
            Framebuffer::Nothing => None,
            Framebuffer::External(_) => Some(Error::ExternalRenderTarget),
            Framebuffer::Surface(_) => Some(Error::SurfaceAlreadyBound),
        }
    }
}

/// Attaches a surface to a context. Where the context does not take the surface, nothing is called
/// and the surface is given back.
pub open spec fn bind_surface_program(context: Context, surface: Surface) -> Program<BindResult> {
    match bind_refusal(context, surface) {
        Some(error) => Program::Done((context, Err((error, surface)))),
        None => bind_ask_program(context, surface),
    }
}

/// The context takes the surface: it matters whether the context is current.
pub open spec fn bind_ask_program(context: Context, surface: Surface) -> Program<BindResult> {
    call_context(
        Call::GetCurrentContext,
        |current: Hglrc| bind_lock_program(context, surface, current == context.glrc),
    )
}

/// The surface is locked, and then it is the context's. A context that is current is made current
/// again, because the surface changed; whether that succeeds is of no interest.
pub open spec fn bind_lock_program(
    context: Context,
    surface: Surface,
    is_current: bool,
) -> Program<BindResult> {
    call_unit(
        Call::LockSurface(surface.id),
        ||
            {
                let bound = context.bound_to(surface);
                if is_current {
                    bind_after_make_program(
                        make_current_program(bound.window(), bound.glrc),
                        bound,
                    )
                } else {
                    Program::Done((bound, Ok(())))
                }
            },
    )
}

/// The context is being made current again; that is all.
pub open spec fn bind_after_make_program(
    making: Program<Result<(), Error>>,
    context: Context,
) -> Program<BindResult> {
    bind(making, |result: Result<(), Error>| Program::Done((context, Ok(()))))
}

/// Detaches the surface of a context, if it has one, and unlocks it. The context renders to nothing
/// afterwards, even where it rendered to an external target and the result is an error.
pub open spec fn unbind_surface_program(context: Context) -> Program<UnbindResult> {
    match context.framebuffer {
        Framebuffer::Surface(surface) => unbind_unlock_program(context.unbound(), surface),
        Framebuffer::External(_) => Program::Done(
            (context.unbound(), Err(Error::ExternalRenderTarget)),
        ),
        Framebuffer::Nothing => Program::Done((context.unbound(), Ok(None))),
    }
}

/// The surface is detached: it is unlocked.
pub open spec fn unbind_unlock_program(context: Context, surface: Surface) -> Program<
    UnbindResult,
> {
    call_unit(
        Call::UnlockSurface(surface.id),
        || Program::Done((context, Ok(Some(surface)))),
    )
}

/// Attaching a surface to a context.
pub enum BindSurface {
    Asking { context: Context, surface: Surface },
    Locking { context: Context, surface: Surface, is_current: bool },
    MakingCurrent { context: Context, making: MakeContextCurrent },
}

impl Operation for BindSurface {
    type Output = BindResult;

    open spec fn program(self) -> Program<BindResult> {
        match self {
            BindSurface::Asking { context, surface } => bind_ask_program(context, surface),
            BindSurface::Locking { context, surface, is_current } => bind_lock_program(
                context,
                surface,
                is_current,
            ),
            BindSurface::MakingCurrent { context, making } => bind_after_make_program(
                making.program(),
                context,
            ),
        }
    }

    fn resume(self, reply: Reply) -> (step: Step<Self, BindResult>) {
        proof {
            reveal_with_fuel(bind, 3);
        }
        match self {
            BindSurface::Asking { context, surface } => {
                match reply {
                    Reply::Context(current) => {
                        let is_current: bool = current == context.glrc;
                        Step::Call(
                            Call::LockSurface(surface.id),
                            BindSurface::Locking { context, surface, is_current },
                        )
                    },
                    _ => Step::Abort,
                }
            },
            BindSurface::Locking { context, surface, is_current } => {
                match reply {
                    Reply::Unit => {
                        let mut context: Context = context;
                        context.framebuffer = Framebuffer::Surface(surface);
                        if is_current {
                            let window: Hwnd = context.rendering_window();
                            let making = MakeContextCurrent::GettingDc {
                                window,
                                glrc: context.glrc,
                            };
                            Step::Call(
                                Call::GetDc(window),
                                BindSurface::MakingCurrent { context, making },
                            )
                        } else {
                            Step::Done((context, Ok(())))
                        }
                    },
                    _ => Step::Abort,
                }
            },
            BindSurface::MakingCurrent { context, making } => {
                match making.resume(reply) {
                    Step::Call(call, making) => Step::Call(
                        call,
                        BindSurface::MakingCurrent { context, making },
                    ),
                    Step::Done(_) => Step::Done((context, Ok(()))),
                    Step::Abort => Step::Abort,
                }
            },
        }
    }
}

/// Detaching the surface of a context.
pub struct UnbindSurface {
    pub context: Context,
    pub surface: Surface,
}

impl Operation for UnbindSurface {
    type Output = UnbindResult;

    open spec fn program(self) -> Program<UnbindResult> {
        unbind_unlock_program(self.context, self.surface)
    }

    fn resume(self, reply: Reply) -> (step: Step<Self, UnbindResult>) {
        match reply {
            Reply::Unit => Step::Done((self.context, Ok(Some(self.surface)))),
            _ => Step::Abort,
        }
    }
}

impl Device {
    /// Attaches a surface to a context for rendering.
    ///
    /// This function takes ownership of the surface. The surface must have been created with this
    /// context, or an `IncompatibleSurface` error is returned.
    ///
    /// If this function is called with a surface already bound, a `SurfaceAlreadyBound` error is
    /// returned. To avoid this error, first unbind the existing surface with
    /// `unbind_surface_from_context`.
    ///
    /// If an error is returned, the surface is returned alongside it.
    pub fn bind_surface_to_context(&self, context: Context, surface: Surface) -> (step: Step<
        BindSurface,
        BindResult,
    >)
        ensures
            starts(step, bind_surface_program(context, surface)),
    {
        if context.id != surface.context_id {
            return Step::Done((context, Err((Error::IncompatibleSurface, surface))));
        }
        match context.framebuffer {
            Framebuffer::Nothing => Step::Call(
                Call::GetCurrentContext,
                BindSurface::Asking { context, surface },
            ),
            Framebuffer::External(()) => Step::Done(
                (context, Err((Error::ExternalRenderTarget, surface))),
            ),
            Framebuffer::Surface(_) => Step::Done(
                (context, Err((Error::SurfaceAlreadyBound, surface))),
            ),
        }
    }

    /// Removes and returns any attached surface from this context.
    ///
    /// Any pending OpenGL commands targeting this surface will be automatically flushed, so the
    /// surface is safe to read from immediately when this function returns.
    pub fn unbind_surface_from_context(&self, context: Context) -> (step: Step<
        UnbindSurface,
        UnbindResult,
    >)
        ensures
            starts(step, unbind_surface_program(context)),
    {
        let Context { glrc, id, gl, hidden_window, framebuffer, status } = context;
        let context = Context {
            glrc,
            id,
            gl,
            hidden_window,
            framebuffer: Framebuffer::Nothing,
            status,
        };
        match framebuffer {
            Framebuffer::Surface(surface) => Step::Call(
                Call::UnlockSurface(surface.id),
                UnbindSurface { context, surface },
            ),
            Framebuffer::External(()) => Step::Done((context, Err(Error::ExternalRenderTarget))),
            Framebuffer::Nothing => Step::Done((context, Ok(None))),
        }
    }
}

} // verus!
