//! Destroying contexts.

use crate::call::{Call, Reply};
use crate::context::{Context, ContextStatus, Surface};
use crate::device::Device;
use crate::error::Error;
use crate::handles::{Hdc, Hglrc};
use crate::program::{bind, call_context, call_success, starts, Operation, Program, Step};
use crate::surfaces::{unbind_surface_program, UnbindResult, UnbindSurface};
use vstd::prelude::*;

verus! {

/// How the destruction of a context ends: the context, and what went wrong if anything did.
pub type DestroyResult = (Context, Result<(), Error>);

/// Destroys a context. Of a context that was destroyed before, nothing is left to do. A surface that
/// is attached is detached and destroyed first.
pub open spec fn destroy_context_program(context: Context) -> Program<DestroyResult> {
    if context.status is Destroyed {
        Program::Done((context, Ok(())))
    } else {
        destroy_after_unbind_program(unbind_surface_program(context))
    }
}

/// The surface is being detached; the rest follows. That there is no surface to detach, or none
/// that is managed here, is no error.
pub open spec fn destroy_after_unbind_program(unbinding: Program<UnbindResult>) -> Program<
    DestroyResult,
> {
    bind(
        unbinding,
        |unbound: UnbindResult|
            match unbound.1 {
                Ok(Some(surface)) => destroy_surface_program(unbound.0, surface),
                _ => destroy_ask_program(unbound.0),
            },
    )
}

/// The surface is detached: it is destroyed. If that fails, the context is left as it is.
pub open spec fn destroy_surface_program(context: Context, surface: Surface) -> Program<
    DestroyResult,
> {
    Program::Call(
        Call::DestroySurface {
            context_id: context.id,
            glrc: context.glrc,
            gl: context.gl,
            hidden_window: context.hidden_window,
            surface,
        },
        |reply: Reply|
            match reply {
                Reply::SurfaceDestroyed(Ok(_)) => destroy_ask_program(context),
                Reply::SurfaceDestroyed(Err(error)) => Program::Done((context, Err(error))),
                _ => Program::Abort,
            },
    )
}

/// Nothing is attached: it matters whether the context is current.
pub open spec fn destroy_ask_program(context: Context) -> Program<DestroyResult> {
    call_context(
        Call::GetCurrentContext,
        |current: Hglrc|
            if current == context.glrc {
                destroy_clear_program(context)
            } else {
                destroy_delete_program(context)
            },
    )
}

/// The context is current: no context is left current.
pub open spec fn destroy_clear_program(context: Context) -> Program<DestroyResult> {
    call_success(
        Call::MakeCurrent { dc: Hdc(0), glrc: Hglrc(0) },
        |ok: bool| destroy_delete_program(context),
    )
}

/// The context is not current: its rendering context is deleted if it was created here.
pub open spec fn destroy_delete_program(context: Context) -> Program<DestroyResult> {
    if context.status is Owned {
        destroy_glrc_program(context)
    } else {
        Program::Done((context.destroyed(), Ok(())))
    }
}

/// The rendering context was created here: it is deleted, and whether that succeeds is of no
/// interest.
pub open spec fn destroy_glrc_program(context: Context) -> Program<DestroyResult> {
    call_success(
        Call::DeleteContext(context.glrc),
        |ok: bool| Program::Done((context.destroyed(), Ok(()))),
    )
}

/// Destroying a context.
pub enum DestroyContext {
    Unbinding(UnbindSurface),
    DestroyingSurface { context: Context, surface: Ghost<Surface> },
    Asking { context: Context },
    Clearing { context: Context },
    Deleting { context: Context },
}

impl DestroyContext {
    /// What is left to do, the call that the operation waits for included.
    pub open spec fn left(self) -> Program<DestroyResult> {
        match self {
            DestroyContext::Unbinding(unbinding) => destroy_after_unbind_program(
                unbinding.program(),
            ),
            DestroyContext::DestroyingSurface { context, surface } => destroy_surface_program(
                context,
                surface@,
            ),
            DestroyContext::Asking { context } => destroy_ask_program(context),
            DestroyContext::Clearing { context } => destroy_clear_program(context),
            DestroyContext::Deleting { context } => destroy_glrc_program(context),
        }
    }

    /// The step that comes after the surface, if there was one, is detached.
    fn after_unbind(unbound: UnbindResult) -> (next: (Call, DestroyContext))
        ensures
            next.1.left() == destroy_after_unbind_program(Program::Done(unbound)),
            next.1.left().calls(next.0),
    {
        let (context, result) = unbound;
        match result {
            Ok(Some(surface)) => {
                let ghost destroyed = surface;
                (
                    Call::DestroySurface {
                        context_id: context.id,
                        glrc: context.glrc,
                        gl: context.gl,
                        hidden_window: context.hidden_window,
                        surface,
                    },
                    DestroyContext::DestroyingSurface { context, surface: Ghost(destroyed) },
                )
            },
            _ => (Call::GetCurrentContext, DestroyContext::Asking { context }),
        }
    }

    /// The context after its rendering context is gone.
    fn finish(context: Context) -> (result: DestroyResult)
        ensures
            result == (context.destroyed(), Ok::<(), Error>(())),
    {
        let mut context: Context = context;
        context.glrc = Hglrc::null();
        context.status = ContextStatus::Destroyed;
        (context, Ok(()))
    }
}

impl Operation for DestroyContext {
    type Output = DestroyResult;

    open spec fn program(self) -> Program<DestroyResult> {
        self.left()
    }

    fn resume(self, reply: Reply) -> (step: Step<Self, DestroyResult>) {
        proof {
            reveal_with_fuel(bind, 3);
        }
        match self {
            DestroyContext::Unbinding(unbinding) => {
                match unbinding.resume(reply) {
                    Step::Call(call, unbinding) => Step::Call(
                        call,
                        DestroyContext::Unbinding(unbinding),
                    ),
                    Step::Done(unbound) => {
                        let (call, next) = DestroyContext::after_unbind(unbound);
                        Step::Call(call, next)
                    },
                    Step::Abort => Step::Abort,
                }
            },
            DestroyContext::DestroyingSurface { context, .. } => {
                match reply {
                    Reply::SurfaceDestroyed(Ok(_)) => Step::Call(
                        Call::GetCurrentContext,
                        DestroyContext::Asking { context },
                    ),
                    Reply::SurfaceDestroyed(Err(error)) => Step::Done((context, Err(error))),
                    _ => Step::Abort,
                }
            },
            DestroyContext::Asking { context } => {
                match reply {
                    Reply::Context(current) => {
                        if current == context.glrc {
                            Step::Call(
                                Call::MakeCurrent { dc: Hdc::null(), glrc: Hglrc::null() },
                                DestroyContext::Clearing { context },
                            )
                        } else if context.status == ContextStatus::Owned {
                            Step::Call(
                                Call::DeleteContext(context.glrc),
                                DestroyContext::Deleting { context },
                            )
                        } else {
                            Step::Done(DestroyContext::finish(context))
                        }
                    },
                    _ => Step::Abort,
                }
            },
            DestroyContext::Clearing { context } => {
                match reply {
                    Reply::Success(_) => {
                        if context.status == ContextStatus::Owned {
                            Step::Call(
                                Call::DeleteContext(context.glrc),
                                DestroyContext::Deleting { context },
                            )
                        } else {
                            Step::Done(DestroyContext::finish(context))
                        }
                    },
                    _ => Step::Abort,
                }
            },
            DestroyContext::Deleting { context } => {
                match reply {
                    Reply::Success(_) => Step::Done(DestroyContext::finish(context)),
                    _ => Step::Abort,
                }
            },
        }
    }
}

impl Device {
    /// Destroys a context.
    ///
    /// The context must have been created on this device.
    pub fn destroy_context(&self, context: Context) -> (step: Step<DestroyContext, DestroyResult>)
        ensures
            starts(step, destroy_context_program(context)),
    {
        if context.status == ContextStatus::Destroyed {
            return Step::Done((context, Ok(())));
        }
        match self.unbind_surface_from_context(context) {
            Step::Call(call, unbinding) => Step::Call(call, DestroyContext::Unbinding(unbinding)),
            Step::Done(unbound) => {
                let (call, next) = DestroyContext::after_unbind(unbound);
                Step::Call(call, next)
            },
            Step::Abort => Step::Abort,
        }
    }
}

} // verus!
