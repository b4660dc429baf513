//! Surfaces are bound to the contexts that they were created with, and come back as they went in.

use crate::call::Call;
use crate::context::{Context, Framebuffer, Surface, Win32Objects};
use crate::current::make_current_program;
use crate::error::Error;
use crate::laws::current::{lemma_make_current, lemma_make_current_calls};
use crate::laws::values::law_context_is_drawn_through;
use crate::program::{bind, Program};
use crate::surfaces::{
    bind_after_make_program, bind_refusal, bind_surface_program, unbind_surface_program, BindResult,
};
use crate::world::{fits, lemma_run_bind, run, World};
use vstd::prelude::*;

verus! {

/// A surface that a context does not take is given back. The context stays as it is, and nothing is
/// called.
pub proof fn law_refused_surface_is_given_back(context: Context, surface: Surface, world: World)
    requires
        bind_refusal(context, surface) is Some,
    ensures
        ({
            let end = run(bind_surface_program(context, surface), world);
            &&& end.result == Some::<BindResult>(
                (context, Err((bind_refusal(context, surface)->0, surface))),
            )
            &&& end.world == world
        }),
{
}

/// A context takes a surface exactly when the surface was created with it and it renders to nothing.
/// Then the surface is the context's, and is locked; what else is locked or held stays as it was.
/// If the context was current, it is made current again on the device context that goes with the
/// surface; if it was not, what is current stays as it was.
pub proof fn law_bind_surface(context: Context, surface: Surface, world: World)
    requires
        world.orderly(),
    ensures
        bind_refusal(context, surface) is None <==> context.id == surface.context_id
            && context.framebuffer is Nothing,
        bind_refusal(context, surface) is None ==> {
            let end = run(bind_surface_program(context, surface), world);
            &&& end.result == Some::<BindResult>((context.bound_to(surface), Ok(())))
            &&& end.world.locked == world.locked.insert(surface.id)
            &&& end.world.held == world.held
            &&& end.world.windows == world.windows
            &&& end.world.driver == world.driver
            &&& if world.glrc == context.glrc {
                let asking = world.after(Call::GetCurrentContext).after(
                    Call::LockSurface(surface.id),
                );
                end.world == run(
                    make_current_program(context.bound_to(surface).window(), context.glrc),
                    asking,
                ).world
            } else {
                end.world.current() == world.current()
            }
        },
{
    if bind_refusal(context, surface) is None {
        reveal_with_fuel(run, 3);
        let w1 = world.after(Call::GetCurrentContext);
        let lock = Call::LockSurface(surface.id);
        assert(fits(lock, w1.answer(lock)));
        let w2 = w1.after(lock);
        let bound = context.bound_to(surface);
        if world.glrc == context.glrc {
            let making = make_current_program(bound.window(), bound.glrc);
            let then = |result: Result<(), Error>| Program::Done::<BindResult>((bound, Ok(())));
            assert(bind_after_make_program(making, bound) == bind(making, then));
            lemma_run_bind(making, then, w2);
            lemma_make_current(bound.window(), bound.glrc, w2);
        }
    }
}

/// What is bound is what comes back: to detach the surface after it was attached gives that surface
/// and the context as they were before. The surface is not locked afterwards, and every other lock
/// stays as it was.
pub proof fn law_unbind_undoes_bind(context: Context, surface: Surface, world: World)
    requires
        world.orderly(),
        bind_refusal(context, surface) is None,
    ensures
        ({
            let bound = run(bind_surface_program(context, surface), world);
            let end = run(unbind_surface_program((bound.result->0).0), bound.world);
            &&& end.result == Some((context, Ok::<Option<Surface>, Error>(Some(surface))))
            &&& end.world.locked == world.locked.remove(surface.id)
            &&& end.world.held == world.held
            &&& end.world.windows == world.windows
            &&& end.world.current() == bound.world.current()
        }),
{
    law_bind_surface(context, surface, world);
    let bound = run(bind_surface_program(context, surface), world).world;
    reveal_with_fuel(run, 2);
    let unlock = Call::UnlockSurface(surface.id);
    assert(fits(unlock, bound.answer(unlock)));
    assert(world.locked.insert(surface.id).remove(surface.id) =~= world.locked.remove(surface.id));
    assert(context.bound_to(surface).unbound() == context);
}

/// To detach always comes to an end, and the context renders to nothing afterwards. The result is
/// the surface that was attached, unlocked; an error exactly if the target was an external one; and
/// nothing if there was no target.
pub proof fn law_unbind_surface(context: Context, world: World)
    requires
        world.answers(),
    ensures
        ({
            let end = run(unbind_surface_program(context), world);
            &&& end.result == Some(
                (
                    context.unbound(),
                    match context.framebuffer {
                        Framebuffer::Surface(surface) => Ok::<Option<Surface>, Error>(
                            Some(surface),
                        ),
                        Framebuffer::External(_) => Err(Error::ExternalRenderTarget),
                        Framebuffer::Nothing => Ok(None),
                    },
                ),
            )
            &&& match context.framebuffer {
                Framebuffer::Surface(surface) => end.world == world.after(
                    Call::UnlockSurface(surface.id),
                ),
                _ => end.world == world,
            }
        }),
{
    reveal_with_fuel(run, 2);
    if let Framebuffer::Surface(surface) = context.framebuffer {
        let unlock = Call::UnlockSurface(surface.id);
        assert(fits(unlock, world.answer(unlock)));
    }
}

/// The invariant of contexts survives the attaching and detaching of surfaces.
pub proof fn law_surfaces_keep_invariant(context: Context, surface: Surface, world: World)
    requires
        world.orderly(),
        context.wf(),
    ensures
        (run(bind_surface_program(context, surface), world).result->0).0.wf(),
        (run(unbind_surface_program(context), world).result->0).0.wf(),
{
    law_unbind_surface(context, world);
    law_bind_surface(context, surface, world);
    if bind_refusal(context, surface) is Some {
        law_refused_surface_is_given_back(context, surface, world);
    }
}

/// A surface that was created with another context is refused as incompatible, whatever the context
/// renders to. One that was created with the context is refused as the second one exactly if any
/// surface is bound, and because of the target exactly if that is external; it and the context come
/// back as they were, and nothing is called. Otherwise the context renders to it, and is the same in
/// all else: it is asked what is current, the surface is locked, and exactly if the context is current
/// it is made current again, on the window of the surface if that is a widget, and on the hidden
/// window if not; whether that succeeds is of no interest.
pub proof fn law_bind_surface_calls(context: Context, surface: Surface, world: World)
    requires
        world.answers(),
    ensures
        ({
            let end = run(bind_surface_program(context, surface), world);
            if context.id.0 != surface.context_id.0 {
                &&& end.result == Some::<BindResult>(
                    (context, Err((Error::IncompatibleSurface, surface))),
                )
                &&& end.world == world
            } else {
                match context.framebuffer {
                    Framebuffer::Surface(_) => {
                        &&& end.result == Some::<BindResult>(
                            (context, Err((Error::SurfaceAlreadyBound, surface))),
                        )
                        &&& end.world == world
                    },
                    Framebuffer::External(_) => {
                        &&& end.result == Some::<BindResult>(
                            (context, Err((Error::ExternalRenderTarget, surface))),
                        )
                        &&& end.world == world
                    },
                    Framebuffer::Nothing => {
                        let bound = Context {
                            framebuffer: Framebuffer::Surface(surface),
                            ..context
                        };
                        let window = match surface.win32_objects {
                            Win32Objects::Widget { window_handle } => window_handle,
                            Win32Objects::Texture => context.hidden_window.window,
                        };
                        let w1 = world.after(Call::GetCurrentContext).after(
                            Call::LockSurface(surface.id),
                        );
                        let dc = w1.answer(Call::GetDc(window))->Dc_0;
                        &&& end.result == Some::<BindResult>((bound, Ok(())))
                        &&& end.world == (if world.glrc == context.glrc {
                            w1.after(Call::GetDc(window)).after(
                                Call::MakeCurrent { dc, glrc: context.glrc },
                            ).after(Call::ReleaseDc { window, dc })
                        } else {
                            w1
                        })
                    },
                }
            }
        }),
{
    if context.id == surface.context_id && context.framebuffer is Nothing {
        reveal_with_fuel(run, 3);
        let w1 = world.after(Call::GetCurrentContext);
        let lock = Call::LockSurface(surface.id);
        assert(fits(lock, w1.answer(lock)));
        let w2 = w1.after(lock);
        let bound = context.bound_to(surface);
        law_context_is_drawn_through(bound);
        if world.glrc == context.glrc {
            let making = make_current_program(bound.window(), bound.glrc);
            let then = |result: Result<(), Error>| Program::Done::<BindResult>((bound, Ok(())));
            assert(bind_after_make_program(making, bound) == bind(making, then));
            lemma_run_bind(making, then, w2);
            lemma_make_current_calls(bound.window(), bound.glrc, w2);
        }
    }
}

/// To detach is to take whatever is bound, and to leave nothing but that out of the context. A
/// surface is unlocked and comes back; an external target is an error; and nothing is called in any
/// other case.
pub proof fn law_unbind_surface_calls(context: Context, world: World)
    requires
        world.answers(),
    ensures
        ({
            let left = Context { framebuffer: Framebuffer::Nothing, ..context };
            let end = run(unbind_surface_program(context), world);
            match context.framebuffer {
                Framebuffer::Surface(surface) => {
                    &&& end.result == Some((left, Ok::<Option<Surface>, Error>(Some(surface))))
                    &&& end.world == world.after(Call::UnlockSurface(surface.id))
                },
                Framebuffer::External(_) => {
                    &&& end.result == Some(
                        (left, Err::<Option<Surface>, Error>(Error::ExternalRenderTarget)),
                    )
                    &&& end.world == world
                },
                Framebuffer::Nothing => {
                    &&& end.result == Some((left, Ok::<Option<Surface>, Error>(None)))
                    &&& end.world == world
                },
            }
        }),
{
    law_unbind_surface(context, world);
}

} // verus!
