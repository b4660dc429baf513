//! What is left of a context that was destroyed.

use crate::call::{Call, Reply};
use crate::context::{Context, ContextStatus, Framebuffer};
use crate::destruction::{
    destroy_ask_program, destroy_context_program, destroy_surface_program, DestroyResult,
};
use crate::handles::{Hdc, Hglrc};
use crate::laws::surfaces::law_unbind_surface;
use crate::program::bind;
use crate::surfaces::{unbind_surface_program, UnbindResult};
use crate::world::{fits, lemma_run_bind, run, World};
use vstd::prelude::*;

verus! {

/// A context that was destroyed stays as it is when it is destroyed again, and nothing is called.
pub proof fn law_destroy_twice(context: Context, world: World)
    requires
        context.status is Destroyed,
    ensures
        run(destroy_context_program(context), world).result == Some::<DestroyResult>(
            (context, Ok(())),
        ),
        run(destroy_context_program(context), world).world == world,
{
}

/// The calls that destroy a context to which nothing is attached, in a world in which it is current
/// or not: a current context is left first, and a rendering context that was created here is
/// deleted.
pub open spec fn destruction_calls(context: Context, is_current: bool) -> Seq<Call> {
    let ask = seq![Call::GetCurrentContext];
    let clear = if is_current {
        seq![Call::MakeCurrent { dc: Hdc(0), glrc: Hglrc(0) }]
    } else {
        seq![]
    };
    let delete = if context.status is Owned {
        seq![Call::DeleteContext(context.glrc)]
    } else {
        seq![]
    };
    ask + clear + delete
}

/// The calls that detach and destroy the surface of a context, if there is one.
pub open spec fn surface_calls(context: Context) -> Seq<Call> {
    match context.framebuffer {
        Framebuffer::Surface(surface) => seq![
            Call::UnlockSurface(surface.id),
            Call::DestroySurface {
                context_id: context.id,
                glrc: context.glrc,
                gl: context.gl,
                hidden_window: context.hidden_window,
                surface,
            },
        ],
        _ => seq![],
    }
}

proof fn lemma_destroy_ask(context: Context, world: World)
    requires
        world.orderly(),
        !(context.status is Destroyed),
    ensures
        ({
            let end = run(destroy_ask_program(context), world);
            &&& end.result == Some::<DestroyResult>((context.destroyed(), Ok(())))
            &&& end.world.log == world.log + destruction_calls(
                context,
                world.glrc == context.glrc,
            )
            &&& end.world.locked == world.locked
            &&& end.world.held == world.held
            &&& end.world.windows == world.windows
            &&& end.world.driver == world.driver
            &&& world.glrc != context.glrc ==> end.world.current() == world.current()
            &&& world.glrc == context.glrc && (world.driver)(
                world.log.push(Call::GetCurrentContext),
                Call::MakeCurrent { dc: Hdc(0), glrc: Hglrc(0) },
            ) == Reply::Success(true) ==> end.world.current() == (Hdc(0), Hglrc(0))
        }),
{
    reveal_with_fuel(run, 4);
    let ask = Call::GetCurrentContext;
    let clear = Call::MakeCurrent { dc: Hdc(0), glrc: Hglrc(0) };
    let delete = Call::DeleteContext(context.glrc);
    let w1 = world.after(ask);
    assert(fits(clear, w1.answer(clear)));
    assert(fits(delete, w1.answer(delete)));
    assert(fits(delete, w1.after(clear).answer(delete)));
    let end = run(destroy_ask_program(context), world);
    assert(end.world.log =~= world.log + destruction_calls(context, world.glrc == context.glrc));
}

/// A context is destroyed for good: its surface, if it had one, is detached, unlocked and destroyed;
/// if it was current, it no longer is, wherever the driver lets go of it; its rendering context is
/// deleted exactly if it was created here, and one of someone else never is; and the context holds
/// no rendering context and renders to nothing afterwards. Only an error in the destruction of the
/// surface stops that, and then nothing but the surface is detached. To destroy always comes to an
/// end.
pub proof fn law_destroy_context(context: Context, world: World)
    requires
        world.orderly(),
        !(context.status is Destroyed),
    ensures
        ({
            let end = run(destroy_context_program(context), world);
            let refused = match context.framebuffer {
                Framebuffer::Surface(surface) => (world.driver)(
                    world.log.push(surface_calls(context)[0]),
                    surface_calls(context)[1],
                )->SurfaceDestroyed_0,
                _ => Ok(()),
            };
            &&& end.world.held == world.held
            &&& end.world.windows == world.windows
            &&& end.world.locked == (match context.framebuffer {
                Framebuffer::Surface(surface) => world.locked.remove(surface.id),
                _ => world.locked,
            })
            &&& match refused {
                Ok(_) => {
                    &&& end.result == Some::<DestroyResult>(
                        (context.unbound().destroyed(), Ok(())),
                    )
                    &&& end.world.log == world.log + surface_calls(context) + destruction_calls(
                        context,
                        world.glrc == context.glrc,
                    )
                    &&& world.glrc != context.glrc ==> end.world.current() == world.current()
                    &&& world.glrc == context.glrc && (world.driver)(
                        (world.log + surface_calls(context)).push(Call::GetCurrentContext),
                        Call::MakeCurrent { dc: Hdc(0), glrc: Hglrc(0) },
                    ) == Reply::Success(true) ==> end.world.current() == (Hdc(0), Hglrc(0))
                },
                Err(error) => {
                    &&& end.result == Some::<DestroyResult>((context.unbound(), Err(error)))
                    &&& end.world.log == world.log + surface_calls(context)
                    &&& end.world.current() == world.current()
                },
            }
        }),
{
    let unbinding = unbind_surface_program(context);
    let then = |unbound: UnbindResult|
        match unbound.1 {
            Ok(Some(surface)) => destroy_surface_program(unbound.0, surface),
            _ => destroy_ask_program(unbound.0),
        };
    assert(destroy_context_program(context) == bind(unbinding, then));
    lemma_run_bind(unbinding, then, world);
    law_unbind_surface(context, world);
    let w1 = run(unbinding, world).world;
    match context.framebuffer {
        Framebuffer::Surface(surface) => {
            let destroy = surface_calls(context)[1];
            assert(fits(destroy, w1.answer(destroy)));
            let w2 = w1.after(destroy);
            assert(w2.log =~= world.log + surface_calls(context));
            let answer = w1.answer(destroy)->SurfaceDestroyed_0;
            let program = destroy_surface_program(context.unbound(), surface);
            assert(run(program, w1) == run(program.resumed(w1.answer(destroy)), w2));
            if answer is Ok {
                lemma_destroy_ask(context.unbound(), w2);
            }
        },
        _ => {
            lemma_destroy_ask(context.unbound(), w1);
            assert(world.log + surface_calls(context) =~= world.log);
        },
    }
}

/// The invariant of contexts survives the destruction of a context.
pub proof fn law_destruction_keeps_invariant(context: Context, world: World)
    requires
        world.orderly(),
        context.wf(),
    ensures
        (run(destroy_context_program(context), world).result->0).0.wf(),
{
    if !(context.status is Destroyed) {
        law_destroy_context(context, world);
    }
}

/// To destroy a context is to unlock and destroy its surface if it has one, to leave no context
/// current exactly if the context is current, and to delete its rendering context exactly if it is
/// owned. Afterwards it holds no rendering context, renders to nothing and is destroyed, and is the
/// same in all else. Where the surface cannot be destroyed, nothing more is called, the error is
/// passed on, and the context has lost its surface but nothing else. Of a context that was destroyed
/// before, nothing is called and nothing changes.
pub proof fn law_destroy_context_calls(context: Context, world: World)
    requires
        world.answers(),
    ensures
        ({
            let end = run(destroy_context_program(context), world);
            if context.status is Destroyed {
                &&& end.result == Some::<DestroyResult>((context, Ok(())))
                &&& end.world == world
            } else {
                let (w1, surface_result) = match context.framebuffer {
                    Framebuffer::Surface(surface) => {
                        let unlocked = world.after(Call::UnlockSurface(surface.id));
                        let destroy = Call::DestroySurface {
                            context_id: context.id,
                            glrc: context.glrc,
                            gl: context.gl,
                            hidden_window: context.hidden_window,
                            surface,
                        };
                        (unlocked.after(destroy), unlocked.answer(destroy)->SurfaceDestroyed_0)
                    },
                    _ => (world, Ok(())),
                };
                match surface_result {
                    Err(error) => {
                        let left = Context { framebuffer: Framebuffer::Nothing, ..context };
                        &&& end.result == Some::<DestroyResult>((left, Err(error)))
                        &&& end.world == w1
                    },
                    Ok(_) => {
                        let gone = Context {
                            glrc: Hglrc(0),
                            framebuffer: Framebuffer::Nothing,
                            status: ContextStatus::Destroyed,
                            ..context
                        };
                        let w2 = w1.after(Call::GetCurrentContext);
                        let w3 = if world.glrc == context.glrc {
                            w2.after(Call::MakeCurrent { dc: Hdc(0), glrc: Hglrc(0) })
                        } else {
                            w2
                        };
                        &&& end.result == Some::<DestroyResult>((gone, Ok(())))
                        &&& end.world == (if context.status is Owned {
                            w3.after(Call::DeleteContext(context.glrc))
                        } else {
                            w3
                        })
                    },
                }
            }
        }),
{
    if !(context.status is Destroyed) {
        let unbinding = unbind_surface_program(context);
        let then = |unbound: UnbindResult|
            match unbound.1 {
                Ok(Some(surface)) => destroy_surface_program(unbound.0, surface),
                _ => destroy_ask_program(unbound.0),
            };
        assert(destroy_context_program(context) == bind(unbinding, then));
        lemma_run_bind(unbinding, then, world);
        law_unbind_surface(context, world);
        let w1 = run(unbinding, world).world;
        match context.framebuffer {
            Framebuffer::Surface(surface) => {
                let destroy = surface_calls(context)[1];
                assert(fits(destroy, w1.answer(destroy)));
                let w2 = w1.after(destroy);
                let program = destroy_surface_program(context.unbound(), surface);
                assert(run(program, w1) == run(program.resumed(w1.answer(destroy)), w2));
                if w1.answer(destroy)->SurfaceDestroyed_0 is Ok {
                    lemma_destroy_ask_calls(context.unbound(), w2);
                }
            },
            _ => {
                lemma_destroy_ask_calls(context.unbound(), w1);
            },
        }
    }
}

proof fn lemma_destroy_ask_calls(context: Context, world: World)
    requires
        world.answers(),
    ensures
        ({
            let end = run(destroy_ask_program(context), world);
            let w2 = world.after(Call::GetCurrentContext);
            let w3 = if world.glrc == context.glrc {
                w2.after(Call::MakeCurrent { dc: Hdc(0), glrc: Hglrc(0) })
            } else {
                w2
            };
            &&& end.result == Some::<DestroyResult>((context.destroyed(), Ok(())))
            &&& end.world == (if context.status is Owned {
                w3.after(Call::DeleteContext(context.glrc))
            } else {
                w3
            })
        }),
{
    reveal_with_fuel(run, 4);
    let clear = Call::MakeCurrent { dc: Hdc(0), glrc: Hglrc(0) };
    let delete = Call::DeleteContext(context.glrc);
    let w1 = world.after(Call::GetCurrentContext);
    assert(fits(clear, w1.answer(clear)));
    assert(fits(delete, w1.answer(delete)));
    assert(fits(delete, w1.after(clear).answer(delete)));
}

} // verus!
