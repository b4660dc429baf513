//! What is current before, during and after an operation.

use crate::call::{Call, Reply};
use crate::context::{Context, Framebuffer, NativeContext, Win32Objects};
use crate::current::{
    current_native_context_program, is_current_program, load_gl_make_current_program,
    load_gl_program, make_current_program, make_no_context_current_program,
    restore_current_program, save_current_program, temporarily_after_make_program,
    temporarily_failed_program, temporarily_make_current_program, CurrentContextGuard,
};
use crate::device::{get_dc_program, release_dc_program, DCGuard};
use crate::error::{Error, WindowingApiError};
use crate::handles::{Hdc, Hglrc, Hwnd};
use crate::laws::values::law_context_is_drawn_through;
use crate::program::{bind, Program};
use crate::world::{as_current, fits, lemma_run_bind, run, succeeds, World};
use vstd::prelude::*;

verus! {

/// Whether two worlds differ in nothing but what is current, which windows device contexts were last
/// got for, and which calls were made.
pub open spec fn only_current_differs(before: World, after: World) -> bool {
    &&& after.read_framebuffers == before.read_framebuffers
    &&& after.draw_framebuffers == before.draw_framebuffers
    &&& after.formats == before.formats
    &&& after.locked == before.locked
    &&& after.held == before.held
    &&& after.windows == before.windows
    &&& after.driver == before.driver
    &&& after.lost == before.lost
}

pub(crate) proof fn lemma_save(world: World)
    ensures
        run(save_current_program(), world).result == Some(
            CurrentContextGuard { old_dc: world.dc, old_glrc: world.glrc },
        ),
        run(save_current_program(), world).world.current() == world.current(),
        only_current_differs(world, run(save_current_program(), world).world),
{
    reveal_with_fuel(run, 3);
}

/// The device context that a context is drawn through is got, and released again when the guard is
/// dropped, so that none is held that was not held before.
pub proof fn law_context_dc_is_released(context: Context, world: World)
    requires
        world.orderly(),
    ensures
        ({
            let got = run(get_dc_program(context.window()), world);
            let end = run(release_dc_program(got.result->0), got.world);
            &&& got.result == Some(
                DCGuard {
                    window: context.window(),
                    dc: world.answer(Call::GetDc(context.window()))->Dc_0,
                },
            )
            &&& end.result is Some
            &&& end.world.current() == world.current()
            &&& only_current_differs(world, end.world)
        }),
{
    reveal_with_fuel(run, 2);
    let get_dc = Call::GetDc(context.window());
    assert(fits(get_dc, world.answer(get_dc)));
    let w1 = world.after(get_dc);
    let dc = world.answer(get_dc)->Dc_0;
    let release = Call::ReleaseDc { window: context.window(), dc };
    assert(fits(release, w1.answer(release)));
    assert(w1.after(release).held =~= world.held);
}

/// To make a context current always comes to an end. It succeeds exactly when the driver says so,
/// and then the context is current, or none where the context holds no rendering context. Every
/// device context that was got is released again.
pub proof fn law_make_context_current(context: Context, world: World)
    requires
        world.orderly(),
    ensures
        ({
            let end = run(make_current_program(context.window(), context.glrc), world);
            let dc = world.answer(Call::GetDc(context.window()))->Dc_0;
            let asked = world.after(Call::GetDc(context.window())).answer(
                Call::MakeCurrent { dc, glrc: context.glrc },
            );
            &&& end.result is Some
            &&& end.result->0 is Ok <==> asked == Reply::Success(true)
            &&& end.result->0 is Ok ==> end.world.current() == as_current(dc, context.glrc)
            &&& end.result->0 is Err ==> end.result->0 == Err::<(), Error>(
                Error::MakeCurrentFailed(WindowingApiError::Failed),
            )
            &&& only_current_differs(world, end.world)
        }),
{
    lemma_make_current(context.window(), context.glrc, world);
}

pub(crate) proof fn lemma_make_current(window: Hwnd, glrc: Hglrc, world: World)
    requires
        world.orderly(),
    ensures
        ({
            let end = run(make_current_program(window, glrc), world);
            let dc = world.answer(Call::GetDc(window))->Dc_0;
            let asked = world.after(Call::GetDc(window)).answer(Call::MakeCurrent { dc, glrc });
            &&& end.result is Some
            &&& end.result->0 is Ok <==> asked == Reply::Success(true)
            &&& end.result->0 is Ok ==> end.world.current() == as_current(dc, glrc)
            &&& end.result->0 is Err ==> end.result->0 == Err::<(), Error>(
                Error::MakeCurrentFailed(WindowingApiError::Failed),
            )
            &&& only_current_differs(world, end.world)
        }),
{
    reveal_with_fuel(run, 4);
    let end = run(make_current_program(window, glrc), world);
    assert(fits(Call::GetDc(window), world.answer(Call::GetDc(window))));
    let dc = world.answer(Call::GetDc(window))->Dc_0;
    let w1 = world.after(Call::GetDc(window));
    let make = Call::MakeCurrent { dc, glrc };
    assert(fits(make, w1.answer(make)));
    let w2 = w1.after(make);
    let release = Call::ReleaseDc { window, dc };
    assert(fits(release, w2.answer(release)));
    assert(w2.after(release).held =~= world.held);
}

/// To leave no context current always comes to an end. It succeeds exactly when the driver says so,
/// and then no context is current.
pub proof fn law_make_no_context_current(world: World)
    requires
        world.orderly(),
    ensures
        ({
            let end = run(make_no_context_current_program(), world);
            &&& end.result is Some
            &&& end.result->0 is Ok <==> world.answer(
                Call::MakeCurrent { dc: Hdc(0), glrc: Hglrc(0) },
            ) == Reply::Success(true)
            &&& end.result->0 is Ok ==> end.world.current() == (Hdc(0), Hglrc(0))
            &&& end.result->0 is Err ==> end.result->0 == Err::<(), Error>(
                Error::MakeCurrentFailed(WindowingApiError::Failed),
            )
            &&& only_current_differs(world, end.world)
        }),
{
    reveal_with_fuel(run, 2);
    let call = Call::MakeCurrent { dc: Hdc(0), glrc: Hglrc(0) };
    assert(fits(call, world.answer(call)));
}

/// The context that was made current is the one that is found to be current, unless its handle is
/// one that names no context.
pub proof fn law_current_context_is_found(context: Context, world: World)
    requires
        world.orderly(),
        run(make_current_program(context.window(), context.glrc), world).result == Some(
            Ok::<(), Error>(()),
        ),
    ensures
        ({
            let made = run(make_current_program(context.window(), context.glrc), world).world;
            &&& run(is_current_program(context.glrc), made).result == Some(true)
            &&& run(current_native_context_program(), made).result == Some(
                if context.glrc.invalid() {
                    Err(Error::NoCurrentContext)
                } else {
                    Ok(NativeContext(context.glrc))
                },
            )
        }),
{
    reveal_with_fuel(run, 2);
    lemma_make_current(context.window(), context.glrc, world);
}

/// What was current before a context is made current for a while is current again afterwards,
/// wherever the driver can make it so: at once if the context cannot be made current, and otherwise
/// when the guard is dropped, whatever was made current in between.
pub proof fn law_temporarily_made_current_is_undone(context: Context, world: World, meanwhile: World)
    requires
        world.orderly(),
        meanwhile.driver == world.driver,
    ensures
        ({
            let end = run(
                temporarily_make_current_program(context.window(), context.glrc),
                world,
            );
            &&& end.result is Some
            &&& only_current_differs(world, end.world)
            &&& match end.result->0 {
                Ok(guard) => {
                    &&& end.world.glrc == context.glrc
                    &&& world.restorable_after(meanwhile.log) ==> run(
                        restore_current_program(guard),
                        meanwhile,
                    ).world.current() == world.current()
                },
                Err(error) => {
                    &&& error == Error::MakeCurrentFailed(WindowingApiError::Failed)
                    &&& world.restorable_after(end.world.log.drop_last())
                        ==> end.world.current() == world.current()
                },
            }
        }),
{
    lemma_temporarily(context.window(), context.glrc, world);
    reveal_with_fuel(run, 2);
    let call = Call::MakeCurrent { dc: world.dc, glrc: world.glrc };
    assert(meanwhile.answer(call) == (world.driver)(meanwhile.log, call));
}

pub(crate) proof fn lemma_temporarily(window: Hwnd, glrc: Hglrc, world: World)
    requires
        world.orderly(),
    ensures
        ({
            let end = run(temporarily_make_current_program(window, glrc), world);
            &&& end.result is Some
            &&& only_current_differs(world, end.world)
            &&& match end.result->0 {
                Ok(guard) => {
                    &&& end.world.glrc == glrc
                    &&& guard == CurrentContextGuard { old_dc: world.dc, old_glrc: world.glrc }
                },
                Err(error) => {
                    &&& error == Error::MakeCurrentFailed(WindowingApiError::Failed)
                    &&& world.restorable_after(end.world.log.drop_last())
                        ==> end.world.current() == world.current()
                },
            }
        }),
{
    let guard = CurrentContextGuard { old_dc: world.dc, old_glrc: world.glrc };
    lemma_save(world);
    let saved = run(save_current_program(), world).world;
    let then = |guard: CurrentContextGuard|
        temporarily_after_make_program(make_current_program(window, glrc), guard);
    lemma_run_bind(save_current_program(), then, world);
    assert(temporarily_make_current_program(window, glrc) == bind(save_current_program(), then));
    let making = make_current_program(window, glrc);
    lemma_make_current(window, glrc, saved);
    let then2 = |result: Result<(), Error>|
        match result {
            Ok(_) => Program::Done(Ok::<CurrentContextGuard, Error>(guard)),
            Err(error) => temporarily_failed_program(guard, error),
        };
    lemma_run_bind(making, then2, saved);
    assert(temporarily_after_make_program(making, guard) == bind(making, then2));
    reveal_with_fuel(run, 2);
    let made = run(making, saved).world;
    let call = Call::MakeCurrent { dc: world.dc, glrc: world.glrc };
    assert(made.answer(call) == (world.driver)(made.log, call));
    assert(fits(call, made.answer(call)));
    assert(made.after(call).log.drop_last() =~= made.log);
}

/// To load the OpenGL functions of a rendering context leaves everything as it was, what is current
/// included, wherever the driver can make it current again. That holds even where it panics. It does
/// not panic where the driver does what it is asked for.
pub proof fn law_load_gl_is_undone(dc: Hdc, glrc: Hglrc, world: World)
    requires
        world.orderly(),
    ensures
        ({
            let end = run(load_gl_program(dc, glrc), world);
            &&& world.restorable_after(end.world.log.drop_last()) ==> end.world.current()
                == world.current()
            &&& only_current_differs(world, end.world)
            &&& world.cooperative() ==> end.result is Some
        }),
{
    lemma_save(world);
    let saved = run(save_current_program(), world).world;
    let then = |guard: CurrentContextGuard| load_gl_make_current_program(guard, dc, glrc);
    lemma_run_bind(save_current_program(), then, world);
    assert(load_gl_program(dc, glrc) == bind(save_current_program(), then));
    reveal_with_fuel(run, 4);
    let make = Call::MakeCurrent { dc, glrc };
    assert(world.cooperative() ==> succeeds(make, saved.answer(make)));
    let made = saved.after(make);
    assert(fits(make, saved.answer(make)));
    assert(fits(Call::LoadGl, made.answer(Call::LoadGl)));
    assert(world.cooperative() ==> succeeds(Call::LoadGl, made.answer(Call::LoadGl)));
    let loaded = made.after(Call::LoadGl);
    let call = Call::MakeCurrent { dc: world.dc, glrc: world.glrc };
    assert(loaded.answer(call) == (world.driver)(loaded.log, call));
    assert(fits(call, loaded.answer(call)));
    assert(loaded.after(call).log.drop_last() =~= loaded.log);
    assert(made.answer(call) == (world.driver)(made.log, call));
    assert(fits(call, made.answer(call)));
    assert(made.after(call).log.drop_last() =~= made.log);
}

/// To get the device context of a context is to get that of the bound widget, or of the hidden window
/// where no widget is bound, and nothing else; to drop the guard is to release just that.
pub proof fn law_context_dc_calls(context: Context, world: World)
    requires
        world.answers(),
    ensures
        ({
            let window = match context.framebuffer {
                Framebuffer::Surface(surface) => match surface.win32_objects {
                    Win32Objects::Widget { window_handle } => window_handle,
                    Win32Objects::Texture => context.hidden_window.window,
                },
                _ => context.hidden_window.window,
            };
            let got = run(get_dc_program(context.window()), world);
            let dc = world.answer(Call::GetDc(window))->Dc_0;
            &&& got.result == Some(DCGuard { window, dc })
            &&& got.world == world.after(Call::GetDc(window))
        }),
        forall|guard: DCGuard| {
            let end = #[trigger] run(release_dc_program(guard), world);
            &&& end.result == Some(())
            &&& end.world == world.after(Call::ReleaseDc { window: guard.window, dc: guard.dc })
        },
{
    reveal_with_fuel(run, 2);
    law_context_is_drawn_through(context);
    let get_dc = Call::GetDc(context.window());
    assert(fits(get_dc, world.answer(get_dc)));
    assert forall|guard: DCGuard| {
        let end = #[trigger] run(release_dc_program(guard), world);
        &&& end.result == Some(())
        &&& end.world == world.after(Call::ReleaseDc { window: guard.window, dc: guard.dc })
    } by {
        let release = Call::ReleaseDc { window: guard.window, dc: guard.dc };
        assert(fits(release, world.answer(release)));
    }
}

/// To make a context current is to get the device context of the bound widget, or of the hidden
/// window where no widget is bound, to make the context's rendering context current on it, and to
/// release it. The result is the driver's answer.
pub proof fn law_make_context_current_calls(context: Context, world: World)
    requires
        world.answers(),
    ensures
        ({
            let window = match context.framebuffer {
                Framebuffer::Surface(surface) => match surface.win32_objects {
                    Win32Objects::Widget { window_handle } => window_handle,
                    Win32Objects::Texture => context.hidden_window.window,
                },
                _ => context.hidden_window.window,
            };
            let dc = world.answer(Call::GetDc(window))->Dc_0;
            let make = Call::MakeCurrent { dc, glrc: context.glrc };
            let w1 = world.after(Call::GetDc(window));
            let w2 = w1.after(make);
            let end = run(make_current_program(context.window(), context.glrc), world);
            &&& end.world == w2.after(Call::ReleaseDc { window, dc })
            &&& end.result == Some(
                if w1.answer(make) == Reply::Success(true) {
                    Ok::<(), Error>(())
                } else {
                    Err(Error::MakeCurrentFailed(WindowingApiError::Failed))
                },
            )
        }),
{
    law_context_is_drawn_through(context);
    lemma_make_current_calls(context.window(), context.glrc, world);
}

pub(crate) proof fn lemma_make_current_calls(window: Hwnd, glrc: Hglrc, world: World)
    requires
        world.answers(),
    ensures
        ({
            let dc = world.answer(Call::GetDc(window))->Dc_0;
            let make = Call::MakeCurrent { dc, glrc };
            let w1 = world.after(Call::GetDc(window));
            let w2 = w1.after(make);
            let end = run(make_current_program(window, glrc), world);
            &&& end.world == w2.after(Call::ReleaseDc { window, dc })
            &&& end.result == Some(
                if w1.answer(make) == Reply::Success(true) {
                    Ok::<(), Error>(())
                } else {
                    Err(Error::MakeCurrentFailed(WindowingApiError::Failed))
                },
            )
        }),
{
    reveal_with_fuel(run, 4);
    assert(fits(Call::GetDc(window), world.answer(Call::GetDc(window))));
    let dc = world.answer(Call::GetDc(window))->Dc_0;
    let w1 = world.after(Call::GetDc(window));
    let make = Call::MakeCurrent { dc, glrc };
    assert(fits(make, w1.answer(make)));
    let w2 = w1.after(make);
    let release = Call::ReleaseDc { window, dc };
    assert(fits(release, w2.answer(release)));
}

/// To leave no context current is one call, with null handles. The result is the driver's answer.
pub proof fn law_make_no_context_current_calls(world: World)
    requires
        world.answers(),
    ensures
        ({
            let make = Call::MakeCurrent { dc: Hdc(0), glrc: Hglrc(0) };
            let end = run(make_no_context_current_program(), world);
            &&& end.world == world.after(make)
            &&& end.result == Some(
                if world.answer(make) == Reply::Success(true) {
                    Ok::<(), Error>(())
                } else {
                    Err(Error::MakeCurrentFailed(WindowingApiError::Failed))
                },
            )
        }),
{
    reveal_with_fuel(run, 2);
    let make = Call::MakeCurrent { dc: Hdc(0), glrc: Hglrc(0) };
    assert(fits(make, world.answer(make)));
}

/// A rendering context is current exactly if it is the one that the thread has current; and the
/// current one is found exactly if its handle is neither null nor all ones.
pub proof fn law_current_context_calls(glrc: Hglrc, world: World)
    ensures
        run(is_current_program(glrc), world).result == Some(world.glrc == glrc),
        run(is_current_program(glrc), world).world == world.after(Call::GetCurrentContext),
        run(current_native_context_program(), world).result == Some(
            if world.glrc.0 == 0 || world.glrc.0 == -1 {
                Err::<NativeContext, Error>(Error::NoCurrentContext)
            } else {
                Ok(NativeContext(world.glrc))
            },
        ),
        run(current_native_context_program(), world).world == world.after(Call::GetCurrentContext),
{
    reveal_with_fuel(run, 2);
}

/// A guard remembers what is current, by two questions; and to drop it is one attempt to make just
/// that current.
pub proof fn law_current_guard_calls(guard: CurrentContextGuard, world: World)
    requires
        world.answers(),
    ensures
        run(save_current_program(), world).result == Some(
            CurrentContextGuard { old_dc: world.dc, old_glrc: world.glrc },
        ),
        run(save_current_program(), world).world == world.after(Call::GetCurrentDc).after(
            Call::GetCurrentContext,
        ),
        run(restore_current_program(guard), world).result == Some(()),
        run(restore_current_program(guard), world).world == world.after(
            Call::MakeCurrent { dc: guard.old_dc, glrc: guard.old_glrc },
        ),
{
    reveal_with_fuel(run, 3);
    let make = Call::MakeCurrent { dc: guard.old_dc, glrc: guard.old_glrc };
    assert(fits(make, world.answer(make)));
}

/// To make a context current for a while is to remember what is current and to make the context
/// current; where that fails, what was current is made current again. The guard holds what was
/// current before.
pub proof fn law_temporarily_make_context_current_calls(context: Context, world: World)
    requires
        world.answers(),
    ensures
        ({
            let window = match context.framebuffer {
                Framebuffer::Surface(surface) => match surface.win32_objects {
                    Win32Objects::Widget { window_handle } => window_handle,
                    Win32Objects::Texture => context.hidden_window.window,
                },
                _ => context.hidden_window.window,
            };
            let w1 = world.after(Call::GetCurrentDc).after(Call::GetCurrentContext);
            let dc = w1.answer(Call::GetDc(window))->Dc_0;
            let make = Call::MakeCurrent { dc, glrc: context.glrc };
            let w2 = w1.after(Call::GetDc(window));
            let w3 = w2.after(make).after(Call::ReleaseDc { window, dc });
            let end = run(
                temporarily_make_current_program(context.window(), context.glrc),
                world,
            );
            if w2.answer(make) == Reply::Success(true) {
                &&& end.world == w3
                &&& end.result == Some(
                    Ok::<CurrentContextGuard, Error>(
                        CurrentContextGuard { old_dc: world.dc, old_glrc: world.glrc },
                    ),
                )
            } else {
                &&& end.world == w3.after(Call::MakeCurrent { dc: world.dc, glrc: world.glrc })
                &&& end.result == Some(
                    Err::<CurrentContextGuard, Error>(
                        Error::MakeCurrentFailed(WindowingApiError::Failed),
                    ),
                )
            }
        }),
{
    law_context_is_drawn_through(context);
    lemma_temporarily_calls(context.window(), context.glrc, world);
}

pub(crate) proof fn lemma_temporarily_calls(window: Hwnd, glrc: Hglrc, world: World)
    requires
        world.answers(),
    ensures
        ({
            let w1 = world.after(Call::GetCurrentDc).after(Call::GetCurrentContext);
            let dc = w1.answer(Call::GetDc(window))->Dc_0;
            let make = Call::MakeCurrent { dc, glrc };
            let w2 = w1.after(Call::GetDc(window));
            let w3 = w2.after(make).after(Call::ReleaseDc { window, dc });
            let end = run(temporarily_make_current_program(window, glrc), world);
            if w2.answer(make) == Reply::Success(true) {
                &&& end.world == w3
                &&& end.result == Some(
                    Ok::<CurrentContextGuard, Error>(
                        CurrentContextGuard { old_dc: world.dc, old_glrc: world.glrc },
                    ),
                )
            } else {
                &&& end.world == w3.after(Call::MakeCurrent { dc: world.dc, glrc: world.glrc })
                &&& end.result == Some(
                    Err::<CurrentContextGuard, Error>(
                        Error::MakeCurrentFailed(WindowingApiError::Failed),
                    ),
                )
            }
        }),
{
    let guard = CurrentContextGuard { old_dc: world.dc, old_glrc: world.glrc };
    law_current_guard_calls(guard, world);
    let saved = run(save_current_program(), world).world;
    let then = |guard: CurrentContextGuard|
        temporarily_after_make_program(make_current_program(window, glrc), guard);
    lemma_run_bind(save_current_program(), then, world);
    assert(temporarily_make_current_program(window, glrc) == bind(save_current_program(), then));
    let making = make_current_program(window, glrc);
    lemma_make_current_calls(window, glrc, saved);
    let then2 = |result: Result<(), Error>|
        match result {
            Ok(_) => Program::Done(Ok::<CurrentContextGuard, Error>(guard)),
            Err(error) => temporarily_failed_program(guard, error),
        };
    lemma_run_bind(making, then2, saved);
    assert(temporarily_after_make_program(making, guard) == bind(making, then2));
    reveal_with_fuel(run, 2);
    let made = run(making, saved).world;
    let restore = Call::MakeCurrent { dc: world.dc, glrc: world.glrc };
    assert(fits(restore, made.answer(restore)));
}

/// The OpenGL functions of a rendering context are loaded while that very rendering context is
/// current, whatever was current before, and the result is the table that was loaded then. What was
/// current before is made current again afterwards in any case: also where the rendering context
/// cannot be made current, and then nothing is loaded, or where the loading panics.
pub proof fn law_load_gl_calls(dc: Hdc, glrc: Hglrc, world: World)
    requires
        world.answers(),
    ensures
        ({
            let w1 = world.after(Call::GetCurrentDc).after(Call::GetCurrentContext);
            let make = Call::MakeCurrent { dc, glrc };
            let loading = w1.after(make);
            let restore = Call::MakeCurrent { dc: world.dc, glrc: world.glrc };
            let end = run(load_gl_program(dc, glrc), world);
            if w1.answer(make) == Reply::Success(true) {
                &&& loading.glrc == glrc
                &&& loading.answer(Call::LoadGl) == Reply::Gl(end.result)
                &&& end.world == loading.after(Call::LoadGl).after(restore)
            } else {
                &&& end.result is None
                &&& end.world == loading.after(restore)
            }
        }),
{
    let guard = CurrentContextGuard { old_dc: world.dc, old_glrc: world.glrc };
    law_current_guard_calls(guard, world);
    let saved = run(save_current_program(), world).world;
    let then = |guard: CurrentContextGuard| load_gl_make_current_program(guard, dc, glrc);
    lemma_run_bind(save_current_program(), then, world);
    assert(load_gl_program(dc, glrc) == bind(save_current_program(), then));
    reveal_with_fuel(run, 4);
    let make = Call::MakeCurrent { dc, glrc };
    assert(fits(make, saved.answer(make)));
    let made = saved.after(make);
    assert(fits(Call::LoadGl, made.answer(Call::LoadGl)));
    let loaded = made.after(Call::LoadGl);
    let restore = Call::MakeCurrent { dc: world.dc, glrc: world.glrc };
    assert(fits(restore, loaded.answer(restore)));
    assert(fits(restore, made.answer(restore)));
}

} // verus!
