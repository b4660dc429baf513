//! Framebuffer objects that are bound for a while.

use crate::call::Call;
use crate::constants::GL_FRAMEBUFFER;
use crate::context::Gl;
use crate::framebuffers::{
    restore_draw_framebuffer_program, restore_framebuffers_program, save_framebuffers_program,
    temporarily_bind_program, temporarily_bind_set_program, FramebufferGuard,
};
use crate::handles::Hglrc;
use crate::program::bind;
use crate::world::{fits, lemma_run_bind, run, World};
use vstd::prelude::*;

verus! {

/// A framebuffer object that is bound for a while is bound for reading and drawing in the context
/// that is current, and what was bound there before is bound again when the guard is dropped while
/// that context is current, whatever was bound in between. Nothing changes in any other context.
pub proof fn law_temporarily_bound_framebuffer_is_undone(
    gl: Gl,
    framebuffer: u32,
    world: World,
    meanwhile: World,
)
    requires
        world.orderly(),
        meanwhile.orderly(),
        world.glrc != Hglrc(0),
        meanwhile.glrc == world.glrc,
    ensures
        ({
            let end = run(temporarily_bind_program(gl, framebuffer), world);
            let restored = run(restore_framebuffers_program(end.result->0), meanwhile);
            &&& end.result is Some
            &&& end.world.read_framebuffers == world.read_framebuffers.insert(
                world.glrc,
                framebuffer,
            )
            &&& end.world.draw_framebuffers == world.draw_framebuffers.insert(
                world.glrc,
                framebuffer,
            )
            &&& end.world.current() == world.current()
            &&& restored.result is Some
            &&& restored.world.read_framebuffers == meanwhile.read_framebuffers.insert(
                world.glrc,
                world.read_framebuffers[world.glrc],
            )
            &&& restored.world.draw_framebuffers == meanwhile.draw_framebuffers.insert(
                world.glrc,
                world.draw_framebuffers[world.glrc],
            )
            &&& restored.world.current() == meanwhile.current()
        }),
{
    let saving = save_framebuffers_program(gl);
    let then = |guard: FramebufferGuard| temporarily_bind_set_program(guard, framebuffer);
    assert(temporarily_bind_program(gl, framebuffer) == bind(saving, then));
    lemma_run_bind(saving, then, world);
    reveal_with_fuel(run, 3);
    let read = world.read_framebuffers[world.glrc];
    let draw = world.draw_framebuffers[world.glrc];
    assert((read as i32) as u32 == read) by (bit_vector);
    assert((draw as i32) as u32 == draw) by (bit_vector);
    let saved = run(saving, world);
    let guard = FramebufferGuard { gl, old_read_framebuffer: read, old_draw_framebuffer: draw };
    assert(saved.result == Some(guard));
    let set = Call::BindFramebuffer { gl, target: GL_FRAMEBUFFER, framebuffer };
    assert(fits(set, saved.world.answer(set)));
    let first = restore_framebuffers_program(guard)->Call_0;
    assert(fits(first, meanwhile.answer(first)));
    let middle = meanwhile.after(first);
    let second = restore_draw_framebuffer_program(guard)->Call_0;
    assert(fits(second, middle.answer(second)));
}

/// A guard remembers the objects that the driver says are bound for drawing and for reading, each in
/// its place; to drop it binds each of them again where it was; and a framebuffer object that is
/// bound for a while is bound for both after the guard is made.
pub proof fn law_framebuffer_calls(
    gl: Gl,
    framebuffer: u32,
    guard: FramebufferGuard,
    world: World,
)
    requires
        world.answers(),
    ensures
        ({
            let ask_draw = Call::GetInteger { gl, name: 0x8ca6 };
            let ask_read = Call::GetInteger { gl, name: 0x8caa };
            let w1 = world.after(ask_draw);
            let w2 = w1.after(ask_read);
            let made = FramebufferGuard {
                gl,
                old_read_framebuffer: w1.answer(ask_read)->Integer_0 as u32,
                old_draw_framebuffer: world.answer(ask_draw)->Integer_0 as u32,
            };
            let saved = run(save_framebuffers_program(gl), world);
            let bound = run(temporarily_bind_program(gl, framebuffer), world);
            let restored = run(restore_framebuffers_program(guard), world);
            &&& saved.result == Some(made)
            &&& saved.world == w2
            &&& bound.result == Some(made)
            &&& bound.world == w2.after(Call::BindFramebuffer { gl, target: 0x8d40, framebuffer })
            &&& restored.result == Some(())
            &&& restored.world == world.after(
                Call::BindFramebuffer {
                    gl: guard.gl,
                    target: 0x8ca8,
                    framebuffer: guard.old_read_framebuffer,
                },
            ).after(
                Call::BindFramebuffer {
                    gl: guard.gl,
                    target: 0x8ca9,
                    framebuffer: guard.old_draw_framebuffer,
                },
            )
        }),
{
    let saving = save_framebuffers_program(gl);
    let then = |guard: FramebufferGuard| temporarily_bind_set_program(guard, framebuffer);
    assert(temporarily_bind_program(gl, framebuffer) == bind(saving, then));
    lemma_run_bind(saving, then, world);
    reveal_with_fuel(run, 3);
    let ask_draw = Call::GetInteger { gl, name: 0x8ca6 };
    let ask_read = Call::GetInteger { gl, name: 0x8caa };
    assert(fits(ask_draw, world.answer(ask_draw)));
    let w1 = world.after(ask_draw);
    assert(fits(ask_read, w1.answer(ask_read)));
    let w2 = w1.after(ask_read);
    let set = Call::BindFramebuffer { gl, target: GL_FRAMEBUFFER, framebuffer };
    assert(fits(set, w2.answer(set)));
    let first = restore_framebuffers_program(guard)->Call_0;
    assert(fits(first, world.answer(first)));
    let second = restore_draw_framebuffer_program(guard)->Call_0;
    assert(fits(second, world.after(first).answer(second)));
}

} // verus!
