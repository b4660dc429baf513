//! What contexts are like when they are created.

use crate::attributes::{context_request, ContextDescriptor};
use crate::call::{Call, Reply};
use crate::context::{Context, ContextID, ContextStatus, Framebuffer, Gl, HiddenWindow};
use crate::creation::{
    abandon_program, create_after_load_program, create_context_program, create_dc_program,
    create_end_program, create_glrc_program, create_window_program, share_handle,
    wrap_after_load_program, wrap_context_program, CreatedContext, CreationRequest,
};
use crate::current::load_gl_program;
use crate::device::Device;
use crate::error::{Error, WindowingApiError};
use crate::handles::{Hdc, Hglrc};
use crate::laws::current::{law_load_gl_calls, law_load_gl_is_undone};
use crate::pixel_format::{set_dc_pixel_format_program, PixelFormatDescriptor};
use crate::program::bind_or_undo;
use crate::world::{
    fits, lemma_log_grows, lemma_run_bind_or_undo, lemma_stays_orderly, lemma_still_answers, run,
    succeeds, World,
};
use vstd::prelude::*;

verus! {

/// Whether two worlds differ in nothing but what is current, which hidden windows there are, which
/// pixel formats windows have and which windows device contexts were last got for, and which calls
/// were made.
pub open spec fn only_windows_differ(before: World, after: World) -> bool {
    &&& after.read_framebuffers == before.read_framebuffers
    &&& after.draw_framebuffers == before.draw_framebuffers
    &&& after.locked == before.locked
    &&& after.held == before.held
    &&& after.driver == before.driver
    &&& after.lost == before.lost
}

/// Whether a device context was given the pixel format of a descriptor.
pub open spec fn format_was_set(log: Seq<Call>, dc: Hdc, pixel_format: i32) -> bool {
    exists|descriptor: PixelFormatDescriptor|
        #[trigger] log.contains(Call::SetPixelFormat { dc, pixel_format, descriptor })
}

/// Whether a rendering context with the version and profile of a descriptor was asked for.
pub open spec fn context_was_asked_for(log: Seq<Call>, request: CreationRequest, dc: Hdc) -> bool {
    log.contains(
        Call::CreateContextAttribsArb {
            function: request.function,
            dc,
            share: request.share,
            request: context_request(
                request.descriptor.gl_version,
                request.descriptor.compatibility_profile,
            ),
        },
    )
}

proof fn lemma_prefix_contains(log: Seq<Call>, longer: Seq<Call>, call: Call)
    requires
        log.is_prefix_of(longer),
        log.contains(call),
    ensures
        longer.contains(call),
{
    let k = choose|k: int| 0 <= k < log.len() && log[k] == call;
    assert(longer[k] == call);
}

proof fn lemma_set_format(dc: Hdc, pixel_format: i32, world: World)
    ensures
        ({
            let end = run(set_dc_pixel_format_program(dc, pixel_format), world);
            &&& end.world.current() == world.current()
            &&& only_windows_differ(world, end.world)
            &&& end.world.windows == world.windows
            &&& world.cooperative() ==> end.result is Some
            &&& end.result is Some ==> format_was_set(end.world.log, dc, pixel_format)
            &&& end.world.formats == (if end.result is Some && world.owners.dom().contains(dc) {
                world.formats.insert(world.owners[dc], pixel_format)
            } else {
                world.formats
            })
        }),
{
    reveal_with_fuel(run, 3);
    let program = set_dc_pixel_format_program(dc, pixel_format);
    let describe = program->Call_0;
    assert(world.cooperative() ==> succeeds(describe, world.answer(describe)));
    let w1 = world.after(describe);
    let set = program.resumed(world.answer(describe))->Call_0;
    assert(world.cooperative() ==> succeeds(set, w1.answer(set)));
    if run(program, world).result is Some {
        let descriptor = world.answer(describe)->DescribedFormat_descriptor;
        assert(set == Call::SetPixelFormat { dc, pixel_format, descriptor });
        let log = w1.after(set).log;
        assert(log.last() == set);
        assert(log.contains(set));
    }
}

/// The context is there: what is left releases the device context and hands the context out, or
/// lets go of it where there is no ID left.
proof fn lemma_create_end(context: Context, dc: Hdc, world: World)
    requires
        world.answers(),
    ensures
        ({
            let end = run(create_end_program(context, dc), world);
            let released = world.after(
                Call::ReleaseDc { window: context.hidden_window.window, dc },
            );
            match end.result {
                Some(result) => {
                    &&& context.id.0 < u64::MAX
                    &&& result == Ok::<CreatedContext, Error>(
                        CreatedContext {
                            context,
                            next_context_id: ContextID((context.id.0 + 1) as u64),
                        },
                    )
                    &&& end.world == released
                },
                None => {
                    &&& context.id.0 == u64::MAX
                    &&& end.world == released.after(
                        Call::DestroyHiddenWindow(context.hidden_window),
                    )
                },
            }
        }),
{
    reveal_with_fuel(run, 3);
    let release = Call::ReleaseDc { window: context.hidden_window.window, dc };
    assert(fits(release, world.answer(release)));
    let destroy = Call::DestroyHiddenWindow(context.hidden_window);
    assert(fits(destroy, world.after(release).answer(destroy)));
}

/// The creation cannot go on: what is left releases the device context and lets go of the window.
proof fn lemma_abandon(hidden_window: HiddenWindow, dc: Hdc, world: World)
    requires
        world.answers(),
    ensures
        run(abandon_program(hidden_window, dc), world).result is None,
        run(abandon_program(hidden_window, dc), world).world == world.after(
            Call::ReleaseDc { window: hidden_window.window, dc },
        ).after(Call::DestroyHiddenWindow(hidden_window)),
{
    reveal_with_fuel(run, 3);
    let release = Call::ReleaseDc { window: hidden_window.window, dc };
    assert(fits(release, world.answer(release)));
    let destroy = Call::DestroyHiddenWindow(hidden_window);
    assert(fits(destroy, world.after(release).answer(destroy)));
}

/// The rendering context is there, and the hidden window and its device context: the OpenGL
/// functions are loaded, and the context is handed out. Where that panics, device context and hidden
/// window are gone. What was current is current again in either case, wherever the driver can make it
/// so.
proof fn lemma_load_and_end(context: Context, dc: Hdc, world: World)
    requires
        world.orderly(),
    ensures
        ({
            let hidden_window = context.hidden_window;
            let end = run(
                bind_or_undo(
                    load_gl_program(dc, context.glrc),
                    |gl: Gl| create_end_program(Context { gl, ..context }, dc),
                    abandon_program(hidden_window, dc),
                ),
                world,
            );
            &&& world.cooperative() && context.id.0 < u64::MAX ==> end.result is Some
            &&& end.world.held == world.held.remove((hidden_window.window, dc))
            &&& end.world.read_framebuffers == world.read_framebuffers
            &&& end.world.draw_framebuffers == world.draw_framebuffers
            &&& end.world.locked == world.locked
            &&& end.world.driver == world.driver
            &&& end.world.lost == world.lost
            &&& match end.result {
                Some(result) => {
                    &&& result matches Ok(created) && created.context == (Context {
                        gl: created.context.gl,
                        ..context
                    }) && created.next_context_id.0 == context.id.0 + 1
                    &&& world.restorable_after(end.world.log.drop_last().drop_last())
                        ==> end.world.current() == world.current()
                    &&& end.world.windows == world.windows
                    &&& end.world.formats == world.formats
                },
                None => {
                    &&& world.restorable_after(end.world.log.drop_last().drop_last().drop_last())
                        ==> end.world.current() == world.current()
                    &&& end.world.windows == world.windows.remove(hidden_window)
                    &&& end.world.formats == world.formats.remove(hidden_window.window)
                },
            }
        }),
{
    let hidden_window = context.hidden_window;
    let loading = load_gl_program(dc, context.glrc);
    let then = |gl: Gl| create_end_program(Context { gl, ..context }, dc);
    let undo = abandon_program(hidden_window, dc);
    lemma_run_bind_or_undo(loading, then, undo, world);
    law_load_gl_is_undone(dc, context.glrc, world);
    lemma_stays_orderly(loading, world);
    let loaded = run(loading, world);
    let end = run(bind_or_undo(loading, then, undo), world);
    let release = Call::ReleaseDc { window: hidden_window.window, dc };
    let destroy = Call::DestroyHiddenWindow(hidden_window);
    let released = loaded.world.after(release);
    assert(released.log.drop_last() =~= loaded.world.log);
    assert(released.after(destroy).log.drop_last() =~= released.log);
    match loaded.result {
        Some(gl) => {
            lemma_create_end(Context { gl, ..context }, dc, loaded.world);
        },
        None => {
            lemma_abandon(hidden_window, dc, loaded.world);
        },
    }
}

/// A context that is created is owned, renders to nothing, has a handle that names a rendering
/// context, and has the ID that it was to get; the next context gets a greater one. It brings one
/// hidden window with it, which was given the pixel format of the descriptor, and the driver was
/// asked for the version and profile of the descriptor and for the given context to share with. Apart
/// from that, everything is left as it was, and what was current is current again, wherever the
/// driver can make it so.
///
/// Where the result is an error, there is no window more than before, and what is current stays. The
/// error is that the driver lacks the extension, and then nothing is called, or that it gave no
/// rendering context.
///
/// Even where the creation panics, there is no window more than before, no device context is held
/// that was not, and what was current is current again, wherever the driver can make it so. It does
/// not panic where the driver does what it is asked for and there is an ID left for the next context.
pub proof fn law_create_context(
    device: Device,
    descriptor: ContextDescriptor,
    share: Hglrc,
    id: ContextID,
    world: World,
)
    requires
        world.orderly(),
    ensures
        ({
            let end = run(create_context_program(device, descriptor, share, id), world);
            let hidden_window = world.answer(Call::CreateHiddenWindow)->HiddenWindow_0;
            let w1 = world.after(Call::CreateHiddenWindow);
            let dc = w1.answer(Call::GetDc(hidden_window.window))->Dc_0;
            let function = device.extension_functions.create_context_attribs_arb->0;
            let request = CreationRequest { function, descriptor, share, id };
            &&& world.cooperative() && id.0 < u64::MAX ==> end.result is Some
            &&& only_windows_differ(world, end.world)
            &&& device.extension_functions.create_context_attribs_arb is None ==> end.result
                == Some(Err::<CreatedContext, Error>(Error::RequiredExtensionUnavailable))
                && end.world == world
            &&& device.extension_functions.create_context_attribs_arb is Some ==> match end.result {
                Some(Ok(created)) => {
                    &&& format_was_set(end.world.log, dc, descriptor.pixel_format)
                    &&& context_was_asked_for(end.world.log, request, dc)
                    &&& world.restorable_after(end.world.log.drop_last().drop_last())
                        ==> end.world.current() == world.current()
                    &&& created.context.wf()
                    &&& created.context.status is Owned
                    &&& created.context.framebuffer is Nothing
                    &&& !created.context.glrc.invalid()
                    &&& created.context.id == id
                    &&& created.next_context_id.0 == id.0 + 1
                    &&& created.context.hidden_window == hidden_window
                    &&& end.world.windows == world.windows.insert(hidden_window)
                    &&& end.world.formats == world.formats.insert(
                        hidden_window.window,
                        descriptor.pixel_format,
                    )
                },
                Some(Err(error)) => {
                    &&& error == Error::ContextCreationFailed(WindowingApiError::Failed)
                    &&& end.world.current() == world.current()
                    &&& end.world.windows == world.windows
                    &&& end.world.formats == world.formats.remove(hidden_window.window)
                },
                None => {
                    &&& world.restorable_after(end.world.log.drop_last().drop_last().drop_last())
                        ==> end.world.current() == world.current()
                    &&& end.world.windows == world.windows
                    &&& end.world.formats == world.formats.remove(hidden_window.window)
                },
            }
        }),
{
    let program = create_context_program(device, descriptor, share, id);
    reveal_with_fuel(run, 2);
    if let Some(function) = device.extension_functions.create_context_attribs_arb {
        let request = CreationRequest { function, descriptor, share, id };
        assert(program == create_window_program(request));
        let create = Call::CreateHiddenWindow;
        assert(fits(create, world.answer(create)));
        let hidden_window = world.answer(create)->HiddenWindow_0;
        let w1 = world.after(create);
        assert(run(program, world) == run(create_dc_program(request, hidden_window), w1));
        let get_dc = Call::GetDc(hidden_window.window);
        assert(fits(get_dc, w1.answer(get_dc)));
        let dc = w1.answer(get_dc)->Dc_0;
        let w2 = w1.after(get_dc);
        let setting = set_dc_pixel_format_program(dc, descriptor.pixel_format);
        let then = |u: ()| create_glrc_program(request, hidden_window, dc);
        let undo = abandon_program(hidden_window, dc);
        assert(run(program, world) == run(bind_or_undo(setting, then, undo), w2));
        lemma_run_bind_or_undo(setting, then, undo, w2);
        lemma_set_format(dc, descriptor.pixel_format, w2);
        let w3 = run(setting, w2).world;
        assert(w3.held.remove((hidden_window.window, dc)) =~= world.held);
        assert(w3.windows.remove(hidden_window) =~= world.windows);
        assert(w3.formats.remove(hidden_window.window) =~= world.formats.remove(
            hidden_window.window,
        ));
        if run(setting, w2).result is Some {
            assert(run(program, world) == run(create_glrc_program(request, hidden_window, dc), w3));
            lemma_create_glrc(request, hidden_window, dc, w3);
            let log = run(program, world).world.log;
            lemma_log_grows(create_glrc_program(request, hidden_window, dc), w3);
            let format = choose|format: PixelFormatDescriptor|
                #[trigger] w3.log.contains(
                    Call::SetPixelFormat {
                        dc,
                        pixel_format: descriptor.pixel_format,
                        descriptor: format,
                    },
                );
            let set = Call::SetPixelFormat {
                dc,
                pixel_format: descriptor.pixel_format,
                descriptor: format,
            };
            lemma_prefix_contains(w3.log, log, set);
        } else {
            lemma_abandon(hidden_window, dc, w3);
        }
    }
}

/// The device context of the hidden window has its pixel format.
proof fn lemma_create_glrc(
    request: CreationRequest,
    hidden_window: HiddenWindow,
    dc: Hdc,
    world: World,
)
    requires
        world.orderly(),
    ensures
        ({
            let end = run(create_glrc_program(request, hidden_window, dc), world);
            &&& world.cooperative() && request.id.0 < u64::MAX ==> end.result is Some
            &&& end.world.read_framebuffers == world.read_framebuffers
            &&& end.world.draw_framebuffers == world.draw_framebuffers
            &&& end.world.locked == world.locked
            &&& end.world.held == world.held.remove((hidden_window.window, dc))
            &&& end.world.driver == world.driver
            &&& end.world.lost == world.lost
            &&& match end.result {
                Some(Ok(created)) => {
                    &&& created.context.wf()
                    &&& created.context.status is Owned
                    &&& created.context.framebuffer is Nothing
                    &&& created.context.hidden_window == hidden_window
                    &&& !created.context.glrc.invalid()
                    &&& created.context.id == request.id
                    &&& created.next_context_id.0 == request.id.0 + 1
                    &&& context_was_asked_for(end.world.log, request, dc)
                    &&& world.restorable_after(end.world.log.drop_last().drop_last())
                        ==> end.world.current() == world.current()
                    &&& end.world.windows == world.windows
                    &&& end.world.formats == world.formats
                },
                Some(Err(error)) => {
                    &&& error == Error::ContextCreationFailed(WindowingApiError::Failed)
                    &&& end.world.current() == world.current()
                    &&& end.world.windows == world.windows.remove(hidden_window)
                    &&& end.world.formats == world.formats.remove(hidden_window.window)
                },
                None => {
                    &&& world.restorable_after(end.world.log.drop_last().drop_last().drop_last())
                        ==> end.world.current() == world.current()
                    &&& end.world.windows == world.windows.remove(hidden_window)
                    &&& end.world.formats == world.formats.remove(hidden_window.window)
                },
            }
        }),
{
    let program = create_glrc_program(request, hidden_window, dc);
    let create = program->Call_0;
    assert(fits(create, world.answer(create)));
    let glrc = world.answer(create)->Context_0;
    let w1 = world.after(create);
    if glrc.invalid() {
        reveal_with_fuel(run, 4);
        let release = Call::ReleaseDc { window: hidden_window.window, dc };
        assert(fits(release, w1.answer(release)));
        let w2 = w1.after(release);
        let destroy = Call::DestroyHiddenWindow(hidden_window);
        assert(fits(destroy, w2.answer(destroy)));
    } else {
        let context = Context {
            glrc,
            id: request.id,
            gl: Gl { table: 0 },
            hidden_window,
            framebuffer: Framebuffer::Nothing,
            status: ContextStatus::Owned,
        };
        let rest = bind_or_undo(
            load_gl_program(dc, glrc),
            |gl: Gl| create_end_program(Context { gl, ..context }, dc),
            abandon_program(hidden_window, dc),
        );
        assert(create_after_load_program(
            load_gl_program(dc, glrc),
            request.id,
            hidden_window,
            dc,
            glrc,
        ) == rest) by {
            assert((|gl: Gl| create_end_program(Context { gl, ..context }, dc)) =~= (|gl: Gl|
                create_end_program(
                    Context {
                        glrc,
                        id: request.id,
                        gl,
                        hidden_window,
                        framebuffer: Framebuffer::Nothing,
                        status: ContextStatus::Owned,
                    },
                    dc,
                )));
        }
        assert(run(program, world) == run(rest, w1));
        lemma_load_and_end(context, dc, w1);
        lemma_log_grows(rest, w1);
        assert(w1.log.last() == create);
        assert(w1.log.contains(create));
        lemma_prefix_contains(w1.log, run(program, world).world.log, create);
    }
}

/// A context that wraps a rendering context of someone else is not owned, renders to an external
/// target, holds the very handle that it was given, and has the ID that it was to get; the next
/// context gets a greater one. It brings one hidden window with it. Apart from that, everything is
/// left as it was, and what was current is current again, wherever the driver can make it so. There
/// is no error.
///
/// Even where the wrapping panics, there is no window more than before, no device context is held
/// that was not, and what was current is current again, wherever the driver can make it so. It does
/// not panic where the driver does what it is asked for and there is an ID left for the next context.
pub proof fn law_wrap_context(glrc: Hglrc, id: ContextID, world: World)
    requires
        world.orderly(),
    ensures
        ({
            let end = run(wrap_context_program(glrc, id), world);
            let hidden_window = world.answer(Call::CreateHiddenWindow)->HiddenWindow_0;
            &&& world.cooperative() && id.0 < u64::MAX ==> end.result is Some
            &&& only_windows_differ(world, end.world)
            &&& match end.result {
                Some(result) => {
                    &&& world.restorable_after(end.world.log.drop_last().drop_last())
                        ==> end.world.current() == world.current()
                    &&& result matches Ok(created) && {
                        &&& created.context.wf()
                        &&& created.context.status is Referenced
                        &&& created.context.framebuffer is External
                        &&& created.context.glrc == glrc
                        &&& created.context.id == id
                        &&& created.next_context_id.0 == id.0 + 1
                        &&& created.context.hidden_window == hidden_window
                    }
                    &&& end.world.windows == world.windows.insert(hidden_window)
                    &&& end.world.formats == world.formats
                },
                None => {
                    &&& world.restorable_after(end.world.log.drop_last().drop_last().drop_last())
                        ==> end.world.current() == world.current()
                    &&& end.world.windows == world.windows
                    &&& end.world.formats == world.formats.remove(hidden_window.window)
                },
            }
        }),
{
    let program = wrap_context_program(glrc, id);
    reveal_with_fuel(run, 3);
    let create = Call::CreateHiddenWindow;
    assert(fits(create, world.answer(create)));
    let hidden_window = world.answer(create)->HiddenWindow_0;
    let w1 = world.after(create);
    let get_dc = Call::GetDc(hidden_window.window);
    assert(fits(get_dc, w1.answer(get_dc)));
    let dc = w1.answer(get_dc)->Dc_0;
    let w2 = w1.after(get_dc);
    let context = Context {
        glrc,
        id,
        gl: Gl { table: 0 },
        hidden_window,
        framebuffer: Framebuffer::External(()),
        status: ContextStatus::Referenced,
    };
    let rest = bind_or_undo(
        load_gl_program(dc, glrc),
        |gl: Gl| create_end_program(Context { gl, ..context }, dc),
        abandon_program(hidden_window, dc),
    );
    assert(wrap_after_load_program(load_gl_program(dc, glrc), glrc, id, hidden_window, dc) == rest)
        by {
        assert((|gl: Gl| create_end_program(Context { gl, ..context }, dc)) =~= (|gl: Gl|
            create_end_program(
                Context {
                    glrc,
                    id,
                    gl,
                    hidden_window,
                    framebuffer: Framebuffer::External(()),
                    status: ContextStatus::Referenced,
                },
                dc,
            )));
    }
    assert(run(program, world) == run(rest, w2));
    lemma_load_and_end(context, dc, w2);
    assert(w2.held.remove((hidden_window.window, dc)) =~= world.held);
    assert(w2.windows.remove(hidden_window) =~= world.windows);
}

/// Whether a creation that was to give some ID, whichever it was and however the driver answered,
/// ended with this.
pub open spec fn creates(id: ContextID, created: CreatedContext) -> bool {
    ||| exists|device: Device, descriptor: ContextDescriptor, share: Hglrc, world: World|
        world.orderly() && (#[trigger] run(
            create_context_program(device, descriptor, share, id),
            world,
        )).result == Some(Ok::<CreatedContext, Error>(created))
    ||| exists|glrc: Hglrc, world: World|
        world.orderly() && (#[trigger] run(wrap_context_program(glrc, id), world)).result == Some(
            Ok::<CreatedContext, Error>(created),
        )
}

/// Whether these contexts were created one after the other: each creation handed out the ID that
/// the next one used.
pub open spec fn created_in_turn(contexts: Seq<CreatedContext>) -> bool {
    &&& forall|k: int|
        0 <= k < contexts.len() ==> #[trigger] creates(contexts[k].context.id, contexts[k])
    &&& forall|k: int|
        0 < k < contexts.len() ==> creates(
            contexts[k - 1].next_context_id,
            #[trigger] contexts[k],
        )
}

/// A context gets the ID that it was to get, and the next one a greater one.
proof fn lemma_creates(id: ContextID, created: CreatedContext)
    requires
        creates(id, created),
    ensures
        created.context.id == id,
        created.next_context_id.0 == id.0 + 1,
{
    assert forall|device: Device, descriptor: ContextDescriptor, share: Hglrc, world: World|
        world.orderly() && (#[trigger] run(
            create_context_program(device, descriptor, share, id),
            world,
        )).result == Some(Ok::<CreatedContext, Error>(created)) implies created.context.id == id
        && created.next_context_id.0 == id.0 + 1 by {
        law_create_context(device, descriptor, share, id, world);
    }
    assert forall|glrc: Hglrc, world: World|
        world.orderly() && (#[trigger] run(wrap_context_program(glrc, id), world)).result == Some(
            Ok::<CreatedContext, Error>(created),
        ) implies created.context.id == id && created.next_context_id.0 == id.0 + 1 by {
        law_wrap_context(glrc, id, world);
    }
}

/// No two contexts that are created one after the other have the same ID, whether they were created
/// from a descriptor or wrap a rendering context.
pub proof fn law_context_ids_are_unique(contexts: Seq<CreatedContext>, i: int, j: int)
    requires
        created_in_turn(contexts),
        0 <= i < j < contexts.len(),
    ensures
        contexts[i].context.id.0 < contexts[j].context.id.0,
    decreases j - i,
{
    assert(creates(contexts[j - 1].context.id, contexts[j - 1]));
    lemma_creates(contexts[j - 1].context.id, contexts[j - 1]);
    assert(creates(contexts[j - 1].next_context_id, contexts[j]));
    lemma_creates(contexts[j - 1].next_context_id, contexts[j]);
    if i < j - 1 {
        law_context_ids_are_unique(contexts, i, j - 1);
    }
}

/// A device context is given a pixel format by describing that very format and setting it with the
/// description that came back. It panics exactly where there is no such format, and then nothing is
/// set, or where it cannot be set.
pub proof fn law_set_format_calls(dc: Hdc, pixel_format: i32, world: World)
    requires
        world.answers(),
    ensures
        ({
            let describe = Call::DescribePixelFormat { dc, pixel_format, size: 40 };
            let end = run(set_dc_pixel_format_program(dc, pixel_format), world);
            let w1 = world.after(describe);
            world.answer(describe) matches Reply::DescribedFormat { total, descriptor } && {
                let set = Call::SetPixelFormat { dc, pixel_format, descriptor };
                if total == 0 {
                    end.result is None && end.world == w1
                } else {
                    &&& end.world == w1.after(set)
                    &&& end.result is Some <==> w1.answer(set) == Reply::Success(true)
                }
            }
        }),
{
    reveal_with_fuel(run, 3);
    let describe = Call::DescribePixelFormat { dc, pixel_format, size: 40 };
    assert(fits(describe, world.answer(describe)));
    let descriptor = world.answer(describe)->DescribedFormat_descriptor;
    let set = Call::SetPixelFormat { dc, pixel_format, descriptor };
    assert(fits(set, world.after(describe).answer(set)));
}

/// The rendering context is there, and the hidden window and its device context. The OpenGL functions
/// are loaded while that rendering context is current; the context that is handed out has the table
/// that was loaded then. Where it panics, the hidden window is gone as well.
proof fn lemma_load_and_end_calls(context: Context, dc: Hdc, world: World)
    requires
        world.answers(),
    ensures
        ({
            let hidden_window = context.hidden_window;
            let end = run(
                bind_or_undo(
                    load_gl_program(dc, context.glrc),
                    |gl: Gl| create_end_program(Context { gl, ..context }, dc),
                    abandon_program(hidden_window, dc),
                ),
                world,
            );
            let make = Call::MakeCurrent { dc, glrc: context.glrc };
            let restore = Call::MakeCurrent { dc: world.dc, glrc: world.glrc };
            let release = Call::ReleaseDc { window: hidden_window.window, dc };
            let destroy = Call::DestroyHiddenWindow(hidden_window);
            let asked = world.after(Call::GetCurrentDc).after(Call::GetCurrentContext);
            let loading = asked.after(make);
            let loaded = loading.after(Call::LoadGl).after(restore).after(release);
            if asked.answer(make) != Reply::Success(true) {
                &&& end.result is None
                &&& end.world == loading.after(restore).after(release).after(destroy)
            } else {
                &&& loading.glrc == context.glrc
                &&& match loading.answer(Call::LoadGl) {
                    Reply::Gl(Some(gl)) => if context.id.0 == u64::MAX {
                        end.result is None && end.world == loaded.after(destroy)
                    } else {
                        &&& end.result == Some(
                            Ok::<CreatedContext, Error>(
                                CreatedContext {
                                    context: Context { gl, ..context },
                                    next_context_id: ContextID((context.id.0 + 1) as u64),
                                },
                            ),
                        )
                        &&& end.world == loaded
                    },
                    _ => end.result is None && end.world == loaded.after(destroy),
                }
            }
        }),
{
    let hidden_window = context.hidden_window;
    let loading = load_gl_program(dc, context.glrc);
    let then = |gl: Gl| create_end_program(Context { gl, ..context }, dc);
    let undo = abandon_program(hidden_window, dc);
    lemma_run_bind_or_undo(loading, then, undo, world);
    law_load_gl_calls(dc, context.glrc, world);
    lemma_still_answers(loading, world);
    let loaded = run(loading, world);
    match loaded.result {
        Some(gl) => {
            lemma_create_end(Context { gl, ..context }, dc, loaded.world);
        },
        None => {
            lemma_abandon(hidden_window, dc, loaded.world);
        },
    }
}

/// What it takes to create a context, call by call, and what comes of it. Without the extension
/// nothing is called. With it, a hidden window is created, and its device context is given the pixel
/// format of the descriptor. Then the driver is asked once for a rendering context, with the version
/// and profile of the descriptor, and with the handle of the context to share with, or the null
/// handle. What it answers is the handle of the new context, whatever was to be shared with, unless
/// it is null or all ones, which is the error. The OpenGL functions of the new context are the table
/// that was loaded while that very handle was current on the hidden window. Every device context is
/// released and what was current is made current again; and where there is no context to hand out,
/// the hidden window is destroyed.
pub proof fn law_create_context_calls(
    device: Device,
    descriptor: ContextDescriptor,
    share_with: Option<&Context>,
    id: ContextID,
    world: World,
)
    requires
        world.answers(),
    ensures
        ({
            let end = run(
                create_context_program(device, descriptor, share_handle(share_with), id),
                world,
            );
            match device.extension_functions.create_context_attribs_arb {
                None => {
                    &&& end.result == Some(
                        Err::<CreatedContext, Error>(Error::RequiredExtensionUnavailable),
                    )
                    &&& end.world == world
                },
                Some(function) => {
                    let hidden_window = world.answer(Call::CreateHiddenWindow)->HiddenWindow_0;
                    let w1 = world.after(Call::CreateHiddenWindow);
                    let get_dc = Call::GetDc(hidden_window.window);
                    let dc = w1.answer(get_dc)->Dc_0;
                    let release = Call::ReleaseDc { window: hidden_window.window, dc };
                    let destroy = Call::DestroyHiddenWindow(hidden_window);
                    let setting = run(
                        set_dc_pixel_format_program(dc, descriptor.pixel_format),
                        w1.after(get_dc),
                    );
                    let w2 = setting.world;
                    let request = context_request(
                        descriptor.gl_version,
                        descriptor.compatibility_profile,
                    );
                    let share = match share_with {
                        Some(context) => context.glrc,
                        None => Hglrc(0),
                    };
                    let create = Call::CreateContextAttribsArb { function, dc, share, request };
                    let glrc = w2.answer(create)->Context_0;
                    let w3 = w2.after(create);
                    let make = Call::MakeCurrent { dc, glrc };
                    let restore = Call::MakeCurrent { dc: world.dc, glrc: world.glrc };
                    let asked = w3.after(Call::GetCurrentDc).after(Call::GetCurrentContext);
                    let loading = asked.after(make);
                    let loaded = loading.after(Call::LoadGl).after(restore).after(release);
                    if setting.result is None {
                        &&& end.result is None
                        &&& end.world == w2.after(release).after(destroy)
                    } else if glrc.0 == 0 || glrc.0 == -1 {
                        &&& end.result == Some(
                            Err::<CreatedContext, Error>(
                                Error::ContextCreationFailed(WindowingApiError::Failed),
                            ),
                        )
                        &&& end.world == w3.after(release).after(destroy)
                    } else if asked.answer(make) != Reply::Success(true) {
                        &&& end.result is None
                        &&& end.world == loading.after(restore).after(release).after(destroy)
                    } else {
                        &&& loading.glrc == glrc
                        &&& match loading.answer(Call::LoadGl) {
                            Reply::Gl(Some(gl)) => if id.0 == u64::MAX {
                                end.result is None && end.world == loaded.after(destroy)
                            } else {
                                let context = Context {
                                    glrc,
                                    id,
                                    gl,
                                    hidden_window,
                                    framebuffer: Framebuffer::Nothing,
                                    status: ContextStatus::Owned,
                                };
                                &&& end.result == Some(
                                    Ok::<CreatedContext, Error>(
                                        CreatedContext {
                                            context,
                                            next_context_id: ContextID((id.0 + 1) as u64),
                                        },
                                    ),
                                )
                                &&& end.world == loaded
                            },
                            _ => end.result is None && end.world == loaded.after(destroy),
                        }
                    }
                },
            }
        }),
{
    let share = share_handle(share_with);
    let program = create_context_program(device, descriptor, share, id);
    reveal_with_fuel(run, 2);
    if let Some(function) = device.extension_functions.create_context_attribs_arb {
        let request = CreationRequest { function, descriptor, share, id };
        assert(program == create_window_program(request));
        let create = Call::CreateHiddenWindow;
        assert(fits(create, world.answer(create)));
        let hidden_window = world.answer(create)->HiddenWindow_0;
        let w1 = world.after(create);
        assert(run(program, world) == run(create_dc_program(request, hidden_window), w1));
        let get_dc = Call::GetDc(hidden_window.window);
        assert(fits(get_dc, w1.answer(get_dc)));
        let dc = w1.answer(get_dc)->Dc_0;
        let w2 = w1.after(get_dc);
        let setting = set_dc_pixel_format_program(dc, descriptor.pixel_format);
        let then = |u: ()| create_glrc_program(request, hidden_window, dc);
        let undo = abandon_program(hidden_window, dc);
        assert(run(program, world) == run(bind_or_undo(setting, then, undo), w2));
        lemma_run_bind_or_undo(setting, then, undo, w2);
        lemma_set_format(dc, descriptor.pixel_format, w2);
        let w3 = run(setting, w2).world;
        if run(setting, w2).result is Some {
            let creating = create_glrc_program(request, hidden_window, dc);
            assert(run(program, world) == run(creating, w3));
            let ask = creating->Call_0;
            assert(fits(ask, w3.answer(ask)));
            let glrc = w3.answer(ask)->Context_0;
            let w4 = w3.after(ask);
            if glrc.invalid() {
                reveal_with_fuel(run, 4);
                let release = Call::ReleaseDc { window: hidden_window.window, dc };
                assert(fits(release, w4.answer(release)));
                let destroy = Call::DestroyHiddenWindow(hidden_window);
                assert(fits(destroy, w4.after(release).answer(destroy)));
            } else {
                let context = Context {
                    glrc,
                    id,
                    gl: Gl { table: 0 },
                    hidden_window,
                    framebuffer: Framebuffer::Nothing,
                    status: ContextStatus::Owned,
                };
                let rest = bind_or_undo(
                    load_gl_program(dc, glrc),
                    |gl: Gl| create_end_program(Context { gl, ..context }, dc),
                    abandon_program(hidden_window, dc),
                );
                assert(create_after_load_program(
                    load_gl_program(dc, glrc),
                    id,
                    hidden_window,
                    dc,
                    glrc,
                ) == rest) by {
                    assert((|gl: Gl| create_end_program(Context { gl, ..context }, dc)) =~= (|
                        gl: Gl,
                    |
                        create_end_program(
                            Context {
                                glrc,
                                id,
                                gl,
                                hidden_window,
                                framebuffer: Framebuffer::Nothing,
                                status: ContextStatus::Owned,
                            },
                            dc,
                        )));
                }
                assert(run(program, world) == run(rest, w4));
                lemma_load_and_end_calls(context, dc, w4);
            }
        } else {
            lemma_abandon(hidden_window, dc, w3);
        }
    }
}

/// What it takes to wrap a rendering context, call by call, and what comes of it. A hidden window is
/// created; the OpenGL functions of the new context are the table that was loaded while the wrapped
/// rendering context was current on that window, whatever was current before. The new context holds
/// the very handle that was given. The device context is released and what was current is made
/// current again; and where there is no context to hand out, the hidden window is destroyed.
pub proof fn law_wrap_context_calls(glrc: Hglrc, id: ContextID, world: World)
    requires
        world.answers(),
    ensures
        ({
            let end = run(wrap_context_program(glrc, id), world);
            let hidden_window = world.answer(Call::CreateHiddenWindow)->HiddenWindow_0;
            let w1 = world.after(Call::CreateHiddenWindow);
            let get_dc = Call::GetDc(hidden_window.window);
            let dc = w1.answer(get_dc)->Dc_0;
            let release = Call::ReleaseDc { window: hidden_window.window, dc };
            let destroy = Call::DestroyHiddenWindow(hidden_window);
            let make = Call::MakeCurrent { dc, glrc };
            let restore = Call::MakeCurrent { dc: world.dc, glrc: world.glrc };
            let asked = w1.after(get_dc).after(Call::GetCurrentDc).after(Call::GetCurrentContext);
            let loading = asked.after(make);
            let loaded = loading.after(Call::LoadGl).after(restore).after(release);
            if asked.answer(make) != Reply::Success(true) {
                &&& end.result is None
                &&& end.world == loading.after(restore).after(release).after(destroy)
            } else {
                &&& loading.glrc == glrc
                &&& match loading.answer(Call::LoadGl) {
                    Reply::Gl(Some(gl)) => if id.0 == u64::MAX {
                        end.result is None && end.world == loaded.after(destroy)
                    } else {
                        let context = Context {
                            glrc,
                            id,
                            gl,
                            hidden_window,
                            framebuffer: Framebuffer::External(()),
                            status: ContextStatus::Referenced,
                        };
                        &&& end.result == Some(
                            Ok::<CreatedContext, Error>(
                                CreatedContext {
                                    context,
                                    next_context_id: ContextID((id.0 + 1) as u64),
                                },
                            ),
                        )
                        &&& end.world == loaded
                    },
                    _ => end.result is None && end.world == loaded.after(destroy),
                }
            }
        }),
{
    let program = wrap_context_program(glrc, id);
    reveal_with_fuel(run, 3);
    let create = Call::CreateHiddenWindow;
    assert(fits(create, world.answer(create)));
    let hidden_window = world.answer(create)->HiddenWindow_0;
    let w1 = world.after(create);
    let get_dc = Call::GetDc(hidden_window.window);
    assert(fits(get_dc, w1.answer(get_dc)));
    let dc = w1.answer(get_dc)->Dc_0;
    let w2 = w1.after(get_dc);
    let context = Context {
        glrc,
        id,
        gl: Gl { table: 0 },
        hidden_window,
        framebuffer: Framebuffer::External(()),
        status: ContextStatus::Referenced,
    };
    let rest = bind_or_undo(
        load_gl_program(dc, glrc),
        |gl: Gl| create_end_program(Context { gl, ..context }, dc),
        abandon_program(hidden_window, dc),
    );
    assert(wrap_after_load_program(load_gl_program(dc, glrc), glrc, id, hidden_window, dc) == rest)
        by {
        assert((|gl: Gl| create_end_program(Context { gl, ..context }, dc)) =~= (|gl: Gl|
            create_end_program(
                Context {
                    glrc,
                    id,
                    gl,
                    hidden_window,
                    framebuffer: Framebuffer::External(()),
                    status: ContextStatus::Referenced,
                },
                dc,
            )));
    }
    assert(run(program, world) == run(rest, w2));
    lemma_load_and_end_calls(context, dc, w2);
}

} // verus!
