//! Descriptors remember what they were made from.

use crate::attributes::{
    attributes_of, pixel_format_query, pixel_format_request, ContextAttributes, ContextDescriptor,
};
use crate::call::{Call, Reply};
use crate::context::{Context, ContextID, Framebuffer, Gl, Win32Objects};
use crate::creation::create_context_program;
use crate::current::{temporarily_make_current_program, CurrentContextGuard};
use crate::descriptor::{
    context_descriptor_program, create_descriptor_program, descriptor_attributes_program,
    read_version_program,
};
use crate::device::Device;
use crate::error::{Error, WindowingApiError};
use crate::handles::{Hdc, Hglrc, Hwnd};
use crate::laws::creation::law_create_context;
use crate::laws::current::{lemma_temporarily, lemma_temporarily_calls, only_current_differs};
use crate::laws::values::{law_context_is_drawn_through, law_pixel_format_request};
use crate::program::bind;
use crate::world::{
    as_current, fits, lemma_run_bind, lemma_stays_orderly, lemma_still_answers, run, World,
};
use vstd::prelude::*;

verus! {

/// To make a descriptor always comes to an end and leaves everything as it was. Without the
/// extension, nothing is called; with it, the driver is asked exactly once, for a format with the
/// requested attributes, and its answer decides: an error if the search failed or found nothing,
/// and otherwise a descriptor of the format that was found, with the requested version and profile.
pub proof fn law_create_descriptor(device: Device, attributes: ContextAttributes, world: World)
    requires
        world.orderly(),
    ensures
        ({
            let end = run(create_descriptor_program(device, attributes), world);
            &&& end.result is Some
            &&& end.world.current() == world.current()
            &&& only_current_differs(world, end.world)
            &&& match device.extension_functions.pixel_format_functions {
                None => {
                    &&& end.result->0 == Err::<ContextDescriptor, Error>(
                        Error::RequiredExtensionUnavailable,
                    )
                    &&& end.world == world
                },
                Some(functions) => {
                    let get_dc = Call::GetDc(device.hidden_window.window);
                    let dc = world.answer(get_dc)->Dc_0;
                    let choose = Call::ChoosePixelFormatArb {
                        function: functions.choose_pixel_format_arb,
                        dc,
                        attribs: pixel_format_request(attributes.flags),
                        max_formats: 1,
                    };
                    let release = Call::ReleaseDc { window: device.hidden_window.window, dc };
                    &&& end.world.log == world.log + seq![get_dc, choose, release]
                    &&& world.after(get_dc).answer(choose) matches Reply::ChosenFormat {
                        ok,
                        pixel_format,
                        count,
                    } && match end.result->0 {
                        Ok(descriptor) => {
                            &&& ok && count != 0
                            &&& descriptor.pixel_format == pixel_format
                            &&& descriptor.gl_version == attributes.version
                            &&& descriptor.compatibility_profile
                                == attributes.flags.compatibility_profile
                        },
                        Err(error) => if !ok {
                            error == Error::PixelFormatSelectionFailed(WindowingApiError::Failed)
                        } else {
                            count == 0 && error == Error::NoPixelFormatFound
                        },
                    }
                },
            }
        }),
{
    reveal_with_fuel(run, 4);
    if let Some(functions) = device.extension_functions.pixel_format_functions {
        let get_dc = Call::GetDc(device.hidden_window.window);
        assert(fits(get_dc, world.answer(get_dc)));
        let dc = world.answer(get_dc)->Dc_0;
        let w1 = world.after(get_dc);
        let choose = Call::ChoosePixelFormatArb {
            function: functions.choose_pixel_format_arb,
            dc,
            attribs: pixel_format_request(attributes.flags),
            max_formats: 1,
        };
        assert(fits(choose, w1.answer(choose)));
        let w2 = w1.after(choose);
        let release = Call::ReleaseDc { window: device.hidden_window.window, dc };
        assert(fits(release, w2.answer(release)));
        assert(w2.after(release).held =~= world.held);
        assert(w2.after(release).log =~= world.log + seq![get_dc, choose, release]);
    }
}

/// Whether the bits of a pixel format are those that were requested: each buffer that was requested
/// has some, and no other buffer has any.
pub open spec fn bits_match(attributes: ContextAttributes, bits: [i32; 3]) -> bool {
    &&& bits[0] > 0 <==> attributes.flags.alpha
    &&& bits[1] > 0 <==> attributes.flags.depth
    &&& bits[2] > 0 <==> attributes.flags.stencil
}

/// What the driver answers when it is asked for the bits of the pixel format of a descriptor. It has
/// the extension for that.
pub open spec fn bits_reply(device: Device, descriptor: ContextDescriptor, world: World) -> Reply {
    let get_dc = Call::GetDc(device.hidden_window.window);
    world.after(get_dc).answer(
        Call::GetPixelFormatAttribivArb {
            function:
                device.extension_functions.pixel_format_functions->0.get_pixel_format_attribiv_arb,
            dc: world.answer(get_dc)->Dc_0,
            pixel_format: descriptor.pixel_format,
            layer_plane: 0,
            queried: pixel_format_query(),
        },
    )
}

/// The attributes of a descriptor are its version and profile and the buffers that the driver says
/// its pixel format has. To read them leaves everything as it was, even where it panics. It panics
/// exactly where the driver lacks the extension, and then nothing is called, or cannot tell.
pub proof fn law_descriptor_attributes(device: Device, descriptor: ContextDescriptor, world: World)
    requires
        world.orderly(),
    ensures
        ({
            let end = run(descriptor_attributes_program(device, descriptor), world);
            &&& end.world.current() == world.current()
            &&& only_current_differs(world, end.world)
            &&& if device.extension_functions.pixel_format_functions is None {
                end.result is None && end.world == world
            } else {
                bits_reply(device, descriptor, world) matches Reply::FormatAttributes { ok, values }
                    && end.result == (if ok {
                    Some(attributes_of(descriptor, values))
                } else {
                    None
                })
            }
        }),
{
    reveal_with_fuel(run, 4);
    if let Some(functions) = device.extension_functions.pixel_format_functions {
        let window = device.hidden_window.window;
        let get_dc = Call::GetDc(window);
        assert(fits(get_dc, world.answer(get_dc)));
        let dc = world.answer(get_dc)->Dc_0;
        let w1 = world.after(get_dc);
        let read = Call::GetPixelFormatAttribivArb {
            function: functions.get_pixel_format_attribiv_arb,
            dc,
            pixel_format: descriptor.pixel_format,
            layer_plane: 0,
            queried: pixel_format_query(),
        };
        assert(fits(read, w1.answer(read)));
        assert(w1.answer(read) == bits_reply(device, descriptor, world));
        let w2 = w1.after(read);
        let release = Call::ReleaseDc { window, dc };
        assert(fits(release, w2.answer(release)));
        assert(w2.after(release).held =~= world.held);
    }
}

/// The attributes of a descriptor have the version and the profile that it was made from. They are
/// the very attributes that it was made from, wherever the driver found a format with just the
/// buffers that were requested.
pub proof fn law_attributes_of_descriptor(
    device: Device,
    attributes: ContextAttributes,
    world: World,
    later: World,
)
    requires
        world.orderly(),
        later.orderly(),
        run(create_descriptor_program(device, attributes), world).result->0 is Ok,
    ensures
        ({
            let descriptor = (run(create_descriptor_program(device, attributes), world).result->0)->Ok_0;
            let end = run(descriptor_attributes_program(device, descriptor), later);
            bits_reply(device, descriptor, later) matches Reply::FormatAttributes { ok, values } && {
                &&& end.result is Some <==> ok
                &&& ok ==> end.result->0.version == attributes.version
                &&& ok ==> end.result->0.flags.compatibility_profile
                    == attributes.flags.compatibility_profile
                &&& ok && bits_match(attributes, values) ==> end.result->0 == attributes
            }
        }),
{
    law_create_descriptor(device, attributes, world);
    let descriptor = (run(create_descriptor_program(device, attributes), world).result->0)->Ok_0;
    law_descriptor_attributes(device, descriptor, later);
}

/// The descriptor of a context is read from the driver: the pixel format is that of the device
/// context that the context is drawn through, and version and profile are those of the context,
/// which is current when they are asked for, wherever the driver can make it so. To read them always
/// comes to an end and leaves everything as it was; and what was current is current again, wherever
/// the driver can make it so.
pub proof fn law_context_descriptor(context: Context, world: World)
    requires
        world.orderly(),
    ensures
        ({
            let end = run(
                context_descriptor_program(context.window(), context.glrc, context.gl),
                world,
            );
            let get_dc = Call::GetDc(context.window());
            let read_format = Call::GetPixelFormat(world.answer(get_dc)->Dc_0);
            let reading = world.after(get_dc).after(read_format);
            let made = run(
                temporarily_make_current_program(context.window(), context.glrc),
                reading,
            );
            let read_version = Call::GetGlVersion(context.gl);
            let read_profile = Call::GetCompatibilityProfile(context.gl);
            &&& end.result == Some(
                ContextDescriptor {
                    pixel_format: world.after(get_dc).answer(read_format)->PixelFormat_0,
                    gl_version: made.world.answer(read_version)->GlVersion_0,
                    compatibility_profile: made.world.after(read_version).answer(
                        read_profile,
                    )->CompatibilityProfile_0,
                },
            )
            &&& only_current_differs(world, end.world)
            &&& match made.result->0 {
                Ok(_) => {
                    &&& made.world.glrc == context.glrc
                    &&& world.restorable_after(end.world.log.drop_last().drop_last())
                        ==> end.world.current() == world.current()
                },
                Err(_) => world.restorable_after(made.world.log.drop_last())
                    ==> end.world.current() == world.current(),
            }
        }),
{
    let window = context.window();
    let glrc = context.glrc;
    let gl = context.gl;
    let program = context_descriptor_program(window, glrc, gl);
    reveal_with_fuel(run, 3);
    let get_dc = Call::GetDc(window);
    assert(fits(get_dc, world.answer(get_dc)));
    let dc = world.answer(get_dc)->Dc_0;
    let w1 = world.after(get_dc);
    let read = Call::GetPixelFormat(dc);
    assert(fits(read, w1.answer(read)));
    let pixel_format = w1.answer(read)->PixelFormat_0;
    let w2 = w1.after(read);
    let making = temporarily_make_current_program(window, glrc);
    let then = |result: Result<CurrentContextGuard, Error>|
        read_version_program(window, dc, gl, pixel_format, result);
    assert(run(program, world) == run(bind(making, then), w2));
    lemma_run_bind(making, then, w2);
    lemma_temporarily(window, glrc, w2);
    lemma_stays_orderly(making, w2);
    let made = run(making, w2);
    lemma_read_rest(window, dc, gl, pixel_format, made.result->0, made.world);
    assert(w2.held.remove((window, dc)) =~= world.held);
}

/// Whether the driver says of a context that it has the version and the profile of a descriptor, when
/// it is asked.
pub open spec fn driver_agrees(
    descriptor: ContextDescriptor,
    context: Context,
    world: World,
) -> bool {
    let get_dc = Call::GetDc(context.window());
    let read_format = Call::GetPixelFormat(world.answer(get_dc)->Dc_0);
    let reading = world.after(get_dc).after(read_format);
    let made = run(temporarily_make_current_program(context.window(), context.glrc), reading).world;
    let read_version = Call::GetGlVersion(context.gl);
    let read_profile = Call::GetCompatibilityProfile(context.gl);
    &&& made.answer(read_version) == Reply::GlVersion(descriptor.gl_version)
    &&& made.after(read_version).answer(read_profile) == Reply::CompatibilityProfile(
        descriptor.compatibility_profile,
    )
}

/// The descriptor of a context has the pixel format of the descriptor that the context was created
/// with, as long as its hidden window keeps the format that the creation has set. It is the very
/// descriptor that the context was created with, wherever the driver gave the context the version and
/// the profile that were asked for.
pub proof fn law_descriptor_of_created_context(
    device: Device,
    descriptor: ContextDescriptor,
    share: Hglrc,
    id: ContextID,
    world: World,
    later: World,
)
    requires
        world.orderly(),
        later.orderly(),
        ({
            let end = run(create_context_program(device, descriptor, share, id), world);
            end.result matches Some(Ok(created)) && later.format(
                created.context.hidden_window.window,
            ) == end.world.format(created.context.hidden_window.window)
        }),
    ensures
        ({
            let created = run(
                create_context_program(device, descriptor, share, id),
                world,
            ).result->0->Ok_0;
            let context = created.context;
            let read = run(
                context_descriptor_program(context.window(), context.glrc, context.gl),
                later,
            ).result;
            &&& read is Some
            &&& read->0.pixel_format == descriptor.pixel_format
            &&& driver_agrees(descriptor, context, later) ==> read->0 == descriptor
        }),
{
    law_create_context(device, descriptor, share, id, world);
    let created = run(
        create_context_program(device, descriptor, share, id),
        world,
    ).result->0->Ok_0;
    let context = created.context;
    law_context_descriptor(context, later);
    let get_dc = Call::GetDc(context.window());
    assert(fits(get_dc, later.answer(get_dc)));
    let dc = later.answer(get_dc)->Dc_0;
    assert(later.after(get_dc).format_of(dc) == Some(descriptor.pixel_format));
}

/// The rendering context was made current, or was not: what is left reads version and profile,
/// brings back what was current, and releases the device context.
proof fn lemma_read_rest(
    window: Hwnd,
    dc: Hdc,
    gl: Gl,
    pixel_format: i32,
    made_current: Result<CurrentContextGuard, Error>,
    world: World,
)
    requires
        world.orderly(),
    ensures
        ({
            let end = run(read_version_program(window, dc, gl, pixel_format, made_current), world);
            let version = Call::GetGlVersion(gl);
            &&& end.result == Some(
                ContextDescriptor {
                    pixel_format,
                    gl_version: world.answer(version)->GlVersion_0,
                    compatibility_profile: world.after(version).answer(
                        Call::GetCompatibilityProfile(gl),
                    )->CompatibilityProfile_0,
                },
            )
            &&& match made_current {
                Ok(guard) => (world.driver)(
                    end.world.log.drop_last().drop_last(),
                    Call::MakeCurrent { dc: guard.old_dc, glrc: guard.old_glrc },
                ) == Reply::Success(true) ==> end.world.current() == as_current(
                    guard.old_dc,
                    guard.old_glrc,
                ),
                Err(_) => end.world.current() == world.current(),
            }
            &&& end.world.read_framebuffers == world.read_framebuffers
            &&& end.world.draw_framebuffers == world.draw_framebuffers
            &&& end.world.formats == world.formats
            &&& end.world.locked == world.locked
            &&& end.world.held == world.held.remove((window, dc))
            &&& end.world.windows == world.windows
            &&& end.world.driver == world.driver
            &&& end.world.lost == world.lost
        }),
{
    reveal_with_fuel(run, 5);
    let version = Call::GetGlVersion(gl);
    assert(fits(version, world.answer(version)));
    let w1 = world.after(version);
    let profile = Call::GetCompatibilityProfile(gl);
    assert(fits(profile, w1.answer(profile)));
    let w2 = w1.after(profile);
    let release = Call::ReleaseDc { window, dc };
    match made_current {
        Ok(guard) => {
            let restore = Call::MakeCurrent { dc: guard.old_dc, glrc: guard.old_glrc };
            assert(w2.answer(restore) == (world.driver)(w2.log, restore));
            assert(fits(restore, w2.answer(restore)));
            let w3 = w2.after(restore);
            assert(fits(release, w3.answer(release)));
            assert(w3.after(release).log.drop_last().drop_last() =~= w2.log);
        },
        Err(_) => {
            assert(fits(release, w2.answer(release)));
        },
    }
}

/// To make a descriptor is to ask the driver for one pixel format, on the device context of the
/// device's hidden window, with the bits of each buffer that is requested and none of any other, and
/// to release the device context. The descriptor is of the format that came back, with the requested
/// version and profile; a search that failed and one that found nothing are different errors. Without
/// the extension nothing is called.
pub proof fn law_create_descriptor_calls(
    device: Device,
    attributes: ContextAttributes,
    world: World,
)
    requires
        world.answers(),
    ensures
        ({
            let end = run(create_descriptor_program(device, attributes), world);
            match device.extension_functions.pixel_format_functions {
                None => {
                    &&& end.result == Some(
                        Err::<ContextDescriptor, Error>(Error::RequiredExtensionUnavailable),
                    )
                    &&& end.world == world
                },
                Some(functions) => {
                    let window = device.hidden_window.window;
                    let dc = world.answer(Call::GetDc(window))->Dc_0;
                    let attribs = pixel_format_request(attributes.flags);
                    let ask = Call::ChoosePixelFormatArb {
                        function: functions.choose_pixel_format_arb,
                        dc,
                        attribs,
                        max_formats: 1,
                    };
                    let w1 = world.after(Call::GetDc(window));
                    &&& attribs@[13] == (if attributes.flags.alpha {
                        8int
                    } else {
                        0
                    })
                    &&& attribs@[15] == (if attributes.flags.depth {
                        24int
                    } else {
                        0
                    })
                    &&& attribs@[17] == (if attributes.flags.stencil {
                        8int
                    } else {
                        0
                    })
                    &&& end.world == w1.after(ask).after(Call::ReleaseDc { window, dc })
                    &&& w1.answer(ask) matches Reply::ChosenFormat { ok, pixel_format, count }
                        && end.result == Some(
                        if !ok {
                            Err::<ContextDescriptor, Error>(
                                Error::PixelFormatSelectionFailed(WindowingApiError::Failed),
                            )
                        } else if count == 0 {
                            Err(Error::NoPixelFormatFound)
                        } else {
                            Ok(
                                ContextDescriptor {
                                    pixel_format,
                                    gl_version: attributes.version,
                                    compatibility_profile: attributes.flags.compatibility_profile,
                                },
                            )
                        },
                    )
                },
            }
        }),
{
    reveal_with_fuel(run, 4);
    law_pixel_format_request(attributes.flags);
    if let Some(functions) = device.extension_functions.pixel_format_functions {
        let get_dc = Call::GetDc(device.hidden_window.window);
        assert(fits(get_dc, world.answer(get_dc)));
        let dc = world.answer(get_dc)->Dc_0;
        let w1 = world.after(get_dc);
        let ask = Call::ChoosePixelFormatArb {
            function: functions.choose_pixel_format_arb,
            dc,
            attribs: pixel_format_request(attributes.flags),
            max_formats: 1,
        };
        assert(fits(ask, w1.answer(ask)));
        let release = Call::ReleaseDc { window: device.hidden_window.window, dc };
        assert(fits(release, w1.after(ask).answer(release)));
    }
}

/// To turn a descriptor back to attributes is to ask the driver for the alpha, depth and stencil bits
/// of its pixel format, on the device context of the device's hidden window, and to release the
/// device context, also where the driver cannot tell and it panics. The attributes have the version
/// and the profile of the descriptor, and each buffer that has a bit.
pub proof fn law_descriptor_attributes_calls(
    device: Device,
    descriptor: ContextDescriptor,
    world: World,
)
    requires
        world.answers(),
    ensures
        ({
            let end = run(descriptor_attributes_program(device, descriptor), world);
            match device.extension_functions.pixel_format_functions {
                None => end.result is None && end.world == world,
                Some(functions) => {
                    let window = device.hidden_window.window;
                    let dc = world.answer(Call::GetDc(window))->Dc_0;
                    let queried = pixel_format_query();
                    let ask = Call::GetPixelFormatAttribivArb {
                        function: functions.get_pixel_format_attribiv_arb,
                        dc,
                        pixel_format: descriptor.pixel_format,
                        layer_plane: 0,
                        queried,
                    };
                    let w1 = world.after(Call::GetDc(window));
                    &&& queried@ == seq![0x201bi32, 0x2022i32, 0x2023i32]
                    &&& end.world == w1.after(ask).after(Call::ReleaseDc { window, dc })
                    &&& w1.answer(ask) matches Reply::FormatAttributes { ok, values }
                        && match end.result {
                        None => !ok,
                        Some(attributes) => {
                            &&& ok
                            &&& attributes.version == descriptor.gl_version
                            &&& attributes.flags.alpha <==> values@[0] > 0
                            &&& attributes.flags.depth <==> values@[1] > 0
                            &&& attributes.flags.stencil <==> values@[2] > 0
                            &&& attributes.flags.compatibility_profile
                                <==> descriptor.compatibility_profile
                        },
                    }
                },
            }
        }),
{
    reveal_with_fuel(run, 4);
    if let Some(functions) = device.extension_functions.pixel_format_functions {
        let window = device.hidden_window.window;
        let get_dc = Call::GetDc(window);
        assert(fits(get_dc, world.answer(get_dc)));
        let dc = world.answer(get_dc)->Dc_0;
        let w1 = world.after(get_dc);
        let ask = Call::GetPixelFormatAttribivArb {
            function: functions.get_pixel_format_attribiv_arb,
            dc,
            pixel_format: descriptor.pixel_format,
            layer_plane: 0,
            queried: pixel_format_query(),
        };
        assert(fits(ask, w1.answer(ask)));
        let release = Call::ReleaseDc { window, dc };
        assert(fits(release, w1.after(ask).answer(release)));
    }
}

/// To read the descriptor of a context is to read the pixel format of the device context of the bound
/// widget, or of the hidden window where no widget is bound; to make the context current; to ask for
/// its version and its profile; to make current again what was current; and to release the device
/// context. Where the context cannot be made current, version and profile are asked for all the same,
/// after what was current is current again. The descriptor holds the three answers.
pub proof fn law_context_descriptor_calls(context: Context, world: World)
    requires
        world.answers(),
    ensures
        ({
            let window = match context.framebuffer {
                Framebuffer::Surface(surface) => match surface.win32_objects {
                    Win32Objects::Widget { window_handle } => window_handle,
                    Win32Objects::Texture => context.hidden_window.window,
                },
                _ => context.hidden_window.window,
            };
            let dc = world.answer(Call::GetDc(window))->Dc_0;
            let w1 = world.after(Call::GetDc(window));
            let w2 = w1.after(Call::GetPixelFormat(dc));
            let w3 = w2.after(Call::GetCurrentDc).after(Call::GetCurrentContext);
            let dc2 = w3.answer(Call::GetDc(window))->Dc_0;
            let make = Call::MakeCurrent { dc: dc2, glrc: context.glrc };
            let restore = Call::MakeCurrent { dc: world.dc, glrc: world.glrc };
            let w4 = w3.after(Call::GetDc(window));
            let made = w4.answer(make) == Reply::Success(true);
            let w5 = w4.after(make).after(Call::ReleaseDc { window, dc: dc2 });
            let w6 = if made {
                w5
            } else {
                w5.after(restore)
            };
            let read_version = Call::GetGlVersion(context.gl);
            let read_profile = Call::GetCompatibilityProfile(context.gl);
            let w7 = w6.after(read_version).after(read_profile);
            let w8 = if made {
                w7.after(restore)
            } else {
                w7
            };
            let end = run(
                context_descriptor_program(context.window(), context.glrc, context.gl),
                world,
            );
            &&& made ==> w6.glrc == context.glrc
            &&& end.world == w8.after(Call::ReleaseDc { window, dc })
            &&& end.result == Some(
                ContextDescriptor {
                    pixel_format: w1.answer(Call::GetPixelFormat(dc))->PixelFormat_0,
                    gl_version: w6.answer(read_version)->GlVersion_0,
                    compatibility_profile: w6.after(read_version).answer(
                        read_profile,
                    )->CompatibilityProfile_0,
                },
            )
        }),
{
    law_context_is_drawn_through(context);
    let window = context.window();
    let glrc = context.glrc;
    let gl = context.gl;
    let program = context_descriptor_program(window, glrc, gl);
    reveal_with_fuel(run, 3);
    let get_dc = Call::GetDc(window);
    assert(fits(get_dc, world.answer(get_dc)));
    let dc = world.answer(get_dc)->Dc_0;
    let w1 = world.after(get_dc);
    let read = Call::GetPixelFormat(dc);
    assert(fits(read, w1.answer(read)));
    let pixel_format = w1.answer(read)->PixelFormat_0;
    let w2 = w1.after(read);
    let making = temporarily_make_current_program(window, glrc);
    let then = |result: Result<CurrentContextGuard, Error>|
        read_version_program(window, dc, gl, pixel_format, result);
    assert(run(program, world) == run(bind(making, then), w2));
    lemma_run_bind(making, then, w2);
    lemma_temporarily_calls(window, glrc, w2);
    lemma_still_answers(making, w2);
    let made = run(making, w2);
    lemma_read_rest_calls(window, dc, gl, pixel_format, made.result->0, made.world);
}

proof fn lemma_read_rest_calls(
    window: Hwnd,
    dc: Hdc,
    gl: Gl,
    pixel_format: i32,
    made: Result<CurrentContextGuard, Error>,
    world: World,
)
    requires
        world.answers(),
    ensures
        ({
            let end = run(read_version_program(window, dc, gl, pixel_format, made), world);
            let w1 = world.after(Call::GetGlVersion(gl)).after(Call::GetCompatibilityProfile(gl));
            let w2 = match made {
                Ok(guard) => w1.after(
                    Call::MakeCurrent { dc: guard.old_dc, glrc: guard.old_glrc },
                ),
                Err(_) => w1,
            };
            &&& end.world == w2.after(Call::ReleaseDc { window, dc })
            &&& end.result == Some(
                ContextDescriptor {
                    pixel_format,
                    gl_version: world.answer(Call::GetGlVersion(gl))->GlVersion_0,
                    compatibility_profile: world.after(Call::GetGlVersion(gl)).answer(
                        Call::GetCompatibilityProfile(gl),
                    )->CompatibilityProfile_0,
                },
            )
        }),
{
    reveal_with_fuel(run, 5);
    let version = Call::GetGlVersion(gl);
    assert(fits(version, world.answer(version)));
    let w1 = world.after(version);
    let profile = Call::GetCompatibilityProfile(gl);
    assert(fits(profile, w1.answer(profile)));
    let w2 = w1.after(profile);
    let release = Call::ReleaseDc { window, dc };
    assert(fits(release, w2.answer(release)));
    if let Ok(guard) = made {
        let restore = Call::MakeCurrent { dc: guard.old_dc, glrc: guard.old_glrc };
        assert(fits(restore, w2.answer(restore)));
        assert(fits(release, w2.after(restore).answer(release)));
    }
}

} // verus!
