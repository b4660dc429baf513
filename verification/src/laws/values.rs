//! What single values say: requests to the driver, and what is told of contexts and surfaces.

use crate::attributes::{
    attributes_of, context_request, pixel_format_query, pixel_format_request,
    ContextAttributeFlags, ContextDescriptor, GLVersion,
};
use crate::context::{Context, Framebuffer, Surface, Win32Objects};
use crate::creation::share_handle;
use crate::extensions::pointer;
use crate::handles::Hglrc;
use crate::loader::{loader_window, loader_window_class};
use crate::pixel_format::loader_pixel_format;
use vstd::prelude::*;

verus! {

/// A pixel format is asked for with 8 bits of alpha exactly if alpha is requested, with 24 bits of
/// depth exactly if depth is, and with 8 bits of stencil exactly if stencil is, and with none
/// otherwise. None of the three depends on another, and nothing else in the list depends on any of
/// them. It is always asked for 32 bits of color in a double buffered, hardware accelerated RGBA
/// format that OpenGL can draw to a window with.
pub proof fn law_pixel_format_request(flags: ContextAttributeFlags)
    ensures
        ({
            let list = pixel_format_request(flags)@;
            &&& list.len() == 19
            &&& list[0] == 0x2001 && list[1] == 1
            &&& list[2] == 0x2010 && list[3] == 1
            &&& list[4] == 0x2011 && list[5] == 1
            &&& list[6] == 0x2013 && list[7] == 0x202b
            &&& list[8] == 0x2003 && list[9] == 0x2027
            &&& list[10] == 0x2014 && list[11] == 32
            &&& list[12] == 0x201b && list[13] == (if flags.alpha {
                8int
            } else {
                0
            })
            &&& list[14] == 0x2022 && list[15] == (if flags.depth {
                24int
            } else {
                0
            })
            &&& list[16] == 0x2023 && list[17] == (if flags.stencil {
                8int
            } else {
                0
            })
            &&& list[18] == 0
        }),
{
}

/// The bits of a pixel format are asked for in the order alpha, depth, stencil.
pub proof fn law_pixel_format_query()
    ensures
        pixel_format_query()@ == seq![0x201bi32, 0x2022i32, 0x2023i32],
{
}

/// A context is asked for with the very version, and with the profile bit 2 exactly if the
/// compatibility profile is wanted, and 1 otherwise.
pub proof fn law_context_request(version: GLVersion, compatibility_profile: bool)
    ensures
        ({
            let list = context_request(version, compatibility_profile)@;
            &&& list.len() == 7
            &&& list[0] == 0x2091 && list[1] == version.major
            &&& list[2] == 0x2092 && list[3] == version.minor
            &&& list[4] == 0x9126 && list[5] == (if compatibility_profile {
                2int
            } else {
                1
            })
            &&& list[6] == 0
        }),
{
}

/// The attributes of a descriptor have its version and its profile, and each buffer exactly if the
/// driver counts at least one bit of it, whatever it counts of the others.
pub proof fn law_attributes_of(descriptor: ContextDescriptor, bits: [i32; 3])
    ensures
        attributes_of(descriptor, bits).version.major == descriptor.gl_version.major,
        attributes_of(descriptor, bits).version.minor == descriptor.gl_version.minor,
        attributes_of(descriptor, bits).flags.alpha <==> bits@[0] > 0,
        attributes_of(descriptor, bits).flags.depth <==> bits@[1] > 0,
        attributes_of(descriptor, bits).flags.stencil <==> bits@[2] > 0,
        attributes_of(descriptor, bits).flags.compatibility_profile
            <==> descriptor.compatibility_profile,
{
}

/// A context is drawn through the window of a widget exactly while that widget is bound, whatever
/// else is known of the surface; and through its hidden window at all other times.
pub proof fn law_context_is_drawn_through(context: Context)
    ensures
        match context.framebuffer {
            Framebuffer::Surface(surface) => match surface.win32_objects {
                Win32Objects::Widget { window_handle } => context.window() == window_handle,
                Win32Objects::Texture => context.window() == context.hidden_window.window,
            },
            Framebuffer::External(_) => context.window() == context.hidden_window.window,
            Framebuffer::Nothing => context.window() == context.hidden_window.window,
        },
{
}

/// Information about a surface is that of the surface.
pub proof fn law_surface_info(surface: Surface)
    ensures
        surface.info().size == surface.size,
        surface.info().id == surface.id,
        surface.info().context_id == surface.context_id,
        surface.info().framebuffer_object == surface.framebuffer_object,
{
}

/// A handle names no rendering context exactly if it is null or all ones.
pub proof fn law_invalid_handles(glrc: Hglrc)
    ensures
        glrc.invalid() <==> glrc.0 == 0 || glrc.0 == -1,
{
}

/// A context is shared with by its very handle, and with none by the null handle.
pub proof fn law_share_handle(context: Context)
    ensures
        share_handle(Some(&context)) == context.glrc,
        share_handle(None) == Hglrc(0),
{
}

/// There is a function at every address but zero.
pub proof fn law_pointer(address: usize)
    ensures
        pointer(address) == (if address == 0 {
            None
        } else {
            Some(address)
        }),
{
}

/// The window of the extension loader asks for double buffered RGBA that OpenGL can draw to a window
/// with, with 32 bits of color, 24 of depth and 8 of stencil, and for nothing else.
pub proof fn law_loader_pixel_format()
    ensures
        ({
            let format = loader_pixel_format();
            &&& format.size == 40
            &&& format.version == 1
            &&& format.flags == 0x25
            &&& format.pixel_type == 0
            &&& format.color_bits == 32
            &&& format.red_bits == 0 && format.red_shift == 0
            &&& format.green_bits == 0 && format.green_shift == 0
            &&& format.blue_bits == 0 && format.blue_shift == 0
            &&& format.alpha_bits == 0 && format.alpha_shift == 0
            &&& format.accum_bits == 0
            &&& format.accum_red_bits == 0
            &&& format.accum_green_bits == 0
            &&& format.accum_blue_bits == 0
            &&& format.accum_alpha_bits == 0
            &&& format.depth_bits == 24
            &&& format.stencil_bits == 8
            &&& format.aux_buffers == 0
            &&& format.layer_type == 0
            &&& format.reserved == 0
            &&& format.layer_mask == 0
            &&& format.visible_mask == 0
            &&& format.damage_mask == 0
        }),
{
    assert(0x04u32 | 0x20u32 | 0x01u32 == 0x25u32) by (bit_vector);
}

/// The class of the loader's window belongs to the module that registers it, and the window to that
/// module and class; the rest is the same for all of them.
pub proof fn law_loader_window(instance: isize, class: u16)
    ensures
        ({
            let registered = loader_window_class(instance);
            let created = loader_window(instance, class);
            &&& registered.name@ == "SurfmanFalseWindow"@
            &&& registered.style == 0x20
            &&& registered.class_extra == 0
            &&& registered.window_extra == 0
            &&& registered.instance == instance
            &&& registered.background == 1
            &&& created.class == class
            &&& created.title@ == "SurfmanFalseWindow"@
            &&& created.style == 0x10cf0000
            &&& created.x == 0 && created.y == 0
            &&& created.width == 640 && created.height == 480
            &&& created.instance == instance
        }),
{
    assert(0x00cf0000u32 | 0x10000000u32 == 0x10cf0000u32) by (bit_vector);
}

} // verus!
