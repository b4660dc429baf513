//! Pixel formats of device contexts.

use crate::call::{Call, Reply};
use crate::constants::{
    PFD_DOUBLEBUFFER, PFD_DRAW_TO_WINDOW, PFD_MAIN_PLANE, PFD_SUPPORT_OPENGL, PFD_TYPE_RGBA,
};
use crate::handles::{pixel_format_descriptor_size, Hdc};
use crate::program::{call_success, starts, Operation, Program, Step};
use vstd::prelude::*;

verus! {

/// A pixel format in full (`PIXELFORMATDESCRIPTOR`).
#[derive(Clone, Copy, Debug, PartialEq, Eq, Structural)]
pub struct PixelFormatDescriptor {
    pub size: u16,
    pub version: u16,
    pub flags: u32,
    pub pixel_type: u8,
    pub color_bits: u8,
    pub red_bits: u8,
    pub red_shift: u8,
    pub green_bits: u8,
    pub green_shift: u8,
    pub blue_bits: u8,
    pub blue_shift: u8,
    pub alpha_bits: u8,
    pub alpha_shift: u8,
    pub accum_bits: u8,
    pub accum_red_bits: u8,
    pub accum_green_bits: u8,
    pub accum_blue_bits: u8,
    pub accum_alpha_bits: u8,
    pub depth_bits: u8,
    pub stencil_bits: u8,
    pub aux_buffers: u8,
    pub layer_type: u8,
    pub reserved: u8,
    pub layer_mask: u32,
    pub visible_mask: u32,
    pub damage_mask: u32,
}

/// The pixel format that the window of the extension loader asks for: double buffered RGBA that
/// OpenGL can draw to a window with, with 32 bits of color, 24 of depth and 8 of stencil.
pub open spec fn loader_pixel_format() -> PixelFormatDescriptor {
    PixelFormatDescriptor {
        size: 40,
        version: 1,
        flags: PFD_DRAW_TO_WINDOW | PFD_SUPPORT_OPENGL | PFD_DOUBLEBUFFER,
        pixel_type: PFD_TYPE_RGBA,
        color_bits: 32,
        red_bits: 0,
        red_shift: 0,
        green_bits: 0,
        green_shift: 0,
        blue_bits: 0,
        blue_shift: 0,
        alpha_bits: 0,
        alpha_shift: 0,
        accum_bits: 0,
        accum_red_bits: 0,
        accum_green_bits: 0,
        accum_blue_bits: 0,
        accum_alpha_bits: 0,
        depth_bits: 24,
        stencil_bits: 8,
        aux_buffers: 0,
        layer_type: PFD_MAIN_PLANE,
        reserved: 0,
        layer_mask: 0,
        visible_mask: 0,
        damage_mask: 0,
    }
}

impl PixelFormatDescriptor {
    /// The pixel format that the window of the extension loader asks for.
    pub fn for_loader() -> (descriptor: PixelFormatDescriptor)
        ensures
            descriptor == loader_pixel_format(),
    {
        PixelFormatDescriptor {
            size: pixel_format_descriptor_size() as u16,
            version: 1,
            flags: PFD_DRAW_TO_WINDOW | PFD_SUPPORT_OPENGL | PFD_DOUBLEBUFFER,
            pixel_type: PFD_TYPE_RGBA,
            color_bits: 32,
            red_bits: 0,
            red_shift: 0,
            green_bits: 0,
            green_shift: 0,
            blue_bits: 0,
            blue_shift: 0,
            alpha_bits: 0,
            alpha_shift: 0,
            accum_bits: 0,
            accum_red_bits: 0,
            accum_green_bits: 0,
            accum_blue_bits: 0,
            accum_alpha_bits: 0,
            depth_bits: 24,
            stencil_bits: 8,
            aux_buffers: 0,
            layer_type: PFD_MAIN_PLANE,
            reserved: 0,
            layer_mask: 0,
            visible_mask: 0,
            damage_mask: 0,
        }
    }
}

/// Gives a device context a pixel format: the format is described, which must succeed, and then
/// set with that description, which must succeed too.
pub open spec fn set_dc_pixel_format_program(dc: Hdc, pixel_format: i32) -> Program<()> {
    Program::Call(
        Call::DescribePixelFormat { dc, pixel_format, size: 40 },
        |reply: Reply|
            match reply {
                Reply::DescribedFormat { total, descriptor } => if total == 0 {
                    Program::Abort
                } else {
                    set_described_format_program(dc, pixel_format, descriptor)
                },
                _ => Program::Abort,
            },
    )
}

/// Gives a device context a pixel format that was described.
pub open spec fn set_described_format_program(
    dc: Hdc,
    pixel_format: i32,
    descriptor: PixelFormatDescriptor,
) -> Program<()> {
    call_success(
        Call::SetPixelFormat { dc, pixel_format, descriptor },
        |ok: bool|
            if ok {
                Program::Done(())
            } else {
                Program::Abort
            },
    )
}

/// Giving a device context a pixel format.
pub enum SetDcPixelFormat {
    Describing { dc: Hdc, pixel_format: i32 },
    Setting { dc: Hdc, pixel_format: i32, descriptor: PixelFormatDescriptor },
}

impl Operation for SetDcPixelFormat {
    type Output = ();

    open spec fn program(self) -> Program<()> {
        match self {
            SetDcPixelFormat::Describing { dc, pixel_format } => set_dc_pixel_format_program(
                dc,
                pixel_format,
            ),
            SetDcPixelFormat::Setting { dc, pixel_format, descriptor } =>
                set_described_format_program(dc, pixel_format, descriptor),
        }
    }

    fn resume(self, reply: Reply) -> (step: Step<Self, ()>) {
        match (self, reply) {
            (
                SetDcPixelFormat::Describing { dc, pixel_format },
                Reply::DescribedFormat { total, descriptor },
            ) => {
                if total == 0 {
                    Step::Abort
                } else {
                    Step::Call(
                        Call::SetPixelFormat { dc, pixel_format, descriptor },
                        SetDcPixelFormat::Setting { dc, pixel_format, descriptor },
                    )
                }
            },
            (SetDcPixelFormat::Setting { .. }, Reply::Success(ok)) => {
                if ok {
                    Step::Done(())
                } else {
                    Step::Abort
                }
            },
            _ => Step::Abort,
        }
    }
}

/// Gives a device context a pixel format.
pub fn set_dc_pixel_format(dc: Hdc, pixel_format: i32) -> (step: Step<SetDcPixelFormat, ()>)
    ensures
        starts(step, set_dc_pixel_format_program(dc, pixel_format)),
{
    Step::Call(
        Call::DescribePixelFormat {
            dc,
            pixel_format,
            size: pixel_format_descriptor_size() as u32,
        },
        SetDcPixelFormat::Describing { dc, pixel_format },
    )
}

} // verus!
