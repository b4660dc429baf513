//! Context descriptors: made from attributes, read from a context, and turned back to attributes.

use crate::attributes::{
    attributes_of, pixel_format_query, pixel_format_request, ContextAttributes, ContextDescriptor,
    GLVersion,
};
use crate::call::{Call, Reply};
use crate::constants::{WGL_ALPHA_BITS_ARB, WGL_DEPTH_BITS_ARB, WGL_STENCIL_BITS_ARB};
use crate::context::{Context, Gl};
use crate::current::{
    temporarily_make_current_program, CurrentContextGuard, SaveCurrent,
    TemporarilyMakeContextCurrent,
};
use crate::device::Device;
use crate::error::{Error, WindowingApiError};
use crate::handles::{Hdc, Hglrc, Hwnd};
use crate::program::{
    bind, call_dc, call_gl_version, call_pixel_format, call_profile, call_success, call_unit,
    starts, Operation, Program, Step,
};
use vstd::prelude::*;

verus! {

// Making a descriptor.

/// How a search for a pixel format ends.
pub open spec fn descriptor_result(
    attributes: ContextAttributes,
    ok: bool,
    pixel_format: i32,
    count: u32,
) -> Result<ContextDescriptor, Error> {
    if !ok {
        Err(Error::PixelFormatSelectionFailed(WindowingApiError::Failed))
    } else if count == 0 {
        Err(Error::NoPixelFormatFound)
    } else {
        Ok(
            ContextDescriptor {
                pixel_format,
                gl_version: attributes.version,
                compatibility_profile: attributes.flags.compatibility_profile,
            },
        )
    }
}

/// Searches for a pixel format with the given attributes, on the device context of the device's
/// hidden window. Nothing is called where the driver lacks the extension for that.
pub open spec fn create_descriptor_program(
    device: Device,
    attributes: ContextAttributes,
) -> Program<Result<ContextDescriptor, Error>> {
    match device.extension_functions.pixel_format_functions {
        None => Program::Done(Err(Error::RequiredExtensionUnavailable)),
        Some(functions) => search_program(
            functions.choose_pixel_format_arb,
            device.hidden_window.window,
            attributes,
        ),
    }
}

/// The extension is there: a device context is needed.
pub open spec fn search_program(
    function: usize,
    window: Hwnd,
    attributes: ContextAttributes,
) -> Program<Result<ContextDescriptor, Error>> {
    call_dc(Call::GetDc(window), |dc: Hdc| search_on_program(function, window, dc, attributes))
}

/// The device context is there: one pixel format is asked for.
pub open spec fn search_on_program(
    function: usize,
    window: Hwnd,
    dc: Hdc,
    attributes: ContextAttributes,
) -> Program<Result<ContextDescriptor, Error>> {
    Program::Call(
        Call::ChoosePixelFormatArb {
            function,
            dc,
            attribs: pixel_format_request(attributes.flags),
            max_formats: 1,
        },
        |reply: Reply|
            match reply {
                Reply::ChosenFormat { ok, pixel_format, count } => search_end_program(
                    window,
                    dc,
                    descriptor_result(attributes, ok, pixel_format, count),
                ),
                _ => Program::Abort,
            },
    )
}

/// The search is over: the device context is released.
pub open spec fn search_end_program(
    window: Hwnd,
    dc: Hdc,
    result: Result<ContextDescriptor, Error>,
) -> Program<Result<ContextDescriptor, Error>> {
    call_unit(Call::ReleaseDc { window, dc }, || Program::Done(result))
}

/// Making a context descriptor.
pub enum CreateContextDescriptor {
    GettingDc { function: usize, window: Hwnd, attributes: ContextAttributes },
    Choosing { function: usize, window: Hwnd, dc: Hdc, attributes: ContextAttributes },
    ReleasingDc { window: Hwnd, dc: Hdc, result: Result<ContextDescriptor, Error> },
}

impl Operation for CreateContextDescriptor {
    type Output = Result<ContextDescriptor, Error>;

    open spec fn program(self) -> Program<Result<ContextDescriptor, Error>> {
        match self {
            CreateContextDescriptor::GettingDc { function, window, attributes } => search_program(
                function,
                window,
                attributes,
            ),
            CreateContextDescriptor::Choosing { function, window, dc, attributes } =>
                search_on_program(function, window, dc, attributes),
            CreateContextDescriptor::ReleasingDc { window, dc, result } => search_end_program(
                window,
                dc,
                result,
            ),
        }
    }

    fn resume(self, reply: Reply) -> (step: Step<Self, Result<ContextDescriptor, Error>>) {
        match (self, reply) {
            (
                CreateContextDescriptor::GettingDc { function, window, attributes },
                Reply::Dc(dc),
            ) => {
                let attribs: [i32; 19] = attributes.flags.pixel_format_attribs();
                Step::Call(
                    Call::ChoosePixelFormatArb { function, dc, attribs, max_formats: 1 },
                    CreateContextDescriptor::Choosing { function, window, dc, attributes },
                )
            },
            (
                CreateContextDescriptor::Choosing { window, dc, attributes, .. },
                Reply::ChosenFormat { ok, pixel_format, count },
            ) => {
                let result = if !ok {
                    Err(Error::PixelFormatSelectionFailed(WindowingApiError::Failed))
                } else if count == 0 {
                    Err(Error::NoPixelFormatFound)
                } else {
                    Ok(
                        ContextDescriptor {
                            pixel_format,
                            gl_version: attributes.version,
                            compatibility_profile: attributes.flags.compatibility_profile,
                        },
                    )
                };
                Step::Call(
                    Call::ReleaseDc { window, dc },
                    CreateContextDescriptor::ReleasingDc { window, dc, result },
                )
            },
            (CreateContextDescriptor::ReleasingDc { result, .. }, Reply::Unit) => {
                Step::Done(result)
            },
            _ => Step::Abort,
        }
    }
}

// Reading the descriptor of a context.

/// Reads the pixel format of the device context of a window, and then version and profile of a
/// rendering context, which is current on that device context meanwhile, if it can be made so. What
/// was current before is brought back.
pub open spec fn context_descriptor_program(
    window: Hwnd,
    glrc: Hglrc,
    gl: Gl,
) -> Program<ContextDescriptor> {
    call_dc(Call::GetDc(window), |dc: Hdc| read_pixel_format_program(window, dc, glrc, gl))
}

/// The device context is there: its pixel format is read.
pub open spec fn read_pixel_format_program(
    window: Hwnd,
    dc: Hdc,
    glrc: Hglrc,
    gl: Gl,
) -> Program<ContextDescriptor> {
    call_pixel_format(
        Call::GetPixelFormat(dc),
        |pixel_format: i32|
            read_after_make_program(
                temporarily_make_current_program(window, glrc),
                window,
                dc,
                gl,
                pixel_format,
            ),
    )
}

/// The rendering context is being made current; the rest follows, whether that succeeds or not.
pub open spec fn read_after_make_program(
    making: Program<Result<CurrentContextGuard, Error>>,
    window: Hwnd,
    dc: Hdc,
    gl: Gl,
    pixel_format: i32,
) -> Program<ContextDescriptor> {
    bind(
        making,
        |result: Result<CurrentContextGuard, Error>|
            read_version_program(window, dc, gl, pixel_format, result),
    )
}

/// The version is read.
pub open spec fn read_version_program(
    window: Hwnd,
    dc: Hdc,
    gl: Gl,
    pixel_format: i32,
    made_current: Result<CurrentContextGuard, Error>,
) -> Program<ContextDescriptor> {
    call_gl_version(
        Call::GetGlVersion(gl),
        |gl_version: GLVersion|
            read_profile_program(window, dc, gl, pixel_format, made_current, gl_version),
    )
}

/// The profile is read. Where the rendering context was made current, what was current before is
/// brought back.
pub open spec fn read_profile_program(
    window: Hwnd,
    dc: Hdc,
    gl: Gl,
    pixel_format: i32,
    made_current: Result<CurrentContextGuard, Error>,
    gl_version: GLVersion,
) -> Program<ContextDescriptor> {
    call_profile(
        Call::GetCompatibilityProfile(gl),
        |compatibility_profile: bool|
            {
                let descriptor = ContextDescriptor {
                    pixel_format,
                    gl_version,
                    compatibility_profile,
                };
                match made_current {
                    Ok(guard) => read_restore_program(window, dc, guard, descriptor),
                    Err(_) => read_end_program(window, dc, descriptor),
                }
            },
    )
}

/// Everything is read: what was current before is brought back.
pub open spec fn read_restore_program(
    window: Hwnd,
    dc: Hdc,
    guard: CurrentContextGuard,
    descriptor: ContextDescriptor,
) -> Program<ContextDescriptor> {
    call_success(
        Call::MakeCurrent { dc: guard.old_dc, glrc: guard.old_glrc },
        |ok: bool| read_end_program(window, dc, descriptor),
    )
}

/// What was current before is current again: the device context is released.
pub open spec fn read_end_program(
    window: Hwnd,
    dc: Hdc,
    descriptor: ContextDescriptor,
) -> Program<ContextDescriptor> {
    call_unit(Call::ReleaseDc { window, dc }, || Program::Done(descriptor))
}

/// Reading the descriptor of a context.
pub enum ReadContextDescriptor {
    GettingDc { window: Hwnd, glrc: Hglrc, gl: Gl },
    ReadingPixelFormat { window: Hwnd, dc: Hdc, glrc: Hglrc, gl: Gl },
    MakingCurrent {
        window: Hwnd,
        dc: Hdc,
        gl: Gl,
        pixel_format: i32,
        making: TemporarilyMakeContextCurrent,
    },
    ReadingVersion {
        window: Hwnd,
        dc: Hdc,
        gl: Gl,
        pixel_format: i32,
        made_current: Result<CurrentContextGuard, Error>,
    },
    ReadingProfile {
        window: Hwnd,
        dc: Hdc,
        gl: Gl,
        pixel_format: i32,
        made_current: Result<CurrentContextGuard, Error>,
        gl_version: GLVersion,
    },
    Restoring {
        window: Hwnd,
        dc: Hdc,
        guard: CurrentContextGuard,
        descriptor: ContextDescriptor,
    },
    ReleasingDc { window: Hwnd, dc: Hdc, descriptor: ContextDescriptor },
}

impl Operation for ReadContextDescriptor {
    type Output = ContextDescriptor;

    open spec fn program(self) -> Program<ContextDescriptor> {
        match self {
            ReadContextDescriptor::GettingDc { window, glrc, gl } => context_descriptor_program(
                window,
                glrc,
                gl,
            ),
            ReadContextDescriptor::ReadingPixelFormat { window, dc, glrc, gl } =>
                read_pixel_format_program(window, dc, glrc, gl),
            ReadContextDescriptor::MakingCurrent { window, dc, gl, pixel_format, making } =>
                read_after_make_program(making.program(), window, dc, gl, pixel_format),
            ReadContextDescriptor::ReadingVersion { window, dc, gl, pixel_format, made_current } =>
                read_version_program(window, dc, gl, pixel_format, made_current),
            ReadContextDescriptor::ReadingProfile {
                window,
                dc,
                gl,
                pixel_format,
                made_current,
                gl_version,
            } => read_profile_program(window, dc, gl, pixel_format, made_current, gl_version),
            ReadContextDescriptor::Restoring { window, dc, guard, descriptor } =>
                read_restore_program(window, dc, guard, descriptor),
            ReadContextDescriptor::ReleasingDc { window, dc, descriptor } => read_end_program(
                window,
                dc,
                descriptor,
            ),
        }
    }

    fn resume(self, reply: Reply) -> (step: Step<Self, ContextDescriptor>) {
        proof {
            reveal_with_fuel(bind, 3);
        }
        match self {
            ReadContextDescriptor::GettingDc { window, glrc, gl } => {
                match reply {
                    Reply::Dc(dc) => Step::Call(
                        Call::GetPixelFormat(dc),
                        ReadContextDescriptor::ReadingPixelFormat { window, dc, glrc, gl },
                    ),
                    _ => Step::Abort,
                }
            },
            ReadContextDescriptor::ReadingPixelFormat { window, dc, glrc, gl } => {
                match reply {
                    Reply::PixelFormat(pixel_format) => {
                        let making = TemporarilyMakeContextCurrent::Saving {
                            window,
                            glrc,
                            saving: SaveCurrent::GettingDc,
                        };
                        Step::Call(
                            Call::GetCurrentDc,
                            ReadContextDescriptor::MakingCurrent {
                                window,
                                dc,
                                gl,
                                pixel_format,
                                making,
                            },
                        )
                    },
                    _ => Step::Abort,
                }
            },
            ReadContextDescriptor::MakingCurrent { window, dc, gl, pixel_format, making } => {
                match making.resume(reply) {
                    Step::Call(call, making) => Step::Call(
                        call,
                        ReadContextDescriptor::MakingCurrent {
                            window,
                            dc,
                            gl,
                            pixel_format,
                            making,
                        },
                    ),
                    Step::Done(made_current) => Step::Call(
                        Call::GetGlVersion(gl),
                        ReadContextDescriptor::ReadingVersion {
                            window,
                            dc,
                            gl,
                            pixel_format,
                            made_current,
                        },
                    ),
                    Step::Abort => Step::Abort,
                }
            },
            ReadContextDescriptor::ReadingVersion { window, dc, gl, pixel_format, made_current } => {
                match reply {
                    Reply::GlVersion(gl_version) => Step::Call(
                        Call::GetCompatibilityProfile(gl),
                        ReadContextDescriptor::ReadingProfile {
                            window,
                            dc,
                            gl,
                            pixel_format,
                            made_current,
                            gl_version,
                        },
                    ),
                    _ => Step::Abort,
                }
            },
            ReadContextDescriptor::ReadingProfile {
                window,
                dc,
                pixel_format,
                made_current,
                gl_version,
                ..
            } => {
                match reply {
                    Reply::CompatibilityProfile(compatibility_profile) => {
                        let descriptor = ContextDescriptor {
                            pixel_format,
                            gl_version,
                            compatibility_profile,
                        };
                        match made_current {
                            Ok(guard) => Step::Call(
                                Call::MakeCurrent { dc: guard.old_dc, glrc: guard.old_glrc },
                                ReadContextDescriptor::Restoring { window, dc, guard, descriptor },
                            ),
                            Err(_) => Step::Call(
                                Call::ReleaseDc { window, dc },
                                ReadContextDescriptor::ReleasingDc { window, dc, descriptor },
                            ),
                        }
                    },
                    _ => Step::Abort,
                }
            },
            ReadContextDescriptor::Restoring { window, dc, descriptor, .. } => {
                match reply {
                    Reply::Success(_) => Step::Call(
                        Call::ReleaseDc { window, dc },
                        ReadContextDescriptor::ReleasingDc { window, dc, descriptor },
                    ),
                    _ => Step::Abort,
                }
            },
            ReadContextDescriptor::ReleasingDc { descriptor, .. } => {
                match reply {
                    Reply::Unit => Step::Done(descriptor),
                    _ => Step::Abort,
                }
            },
        }
    }
}

// Turning a descriptor back to attributes.

/// Reads how many alpha, depth and stencil bits the pixel format of a descriptor has, on the device
/// context of the device's hidden window. The driver must have the extension for that.
pub open spec fn descriptor_attributes_program(
    device: Device,
    descriptor: ContextDescriptor,
) -> Program<ContextAttributes> {
    match device.extension_functions.pixel_format_functions {
        None => Program::Abort,
        Some(functions) => read_attributes_program(
            functions.get_pixel_format_attribiv_arb,
            device.hidden_window.window,
            descriptor,
        ),
    }
}

/// The extension is there: a device context is needed.
pub open spec fn read_attributes_program(
    function: usize,
    window: Hwnd,
    descriptor: ContextDescriptor,
) -> Program<ContextAttributes> {
    call_dc(Call::GetDc(window), |dc: Hdc| read_bits_program(function, window, dc, descriptor))
}

/// The device context is there: the numbers of bits are read, which must succeed.
pub open spec fn read_bits_program(
    function: usize,
    window: Hwnd,
    dc: Hdc,
    descriptor: ContextDescriptor,
) -> Program<ContextAttributes> {
    Program::Call(
        Call::GetPixelFormatAttribivArb {
            function,
            dc,
            pixel_format: descriptor.pixel_format,
            layer_plane: 0,
            queried: pixel_format_query(),
        },
        |reply: Reply|
            match reply {
                Reply::FormatAttributes { ok, values } => if ok {
                    attributes_end_program(window, dc, attributes_of(descriptor, values))
                } else {
                    attributes_failed_program(window, dc)
                },
                _ => Program::Abort,
            },
    )
}

/// The numbers of bits cannot be read: the device context is released, and then it panics.
pub open spec fn attributes_failed_program(window: Hwnd, dc: Hdc) -> Program<ContextAttributes> {
    call_unit(Call::ReleaseDc { window, dc }, || Program::Abort)
}

/// The attributes are known: the device context is released.
pub open spec fn attributes_end_program(
    window: Hwnd,
    dc: Hdc,
    attributes: ContextAttributes,
) -> Program<ContextAttributes> {
    call_unit(Call::ReleaseDc { window, dc }, || Program::Done(attributes))
}

/// Turning a descriptor back to attributes.
pub enum ReadDescriptorAttributes {
    GettingDc { function: usize, window: Hwnd, descriptor: ContextDescriptor },
    ReadingBits { function: usize, window: Hwnd, dc: Hdc, descriptor: ContextDescriptor },
    ReleasingDc { window: Hwnd, dc: Hdc, attributes: ContextAttributes },
    ReleasingFailed { window: Hwnd, dc: Hdc },
}

impl Operation for ReadDescriptorAttributes {
    type Output = ContextAttributes;

    open spec fn program(self) -> Program<ContextAttributes> {
        match self {
            ReadDescriptorAttributes::GettingDc { function, window, descriptor } =>
                read_attributes_program(function, window, descriptor),
            ReadDescriptorAttributes::ReadingBits { function, window, dc, descriptor } =>
                read_bits_program(function, window, dc, descriptor),
            ReadDescriptorAttributes::ReleasingDc { window, dc, attributes } =>
                attributes_end_program(window, dc, attributes),
            ReadDescriptorAttributes::ReleasingFailed { window, dc } => attributes_failed_program(
                window,
                dc,
            ),
        }
    }

    fn resume(self, reply: Reply) -> (step: Step<Self, ContextAttributes>) {
        match (self, reply) {
            (
                ReadDescriptorAttributes::GettingDc { function, window, descriptor },
                Reply::Dc(dc),
            ) => {
                let queried: [i32; 3] = [
                    WGL_ALPHA_BITS_ARB as i32,
                    WGL_DEPTH_BITS_ARB as i32,
                    WGL_STENCIL_BITS_ARB as i32,
                ];
                Step::Call(
                    Call::GetPixelFormatAttribivArb {
                        function,
                        dc,
                        pixel_format: descriptor.pixel_format,
                        layer_plane: 0,
                        queried,
                    },
                    ReadDescriptorAttributes::ReadingBits { function, window, dc, descriptor },
                )
            },
            (
                ReadDescriptorAttributes::ReadingBits { window, dc, descriptor, .. },
                Reply::FormatAttributes { ok, values },
            ) => {
                if ok {
                    let attributes: ContextAttributes = descriptor.attributes(values);
                    Step::Call(
                        Call::ReleaseDc { window, dc },
                        ReadDescriptorAttributes::ReleasingDc { window, dc, attributes },
                    )
                } else {
                    Step::Call(
                        Call::ReleaseDc { window, dc },
                        ReadDescriptorAttributes::ReleasingFailed { window, dc },
                    )
                }
            },
            (ReadDescriptorAttributes::ReleasingDc { attributes, .. }, Reply::Unit) => {
                Step::Done(attributes)
            },
            _ => Step::Abort,
        }
    }
}

impl Device {
    /// Creates a context descriptor with the given attributes.
    ///
    /// Context descriptors are local to this device.
    pub fn create_context_descriptor(&self, attributes: &ContextAttributes) -> (step: Step<
        CreateContextDescriptor,
        Result<ContextDescriptor, Error>,
    >)
        ensures
            starts(step, create_descriptor_program(*self, *attributes)),
    {
        match self.extension_functions.pixel_format_functions {
            None => Step::Done(Err(Error::RequiredExtensionUnavailable)),
            Some(functions) => {
                let window: Hwnd = self.hidden_window.window;
                Step::Call(
                    Call::GetDc(window),
                    CreateContextDescriptor::GettingDc {
                        function: functions.choose_pixel_format_arb,
                        window,
                        attributes: *attributes,
                    },
                )
            },
        }
    }

    /// Returns the descriptor that this context was created with.
    pub fn context_descriptor(&self, context: &Context) -> (step: Step<
        ReadContextDescriptor,
        ContextDescriptor,
    >)
        ensures
            starts(step, context_descriptor_program(context.window(), context.glrc, context.gl)),
    {
        let window: Hwnd = context.rendering_window();
        Step::Call(
            Call::GetDc(window),
            ReadContextDescriptor::GettingDc { window, glrc: context.glrc, gl: context.gl },
        )
    }

    /// Returns the attributes that the context descriptor was created with. There is no descriptor
    /// without the extension for pixel formats.
    pub fn context_descriptor_attributes(&self, context_descriptor: &ContextDescriptor) -> (step:
        Step<ReadDescriptorAttributes, ContextAttributes>)
        ensures
            starts(step, descriptor_attributes_program(*self, *context_descriptor)),
    {
        let window: Hwnd = self.hidden_window.window;
        match self.extension_functions.pixel_format_functions {
            None => Step::Abort,
            Some(functions) => Step::Call(
                Call::GetDc(window),
                ReadDescriptorAttributes::GettingDc {
                    function: functions.get_pixel_format_attribiv_arb,
                    window,
                    descriptor: *context_descriptor,
                },
            ),
        }
    }
}

} // verus!
