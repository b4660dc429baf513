//! Creating contexts.

use crate::attributes::{context_request, ContextDescriptor};
use crate::call::{Call, Reply};
use crate::context::{
    Context, ContextID, ContextStatus, Framebuffer, Gl, HiddenWindow, NativeContext,
};
use crate::current::{load_gl_functions, load_gl_program, LoadGlFunctions};
use crate::device::Device;
use crate::error::{Error, WindowingApiError};
use crate::handles::{Hdc, Hglrc};
use crate::pixel_format::{
    set_dc_pixel_format, set_dc_pixel_format_program, SetDcPixelFormat,
};
use crate::program::{
    bind, bind_or_undo, call_context, call_dc, call_hidden_window, call_unit, starts, Operation,
    Program, Step,
};
use vstd::prelude::*;

verus! {

/// A context that was created, and the ID that the next one gets.
#[derive(Debug, PartialEq, Eq)]
pub struct CreatedContext {
    pub context: Context,
    pub next_context_id: ContextID,
}

/// What is needed to create a context.
#[derive(Clone, Copy, Debug, PartialEq, Eq, Structural)]
pub struct CreationRequest {
    /// The address of `wglCreateContextAttribsARB`.
    pub function: usize,
    pub descriptor: ContextDescriptor,
    /// The rendering context to share objects with, or the null handle.
    pub share: Hglrc,
    /// The ID that the context gets.
    pub id: ContextID,
}

/// The end of a creation. There must be an ID left for the next context; otherwise the context is
/// let go of.
pub open spec fn created_program(context: Context) -> Program<Result<CreatedContext, Error>> {
    if context.id.0 == u64::MAX {
        abandon_window_program(context.hidden_window)
    } else {
        Program::Done(
            Ok(
                CreatedContext {
                    context,
                    next_context_id: ContextID((context.id.0 + 1) as u64),
                },
            ),
        )
    }
}

/// A creation that cannot go on: the device context is released, the hidden window goes, and then it
/// panics.
pub open spec fn abandon_program(hidden_window: HiddenWindow, dc: Hdc) -> Program<
    Result<CreatedContext, Error>,
> {
    call_unit(
        Call::ReleaseDc { window: hidden_window.window, dc },
        || abandon_window_program(hidden_window),
    )
}

/// A creation that cannot go on: the hidden window goes, and then it panics.
pub open spec fn abandon_window_program(hidden_window: HiddenWindow) -> Program<
    Result<CreatedContext, Error>,
> {
    call_unit(Call::DestroyHiddenWindow(hidden_window), || Program::Abort)
}

// Creating a context from a descriptor.

/// The handle of the context to share objects with.
pub open spec fn share_handle(share_with: Option<&Context>) -> Hglrc {
    match share_with {
        None => Hglrc(0),
        Some(context) => context.glrc,
    }
}

/// Creates a context with a hidden window of its own. Nothing is called where the driver lacks the
/// extension for that.
pub open spec fn create_context_program(
    device: Device,
    descriptor: ContextDescriptor,
    share: Hglrc,
    id: ContextID,
) -> Program<Result<CreatedContext, Error>> {
    match device.extension_functions.create_context_attribs_arb {
        None => Program::Done(Err(Error::RequiredExtensionUnavailable)),
        Some(function) => create_window_program(
            CreationRequest { function, descriptor, share, id },
        ),
    }
}

/// The extension is there: a hidden window is created.
pub open spec fn create_window_program(request: CreationRequest) -> Program<
    Result<CreatedContext, Error>,
> {
    call_hidden_window(
        Call::CreateHiddenWindow,
        |hidden_window: HiddenWindow| create_dc_program(request, hidden_window),
    )
}

/// The hidden window is there: its device context is needed.
pub open spec fn create_dc_program(
    request: CreationRequest,
    hidden_window: HiddenWindow,
) -> Program<Result<CreatedContext, Error>> {
    call_dc(
        Call::GetDc(hidden_window.window),
        |dc: Hdc|
            create_after_format_program(
                set_dc_pixel_format_program(dc, request.descriptor.pixel_format),
                request,
                hidden_window,
                dc,
            ),
    )
}

/// The device context is being given the pixel format of the descriptor; the rest follows.
pub open spec fn create_after_format_program(
    setting: Program<()>,
    request: CreationRequest,
    hidden_window: HiddenWindow,
    dc: Hdc,
) -> Program<Result<CreatedContext, Error>> {
    bind_or_undo(
        setting,
        |u: ()| create_glrc_program(request, hidden_window, dc),
        abandon_program(hidden_window, dc),
    )
}

/// The device context has its pixel format: a rendering context is created with the version and
/// profile of the descriptor.
pub open spec fn create_glrc_program(
    request: CreationRequest,
    hidden_window: HiddenWindow,
    dc: Hdc,
) -> Program<Result<CreatedContext, Error>> {
    call_context(
        Call::CreateContextAttribsArb {
            function: request.function,
            dc,
            share: request.share,
            request: context_request(
                request.descriptor.gl_version,
                request.descriptor.compatibility_profile,
            ),
        },
        |glrc: Hglrc|
            if glrc.invalid() {
                creation_failed_program(hidden_window, dc)
            } else {
                create_after_load_program(
                    load_gl_program(dc, glrc),
                    request.id,
                    hidden_window,
                    dc,
                    glrc,
                )
            },
    )
}

/// There is no rendering context: the device context is released, and the hidden window goes.
pub open spec fn creation_failed_program(
    hidden_window: HiddenWindow,
    dc: Hdc,
) -> Program<Result<CreatedContext, Error>> {
    call_unit(
        Call::ReleaseDc { window: hidden_window.window, dc },
        || creation_cleanup_program(hidden_window),
    )
}

/// There is no rendering context: the hidden window goes.
pub open spec fn creation_cleanup_program(hidden_window: HiddenWindow) -> Program<
    Result<CreatedContext, Error>,
> {
    call_unit(
        Call::DestroyHiddenWindow(hidden_window),
        || Program::Done(Err(Error::ContextCreationFailed(WindowingApiError::Failed))),
    )
}

/// The OpenGL functions of the rendering context are being loaded; the rest follows.
pub open spec fn create_after_load_program(
    loading: Program<Gl>,
    id: ContextID,
    hidden_window: HiddenWindow,
    dc: Hdc,
    glrc: Hglrc,
) -> Program<Result<CreatedContext, Error>> {
    bind_or_undo(
        loading,
        |gl: Gl|
            create_end_program(
                Context {
                    glrc,
                    id,
                    gl,
                    hidden_window,
                    framebuffer: Framebuffer::Nothing,
                    status: ContextStatus::Owned,
                },
                dc,
            ),
        abandon_program(hidden_window, dc),
    )
}

/// The context is there: the device context of its hidden window is released.
pub open spec fn create_end_program(context: Context, dc: Hdc) -> Program<
    Result<CreatedContext, Error>,
> {
    call_unit(
        Call::ReleaseDc { window: context.hidden_window.window, dc },
        || created_program(context),
    )
}

/// Creating a context from a descriptor.
pub enum CreateContext {
    CreatingWindow { request: CreationRequest },
    GettingDc { request: CreationRequest, hidden_window: HiddenWindow },
    SettingFormat {
        request: CreationRequest,
        hidden_window: HiddenWindow,
        dc: Hdc,
        setting: SetDcPixelFormat,
    },
    Creating { request: CreationRequest, hidden_window: HiddenWindow, dc: Hdc },
    ReleasingFailed { hidden_window: HiddenWindow, dc: Hdc },
    DestroyingWindow { hidden_window: HiddenWindow },
    Loading {
        id: ContextID,
        hidden_window: HiddenWindow,
        dc: Hdc,
        glrc: Hglrc,
        loading: LoadGlFunctions,
    },
    ReleasingDc { context: Context, dc: Hdc },
    AbandoningDc { hidden_window: HiddenWindow, dc: Hdc },
    AbandoningWindow { hidden_window: HiddenWindow },
}

/// The context and the ID that the next one gets, if there is one left.
fn created(context: Context) -> (r: Option<CreatedContext>)
    ensures
        match r {
            Some(created) => created_program(context) == Program::Done(
                Ok::<CreatedContext, Error>(created),
            ),
            None => created_program(context) == abandon_window_program(context.hidden_window),
        },
{
    if context.id.0 == u64::MAX {
        None
    } else {
        let next_context_id = ContextID(context.id.0 + 1);
        Some(CreatedContext { context, next_context_id })
    }
}

impl Operation for CreateContext {
    type Output = Result<CreatedContext, Error>;

    open spec fn program(self) -> Program<Result<CreatedContext, Error>> {
        match self {
            CreateContext::CreatingWindow { request } => create_window_program(request),
            CreateContext::GettingDc { request, hidden_window } => create_dc_program(
                request,
                hidden_window,
            ),
            CreateContext::SettingFormat { request, hidden_window, dc, setting } =>
                create_after_format_program(setting.program(), request, hidden_window, dc),
            CreateContext::Creating { request, hidden_window, dc } => create_glrc_program(
                request,
                hidden_window,
                dc,
            ),
            CreateContext::ReleasingFailed { hidden_window, dc } => creation_failed_program(
                hidden_window,
                dc,
            ),
            CreateContext::DestroyingWindow { hidden_window } => creation_cleanup_program(
                hidden_window,
            ),
            CreateContext::Loading { id, hidden_window, dc, glrc, loading } =>
                create_after_load_program(loading.program(), id, hidden_window, dc, glrc),
            CreateContext::ReleasingDc { context, dc } => create_end_program(context, dc),
            CreateContext::AbandoningDc { hidden_window, dc } => abandon_program(hidden_window, dc),
            CreateContext::AbandoningWindow { hidden_window } => abandon_window_program(
                hidden_window,
            ),
        }
    }

    fn resume(self, reply: Reply) -> (step: Step<Self, Result<CreatedContext, Error>>) {
        proof {
            reveal_with_fuel(bind, 3);
            reveal_with_fuel(bind_or_undo, 3);
        }
        match self {
            CreateContext::CreatingWindow { request } => {
                match reply {
                    Reply::HiddenWindow(hidden_window) => Step::Call(
                        Call::GetDc(hidden_window.window),
                        CreateContext::GettingDc { request, hidden_window },
                    ),
                    _ => Step::Abort,
                }
            },
            CreateContext::GettingDc { request, hidden_window } => {
                match reply {
                    Reply::Dc(dc) => {
                        match set_dc_pixel_format(dc, request.descriptor.pixel_format) {
                            Step::Call(call, setting) => Step::Call(
                                call,
                                CreateContext::SettingFormat {
                                    request,
                                    hidden_window,
                                    dc,
                                    setting,
                                },
                            ),
                            _ => Step::Abort,
                        }
                    },
                    _ => Step::Abort,
                }
            },
            CreateContext::SettingFormat { request, hidden_window, dc, setting } => {
                match setting.resume(reply) {
                    Step::Call(call, setting) => Step::Call(
                        call,
                        CreateContext::SettingFormat { request, hidden_window, dc, setting },
                    ),
                    Step::Done(_) => Step::Call(
                        Call::CreateContextAttribsArb {
                            function: request.function,
                            dc,
                            share: request.share,
                            request: request.descriptor.context_attribs(),
                        },
                        CreateContext::Creating { request, hidden_window, dc },
                    ),
                    Step::Abort => Step::Call(
                        Call::ReleaseDc { window: hidden_window.window, dc },
                        CreateContext::AbandoningDc { hidden_window, dc },
                    ),
                }
            },
            CreateContext::Creating { request, hidden_window, dc } => {
                match reply {
                    Reply::Context(glrc) => {
                        if glrc.is_invalid() {
                            return Step::Call(
                                Call::ReleaseDc { window: hidden_window.window, dc },
                                CreateContext::ReleasingFailed { hidden_window, dc },
                            );
                        }
                        match load_gl_functions(dc, glrc) {
                            Step::Call(call, loading) => Step::Call(
                                call,
                                CreateContext::Loading {
                                    id: request.id,
                                    hidden_window,
                                    dc,
                                    glrc,
                                    loading,
                                },
                            ),
                            _ => Step::Abort,
                        }
                    },
                    _ => Step::Abort,
                }
            },
            CreateContext::ReleasingFailed { hidden_window, .. } => {
                match reply {
                    Reply::Unit => Step::Call(
                        Call::DestroyHiddenWindow(hidden_window),
                        CreateContext::DestroyingWindow { hidden_window },
                    ),
                    _ => Step::Abort,
                }
            },
            CreateContext::DestroyingWindow { .. } => {
                match reply {
                    Reply::Unit => Step::Done(
                        Err(Error::ContextCreationFailed(WindowingApiError::Failed)),
                    ),
                    _ => Step::Abort,
                }
            },
            CreateContext::Loading { id, hidden_window, dc, glrc, loading } => {
                match loading.resume(reply) {
                    Step::Call(call, loading) => Step::Call(
                        call,
                        CreateContext::Loading { id, hidden_window, dc, glrc, loading },
                    ),
                    Step::Done(gl) => {
                        let context = Context {
                            glrc,
                            id,
                            gl,
                            hidden_window,
                            framebuffer: Framebuffer::Nothing,
                            status: ContextStatus::Owned,
                        };
                        Step::Call(
                            Call::ReleaseDc { window: hidden_window.window, dc },
                            CreateContext::ReleasingDc { context, dc },
                        )
                    },
                    Step::Abort => Step::Call(
                        Call::ReleaseDc { window: hidden_window.window, dc },
                        CreateContext::AbandoningDc { hidden_window, dc },
                    ),
                }
            },
            CreateContext::ReleasingDc { context, .. } => {
                let hidden_window: HiddenWindow = context.hidden_window;
                match reply {
                    Reply::Unit => match created(context) {
                        Some(created) => Step::Done(Ok(created)),
                        None => Step::Call(
                            Call::DestroyHiddenWindow(hidden_window),
                            CreateContext::AbandoningWindow { hidden_window },
                        ),
                    },
                    _ => Step::Abort,
                }
            },
            CreateContext::AbandoningDc { hidden_window, .. } => {
                match reply {
                    Reply::Unit => Step::Call(
                        Call::DestroyHiddenWindow(hidden_window),
                        CreateContext::AbandoningWindow { hidden_window },
                    ),
                    _ => Step::Abort,
                }
            },
            CreateContext::AbandoningWindow { .. } => Step::Abort,
        }
    }
}

// Wrapping a rendering context of someone else.

/// Wraps a rendering context in a context with a hidden window of its own.
pub open spec fn wrap_context_program(glrc: Hglrc, id: ContextID) -> Program<
    Result<CreatedContext, Error>,
> {
    call_hidden_window(
        Call::CreateHiddenWindow,
        |hidden_window: HiddenWindow| wrap_dc_program(glrc, id, hidden_window),
    )
}

/// The hidden window is there: its device context is needed.
pub open spec fn wrap_dc_program(
    glrc: Hglrc,
    id: ContextID,
    hidden_window: HiddenWindow,
) -> Program<Result<CreatedContext, Error>> {
    call_dc(
        Call::GetDc(hidden_window.window),
        |dc: Hdc|
            wrap_after_load_program(load_gl_program(dc, glrc), glrc, id, hidden_window, dc),
    )
}

/// The OpenGL functions of the rendering context are being loaded; the rest follows.
pub open spec fn wrap_after_load_program(
    loading: Program<Gl>,
    glrc: Hglrc,
    id: ContextID,
    hidden_window: HiddenWindow,
    dc: Hdc,
) -> Program<Result<CreatedContext, Error>> {
    bind_or_undo(
        loading,
        |gl: Gl|
            create_end_program(
                Context {
                    glrc,
                    id,
                    gl,
                    hidden_window,
                    framebuffer: Framebuffer::External(()),
                    status: ContextStatus::Referenced,
                },
                dc,
            ),
        abandon_program(hidden_window, dc),
    )
}

/// Wrapping a rendering context of someone else.
pub enum CreateContextFromNativeContext {
    CreatingWindow { glrc: Hglrc, id: ContextID },
    GettingDc { glrc: Hglrc, id: ContextID, hidden_window: HiddenWindow },
    Loading {
        glrc: Hglrc,
        id: ContextID,
        hidden_window: HiddenWindow,
        dc: Hdc,
        loading: LoadGlFunctions,
    },
    ReleasingDc { context: Context, dc: Hdc },
    AbandoningDc { hidden_window: HiddenWindow, dc: Hdc },
    AbandoningWindow { hidden_window: HiddenWindow },
}

impl Operation for CreateContextFromNativeContext {
    type Output = Result<CreatedContext, Error>;

    open spec fn program(self) -> Program<Result<CreatedContext, Error>> {
        match self {
            CreateContextFromNativeContext::CreatingWindow { glrc, id } => wrap_context_program(
                glrc,
                id,
            ),
            CreateContextFromNativeContext::GettingDc { glrc, id, hidden_window } =>
                wrap_dc_program(glrc, id, hidden_window),
            CreateContextFromNativeContext::Loading { glrc, id, hidden_window, dc, loading } =>
                wrap_after_load_program(loading.program(), glrc, id, hidden_window, dc),
            CreateContextFromNativeContext::ReleasingDc { context, dc } => create_end_program(
                context,
                dc,
            ),
            CreateContextFromNativeContext::AbandoningDc { hidden_window, dc } => abandon_program(
                hidden_window,
                dc,
            ),
            CreateContextFromNativeContext::AbandoningWindow { hidden_window } =>
                abandon_window_program(hidden_window),
        }
    }

    fn resume(self, reply: Reply) -> (step: Step<Self, Result<CreatedContext, Error>>) {
        proof {
            reveal_with_fuel(bind, 3);
            reveal_with_fuel(bind_or_undo, 3);
        }
        match self {
            CreateContextFromNativeContext::CreatingWindow { glrc, id } => {
                match reply {
                    Reply::HiddenWindow(hidden_window) => Step::Call(
                        Call::GetDc(hidden_window.window),
                        CreateContextFromNativeContext::GettingDc { glrc, id, hidden_window },
                    ),
                    _ => Step::Abort,
                }
            },
            CreateContextFromNativeContext::GettingDc { glrc, id, hidden_window } => {
                match reply {
                    Reply::Dc(dc) => {
                        match load_gl_functions(dc, glrc) {
                            Step::Call(call, loading) => Step::Call(
                                call,
                                CreateContextFromNativeContext::Loading {
                                    glrc,
                                    id,
                                    hidden_window,
                                    dc,
                                    loading,
                                },
                            ),
                            _ => Step::Abort,
                        }
                    },
                    _ => Step::Abort,
                }
            },
            CreateContextFromNativeContext::Loading { glrc, id, hidden_window, dc, loading } => {
                match loading.resume(reply) {
                    Step::Call(call, loading) => Step::Call(
                        call,
                        CreateContextFromNativeContext::Loading {
                            glrc,
                            id,
                            hidden_window,
                            dc,
                            loading,
                        },
                    ),
                    Step::Done(gl) => {
                        let context = Context {
                            glrc,
                            id,
                            gl,
                            hidden_window,
                            framebuffer: Framebuffer::External(()),
                            status: ContextStatus::Referenced,
                        };
                        Step::Call(
                            Call::ReleaseDc { window: hidden_window.window, dc },
                            CreateContextFromNativeContext::ReleasingDc { context, dc },
                        )
                    },
                    Step::Abort => Step::Call(
                        Call::ReleaseDc { window: hidden_window.window, dc },
                        CreateContextFromNativeContext::AbandoningDc { hidden_window, dc },
                    ),
                }
            },
            CreateContextFromNativeContext::ReleasingDc { context, .. } => {
                let hidden_window: HiddenWindow = context.hidden_window;
                match reply {
                    Reply::Unit => match created(context) {
                        Some(created) => Step::Done(Ok(created)),
                        None => Step::Call(
                            Call::DestroyHiddenWindow(hidden_window),
                            CreateContextFromNativeContext::AbandoningWindow { hidden_window },
                        ),
                    },
                    _ => Step::Abort,
                }
            },
            CreateContextFromNativeContext::AbandoningDc { hidden_window, .. } => {
                match reply {
                    Reply::Unit => Step::Call(
                        Call::DestroyHiddenWindow(hidden_window),
                        CreateContextFromNativeContext::AbandoningWindow { hidden_window },
                    ),
                    _ => Step::Abort,
                }
            },
            CreateContextFromNativeContext::AbandoningWindow { .. } => Step::Abort,
        }
    }
}

impl Device {
    /// Creates a new OpenGL context, which gets the given ID.
    ///
    /// The context initially has no surface attached. Until a surface is bound to it, rendering
    /// commands will fail or have no effect.
    pub fn create_context(
        &self,
        descriptor: &ContextDescriptor,
        share_with: Option<&Context>,
        next_context_id: ContextID,
    ) -> (step: Step<CreateContext, Result<CreatedContext, Error>>)
        ensures
            starts(
                step,
                create_context_program(
                    *self,
                    *descriptor,
                    share_handle(share_with),
                    next_context_id,
                ),
            ),
    {
        match self.extension_functions.create_context_attribs_arb {
            None => Step::Done(Err(Error::RequiredExtensionUnavailable)),
            Some(function) => {
                let share: Hglrc = match share_with {
                    None => Hglrc::null(),
                    Some(context) => context.glrc,
                };
                let request = CreationRequest {
                    function,
                    descriptor: *descriptor,
                    share,
                    id: next_context_id,
                };
                Step::Call(Call::CreateHiddenWindow, CreateContext::CreatingWindow { request })
            },
        }
    }

    /// Wraps an `HGLRC` in a context, which gets the given ID, and returns it.
    ///
    /// The `HGLRC` is not retained, as there is no way to do this in the Win32 API. Therefore, it
    /// is the caller's responsibility to make sure the OpenGL context is not destroyed before this
    /// `Context` is.
    pub fn create_context_from_native_context(
        &self,
        native_context: NativeContext,
        next_context_id: ContextID,
    ) -> (step: Step<CreateContextFromNativeContext, Result<CreatedContext, Error>>)
        ensures
            starts(step, wrap_context_program(native_context.0, next_context_id)),
    {
        Step::Call(
            Call::CreateHiddenWindow,
            CreateContextFromNativeContext::CreatingWindow {
                glrc: native_context.0,
                id: next_context_id,
            },
        )
    }
}

} // verus!
