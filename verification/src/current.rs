//! Which context is current on a thread.
//!
//! Operations that need another context to be current than the one that is remember the latter in
//! a [`CurrentContextGuard`] and bring it back when they are done.

use crate::call::{Call, Reply};
use crate::context::{Context, Gl, NativeContext};
use crate::device::Device;
use crate::error::{Error, WindowingApiError};
use crate::handles::{Hdc, Hglrc, Hwnd};
use crate::program::{
    bind, call_context, call_dc, call_gl, call_success, call_unit, starts, Operation, Program, Step,
};
use vstd::prelude::*;

verus! {

/// The device context and the rendering context that were current when the guard was made.
#[derive(Clone, Copy, Debug, PartialEq, Eq, Structural)]
pub struct CurrentContextGuard {
    pub old_dc: Hdc,
    pub old_glrc: Hglrc,
}

/// Remembers what is current.
pub open spec fn save_current_program() -> Program<CurrentContextGuard> {
    call_dc(Call::GetCurrentDc, |dc: Hdc| save_current_context_program(dc))
}

/// The current device context is known: the current rendering context is needed.
pub open spec fn save_current_context_program(dc: Hdc) -> Program<CurrentContextGuard> {
    call_context(
        Call::GetCurrentContext,
        |glrc: Hglrc| Program::Done(CurrentContextGuard { old_dc: dc, old_glrc: glrc }),
    )
}

/// Makes current again what a guard remembers; whether that succeeds is of no interest.
pub open spec fn restore_current_program(guard: CurrentContextGuard) -> Program<()> {
    call_success(
        Call::MakeCurrent { dc: guard.old_dc, glrc: guard.old_glrc },
        |ok: bool| Program::Done(()),
    )
}

/// How an attempt to make a context current, or none, ends.
pub open spec fn make_current_result(ok: bool) -> Result<(), Error> {
    if ok {
        Ok(())
    } else {
        Err(Error::MakeCurrentFailed(WindowingApiError::Failed))
    }
}

/// Makes a rendering context current on the device context of a window, which is got for that and
/// released afterwards.
pub open spec fn make_current_program(window: Hwnd, glrc: Hglrc) -> Program<Result<(), Error>> {
    call_dc(Call::GetDc(window), |dc: Hdc| make_current_on_program(window, dc, glrc))
}

/// The device context is there: the rendering context is made current on it.
pub open spec fn make_current_on_program(
    window: Hwnd,
    dc: Hdc,
    glrc: Hglrc,
) -> Program<Result<(), Error>> {
    call_success(
        Call::MakeCurrent { dc, glrc },
        |ok: bool| release_after_make_current_program(window, dc, ok),
    )
}

/// The attempt is over: the device context is released.
pub open spec fn release_after_make_current_program(
    window: Hwnd,
    dc: Hdc,
    ok: bool,
) -> Program<Result<(), Error>> {
    call_unit(Call::ReleaseDc { window, dc }, || Program::Done(make_current_result(ok)))
}

/// Leaves no context current.
pub open spec fn make_no_context_current_program() -> Program<Result<(), Error>> {
    call_success(
        Call::MakeCurrent { dc: Hdc(0), glrc: Hglrc(0) },
        |ok: bool| Program::Done(make_current_result(ok)),
    )
}

/// Remembers what is current, and then makes a rendering context current on the device context of a
/// window. Where that fails, what was current before is brought back at once.
pub open spec fn temporarily_make_current_program(
    window: Hwnd,
    glrc: Hglrc,
) -> Program<Result<CurrentContextGuard, Error>> {
    temporarily_after_save_program(save_current_program(), window, glrc)
}

/// What is current is being remembered; the rest follows.
pub open spec fn temporarily_after_save_program(
    saving: Program<CurrentContextGuard>,
    window: Hwnd,
    glrc: Hglrc,
) -> Program<Result<CurrentContextGuard, Error>> {
    bind(
        saving,
        |guard: CurrentContextGuard|
            temporarily_after_make_program(make_current_program(window, glrc), guard),
    )
}

/// The rendering context is being made current; the rest follows.
pub open spec fn temporarily_after_make_program(
    making: Program<Result<(), Error>>,
    guard: CurrentContextGuard,
) -> Program<Result<CurrentContextGuard, Error>> {
    bind(
        making,
        |result: Result<(), Error>|
            match result {
                Ok(_) => Program::Done(Ok(guard)),
                Err(error) => temporarily_failed_program(guard, error),
            },
    )
}

/// The rendering context could not be made current: what was current before is brought back.
pub open spec fn temporarily_failed_program(
    guard: CurrentContextGuard,
    error: Error,
) -> Program<Result<CurrentContextGuard, Error>> {
    call_success(
        Call::MakeCurrent { dc: guard.old_dc, glrc: guard.old_glrc },
        |ok: bool| Program::Done(Err(error)),
    )
}

/// Loads the OpenGL functions of a rendering context, which is current meanwhile on the given
/// device context. To make it current must succeed, and so must the loading. What was current before
/// is brought back in any case.
pub open spec fn load_gl_program(dc: Hdc, glrc: Hglrc) -> Program<Gl> {
    load_gl_after_save_program(save_current_program(), dc, glrc)
}

/// What is current is being remembered; the rest follows.
pub open spec fn load_gl_after_save_program(
    saving: Program<CurrentContextGuard>,
    dc: Hdc,
    glrc: Hglrc,
) -> Program<Gl> {
    bind(saving, |guard: CurrentContextGuard| load_gl_make_current_program(guard, dc, glrc))
}

/// What was current is known: the rendering context is made current.
pub open spec fn load_gl_make_current_program(
    guard: CurrentContextGuard,
    dc: Hdc,
    glrc: Hglrc,
) -> Program<Gl> {
    call_success(
        Call::MakeCurrent { dc, glrc },
        |ok: bool|
            if ok {
                load_gl_load_program(guard)
            } else {
                load_gl_undo_program(guard)
            },
    )
}

/// The rendering context is current: the functions are loaded.
pub open spec fn load_gl_load_program(guard: CurrentContextGuard) -> Program<Gl> {
    call_gl(
        Call::LoadGl,
        |loaded: Option<Gl>|
            match loaded {
                Some(gl) => load_gl_restore_program(guard, gl),
                None => load_gl_undo_program(guard),
            },
    )
}

/// The functions cannot be loaded: what was current before is brought back, and then it panics.
pub open spec fn load_gl_undo_program(guard: CurrentContextGuard) -> Program<Gl> {
    call_success(
        Call::MakeCurrent { dc: guard.old_dc, glrc: guard.old_glrc },
        |ok: bool| Program::Abort,
    )
}

/// The functions are loaded: what was current before is brought back.
pub open spec fn load_gl_restore_program(guard: CurrentContextGuard, gl: Gl) -> Program<Gl> {
    call_success(
        Call::MakeCurrent { dc: guard.old_dc, glrc: guard.old_glrc },
        |ok: bool| Program::Done(gl),
    )
}

/// Asks whether a rendering context is current.
pub open spec fn is_current_program(glrc: Hglrc) -> Program<bool> {
    call_context(Call::GetCurrentContext, |current: Hglrc| Program::Done(current == glrc))
}

/// Asks for the current rendering context.
pub open spec fn current_native_context_program() -> Program<Result<NativeContext, Error>> {
    call_context(
        Call::GetCurrentContext,
        |glrc: Hglrc|
            Program::Done(
                if glrc.invalid() {
                    Err(Error::NoCurrentContext)
                } else {
                    Ok(NativeContext(glrc))
                },
            ),
    )
}

/// Remembering what is current.
pub enum SaveCurrent {
    GettingDc,
    GettingContext { dc: Hdc },
}

impl Operation for SaveCurrent {
    type Output = CurrentContextGuard;

    open spec fn program(self) -> Program<CurrentContextGuard> {
        match self {
            SaveCurrent::GettingDc => save_current_program(),
            SaveCurrent::GettingContext { dc } => save_current_context_program(dc),
        }
    }

    fn resume(self, reply: Reply) -> (step: Step<Self, CurrentContextGuard>) {
        match (self, reply) {
            (SaveCurrent::GettingDc, Reply::Dc(dc)) => {
                Step::Call(Call::GetCurrentContext, SaveCurrent::GettingContext { dc })
            },
            (SaveCurrent::GettingContext { dc }, Reply::Context(glrc)) => {
                Step::Done(CurrentContextGuard { old_dc: dc, old_glrc: glrc })
            },
            _ => Step::Abort,
        }
    }
}

/// Bringing back what was current.
pub struct RestoreCurrent {
    pub guard: CurrentContextGuard,
}

impl Operation for RestoreCurrent {
    type Output = ();

    open spec fn program(self) -> Program<()> {
        restore_current_program(self.guard)
    }

    fn resume(self, reply: Reply) -> (step: Step<Self, ()>) {
        match reply {
            Reply::Success(_) => Step::Done(()),
            _ => Step::Abort,
        }
    }
}

impl CurrentContextGuard {
    /// Remembers what is current on this thread.
    pub fn new() -> (step: Step<SaveCurrent, CurrentContextGuard>)
        ensures
            starts(step, save_current_program()),
    {
        Step::Call(Call::GetCurrentDc, SaveCurrent::GettingDc)
    }

    /// Makes current again what was current when the guard was made.
    pub fn drop(self) -> (step: Step<RestoreCurrent, ()>)
        ensures
            starts(step, restore_current_program(self)),
    {
        Step::Call(
            Call::MakeCurrent { dc: self.old_dc, glrc: self.old_glrc },
            RestoreCurrent { guard: self },
        )
    }
}

fn make_current_outcome(ok: bool) -> (r: Result<(), Error>)
    ensures
        r == make_current_result(ok),
{
    if ok {
        Ok(())
    } else {
        Err(Error::MakeCurrentFailed(WindowingApiError::Failed))
    }
}

/// Making a context current.
pub enum MakeContextCurrent {
    GettingDc { window: Hwnd, glrc: Hglrc },
    MakingCurrent { window: Hwnd, dc: Hdc, glrc: Hglrc },
    ReleasingDc { window: Hwnd, dc: Hdc, ok: bool },
}

impl Operation for MakeContextCurrent {
    type Output = Result<(), Error>;

    open spec fn program(self) -> Program<Result<(), Error>> {
        match self {
            MakeContextCurrent::GettingDc { window, glrc } => make_current_program(window, glrc),
            MakeContextCurrent::MakingCurrent { window, dc, glrc } => make_current_on_program(
                window,
                dc,
                glrc,
            ),
            MakeContextCurrent::ReleasingDc { window, dc, ok } =>
                release_after_make_current_program(window, dc, ok),
        }
    }

    fn resume(self, reply: Reply) -> (step: Step<Self, Result<(), Error>>) {
        match (self, reply) {
            (MakeContextCurrent::GettingDc { window, glrc }, Reply::Dc(dc)) => {
                Step::Call(
                    Call::MakeCurrent { dc, glrc },
                    MakeContextCurrent::MakingCurrent { window, dc, glrc },
                )
            },
            (MakeContextCurrent::MakingCurrent { window, dc, .. }, Reply::Success(ok)) => {
                Step::Call(
                    Call::ReleaseDc { window, dc },
                    MakeContextCurrent::ReleasingDc { window, dc, ok },
                )
            },
            (MakeContextCurrent::ReleasingDc { ok, .. }, Reply::Unit) => {
                Step::Done(make_current_outcome(ok))
            },
            _ => Step::Abort,
        }
    }
}

/// Leaving no context current.
pub struct MakeNoContextCurrent {}

impl Operation for MakeNoContextCurrent {
    type Output = Result<(), Error>;

    open spec fn program(self) -> Program<Result<(), Error>> {
        make_no_context_current_program()
    }

    fn resume(self, reply: Reply) -> (step: Step<Self, Result<(), Error>>) {
        match reply {
            Reply::Success(ok) => Step::Done(make_current_outcome(ok)),
            _ => Step::Abort,
        }
    }
}

/// Asking whether a context is current.
pub struct ContextIsCurrent {
    pub glrc: Hglrc,
}

impl Operation for ContextIsCurrent {
    type Output = bool;

    open spec fn program(self) -> Program<bool> {
        is_current_program(self.glrc)
    }

    fn resume(self, reply: Reply) -> (step: Step<Self, bool>) {
        match reply {
            Reply::Context(current) => Step::Done(current == self.glrc),
            _ => Step::Abort,
        }
    }
}

/// Asking for the current rendering context.
pub struct CurrentNativeContext {}

impl Operation for CurrentNativeContext {
    type Output = Result<NativeContext, Error>;

    open spec fn program(self) -> Program<Result<NativeContext, Error>> {
        current_native_context_program()
    }

    fn resume(self, reply: Reply) -> (step: Step<Self, Result<NativeContext, Error>>) {
        match reply {
            Reply::Context(glrc) => {
                if !glrc.is_invalid() {
                    Step::Done(Ok(NativeContext(glrc)))
                } else {
                    Step::Done(Err(Error::NoCurrentContext))
                }
            },
            _ => Step::Abort,
        }
    }
}

impl NativeContext {
    /// Returns the current context, if there is one.
    ///
    /// If there is not a native context, this returns a `NoCurrentContext` error.
    pub fn current() -> (step: Step<CurrentNativeContext, Result<NativeContext, Error>>)
        ensures
            starts(step, current_native_context_program()),
    {
        Step::Call(Call::GetCurrentContext, CurrentNativeContext {  })
    }
}

/// Making a context current for a while.
pub enum TemporarilyMakeContextCurrent {
    Saving { window: Hwnd, glrc: Hglrc, saving: SaveCurrent },
    MakingCurrent { guard: CurrentContextGuard, making: MakeContextCurrent },
    Restoring { guard: CurrentContextGuard, error: Error },
}

impl Operation for TemporarilyMakeContextCurrent {
    type Output = Result<CurrentContextGuard, Error>;

    open spec fn program(self) -> Program<Result<CurrentContextGuard, Error>> {
        match self {
            TemporarilyMakeContextCurrent::Saving { window, glrc, saving } =>
                temporarily_after_save_program(saving.program(), window, glrc),
            TemporarilyMakeContextCurrent::MakingCurrent { guard, making } =>
                temporarily_after_make_program(making.program(), guard),
            TemporarilyMakeContextCurrent::Restoring { guard, error } =>
                temporarily_failed_program(guard, error),
        }
    }

    fn resume(self, reply: Reply) -> (step: Step<Self, Result<CurrentContextGuard, Error>>) {
        proof {
            reveal_with_fuel(bind, 3);
        }
        match self {
            TemporarilyMakeContextCurrent::Saving { window, glrc, saving } => {
                match saving.resume(reply) {
                    Step::Call(call, saving) => Step::Call(
                        call,
                        TemporarilyMakeContextCurrent::Saving { window, glrc, saving },
                    ),
                    Step::Done(guard) => {
                        let making = MakeContextCurrent::GettingDc { window, glrc };
                        Step::Call(
                            Call::GetDc(window),
                            TemporarilyMakeContextCurrent::MakingCurrent { guard, making },
                        )
                    },
                    Step::Abort => Step::Abort,
                }
            },
            TemporarilyMakeContextCurrent::MakingCurrent { guard, making } => {
                match making.resume(reply) {
                    Step::Call(call, making) => Step::Call(
                        call,
                        TemporarilyMakeContextCurrent::MakingCurrent { guard, making },
                    ),
                    Step::Done(Ok(_)) => Step::Done(Ok(guard)),
                    Step::Done(Err(error)) => {
                        Step::Call(
                            Call::MakeCurrent { dc: guard.old_dc, glrc: guard.old_glrc },
                            TemporarilyMakeContextCurrent::Restoring { guard, error },
                        )
                    },
                    Step::Abort => Step::Abort,
                }
            },
            TemporarilyMakeContextCurrent::Restoring { error, .. } => {
                match reply {
                    Reply::Success(_) => Step::Done(Err(error)),
                    _ => Step::Abort,
                }
            },
        }
    }
}

/// Loading the OpenGL functions of a rendering context.
pub enum LoadGlFunctions {
    Saving { dc: Hdc, glrc: Hglrc, saving: SaveCurrent },
    MakingCurrent { guard: CurrentContextGuard, dc: Hdc, glrc: Hglrc },
    Loading { guard: CurrentContextGuard },
    Restoring { guard: CurrentContextGuard, gl: Gl },
    Undoing { guard: CurrentContextGuard },
}

impl Operation for LoadGlFunctions {
    type Output = Gl;

    open spec fn program(self) -> Program<Gl> {
        match self {
            LoadGlFunctions::Saving { dc, glrc, saving } => load_gl_after_save_program(
                saving.program(),
                dc,
                glrc,
            ),
            LoadGlFunctions::MakingCurrent { guard, dc, glrc } => load_gl_make_current_program(
                guard,
                dc,
                glrc,
            ),
            LoadGlFunctions::Loading { guard } => load_gl_load_program(guard),
            LoadGlFunctions::Restoring { guard, gl } => load_gl_restore_program(guard, gl),
            LoadGlFunctions::Undoing { guard } => load_gl_undo_program(guard),
        }
    }

    fn resume(self, reply: Reply) -> (step: Step<Self, Gl>) {
        proof {
            reveal_with_fuel(bind, 3);
        }
        match self {
            LoadGlFunctions::Saving { dc, glrc, saving } => {
                match saving.resume(reply) {
                    Step::Call(call, saving) => Step::Call(
                        call,
                        LoadGlFunctions::Saving { dc, glrc, saving },
                    ),
                    Step::Done(guard) => Step::Call(
                        Call::MakeCurrent { dc, glrc },
                        LoadGlFunctions::MakingCurrent { guard, dc, glrc },
                    ),
                    Step::Abort => Step::Abort,
                }
            },
            LoadGlFunctions::MakingCurrent { guard, .. } => {
                match reply {
                    Reply::Success(true) => Step::Call(
                        Call::LoadGl,
                        LoadGlFunctions::Loading { guard },
                    ),
                    Reply::Success(false) => Step::Call(
                        Call::MakeCurrent { dc: guard.old_dc, glrc: guard.old_glrc },
                        LoadGlFunctions::Undoing { guard },
                    ),
                    _ => Step::Abort,
                }
            },
            LoadGlFunctions::Loading { guard } => {
                match reply {
                    Reply::Gl(Some(gl)) => Step::Call(
                        Call::MakeCurrent { dc: guard.old_dc, glrc: guard.old_glrc },
                        LoadGlFunctions::Restoring { guard, gl },
                    ),
                    Reply::Gl(None) => Step::Call(
                        Call::MakeCurrent { dc: guard.old_dc, glrc: guard.old_glrc },
                        LoadGlFunctions::Undoing { guard },
                    ),
                    _ => Step::Abort,
                }
            },
            LoadGlFunctions::Restoring { gl, .. } => {
                match reply {
                    Reply::Success(_) => Step::Done(gl),
                    _ => Step::Abort,
                }
            },
            LoadGlFunctions::Undoing { .. } => Step::Abort,
        }
    }
}

/// Loads the OpenGL functions of a rendering context.
pub fn load_gl_functions(dc: Hdc, glrc: Hglrc) -> (step: Step<LoadGlFunctions, Gl>)
    ensures
        starts(step, load_gl_program(dc, glrc)),
{
    Step::Call(
        Call::GetCurrentDc,
        LoadGlFunctions::Saving { dc, glrc, saving: SaveCurrent::GettingDc },
    )
}

impl Device {
    /// Makes the context the current OpenGL context for this thread.
    ///
    /// After calling this function, it is valid to use OpenGL rendering commands.
    pub fn make_context_current(&self, context: &Context) -> (step: Step<
        MakeContextCurrent,
        Result<(), Error>,
    >)
        ensures
            starts(step, make_current_program(context.window(), context.glrc)),
    {
        let window: Hwnd = context.rendering_window();
        Step::Call(
            Call::GetDc(window),
            MakeContextCurrent::GettingDc { window, glrc: context.glrc },
        )
    }

    /// Removes the current OpenGL context from this thread.
    ///
    /// After calling this function, OpenGL rendering commands will fail until a new context is
    /// made current.
    pub fn make_no_context_current(&self) -> (step: Step<MakeNoContextCurrent, Result<(), Error>>)
        ensures
            starts(step, make_no_context_current_program()),
    {
        Step::Call(
            Call::MakeCurrent { dc: Hdc::null(), glrc: Hglrc::null() },
            MakeNoContextCurrent {  },
        )
    }

    /// Makes the context current, and returns a guard that remembers what was current before.
    pub fn temporarily_make_context_current(&self, context: &Context) -> (step: Step<
        TemporarilyMakeContextCurrent,
        Result<CurrentContextGuard, Error>,
    >)
        ensures
            starts(step, temporarily_make_current_program(context.window(), context.glrc)),
    {
        let window: Hwnd = context.rendering_window();
        Step::Call(
            Call::GetCurrentDc,
            TemporarilyMakeContextCurrent::Saving {
                window,
                glrc: context.glrc,
                saving: SaveCurrent::GettingDc,
            },
        )
    }

    /// Whether the context is the current OpenGL context for this thread.
    pub fn context_is_current(&self, context: &Context) -> (step: Step<ContextIsCurrent, bool>)
        ensures
            starts(step, is_current_program(context.glrc)),
    {
        Step::Call(Call::GetCurrentContext, ContextIsCurrent { glrc: context.glrc })
    }
}

} // verus!
