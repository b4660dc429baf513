//! Which framebuffer objects are bound in a context.

use crate::call::{Call, Reply};
use crate::constants::{
    GL_DRAW_FRAMEBUFFER, GL_DRAW_FRAMEBUFFER_BINDING, GL_FRAMEBUFFER, GL_READ_FRAMEBUFFER,
    GL_READ_FRAMEBUFFER_BINDING,
};
use crate::context::{Context, Gl};
use crate::device::Device;
use crate::program::{bind, call_integer, call_unit, starts, Operation, Program, Step};
use vstd::prelude::*;

verus! {

/// The framebuffer objects that were bound in a context when the guard was made.
#[derive(Clone, Copy, Debug, PartialEq, Eq, Structural)]
pub struct FramebufferGuard {
    /// The OpenGL functions of the context.
    pub gl: Gl,
    pub old_read_framebuffer: u32,
    pub old_draw_framebuffer: u32,
}

/// Remembers which framebuffer objects are bound.
pub open spec fn save_framebuffers_program(gl: Gl) -> Program<FramebufferGuard> {
    call_integer(
        Call::GetInteger { gl, name: GL_DRAW_FRAMEBUFFER_BINDING },
        |draw: i32| save_read_framebuffer_program(gl, draw as u32),
    )
}

/// The object that is bound for drawing is known: the one that is bound for reading is needed.
pub open spec fn save_read_framebuffer_program(gl: Gl, draw: u32) -> Program<FramebufferGuard> {
    call_integer(
        Call::GetInteger { gl, name: GL_READ_FRAMEBUFFER_BINDING },
        |read: i32|
            Program::Done(
                FramebufferGuard {
                    gl,
                    old_read_framebuffer: read as u32,
                    old_draw_framebuffer: draw,
                },
            ),
    )
}

/// Binds again the framebuffer objects that a guard remembers.
pub open spec fn restore_framebuffers_program(guard: FramebufferGuard) -> Program<()> {
    call_unit(
        Call::BindFramebuffer {
            gl: guard.gl,
            target: GL_READ_FRAMEBUFFER,
            framebuffer: guard.old_read_framebuffer,
        },
        || restore_draw_framebuffer_program(guard),
    )
}

/// The object for reading is bound again: so is the one for drawing.
pub open spec fn restore_draw_framebuffer_program(guard: FramebufferGuard) -> Program<()> {
    call_unit(
        Call::BindFramebuffer {
            gl: guard.gl,
            target: GL_DRAW_FRAMEBUFFER,
            framebuffer: guard.old_draw_framebuffer,
        },
        || Program::Done(()),
    )
}

/// Remembers which framebuffer objects are bound, and then binds one for reading and drawing.
pub open spec fn temporarily_bind_program(gl: Gl, framebuffer: u32) -> Program<FramebufferGuard> {
    temporarily_bind_after_save_program(save_framebuffers_program(gl), framebuffer)
}

/// What is bound is being remembered; the rest follows.
pub open spec fn temporarily_bind_after_save_program(
    saving: Program<FramebufferGuard>,
    framebuffer: u32,
) -> Program<FramebufferGuard> {
    bind(saving, |guard: FramebufferGuard| temporarily_bind_set_program(guard, framebuffer))
}

/// What was bound is known: the framebuffer object is bound.
pub open spec fn temporarily_bind_set_program(guard: FramebufferGuard, framebuffer: u32) -> Program<
    FramebufferGuard,
> {
    call_unit(
        Call::BindFramebuffer { gl: guard.gl, target: GL_FRAMEBUFFER, framebuffer },
        || Program::Done(guard),
    )
}

/// Remembering which framebuffer objects are bound.
pub enum SaveFramebuffers {
    ReadingDraw { gl: Gl },
    ReadingRead { gl: Gl, draw: u32 },
}

impl Operation for SaveFramebuffers {
    type Output = FramebufferGuard;

    open spec fn program(self) -> Program<FramebufferGuard> {
        match self {
            SaveFramebuffers::ReadingDraw { gl } => save_framebuffers_program(gl),
            SaveFramebuffers::ReadingRead { gl, draw } => save_read_framebuffer_program(gl, draw),
        }
    }

    fn resume(self, reply: Reply) -> (step: Step<Self, FramebufferGuard>) {
        match (self, reply) {
            (SaveFramebuffers::ReadingDraw { gl }, Reply::Integer(draw)) => {
                Step::Call(
                    Call::GetInteger { gl, name: GL_READ_FRAMEBUFFER_BINDING },
                    SaveFramebuffers::ReadingRead { gl, draw: draw as u32 },
                )
            },
            (SaveFramebuffers::ReadingRead { gl, draw }, Reply::Integer(read)) => {
                Step::Done(
                    FramebufferGuard {
                        gl,
                        old_read_framebuffer: read as u32,
                        old_draw_framebuffer: draw,
                    },
                )
            },
            _ => Step::Abort,
        }
    }
}

/// Binding framebuffer objects again.
pub enum RestoreFramebuffers {
    BindingRead { guard: FramebufferGuard },
    BindingDraw { guard: FramebufferGuard },
}

impl Operation for RestoreFramebuffers {
    type Output = ();

    open spec fn program(self) -> Program<()> {
        match self {
            RestoreFramebuffers::BindingRead { guard } => restore_framebuffers_program(guard),
            RestoreFramebuffers::BindingDraw { guard } => restore_draw_framebuffer_program(guard),
        }
    }

    fn resume(self, reply: Reply) -> (step: Step<Self, ()>) {
        match (self, reply) {
            (RestoreFramebuffers::BindingRead { guard }, Reply::Unit) => {
                Step::Call(
                    Call::BindFramebuffer {
                        gl: guard.gl,
                        target: GL_DRAW_FRAMEBUFFER,
                        framebuffer: guard.old_draw_framebuffer,
                    },
                    RestoreFramebuffers::BindingDraw { guard },
                )
            },
            (RestoreFramebuffers::BindingDraw { .. }, Reply::Unit) => Step::Done(()),
            _ => Step::Abort,
        }
    }
}

impl FramebufferGuard {
    /// Remembers which framebuffer objects are bound in a context, which must be current.
    pub fn new(context: &Context) -> (step: Step<SaveFramebuffers, FramebufferGuard>)
        ensures
            starts(step, save_framebuffers_program(context.gl)),
    {
        Step::Call(
            Call::GetInteger { gl: context.gl, name: GL_DRAW_FRAMEBUFFER_BINDING },
            SaveFramebuffers::ReadingDraw { gl: context.gl },
        )
    }

    /// Binds again what was bound when the guard was made.
    pub fn drop(self) -> (step: Step<RestoreFramebuffers, ()>)
        ensures
            starts(step, restore_framebuffers_program(self)),
    {
        Step::Call(
            Call::BindFramebuffer {
                gl: self.gl,
                target: GL_READ_FRAMEBUFFER,
                framebuffer: self.old_read_framebuffer,
            },
            RestoreFramebuffers::BindingRead { guard: self },
        )
    }
}

/// Binding a framebuffer object for a while.
pub enum TemporarilyBindFramebuffer {
    Saving { framebuffer: u32, saving: SaveFramebuffers },
    Binding { guard: FramebufferGuard, framebuffer: u32 },
}

impl Operation for TemporarilyBindFramebuffer {
    type Output = FramebufferGuard;

    open spec fn program(self) -> Program<FramebufferGuard> {
        match self {
            TemporarilyBindFramebuffer::Saving { framebuffer, saving } =>
                temporarily_bind_after_save_program(saving.program(), framebuffer),
            TemporarilyBindFramebuffer::Binding { guard, framebuffer } =>
                temporarily_bind_set_program(guard, framebuffer),
        }
    }

    fn resume(self, reply: Reply) -> (step: Step<Self, FramebufferGuard>) {
        proof {
            reveal_with_fuel(bind, 3);
        }
        match self {
            TemporarilyBindFramebuffer::Saving { framebuffer, saving } => {
                match saving.resume(reply) {
                    Step::Call(call, saving) => Step::Call(
                        call,
                        TemporarilyBindFramebuffer::Saving { framebuffer, saving },
                    ),
                    Step::Done(guard) => Step::Call(
                        Call::BindFramebuffer { gl: guard.gl, target: GL_FRAMEBUFFER, framebuffer },
                        TemporarilyBindFramebuffer::Binding { guard, framebuffer },
                    ),
                    Step::Abort => Step::Abort,
                }
            },
            TemporarilyBindFramebuffer::Binding { guard, .. } => {
                match reply {
                    Reply::Unit => Step::Done(guard),
                    _ => Step::Abort,
                }
            },
        }
    }
}

impl Device {
    /// Binds a framebuffer object in a context, which must be current, and returns a guard that
    /// remembers what was bound before.
    pub fn temporarily_bind_framebuffer(&self, context: &Context, framebuffer: u32) -> (step: Step<
        TemporarilyBindFramebuffer,
        FramebufferGuard,
    >)
        ensures
            starts(step, temporarily_bind_program(context.gl, framebuffer)),
    {
        Step::Call(
            Call::GetInteger { gl: context.gl, name: GL_DRAW_FRAMEBUFFER_BINDING },
            TemporarilyBindFramebuffer::Saving {
                framebuffer,
                saving: SaveFramebuffers::ReadingDraw { gl: context.gl },
            },
        )
    }
}

} // verus!
