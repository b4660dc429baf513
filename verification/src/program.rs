//! Operations as programs.
//!
//! An operation alternates decisions, which are made here, and calls, which the caller makes. It is
//! started by a function that returns a [`Step`]: the first call to make, or the result. As long as
//! a step asks for a call, the caller makes it and hands the reply to [`Operation::resume`], which
//! gives the next step.
//!
//! What an operation does as a whole is stated as a [`Program`]: a call, and for each reply to it
//! the program that follows. Every step is the step of a program, so the program fixes all calls,
//! their order and arguments, and the result, for every sequence of replies.

use crate::attributes::GLVersion;
use crate::call::{Call, Reply};
use crate::context::{Gl, HiddenWindow};
use crate::handles::{Hdc, Hglrc};
use vstd::prelude::*;

verus! {

/// What is left to do of an operation that ends with a result of type `R`.
pub enum Program<R> {
    /// Nothing: this is the result.
    Done(R),
    /// Make this call; the reply to it says what follows.
    Call(Call, spec_fn(Reply) -> Program<R>),
    /// Panic: the outside broke a promise that the operation cannot go on without. The calls that
    /// undo what was begun come before this.
    Abort,
}

/// The next thing that the caller of an operation has to do.
pub enum Step<O, R> {
    /// Make this call and resume the operation with the reply.
    Call(Call, O),
    /// Take the result.
    Done(R),
    /// Panic.
    Abort,
}

impl<R> Program<R> {
    /// What is left to do after this reply.
    pub open spec fn resumed(self, reply: Reply) -> Program<R> {
        match self {
            Program::Call(_, next) => next(reply),
            _ => Program::Abort,
        }
    }

    /// Whether this is the call that comes next.
    pub open spec fn calls(self, call: Call) -> bool {
        self matches Program::Call(c, _) && c == call
    }
}

/// An operation that waits for the reply to a call.
pub trait Operation: Sized {
    /// The result of the operation.
    type Output;

    /// What is left to do, the call that the operation waits for included.
    spec fn program(self) -> Program<Self::Output>;

    /// Takes the reply to the call that the operation waits for. After a reply that the operation
    /// cannot go on with, it undoes what it has begun, by calls like any other, and ends with
    /// [`Step::Abort`]. After a reply that does not go with the call, it ends with [`Step::Abort`]
    /// too, but may leave what it has begun as it is.
    fn resume(self, reply: Reply) -> (step: Step<Self, Self::Output>)
        ensures
            match step {
                Step::Call(call, next) => {
                    &&& next.program() == self.program().resumed(reply)
                    &&& next.program().calls(call)
                },
                Step::Done(result) => self.program().resumed(reply) == Program::Done(result),
                Step::Abort => self.program().resumed(reply) is Abort,
            },
    ;
}

/// Whether this step is the first one of a program.
pub open spec fn starts<O: Operation>(
    step: Step<O, O::Output>,
    program: Program<O::Output>,
) -> bool {
    match step {
        Step::Call(call, next) => next.program() == program && program.calls(call),
        Step::Done(result) => program == Program::Done(result),
        Step::Abort => program is Abort,
    }
}

/// One program, and then another that depends on the result of the first.
pub open spec fn bind<A, B>(first: Program<A>, then: spec_fn(A) -> Program<B>) -> Program<B>
    decreases first,
{
    match first {
        Program::Done(result) => then(result),
        Program::Call(call, next) => Program::Call(call, |reply: Reply| bind(next(reply), then)),
        Program::Abort => Program::Abort,
    }
}

/// One program, and then another that depends on the result of the first. Where the first panics,
/// what was begun before it is undone; that is the third program.
pub open spec fn bind_or_undo<A, B>(
    first: Program<A>,
    then: spec_fn(A) -> Program<B>,
    undo: Program<B>,
) -> Program<B>
    decreases first,
{
    match first {
        Program::Done(result) => then(result),
        Program::Call(call, next) => Program::Call(
            call,
            |reply: Reply| bind_or_undo(next(reply), then, undo),
        ),
        Program::Abort => undo,
    }
}

/// A call whose reply tells nothing.
pub open spec fn call_unit<R>(call: Call, then: spec_fn() -> Program<R>) -> Program<R> {
    Program::Call(
        call,
        |reply: Reply|
            match reply {
                Reply::Unit => then(),
                _ => Program::Abort,
            },
    )
}

/// A call that is answered with a device context.
pub open spec fn call_dc<R>(call: Call, then: spec_fn(Hdc) -> Program<R>) -> Program<R> {
    Program::Call(
        call,
        |reply: Reply|
            match reply {
                Reply::Dc(dc) => then(dc),
                _ => Program::Abort,
            },
    )
}

/// A call that is answered with a rendering context.
pub open spec fn call_context<R>(call: Call, then: spec_fn(Hglrc) -> Program<R>) -> Program<R> {
    Program::Call(
        call,
        |reply: Reply|
            match reply {
                Reply::Context(glrc) => then(glrc),
                _ => Program::Abort,
            },
    )
}

/// A call that is answered with whether it succeeded.
pub open spec fn call_success<R>(call: Call, then: spec_fn(bool) -> Program<R>) -> Program<R> {
    Program::Call(
        call,
        |reply: Reply|
            match reply {
                Reply::Success(ok) => then(ok),
                _ => Program::Abort,
            },
    )
}

/// A call that is answered with the index of a pixel format.
pub open spec fn call_pixel_format<R>(call: Call, then: spec_fn(i32) -> Program<R>) -> Program<R> {
    Program::Call(
        call,
        |reply: Reply|
            match reply {
                Reply::PixelFormat(pixel_format) => then(pixel_format),
                _ => Program::Abort,
            },
    )
}

/// A call that is answered with a hidden window.
pub open spec fn call_hidden_window<R>(
    call: Call,
    then: spec_fn(HiddenWindow) -> Program<R>,
) -> Program<R> {
    Program::Call(
        call,
        |reply: Reply|
            match reply {
                Reply::HiddenWindow(hidden_window) => then(hidden_window),
                _ => Program::Abort,
            },
    )
}

/// A call that is answered with a table of OpenGL functions, if there is one.
pub open spec fn call_gl<R>(call: Call, then: spec_fn(Option<Gl>) -> Program<R>) -> Program<R> {
    Program::Call(
        call,
        |reply: Reply|
            match reply {
                Reply::Gl(loaded) => then(loaded),
                _ => Program::Abort,
            },
    )
}

/// A call that is answered with an OpenGL version.
pub open spec fn call_gl_version<R>(
    call: Call,
    then: spec_fn(GLVersion) -> Program<R>,
) -> Program<R> {
    Program::Call(
        call,
        |reply: Reply|
            match reply {
                Reply::GlVersion(version) => then(version),
                _ => Program::Abort,
            },
    )
}

/// A call that is answered with whether a context has the compatibility profile.
pub open spec fn call_profile<R>(call: Call, then: spec_fn(bool) -> Program<R>) -> Program<R> {
    Program::Call(
        call,
        |reply: Reply|
            match reply {
                Reply::CompatibilityProfile(compatibility) => then(compatibility),
                _ => Program::Abort,
            },
    )
}

/// A call that is answered with an integer.
pub open spec fn call_integer<R>(call: Call, then: spec_fn(i32) -> Program<R>) -> Program<R> {
    Program::Call(
        call,
        |reply: Reply|
            match reply {
                Reply::Integer(value) => then(value),
                _ => Program::Abort,
            },
    )
}

/// A call that is answered with the address of a function.
pub open spec fn call_address<R>(call: Call, then: spec_fn(usize) -> Program<R>) -> Program<R> {
    Program::Call(
        call,
        |reply: Reply|
            match reply {
                Reply::Address(address) => then(address),
                _ => Program::Abort,
            },
    )
}

} // verus!
