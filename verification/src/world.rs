//! What an operation does to the thread that it runs on.
//!
//! A [`World`] is what an operation can observe and change: what is current, what is bound, locked
//! and held, which pixel formats were set, and every call that was made so far. The driver's answers
//! are arbitrary, except to calls that ask for what earlier calls have set. [`run`] carries a program out in a world. What
//! holds of operations as a whole is stated over that, for every world.

use crate::call::{Call, Reply};
use crate::constants::{
    GL_DRAW_FRAMEBUFFER, GL_DRAW_FRAMEBUFFER_BINDING, GL_FRAMEBUFFER, GL_READ_FRAMEBUFFER,
    GL_READ_FRAMEBUFFER_BINDING,
};
use crate::context::{HiddenWindow, SurfaceID};
use crate::handles::{Hdc, Hglrc, Hwnd};
use crate::program::{bind, bind_or_undo, Program};
use vstd::multiset::Multiset;
use vstd::prelude::*;

verus! {

/// What is current after a device context and a rendering context were made current: those two, or
/// neither where the rendering context is null.
pub open spec fn as_current(dc: Hdc, glrc: Hglrc) -> (Hdc, Hglrc) {
    if glrc == Hglrc(0) {
        (Hdc(0), Hglrc(0))
    } else {
        (dc, glrc)
    }
}

/// The state of a thread, and of the driver as far as the thread can tell.
pub struct World {
    /// The device context that is current, or null.
    pub dc: Hdc,
    /// The rendering context that is current, or null.
    pub glrc: Hglrc,
    /// The framebuffer object that is bound for reading in each rendering context.
    pub read_framebuffers: Map<Hglrc, u32>,
    /// The framebuffer object that is bound for drawing in each rendering context.
    pub draw_framebuffers: Map<Hglrc, u32>,
    /// The pixel format of each window whose format was set.
    pub formats: Map<Hwnd, i32>,
    /// The window that each device context was last got for.
    pub owners: Map<Hdc, Hwnd>,
    /// The surfaces that are locked.
    pub locked: Set<SurfaceID>,
    /// The device contexts that were got and not yet released, each with its window.
    pub held: Multiset<(Hwnd, Hdc)>,
    /// The hidden windows that were created and are not yet destroyed.
    pub windows: Multiset<HiddenWindow>,
    /// Every call that was made.
    pub log: Seq<Call>,
    /// What the driver answers to a call, given all calls before it.
    pub driver: spec_fn(Seq<Call>, Call) -> Reply,
    /// What is current after an attempt to make something current has failed, or to delete what is
    /// current, given all calls.
    pub lost: spec_fn(Seq<Call>) -> (Hdc, Hglrc),
}

/// How a program ends: with a result, or with a panic, and in which world.
pub struct Run<R> {
    pub result: Option<R>,
    pub world: World,
}

/// Whether a reply is of the kind that goes with a call.
pub open spec fn fits(call: Call, reply: Reply) -> bool {
    match call {
        Call::CreateHiddenWindow => reply is HiddenWindow,
        Call::DestroyHiddenWindow(_) => reply is Unit,
        Call::GetDc(_) => reply is Dc,
        Call::ReleaseDc { .. } => reply is Unit,
        Call::ChoosePixelFormat { .. } => reply is PixelFormat,
        Call::DescribePixelFormat { .. } => reply is DescribedFormat,
        Call::SetPixelFormat { .. } => reply is Success,
        Call::GetPixelFormat(_) => reply is PixelFormat,
        Call::ChoosePixelFormatArb { .. } => reply is ChosenFormat,
        Call::GetPixelFormatAttribivArb { .. } => reply is FormatAttributes,
        Call::CreateContextAttribsArb { .. } => reply is Context,
        Call::CreateContext(_) => reply is CreatedContext,
        Call::DeleteContext(_) => reply is Success,
        Call::MakeCurrent { .. } => reply is Success,
        Call::GetCurrentDc => reply is Dc,
        Call::GetCurrentContext => reply is Context,
        Call::GetExtensionAddress(_) => reply is Address,
        Call::GetSymbolAddress(_) => reply is Address,
        Call::GetLibrarySymbolAddress(_) => reply is Address,
        Call::GetExtensionsStringArb { .. } => reply is ExtensionsString,
        Call::LoadGl => reply is Gl,
        Call::GetGlVersion(_) => reply is GlVersion,
        Call::GetCompatibilityProfile(_) => reply is CompatibilityProfile,
        Call::GetInteger { .. } => reply is Integer,
        Call::BindFramebuffer { .. } => reply is Unit,
        Call::LockSurface(_) => reply is Unit,
        Call::UnlockSurface(_) => reply is Unit,
        Call::DestroySurface { .. } => reply is SurfaceDestroyed,
        Call::GetModuleHandle => reply is Module,
        Call::RegisterClass(_) => reply is Atom,
        Call::CreateLoaderWindow { .. } => reply is LoaderWindow,
        Call::DestroyWindow(_) => reply is Success,
        Call::DefWindowProc { .. } => reply is Lresult,
    }
}

/// Whether a reply to a call is one that an operation can go on with where it insists on success.
pub open spec fn succeeds(call: Call, reply: Reply) -> bool {
    match call {
        Call::ChoosePixelFormat { .. } => reply matches Reply::PixelFormat(pixel_format)
            && pixel_format != 0,
        Call::DescribePixelFormat { .. } => reply matches Reply::DescribedFormat { total, .. }
            && total != 0,
        Call::SetPixelFormat { .. } => reply == Reply::Success(true),
        Call::GetPixelFormatAttribivArb { .. } => reply matches Reply::FormatAttributes { ok, .. }
            && ok,
        Call::CreateContext(_) => reply matches Reply::CreatedContext(Some(_)),
        Call::MakeCurrent { .. } => reply == Reply::Success(true),
        Call::GetLibrarySymbolAddress(_) => reply matches Reply::Address(address) && address != 0,
        Call::GetModuleHandle => reply matches Reply::Module(Some(_)),
        Call::RegisterClass(_) => reply matches Reply::Atom(atom) && atom != 0,
        Call::CreateLoaderWindow { .. } => reply matches Reply::LoaderWindow {
            window: Some(_),
            ..
        },
        Call::LoadGl => reply matches Reply::Gl(Some(_)),
        _ => true,
    }
}

impl World {
    /// Whether every call succeeds whose success some operation insists on.
    pub open spec fn cooperative(self) -> bool {
        forall|log: Seq<Call>, call: Call| succeeds(call, #[trigger] (self.driver)(log, call))
    }

    /// Whether the driver answers every call with a reply of the kind that goes with it.
    pub open spec fn answers(self) -> bool {
        forall|log: Seq<Call>, call: Call| fits(call, #[trigger] (self.driver)(log, call))
    }

    /// Whether the driver answers every call with a reply of the kind that goes with it, gives a
    /// rendering context that was created a handle that names one, and never has a device context
    /// current without a rendering context.
    pub open spec fn orderly(self) -> bool {
        &&& self.answers()
        &&& forall|log: Seq<Call>, dc: Hdc|
            (#[trigger] (self.driver)(log, Call::CreateContext(dc))) matches Reply::CreatedContext(
                Some(glrc),
            ) ==> !glrc.invalid()
        &&& self.current() == as_current(self.dc, self.glrc)
        &&& forall|log: Seq<Call>|
            (#[trigger] (self.lost)(log)) == as_current((self.lost)(log).0, (self.lost)(log).1)
    }

    /// Whether what is current now can be made current again after the given calls.
    pub open spec fn restorable_after(self, log: Seq<Call>) -> bool {
        (self.driver)(log, Call::MakeCurrent { dc: self.dc, glrc: self.glrc }) == Reply::Success(
            true,
        )
    }

    /// What is current.
    pub open spec fn current(self) -> (Hdc, Hglrc) {
        (self.dc, self.glrc)
    }

    /// The pixel format of a window, if it was set.
    pub open spec fn format(self, window: Hwnd) -> Option<i32> {
        if self.formats.dom().contains(window) {
            Some(self.formats[window])
        } else {
            None
        }
    }

    /// The pixel format of the window of a device context, if it was set.
    pub open spec fn format_of(self, dc: Hdc) -> Option<i32> {
        if self.owners.dom().contains(dc) {
            self.format(self.owners[dc])
        } else {
            None
        }
    }

    /// The reply to a call.
    pub open spec fn answer(self, call: Call) -> Reply {
        match call {
            Call::GetCurrentDc => Reply::Dc(self.dc),
            Call::GetCurrentContext => Reply::Context(self.glrc),
            Call::GetPixelFormat(dc) => match self.format_of(dc) {
                Some(pixel_format) => Reply::PixelFormat(pixel_format),
                None => (self.driver)(self.log, call),
            },
            Call::GetInteger { name, .. } => if self.glrc == Hglrc(0) {
                (self.driver)(self.log, call)
            } else if name == GL_DRAW_FRAMEBUFFER_BINDING {
                Reply::Integer(self.draw_framebuffers[self.glrc] as i32)
            } else if name == GL_READ_FRAMEBUFFER_BINDING {
                Reply::Integer(self.read_framebuffers[self.glrc] as i32)
            } else {
                (self.driver)(self.log, call)
            },
            _ => (self.driver)(self.log, call),
        }
    }

    /// What is current after a call.
    pub open spec fn current_after(self, call: Call) -> (Hdc, Hglrc) {
        match call {
            Call::MakeCurrent { dc, glrc } => if self.answer(call) == Reply::Success(true) {
                as_current(dc, glrc)
            } else {
                (self.lost)(self.log.push(call))
            },
            Call::DeleteContext(glrc) => if glrc != self.glrc || glrc == Hglrc(0) {
                (self.dc, self.glrc)
            } else if self.answer(call) == Reply::Success(true) {
                (Hdc(0), Hglrc(0))
            } else {
                (self.lost)(self.log.push(call))
            },
            _ => (self.dc, self.glrc),
        }
    }

    /// The world after a call.
    pub open spec fn after(self, call: Call) -> World {
        World {
            dc: self.current_after(call).0,
            glrc: self.current_after(call).1,
            read_framebuffers: match call {
                Call::BindFramebuffer { target, framebuffer, .. } => if self.glrc != Hglrc(0) && (
                target == GL_FRAMEBUFFER || target == GL_READ_FRAMEBUFFER) {
                    self.read_framebuffers.insert(self.glrc, framebuffer)
                } else {
                    self.read_framebuffers
                },
                _ => self.read_framebuffers,
            },
            draw_framebuffers: match call {
                Call::BindFramebuffer { target, framebuffer, .. } => if self.glrc != Hglrc(0) && (
                target == GL_FRAMEBUFFER || target == GL_DRAW_FRAMEBUFFER) {
                    self.draw_framebuffers.insert(self.glrc, framebuffer)
                } else {
                    self.draw_framebuffers
                },
                _ => self.draw_framebuffers,
            },
            formats: match call {
                Call::SetPixelFormat { dc, pixel_format, .. } => if self.owners.dom().contains(dc)
                    && self.answer(call) == Reply::Success(true) {
                    self.formats.insert(self.owners[dc], pixel_format)
                } else {
                    self.formats
                },
                Call::DestroyHiddenWindow(hidden_window) => self.formats.remove(
                    hidden_window.window,
                ),
                Call::DestroyWindow(window) => if self.answer(call) == Reply::Success(true) {
                    self.formats.remove(window)
                } else {
                    self.formats
                },
                _ => self.formats,
            },
            owners: match call {
                Call::GetDc(window) => match self.answer(call) {
                    Reply::Dc(dc) => self.owners.insert(dc, window),
                    _ => self.owners,
                },
                _ => self.owners,
            },
            locked: match call {
                Call::LockSurface(id) => self.locked.insert(id),
                Call::UnlockSurface(id) => self.locked.remove(id),
                _ => self.locked,
            },
            held: match call {
                Call::GetDc(window) => match self.answer(call) {
                    Reply::Dc(dc) => self.held.insert((window, dc)),
                    _ => self.held,
                },
                Call::ReleaseDc { window, dc } => self.held.remove((window, dc)),
                _ => self.held,
            },
            windows: match call {
                Call::CreateHiddenWindow => match self.answer(call) {
                    Reply::HiddenWindow(hidden_window) => self.windows.insert(hidden_window),
                    _ => self.windows,
                },
                Call::DestroyHiddenWindow(hidden_window) => self.windows.remove(hidden_window),
                _ => self.windows,
            },
            log: self.log.push(call),
            ..self
        }
    }
}

/// Carries a program out in a world.
pub open spec fn run<R>(program: Program<R>, world: World) -> Run<R>
    decreases program,
{
    match program {
        Program::Done(result) => Run { result: Some(result), world },
        Program::Call(call, next) => run(next(world.answer(call)), world.after(call)),
        Program::Abort => Run { result: None, world },
    }
}

/// A world stays orderly while a program is carried out.
pub proof fn lemma_stays_orderly<R>(program: Program<R>, world: World)
    requires
        world.orderly(),
    ensures
        run(program, world).world.orderly(),
    decreases program,
{
    if let Program::Call(call, next) = program {
        assert(world.after(call).orderly());
        lemma_stays_orderly(next(world.answer(call)), world.after(call));
    }
}

/// A driver that answers goes on answering while a program is carried out.
pub proof fn lemma_still_answers<R>(program: Program<R>, world: World)
    requires
        world.answers(),
    ensures
        run(program, world).world.answers(),
    decreases program,
{
    if let Program::Call(call, next) = program {
        lemma_still_answers(next(world.answer(call)), world.after(call));
    }
}

/// The calls that were made before a program is carried out stay the first ones.
pub proof fn lemma_log_grows<R>(program: Program<R>, world: World)
    ensures
        world.log.is_prefix_of(run(program, world).world.log),
    decreases program,
{
    if let Program::Call(call, next) = program {
        lemma_log_grows(next(world.answer(call)), world.after(call));
    }
}

/// To carry out one program and then another is to carry out the one that consists of both.
pub proof fn lemma_run_bind<A, B>(
    first: Program<A>,
    then: spec_fn(A) -> Program<B>,
    world: World,
)
    ensures
        run(bind(first, then), world) == (match run(first, world).result {
            Some(result) => run(then(result), run(first, world).world),
            None => Run { result: None::<B>, world: run(first, world).world },
        }),
    decreases first,
{
    match first {
        Program::Done(result) => {},
        Program::Call(call, next) => {
            lemma_run_bind(next(world.answer(call)), then, world.after(call));
        },
        Program::Abort => {},
    }
}

/// To carry out one program and then another, or what undoes the first, is to carry out the one that
/// consists of all three.
pub proof fn lemma_run_bind_or_undo<A, B>(
    first: Program<A>,
    then: spec_fn(A) -> Program<B>,
    undo: Program<B>,
    world: World,
)
    ensures
        run(bind_or_undo(first, then, undo), world) == (match run(first, world).result {
            Some(result) => run(then(result), run(first, world).world),
            None => run(undo, run(first, world).world),
        }),
    decreases first,
{
    match first {
        Program::Done(result) => {},
        Program::Call(call, next) => {
            lemma_run_bind_or_undo(next(world.answer(call)), then, undo, world.after(call));
        },
        Program::Abort => {},
    }
}

} // verus!
