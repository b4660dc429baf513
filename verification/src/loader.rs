//! Loading the WGL extension functions.
//!
//! `wglGetProcAddress` works only while a context is current, and a context needs a window. So the
//! extension functions are looked up once, on a thread of their own, by the procedure of a window
//! that exists for no other purpose.

use crate::call::{Call, Reply, WindowClass, WindowRequest};
use crate::constants::{COLOR_BACKGROUND, CS_OWNDC, WM_CREATE, WS_OVERLAPPEDWINDOW, WS_VISIBLE};
use crate::extensions::{
    extensions_in, pointer, pointer_at, recognized_extensions, words, Extension, ExtensionFunction,
    WGLExtensionFunctions,
};
use crate::handles::{Hdc, Hglrc, Hwnd};
use crate::pixel_format::{loader_pixel_format, PixelFormatDescriptor};
use crate::program::{
    call_address, call_dc, call_pixel_format, call_success, starts, Operation, Program, Step,
};
use vstd::prelude::*;

verus! {

/// How a call of the window procedure ends.
#[derive(Clone, Copy, Debug, PartialEq, Eq)]
pub struct WindowProcResult {
    /// What the procedure returns to the system.
    pub lresult: isize,
    /// The extension functions as the procedure leaves them.
    pub functions: WGLExtensionFunctions,
}

/// The procedure of the loader's window. When the window is created, extension functions are looked
/// up with the help of a short-lived context; every other message is left to the system.
pub open spec fn window_proc_program(
    window: Hwnd,
    message: u32,
    wparam: usize,
    lparam: isize,
    functions: WGLExtensionFunctions,
) -> Program<WindowProcResult> {
    if message == WM_CREATE {
        get_dc_program(window, functions)
    } else {
        leave_to_system_program(window, message, wparam, lparam, functions)
    }
}

/// A message that is left to the system, whose answer is passed on.
pub open spec fn leave_to_system_program(
    window: Hwnd,
    message: u32,
    wparam: usize,
    lparam: isize,
    functions: WGLExtensionFunctions,
) -> Program<WindowProcResult> {
    Program::Call(
        Call::DefWindowProc { window, message, wparam, lparam },
        |reply: Reply|
            match reply {
                Reply::Lresult(lresult) => Program::Done(WindowProcResult { lresult, functions }),
                _ => Program::Abort,
            },
    )
}

/// The window is there: its device context is needed.
pub open spec fn get_dc_program(
    window: Hwnd,
    functions: WGLExtensionFunctions,
) -> Program<WindowProcResult> {
    call_dc(Call::GetDc(window), |dc: Hdc| choose_format_program(dc, functions))
}

/// The device context is there: a pixel format is chosen, of which there must be one.
pub open spec fn choose_format_program(
    dc: Hdc,
    functions: WGLExtensionFunctions,
) -> Program<WindowProcResult> {
    call_pixel_format(
        Call::ChoosePixelFormat { dc, descriptor: loader_pixel_format() },
        |pixel_format: i32|
            if pixel_format == 0 {
                Program::Abort
            } else {
                set_format_program(dc, pixel_format, functions)
            },
    )
}

/// The pixel format is known: it is set, which must succeed.
pub open spec fn set_format_program(
    dc: Hdc,
    pixel_format: i32,
    functions: WGLExtensionFunctions,
) -> Program<WindowProcResult> {
    call_success(
        Call::SetPixelFormat { dc, pixel_format, descriptor: loader_pixel_format() },
        |ok: bool|
            if ok {
                create_program(dc, functions)
            } else {
                Program::Abort
            },
    )
}

/// The pixel format is set: a rendering context is created, which must succeed.
pub open spec fn create_program(
    dc: Hdc,
    functions: WGLExtensionFunctions,
) -> Program<WindowProcResult> {
    Program::Call(
        Call::CreateContext(dc),
        |reply: Reply|
            match reply {
                Reply::CreatedContext(Some(glrc)) => make_current_program(dc, glrc, functions),
                _ => Program::Abort,
            },
    )
}

/// The rendering context is there: it is made current, which must succeed.
pub open spec fn make_current_program(
    dc: Hdc,
    glrc: Hglrc,
    functions: WGLExtensionFunctions,
) -> Program<WindowProcResult> {
    call_success(
        Call::MakeCurrent { dc, glrc },
        |ok: bool|
            if ok {
                find_string_function_program(dc, glrc, functions)
            } else {
                Program::Abort
            },
    )
}

/// The rendering context is current: the function that lists the extensions is looked up. Where
/// there is none, no extension is loaded.
pub open spec fn find_string_function_program(
    dc: Hdc,
    glrc: Hglrc,
    functions: WGLExtensionFunctions,
) -> Program<WindowProcResult> {
    call_address(
        Call::GetExtensionAddress(ExtensionFunction::GetExtensionsStringArb),
        |address: usize|
            {
                let functions = WGLExtensionFunctions {
                    get_extensions_string_arb: pointer(address),
                    ..functions
                };
                if address == 0 {
                    load_program(glrc, seq![], seq![], functions)
                } else {
                    list_program(dc, glrc, address, functions)
                }
            },
    )
}

/// The function that lists the extensions is known: it is called, and what the list names is
/// loaded.
pub open spec fn list_program(
    dc: Hdc,
    glrc: Hglrc,
    address: usize,
    functions: WGLExtensionFunctions,
) -> Program<WindowProcResult> {
    Program::Call(
        Call::GetExtensionsStringArb { function: address, dc },
        |reply: Reply|
            match reply {
                Reply::ExtensionsString(list) => load_program(
                    glrc,
                    extensions_in(words(list@)),
                    seq![],
                    functions,
                ),
                _ => Program::Abort,
            },
    )
}

/// The functions of the given extensions are looked up, one extension after the other; the first
/// addresses of the first extension are known. Then the rendering context is deleted.
pub open spec fn load_program(
    glrc: Hglrc,
    extensions: Seq<Extension>,
    addresses: Seq<usize>,
    functions: WGLExtensionFunctions,
) -> Program<WindowProcResult>
    decreases
            extensions.len(),
            if addresses.len() < extensions[0].functions().len() {
                extensions[0].functions().len() - addresses.len()
            } else {
                0
            },
{
    if extensions.len() == 0 {
        delete_program(glrc, functions)
    } else {
        let wanted = extensions[0].functions();
        call_address(
            Call::GetExtensionAddress(wanted[addresses.len() as int]),
            |address: usize|
                {
                    let known = addresses.push(address);
                    if known.len() < wanted.len() {
                        load_program(glrc, extensions, known, functions)
                    } else {
                        load_program(
                            glrc,
                            extensions.drop_first(),
                            seq![],
                            functions.with(extensions[0], known),
                        )
                    }
                },
        )
    }
}

/// Everything is loaded: the rendering context is deleted, and whether that succeeds is of no
/// interest.
pub open spec fn delete_program(
    glrc: Hglrc,
    functions: WGLExtensionFunctions,
) -> Program<WindowProcResult> {
    call_success(
        Call::DeleteContext(glrc),
        |ok: bool| Program::Done(WindowProcResult { lresult: 0, functions }),
    )
}

/// A call of the window procedure of the loader's window.
pub enum LoaderWindowProc {
    LeavingToSystem {
        window: Hwnd,
        message: u32,
        wparam: usize,
        lparam: isize,
        functions: WGLExtensionFunctions,
    },
    GettingDc { window: Hwnd, functions: WGLExtensionFunctions },
    ChoosingFormat { dc: Hdc, functions: WGLExtensionFunctions },
    SettingFormat { dc: Hdc, pixel_format: i32, functions: WGLExtensionFunctions },
    Creating { dc: Hdc, functions: WGLExtensionFunctions },
    MakingCurrent { dc: Hdc, glrc: Hglrc, functions: WGLExtensionFunctions },
    FindingStringFunction { dc: Hdc, glrc: Hglrc, functions: WGLExtensionFunctions },
    Listing { dc: Hdc, glrc: Hglrc, address: usize, functions: WGLExtensionFunctions },
    Loading(Loading),
    Deleting { glrc: Hglrc, functions: WGLExtensionFunctions },
}

/// Looking up the functions of extensions: which extensions there are, how many of them are done,
/// and the addresses that are known of the next one.
pub struct Loading {
    pub glrc: Hglrc,
    pub extensions: Vec<Extension>,
    pub done: usize,
    pub addresses: Vec<usize>,
    pub functions: WGLExtensionFunctions,
}

impl Loading {
    /// Whether there is a next extension, and an address that is missing of it.
    pub open spec fn waits(self) -> bool {
        &&& self.done < self.extensions.len()
        &&& self.addresses.len() < self.extensions@[self.done as int].functions().len()
    }

    /// The call that comes after all addresses of some extension are known, and what waits for
    /// the reply to it.
    fn proceed(
        glrc: Hglrc,
        extensions: Vec<Extension>,
        done: usize,
        functions: WGLExtensionFunctions,
    ) -> (next: (Call, LoaderWindowProc))
        requires
            done <= extensions.len(),
        ensures
            next.1.left() == load_program(glrc, extensions@.skip(done as int), seq![], functions),
            next.1.left().calls(next.0),
    {
        if done < extensions.len() {
            let function: ExtensionFunction = extensions[done].function_at(0);
            let addresses: Vec<usize> = Vec::new();
            assert(addresses@ =~= seq![]);
            (
                Call::GetExtensionAddress(function),
                LoaderWindowProc::Loading(
                    Loading { glrc, extensions, done, addresses, functions },
                ),
            )
        } else {
            (Call::DeleteContext(glrc), LoaderWindowProc::Deleting { glrc, functions })
        }
    }
}

impl LoaderWindowProc {
    /// What is left to do.
    pub open spec fn left(self) -> Program<WindowProcResult> {
        match self {
            LoaderWindowProc::LeavingToSystem { window, message, wparam, lparam, functions } =>
                leave_to_system_program(window, message, wparam, lparam, functions),
            LoaderWindowProc::GettingDc { window, functions } => get_dc_program(window, functions),
            LoaderWindowProc::ChoosingFormat { dc, functions } => choose_format_program(
                dc,
                functions,
            ),
            LoaderWindowProc::SettingFormat { dc, pixel_format, functions } => set_format_program(
                dc,
                pixel_format,
                functions,
            ),
            LoaderWindowProc::Creating { dc, functions } => create_program(dc, functions),
            LoaderWindowProc::MakingCurrent { dc, glrc, functions } => make_current_program(
                dc,
                glrc,
                functions,
            ),
            LoaderWindowProc::FindingStringFunction { dc, glrc, functions } =>
                find_string_function_program(dc, glrc, functions),
            LoaderWindowProc::Listing { dc, glrc, address, functions } => list_program(
                dc,
                glrc,
                address,
                functions,
            ),
            LoaderWindowProc::Loading(loading) => if loading.waits() {
                load_program(
                    loading.glrc,
                    loading.extensions@.skip(loading.done as int),
                    loading.addresses@,
                    loading.functions,
                )
            } else {
                Program::Abort
            },
            LoaderWindowProc::Deleting { glrc, functions } => delete_program(glrc, functions),
        }
    }
}

impl Operation for LoaderWindowProc {
    type Output = WindowProcResult;

    open spec fn program(self) -> Program<WindowProcResult> {
        self.left()
    }

    fn resume(self, reply: Reply) -> (step: Step<Self, WindowProcResult>) {
        match (self, reply) {
            (LoaderWindowProc::LeavingToSystem { functions, .. }, Reply::Lresult(lresult)) => {
                Step::Done(WindowProcResult { lresult, functions })
            },
            (LoaderWindowProc::GettingDc { functions, .. }, Reply::Dc(dc)) => {
                Step::Call(
                    Call::ChoosePixelFormat { dc, descriptor: PixelFormatDescriptor::for_loader() },
                    LoaderWindowProc::ChoosingFormat { dc, functions },
                )
            },
            (
                LoaderWindowProc::ChoosingFormat { dc, functions },
                Reply::PixelFormat(pixel_format),
            ) => {
                if pixel_format == 0 {
                    Step::Abort
                } else {
                    let descriptor = PixelFormatDescriptor::for_loader();
                    Step::Call(
                        Call::SetPixelFormat { dc, pixel_format, descriptor },
                        LoaderWindowProc::SettingFormat { dc, pixel_format, functions },
                    )
                }
            },
            (LoaderWindowProc::SettingFormat { dc, functions, .. }, Reply::Success(ok)) => {
                if ok {
                    Step::Call(
                        Call::CreateContext(dc),
                        LoaderWindowProc::Creating { dc, functions },
                    )
                } else {
                    Step::Abort
                }
            },
            (LoaderWindowProc::Creating { dc, functions }, Reply::CreatedContext(Some(glrc))) => {
                Step::Call(
                    Call::MakeCurrent { dc, glrc },
                    LoaderWindowProc::MakingCurrent { dc, glrc, functions },
                )
            },
            (LoaderWindowProc::MakingCurrent { dc, glrc, functions }, Reply::Success(ok)) => {
                if ok {
                    Step::Call(
                        Call::GetExtensionAddress(ExtensionFunction::GetExtensionsStringArb),
                        LoaderWindowProc::FindingStringFunction { dc, glrc, functions },
                    )
                } else {
                    Step::Abort
                }
            },
            (
                LoaderWindowProc::FindingStringFunction { dc, glrc, functions },
                Reply::Address(address),
            ) => {
                let mut functions: WGLExtensionFunctions = functions;
                functions.get_extensions_string_arb = pointer_at(address);
                if address == 0 {
                    Step::Call(
                        Call::DeleteContext(glrc),
                        LoaderWindowProc::Deleting { glrc, functions },
                    )
                } else {
                    Step::Call(
                        Call::GetExtensionsStringArb { function: address, dc },
                        LoaderWindowProc::Listing { dc, glrc, address, functions },
                    )
                }
            },
            (LoaderWindowProc::Listing { glrc, functions, .. }, Reply::ExtensionsString(list)) => {
                let extensions: Vec<Extension> = recognized_extensions(list.as_str());
                assert(extensions@.skip(0) =~= extensions@);
                let (call, next) = Loading::proceed(glrc, extensions, 0, functions);
                Step::Call(call, next)
            },
            (LoaderWindowProc::Loading(loading), Reply::Address(address)) => {
                let Loading { glrc, extensions, done, mut addresses, mut functions } = loading;
                if done >= extensions.len() {
                    return Step::Abort;
                }
                let extension: Extension = extensions[done];
                if addresses.len() >= extension.function_count() {
                    return Step::Abort;
                }
                let ghost left = extensions@.skip(done as int);
                assert(left.drop_first() =~= extensions@.skip(done + 1));
                addresses.push(address);
                if addresses.len() < extension.function_count() {
                    let function: ExtensionFunction = extension.function_at(addresses.len());
                    Step::Call(
                        Call::GetExtensionAddress(function),
                        LoaderWindowProc::Loading(
                            Loading { glrc, extensions, done, addresses, functions },
                        ),
                    )
                } else {
                    functions.install(extension, &addresses);
                    let (call, next) = Loading::proceed(glrc, extensions, done + 1, functions);
                    Step::Call(call, next)
                }
            },
            (LoaderWindowProc::Deleting { functions, .. }, Reply::Success(_)) => {
                Step::Done(WindowProcResult { lresult: 0, functions })
            },
            _ => Step::Abort,
        }
    }
}

/// The procedure of the loader's window, called with a message, for a table of extension functions
/// that it may add to.
pub fn extension_loader_window_proc(
    window: Hwnd,
    message: u32,
    wparam: usize,
    lparam: isize,
    functions: WGLExtensionFunctions,
) -> (step: Step<LoaderWindowProc, WindowProcResult>)
    ensures
        starts(step, window_proc_program(window, message, wparam, lparam, functions)),
{
    if message == WM_CREATE {
        Step::Call(Call::GetDc(window), LoaderWindowProc::GettingDc { window, functions })
    } else {
        Step::Call(
            Call::DefWindowProc { window, message, wparam, lparam },
            LoaderWindowProc::LeavingToSystem { window, message, wparam, lparam, functions },
        )
    }
}

/// The class of the loader's window.
pub open spec fn loader_window_class(instance: isize) -> WindowClass {
    WindowClass {
        name: "SurfmanFalseWindow",
        style: CS_OWNDC,
        class_extra: 0,
        window_extra: 0,
        instance,
        background: COLOR_BACKGROUND as isize,
    }
}

/// The loader's window.
pub open spec fn loader_window(instance: isize, class: u16) -> WindowRequest {
    WindowRequest {
        class,
        title: "SurfmanFalseWindow",
        style: WS_OVERLAPPEDWINDOW | WS_VISIBLE,
        x: 0,
        y: 0,
        width: 640,
        height: 480,
        instance,
    }
}

/// What the loader's thread does: it registers the class of the loader's window, creates the
/// window, whose procedure looks up the extension functions, and destroys it again. All but the
/// last must succeed.
pub open spec fn loader_thread_program() -> Program<WGLExtensionFunctions> {
    Program::Call(
        Call::GetModuleHandle,
        |reply: Reply|
            match reply {
                Reply::Module(Some(instance)) => register_class_program(instance),
                _ => Program::Abort,
            },
    )
}

/// The module is known: the window class is registered.
pub open spec fn register_class_program(instance: isize) -> Program<WGLExtensionFunctions> {
    Program::Call(
        Call::RegisterClass(loader_window_class(instance)),
        |reply: Reply|
            match reply {
                Reply::Atom(class) => if class == 0 {
                    Program::Abort
                } else {
                    create_window_program(instance, class)
                },
                _ => Program::Abort,
            },
    )
}

/// The window class is registered: the window is created, with an empty table for its procedure. The
/// result is the table as the procedure left it.
pub open spec fn create_window_program(
    instance: isize,
    class: u16,
) -> Program<WGLExtensionFunctions> {
    Program::Call(
        Call::CreateLoaderWindow {
            wanted: loader_window(instance, class),
            table: WGLExtensionFunctions::nothing(),
        },
        |reply: Reply|
            match reply {
                Reply::LoaderWindow { window: Some(window), functions } => destroy_window_program(
                    window,
                    functions,
                ),
                _ => Program::Abort,
            },
    )
}

/// The extension functions are known: the window is destroyed.
pub open spec fn destroy_window_program(
    window: Hwnd,
    functions: WGLExtensionFunctions,
) -> Program<WGLExtensionFunctions> {
    call_success(Call::DestroyWindow(window), |ok: bool| Program::Done(functions))
}

/// The work of the loader's thread.
pub enum ExtensionLoader {
    GettingModule,
    Registering { instance: isize },
    CreatingWindow { instance: isize, class: u16 },
    DestroyingWindow { window: Hwnd, functions: WGLExtensionFunctions },
}

impl Operation for ExtensionLoader {
    type Output = WGLExtensionFunctions;

    open spec fn program(self) -> Program<WGLExtensionFunctions> {
        match self {
            ExtensionLoader::GettingModule => loader_thread_program(),
            ExtensionLoader::Registering { instance } => register_class_program(instance),
            ExtensionLoader::CreatingWindow { instance, class } => create_window_program(
                instance,
                class,
            ),
            ExtensionLoader::DestroyingWindow { window, functions } => destroy_window_program(
                window,
                functions,
            ),
        }
    }

    fn resume(self, reply: Reply) -> (step: Step<Self, WGLExtensionFunctions>) {
        match (self, reply) {
            (ExtensionLoader::GettingModule, Reply::Module(Some(instance))) => {
                let class = WindowClass {
                    name: "SurfmanFalseWindow",
                    style: CS_OWNDC,
                    class_extra: 0,
                    window_extra: 0,
                    instance,
                    background: COLOR_BACKGROUND as isize,
                };
                Step::Call(Call::RegisterClass(class), ExtensionLoader::Registering { instance })
            },
            (ExtensionLoader::Registering { instance }, Reply::Atom(class)) => {
                if class == 0 {
                    Step::Abort
                } else {
                    let request = WindowRequest {
                        class,
                        title: "SurfmanFalseWindow",
                        style: WS_OVERLAPPEDWINDOW | WS_VISIBLE,
                        x: 0,
                        y: 0,
                        width: 640,
                        height: 480,
                        instance,
                    };
                    Step::Call(
                        Call::CreateLoaderWindow {
                            wanted: request,
                            table: WGLExtensionFunctions::default(),
                        },
                        ExtensionLoader::CreatingWindow { instance, class },
                    )
                }
            },
            (
                ExtensionLoader::CreatingWindow { .. },
                Reply::LoaderWindow { window: Some(window), functions },
            ) => {
                Step::Call(
                    Call::DestroyWindow(window),
                    ExtensionLoader::DestroyingWindow { window, functions },
                )
            },
            (ExtensionLoader::DestroyingWindow { functions, .. }, Reply::Success(_)) => {
                Step::Done(functions)
            },
            _ => Step::Abort,
        }
    }
}

/// Looks up the extension functions of the driver. This is the work of a thread of its own.
pub fn extension_loader_thread() -> (step: Step<ExtensionLoader, WGLExtensionFunctions>)
    ensures
        starts(step, loader_thread_program()),
{
    Step::Call(Call::GetModuleHandle, ExtensionLoader::GettingModule)
}

} // verus!
