use surfman::call::{Call, Reply, WindowClass, WindowRequest};
use surfman::extensions::{
    recognized_extensions, Extension, ExtensionFunction, WGLDXInteropExtensionFunctions,
    WGLExtensionFunctions, WGLPixelFormatExtensionFunctions,
};
use surfman::handles::{Hdc, Hglrc, Hwnd};
use surfman::loader::{extension_loader_thread, extension_loader_window_proc, WindowProcResult};
use surfman::pixel_format::PixelFormatDescriptor;
use surfman::program::{Operation, Step};

/// Carries an operation out. Every call must be the next one of the script, and the script must be
/// used up at the end. A panic of the operation gives `None`.
fn play<O: Operation>(
    first: Step<O, O::Output>,
    script: Vec<(Call, Reply)>,
) -> Option<O::Output> {
    let mut script = script.into_iter();
    let mut step = first;
    loop {
        match step {
            Step::Call(call, operation) => {
                let (expected, reply) = script.next().expect("a call after the script's end");
                assert_eq!(call, expected);
                step = operation.resume(reply);
            }
            Step::Done(result) => {
                assert_eq!(script.next(), None);
                return Some(result);
            }
            Step::Abort => {
                assert_eq!(script.next(), None);
                return None;
            }
        }
    }
}

#[test]
fn no_extension_in_an_empty_list() {
    assert_eq!(recognized_extensions(""), vec![]);
    assert_eq!(recognized_extensions("   "), vec![]);
}

#[test]
fn extensions_in_the_order_of_the_list() {
    assert_eq!(
        recognized_extensions(
            "WGL_NV_DX_interop WGL_EXT_swap_control  WGL_ARB_pixel_format WGL_ARB_create_context"
        ),
        vec![
            Extension::DxInterop,
            Extension::PixelFormat,
            Extension::CreateContext
        ]
    );
}

#[test]
fn extension_names_are_whole_words() {
    assert_eq!(
        recognized_extensions(
            "WGL_ARB_pixel_format_float WGL_ARB_create_context_profile xWGL_NV_DX_interop \
             WGL_NV_DX_interop2 wgl_arb_pixel_format WGL_ARB_pixel_forma"
        ),
        vec![]
    );
    assert_eq!(
        recognized_extensions("WGL_ARB_pixel_format\tWGL_ARB_create_context"),
        vec![]
    );
}

#[test]
fn extension_named_twice() {
    assert_eq!(
        recognized_extensions(" WGL_ARB_create_context \u{fffd} WGL_ARB_create_context "),
        vec![Extension::CreateContext, Extension::CreateContext]
    );
}

#[test]
fn extension_functions_have_their_names() {
    assert_eq!(
        ExtensionFunction::GetExtensionsStringArb.symbol(),
        "wglGetExtensionsStringARB"
    );
    assert_eq!(
        ExtensionFunction::ChoosePixelFormatArb.symbol(),
        "wglChoosePixelFormatARB"
    );
    assert_eq!(
        ExtensionFunction::GetPixelFormatAttribivArb.symbol(),
        "wglGetPixelFormatAttribivARB"
    );
    assert_eq!(
        ExtensionFunction::CreateContextAttribsArb.symbol(),
        "wglCreateContextAttribsARB"
    );
    assert_eq!(
        ExtensionFunction::DxCloseDeviceNv.symbol(),
        "wglDXCloseDeviceNV"
    );
    assert_eq!(
        ExtensionFunction::DxLockObjectsNv.symbol(),
        "wglDXLockObjectsNV"
    );
    assert_eq!(
        ExtensionFunction::DxOpenDeviceNv.symbol(),
        "wglDXOpenDeviceNV"
    );
    assert_eq!(
        ExtensionFunction::DxRegisterObjectNv.symbol(),
        "wglDXRegisterObjectNV"
    );
    assert_eq!(
        ExtensionFunction::DxSetResourceShareHandleNv.symbol(),
        "wglDXSetResourceShareHandleNV"
    );
    assert_eq!(
        ExtensionFunction::DxUnlockObjectsNv.symbol(),
        "wglDXUnlockObjectsNV"
    );
    assert_eq!(
        ExtensionFunction::DxUnregisterObjectNv.symbol(),
        "wglDXUnregisterObjectNV"
    );
}

fn address(function: ExtensionFunction, address: usize) -> (Call, Reply) {
    (
        Call::GetExtensionAddress(function),
        Reply::Address(address),
    )
}

fn window_script(string_function: usize) -> Vec<(Call, Reply)> {
    vec![
        (Call::GetDc(Hwnd(1)), Reply::Dc(Hdc(2))),
        (
            Call::ChoosePixelFormat {
                dc: Hdc(2),
                descriptor: PixelFormatDescriptor::for_loader(),
            },
            Reply::PixelFormat(3),
        ),
        (
            Call::SetPixelFormat {
                dc: Hdc(2),
                pixel_format: 3,
                descriptor: PixelFormatDescriptor::for_loader(),
            },
            Reply::Success(true),
        ),
        (
            Call::CreateContext(Hdc(2)),
            Reply::CreatedContext(Some(Hglrc(4))),
        ),
        (
            Call::MakeCurrent {
                dc: Hdc(2),
                glrc: Hglrc(4),
            },
            Reply::Success(true),
        ),
        address(ExtensionFunction::GetExtensionsStringArb, string_function),
    ]
}

fn list(extensions: &str) -> (Call, Reply) {
    (
        Call::GetExtensionsStringArb {
            function: 0x10,
            dc: Hdc(2),
        },
        Reply::ExtensionsString(String::from(extensions)),
    )
}

fn delete() -> (Call, Reply) {
    (Call::DeleteContext(Hglrc(4)), Reply::Success(true))
}

fn load(script: Vec<(Call, Reply)>) -> Option<WindowProcResult> {
    let functions = WGLExtensionFunctions::default();
    play(
        extension_loader_window_proc(Hwnd(1), 1, 0, 0, functions),
        script,
    )
}

#[test]
fn extension_functions_are_loaded() {
    let mut script = window_script(0x10);
    script.push(list(
        "WGL_ARB_pixel_format WGL_EXT_other WGL_NV_DX_interop WGL_ARB_create_context",
    ));
    script.push(address(ExtensionFunction::ChoosePixelFormatArb, 0x20));
    script.push(address(ExtensionFunction::GetPixelFormatAttribivArb, 0x21));
    script.push(address(ExtensionFunction::DxCloseDeviceNv, 0x30));
    script.push(address(ExtensionFunction::DxLockObjectsNv, 0x31));
    script.push(address(ExtensionFunction::DxOpenDeviceNv, 0x32));
    script.push(address(ExtensionFunction::DxRegisterObjectNv, 0x33));
    script.push(address(ExtensionFunction::DxSetResourceShareHandleNv, 0x34));
    script.push(address(ExtensionFunction::DxUnlockObjectsNv, 0x35));
    script.push(address(ExtensionFunction::DxUnregisterObjectNv, 0x36));
    script.push(address(ExtensionFunction::CreateContextAttribsArb, 0x40));
    script.push(delete());
    assert_eq!(
        load(script),
        Some(WindowProcResult {
            lresult: 0,
            functions: WGLExtensionFunctions {
                create_context_attribs_arb: Some(0x40),
                get_extensions_string_arb: Some(0x10),
                pixel_format_functions: Some(WGLPixelFormatExtensionFunctions {
                    choose_pixel_format_arb: 0x20,
                    get_pixel_format_attribiv_arb: 0x21,
                }),
                dx_interop_functions: Some(WGLDXInteropExtensionFunctions {
                    dx_close_device_nv: 0x30,
                    dx_lock_objects_nv: 0x31,
                    dx_open_device_nv: 0x32,
                    dx_register_object_nv: 0x33,
                    dx_set_resource_share_handle_nv: 0x34,
                    dx_unlock_objects_nv: 0x35,
                    dx_unregister_object_nv: 0x36,
                }),
            },
        })
    );
}

#[test]
fn driver_that_lists_nothing() {
    let mut script = window_script(0x10);
    script.push(list(""));
    script.push(delete());
    let functions = load(script).unwrap().functions;
    assert_eq!(functions.get_extensions_string_arb, Some(0x10));
    assert_eq!(functions.create_context_attribs_arb, None);
    assert_eq!(functions.pixel_format_functions, None);
    assert_eq!(functions.dx_interop_functions, None);
}

#[test]
fn driver_that_cannot_list() {
    let mut script = window_script(0);
    script.push(delete());
    assert_eq!(
        load(script),
        Some(WindowProcResult {
            lresult: 0,
            functions: WGLExtensionFunctions::default(),
        })
    );
}

#[test]
fn creation_function_that_is_listed_but_missing() {
    let mut script = window_script(0x10);
    script.push(list("WGL_ARB_create_context"));
    script.push(address(ExtensionFunction::CreateContextAttribsArb, 0));
    script.push(delete());
    let functions = load(script).unwrap().functions;
    assert_eq!(functions.create_context_attribs_arb, None);
}

#[test]
fn last_lookup_counts() {
    let mut script = window_script(0x10);
    script.push(list("WGL_ARB_create_context WGL_ARB_create_context"));
    script.push(address(ExtensionFunction::CreateContextAttribsArb, 0x40));
    script.push(address(ExtensionFunction::CreateContextAttribsArb, 0x41));
    script.push(delete());
    let functions = load(script).unwrap().functions;
    assert_eq!(functions.create_context_attribs_arb, Some(0x41));
}

#[test]
fn loader_window_insists_on_a_context() {
    for failure in [
        (1, Reply::PixelFormat(0)),
        (2, Reply::Success(false)),
        (3, Reply::CreatedContext(None)),
        (4, Reply::Success(false)),
    ] {
        let (place, reply) = failure;
        let mut script = window_script(0x10);
        script.truncate(place + 1);
        script[place].1 = reply;
        assert_eq!(load(script), None);
    }
}

#[test]
fn other_messages_are_left_to_the_system() {
    let functions = WGLExtensionFunctions {
        create_context_attribs_arb: Some(9),
        get_extensions_string_arb: None,
        pixel_format_functions: None,
        dx_interop_functions: None,
    };
    let script = vec![(
        Call::DefWindowProc {
            window: Hwnd(1),
            message: 2,
            wparam: 5,
            lparam: -6,
        },
        Reply::Lresult(7),
    )];
    assert_eq!(
        play(
            extension_loader_window_proc(Hwnd(1), 2, 5, -6, functions),
            script
        ),
        Some(WindowProcResult {
            lresult: 7,
            functions
        })
    );
}

fn thread_script(functions: WGLExtensionFunctions) -> Vec<(Call, Reply)> {
    vec![
        (Call::GetModuleHandle, Reply::Module(Some(40))),
        (
            Call::RegisterClass(WindowClass {
                name: "SurfmanFalseWindow",
                style: 0x20,
                class_extra: 0,
                window_extra: 0,
                instance: 40,
                background: 1,
            }),
            Reply::Atom(41),
        ),
        (
            Call::CreateLoaderWindow {
                wanted: WindowRequest {
                    class: 41,
                    title: "SurfmanFalseWindow",
                    style: 0x10cf0000,
                    x: 0,
                    y: 0,
                    width: 640,
                    height: 480,
                    instance: 40,
                },
                table: WGLExtensionFunctions {
                    create_context_attribs_arb: None,
                    get_extensions_string_arb: None,
                    pixel_format_functions: None,
                    dx_interop_functions: None,
                },
            },
            Reply::LoaderWindow {
                window: Some(Hwnd(42)),
                functions,
            },
        ),
        (Call::DestroyWindow(Hwnd(42)), Reply::Success(false)),
    ]
}

#[test]
fn loader_thread_hands_out_what_its_window_found() {
    let mut functions = WGLExtensionFunctions::default();
    functions.create_context_attribs_arb = Some(0x40);
    assert_eq!(
        play(extension_loader_thread(), thread_script(functions)),
        Some(functions)
    );
}

#[test]
fn loader_thread_and_its_window_together() {
    let mut script = window_script(0x10);
    script.push(list("WGL_ARB_create_context"));
    script.push(address(ExtensionFunction::CreateContextAttribsArb, 0x40));
    script.push(delete());
    let table = load(script).unwrap().functions;
    assert_eq!(
        play(extension_loader_thread(), thread_script(table)),
        Some(WGLExtensionFunctions {
            create_context_attribs_arb: Some(0x40),
            get_extensions_string_arb: Some(0x10),
            pixel_format_functions: None,
            dx_interop_functions: None,
        })
    );
}

#[test]
fn loader_thread_insists_on_its_window() {
    let functions = WGLExtensionFunctions::default();
    for failure in [
        (0, Reply::Module(None)),
        (1, Reply::Atom(0)),
        (
            2,
            Reply::LoaderWindow {
                window: None,
                functions,
            },
        ),
    ] {
        let (place, reply) = failure;
        let mut script = thread_script(functions);
        script.truncate(place + 1);
        script[place].1 = reply;
        assert_eq!(play(extension_loader_thread(), script), None);
    }
}
