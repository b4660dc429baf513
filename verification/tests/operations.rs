use surfman::attributes::{
    ContextAttributeFlags, ContextAttributes, ContextDescriptor, GLVersion,
};
use surfman::call::{Call, Reply};
use surfman::context::{
    Context, ContextID, ContextStatus, Framebuffer, Gl, HiddenWindow, NativeContext, Size, Surface,
    SurfaceID, Win32Objects,
};
use surfman::creation::CreatedContext;
use surfman::current::CurrentContextGuard;
use surfman::device::{DCGuard, Device};
use surfman::error::{Error, WindowingApiError};
use surfman::extensions::{WGLExtensionFunctions, WGLPixelFormatExtensionFunctions};
use surfman::framebuffers::FramebufferGuard;
use surfman::handles::{Hdc, Hglrc, Hwnd};
use surfman::pixel_format::{set_dc_pixel_format, PixelFormatDescriptor};
use surfman::program::{Operation, Step};

/// Carries an operation out. Every call must be the next one of the script, and the script must be
/// used up at the end. A panic of the operation gives `None`.
fn play<O: Operation>(
    first: Step<O, O::Output>,
    script: Vec<(Call, Reply)>,
) -> Option<O::Output> {
    let mut script = script.into_iter();
    let mut step = first;
    loop {
        match step {
            Step::Call(call, operation) => {
                let (expected, reply) = script.next().expect("a call after the script's end");
                assert_eq!(call, expected);
                step = operation.resume(reply);
            }
            Step::Done(result) => {
                assert_eq!(script.next(), None);
                return Some(result);
            }
            Step::Abort => {
                assert_eq!(script.next(), None);
                return None;
            }
        }
    }
}

fn device() -> Device {
    Device {
        hidden_window: HiddenWindow { window: Hwnd(7) },
        extension_functions: WGLExtensionFunctions {
            create_context_attribs_arb: Some(0x1000),
            get_extensions_string_arb: Some(0x2000),
            pixel_format_functions: Some(WGLPixelFormatExtensionFunctions {
                choose_pixel_format_arb: 0x3000,
                get_pixel_format_attribiv_arb: 0x4000,
            }),
            dx_interop_functions: None,
        },
    }
}

fn bare_device() -> Device {
    Device {
        hidden_window: HiddenWindow { window: Hwnd(7) },
        extension_functions: WGLExtensionFunctions::default(),
    }
}

fn attributes() -> ContextAttributes {
    ContextAttributes {
        version: GLVersion { major: 3, minor: 3 },
        flags: ContextAttributeFlags {
            alpha: true,
            depth: false,
            stencil: true,
            compatibility_profile: true,
        },
    }
}

fn descriptor() -> ContextDescriptor {
    ContextDescriptor {
        pixel_format: 11,
        gl_version: GLVersion { major: 3, minor: 3 },
        compatibility_profile: true,
    }
}

fn surface() -> Surface {
    Surface {
        id: SurfaceID(4),
        context_id: ContextID(3),
        size: Size {
            width: 640,
            height: 480,
        },
        framebuffer_object: 9,
        win32_objects: Win32Objects::Widget {
            window_handle: Hwnd(77),
        },
    }
}

fn context() -> Context {
    Context {
        glrc: Hglrc(100),
        id: ContextID(3),
        gl: Gl { table: 1 },
        hidden_window: HiddenWindow { window: Hwnd(50) },
        framebuffer: Framebuffer::Nothing,
        status: ContextStatus::Owned,
    }
}

fn context_with(framebuffer: Framebuffer<Surface, ()>, status: ContextStatus) -> Context {
    let mut context = context();
    context.framebuffer = framebuffer;
    context.status = status;
    context
}

fn get_dc(window: isize, dc: isize) -> (Call, Reply) {
    (Call::GetDc(Hwnd(window)), Reply::Dc(Hdc(dc)))
}

fn release_dc(window: isize, dc: isize) -> (Call, Reply) {
    let call = Call::ReleaseDc {
        window: Hwnd(window),
        dc: Hdc(dc),
    };
    (call, Reply::Unit)
}

fn make_current(dc: isize, glrc: isize, ok: bool) -> (Call, Reply) {
    let call = Call::MakeCurrent {
        dc: Hdc(dc),
        glrc: Hglrc(glrc),
    };
    (call, Reply::Success(ok))
}

fn current_dc(dc: isize) -> (Call, Reply) {
    (Call::GetCurrentDc, Reply::Dc(Hdc(dc)))
}

fn current_context(glrc: isize) -> (Call, Reply) {
    (Call::GetCurrentContext, Reply::Context(Hglrc(glrc)))
}

fn make_current_failed<T>() -> Result<T, Error> {
    Err(Error::MakeCurrentFailed(WindowingApiError::Failed))
}

// Descriptors.

fn search(ok: bool, pixel_format: i32, count: u32) -> (Call, Reply) {
    let call = Call::ChoosePixelFormatArb {
        function: 0x3000,
        dc: Hdc(8),
        attribs: [
            0x2001, 1, 0x2010, 1, 0x2011, 1, 0x2013, 0x202b, 0x2003, 0x2027, 0x2014, 32, 0x201b, 8,
            0x2022, 0, 0x2023, 8, 0,
        ],
        max_formats: 1,
    };
    let reply = Reply::ChosenFormat {
        ok,
        pixel_format,
        count,
    };
    (call, reply)
}

#[test]
fn descriptor_needs_the_extension() {
    assert_eq!(
        play(
            bare_device().create_context_descriptor(&attributes()),
            vec![]
        ),
        Some(Err(Error::RequiredExtensionUnavailable))
    );
}

#[test]
fn descriptor_of_the_format_that_was_found() {
    let script = vec![get_dc(7, 8), search(true, 11, 1), release_dc(7, 8)];
    assert_eq!(
        play(device().create_context_descriptor(&attributes()), script),
        Some(Ok(descriptor()))
    );
}

#[test]
fn descriptor_search_that_fails() {
    let script = vec![get_dc(7, 8), search(false, 11, 1), release_dc(7, 8)];
    assert_eq!(
        play(device().create_context_descriptor(&attributes()), script),
        Some(Err(Error::PixelFormatSelectionFailed(
            WindowingApiError::Failed
        )))
    );
}

#[test]
fn descriptor_search_that_finds_nothing() {
    let script = vec![get_dc(7, 8), search(true, 0, 0), release_dc(7, 8)];
    assert_eq!(
        play(device().create_context_descriptor(&attributes()), script),
        Some(Err(Error::NoPixelFormatFound))
    );
}

fn read_bits(ok: bool, values: [i32; 3]) -> (Call, Reply) {
    let call = Call::GetPixelFormatAttribivArb {
        function: 0x4000,
        dc: Hdc(8),
        pixel_format: 11,
        layer_plane: 0,
        queried: [0x201b, 0x2022, 0x2023],
    };
    (call, Reply::FormatAttributes { ok, values })
}

#[test]
fn descriptor_gives_back_its_attributes() {
    let script = vec![get_dc(7, 8), read_bits(true, [8, 0, 8]), release_dc(7, 8)];
    assert_eq!(
        play(
            device().context_descriptor_attributes(&descriptor()),
            script
        ),
        Some(attributes())
    );
}

#[test]
fn descriptor_attributes_insist_on_the_driver() {
    let script = vec![get_dc(7, 8), read_bits(false, [8, 0, 8]), release_dc(7, 8)];
    assert_eq!(
        play(
            device().context_descriptor_attributes(&descriptor()),
            script
        ),
        None
    );
}

#[test]
fn descriptor_attributes_insist_on_the_extension() {
    assert_eq!(
        play(
            bare_device().context_descriptor_attributes(&descriptor()),
            vec![]
        ),
        None
    );
}

#[test]
fn descriptor_with_a_buffer_that_was_not_requested() {
    let script = vec![get_dc(7, 8), read_bits(true, [8, 24, 8]), release_dc(7, 8)];
    let read = play(
        device().context_descriptor_attributes(&descriptor()),
        script,
    )
    .unwrap();
    assert!(read.flags.depth);
    assert_eq!(read.version, attributes().version);
    assert!(read.flags.compatibility_profile);
}

#[test]
fn context_descriptor_is_read_while_the_context_is_current() {
    let version = GLVersion { major: 4, minor: 6 };
    let script = vec![
        get_dc(50, 51),
        (Call::GetPixelFormat(Hdc(51)), Reply::PixelFormat(11)),
        current_dc(20),
        current_context(21),
        get_dc(50, 52),
        make_current(52, 100, true),
        release_dc(50, 52),
        (
            Call::GetGlVersion(Gl { table: 1 }),
            Reply::GlVersion(version),
        ),
        (
            Call::GetCompatibilityProfile(Gl { table: 1 }),
            Reply::CompatibilityProfile(false),
        ),
        make_current(20, 21, true),
        release_dc(50, 51),
    ];
    assert_eq!(
        play(device().context_descriptor(&context()), script),
        Some(ContextDescriptor {
            pixel_format: 11,
            gl_version: version,
            compatibility_profile: false,
        })
    );
}

#[test]
fn context_descriptor_is_read_even_if_the_context_cannot_be_current() {
    let version = GLVersion { major: 4, minor: 6 };
    let script = vec![
        get_dc(50, 51),
        (Call::GetPixelFormat(Hdc(51)), Reply::PixelFormat(11)),
        current_dc(20),
        current_context(21),
        get_dc(50, 52),
        make_current(52, 100, false),
        release_dc(50, 52),
        make_current(20, 21, true),
        (
            Call::GetGlVersion(Gl { table: 1 }),
            Reply::GlVersion(version),
        ),
        (
            Call::GetCompatibilityProfile(Gl { table: 1 }),
            Reply::CompatibilityProfile(true),
        ),
        release_dc(50, 51),
    ];
    assert_eq!(
        play(device().context_descriptor(&context()), script),
        Some(ContextDescriptor {
            pixel_format: 11,
            gl_version: version,
            compatibility_profile: true,
        })
    );
}

#[test]
fn created_context_tells_its_descriptor() {
    let created = play(
        device().create_context(&descriptor(), None, ContextID(5)),
        creation_script(0),
    )
    .unwrap()
    .unwrap();
    let script = vec![
        get_dc(60, 61),
        (Call::GetPixelFormat(Hdc(61)), Reply::PixelFormat(11)),
        current_dc(0),
        current_context(0),
        get_dc(60, 61),
        make_current(61, 200, true),
        release_dc(60, 61),
        (
            Call::GetGlVersion(Gl { table: 30 }),
            Reply::GlVersion(GLVersion { major: 3, minor: 3 }),
        ),
        (
            Call::GetCompatibilityProfile(Gl { table: 30 }),
            Reply::CompatibilityProfile(true),
        ),
        make_current(0, 0, true),
        release_dc(60, 61),
    ];
    assert_eq!(
        play(device().context_descriptor(&created.context), script),
        Some(descriptor())
    );
}

// Pixel formats.

fn describe(total: i32) -> (Call, Reply) {
    let call = Call::DescribePixelFormat {
        dc: Hdc(61),
        pixel_format: 11,
        size: 40,
    };
    let descriptor = PixelFormatDescriptor::for_loader();
    (call, Reply::DescribedFormat { total, descriptor })
}

fn set_format(ok: bool) -> (Call, Reply) {
    let call = Call::SetPixelFormat {
        dc: Hdc(61),
        pixel_format: 11,
        descriptor: PixelFormatDescriptor::for_loader(),
    };
    (call, Reply::Success(ok))
}

#[test]
fn pixel_format_is_described_and_set() {
    let script = vec![describe(12), set_format(true)];
    assert_eq!(play(set_dc_pixel_format(Hdc(61), 11), script), Some(()));
}

#[test]
fn pixel_format_must_be_known_and_accepted() {
    assert_eq!(
        play(set_dc_pixel_format(Hdc(61), 11), vec![describe(0)]),
        None
    );
    let script = vec![describe(12), set_format(false)];
    assert_eq!(play(set_dc_pixel_format(Hdc(61), 11), script), None);
}

// Creation.

fn create_window() -> (Call, Reply) {
    let hidden_window = HiddenWindow { window: Hwnd(60) };
    (Call::CreateHiddenWindow, Reply::HiddenWindow(hidden_window))
}

fn create_glrc(share: isize, glrc: isize) -> (Call, Reply) {
    let call = Call::CreateContextAttribsArb {
        function: 0x1000,
        dc: Hdc(61),
        share: Hglrc(share),
        request: [0x2091, 3, 0x2092, 3, 0x9126, 2, 0],
    };
    (call, Reply::Context(Hglrc(glrc)))
}

fn load_gl() -> (Call, Reply) {
    (Call::LoadGl, Reply::Gl(Some(Gl { table: 30 })))
}

fn destroy_window() -> (Call, Reply) {
    let hidden_window = HiddenWindow { window: Hwnd(60) };
    (Call::DestroyHiddenWindow(hidden_window), Reply::Unit)
}

fn creation_script(share: isize) -> Vec<(Call, Reply)> {
    vec![
        create_window(),
        get_dc(60, 61),
        describe(12),
        set_format(true),
        create_glrc(share, 200),
        current_dc(20),
        current_context(21),
        make_current(61, 200, true),
        load_gl(),
        make_current(20, 21, true),
        release_dc(60, 61),
    ]
}

#[test]
fn context_creation_needs_the_extension() {
    assert_eq!(
        play(
            bare_device().create_context(&descriptor(), None, ContextID(5)),
            vec![]
        ),
        Some(Err(Error::RequiredExtensionUnavailable))
    );
}

#[test]
fn context_is_created_and_what_was_current_comes_back() {
    assert_eq!(
        play(
            device().create_context(&descriptor(), None, ContextID(5)),
            creation_script(0)
        ),
        Some(Ok(CreatedContext {
            context: Context {
                glrc: Hglrc(200),
                id: ContextID(5),
                gl: Gl { table: 30 },
                hidden_window: HiddenWindow { window: Hwnd(60) },
                framebuffer: Framebuffer::Nothing,
                status: ContextStatus::Owned,
            },
            next_context_id: ContextID(6),
        }))
    );
}

#[test]
fn contexts_created_in_turn_have_different_ids() {
    let first = play(
        device().create_context(&descriptor(), None, ContextID(0)),
        creation_script(0),
    )
    .unwrap()
    .unwrap();
    let second = play(
        device().create_context(&descriptor(), Some(&first.context), first.next_context_id),
        creation_script(200),
    )
    .unwrap()
    .unwrap();
    assert_eq!(first.context.id, ContextID(0));
    assert_eq!(second.context.id, ContextID(1));
    assert_eq!(second.next_context_id, ContextID(2));
}

#[test]
fn failed_creation_leaves_nothing_behind() {
    for glrc in [0, -1] {
        let script = vec![
            create_window(),
            get_dc(60, 61),
            describe(12),
            set_format(true),
            create_glrc(0, glrc),
            release_dc(60, 61),
            destroy_window(),
        ];
        assert_eq!(
            play(
                device().create_context(&descriptor(), None, ContextID(5)),
                script
            ),
            Some(Err(Error::ContextCreationFailed(
                WindowingApiError::Failed
            )))
        );
    }
}

#[test]
fn created_context_must_be_makeable_current() {
    let mut script = creation_script(0);
    script.truncate(7);
    script.push(make_current(61, 200, false));
    script.push(make_current(20, 21, true));
    script.push(release_dc(60, 61));
    script.push(destroy_window());
    assert_eq!(
        play(
            device().create_context(&descriptor(), None, ContextID(5)),
            script
        ),
        None
    );
}

#[test]
fn creation_is_undone_if_functions_cannot_be_loaded() {
    let mut script = creation_script(0);
    script[8].1 = Reply::Gl(None);
    script.push(destroy_window());
    assert_eq!(
        play(
            device().create_context(&descriptor(), None, ContextID(5)),
            script
        ),
        None
    );
}

#[test]
fn creation_is_undone_if_the_format_cannot_be_set() {
    for last in [vec![describe(0)], vec![describe(12), set_format(false)]] {
        let mut script = vec![create_window(), get_dc(60, 61)];
        script.extend(last);
        script.push(release_dc(60, 61));
        script.push(destroy_window());
        assert_eq!(
            play(
                device().create_context(&descriptor(), None, ContextID(5)),
                script
            ),
            None
        );
    }
}

#[test]
fn last_context_id_is_never_given() {
    let mut script = creation_script(0);
    script.push(destroy_window());
    assert_eq!(
        play(
            device().create_context(&descriptor(), None, ContextID(u64::MAX)),
            script
        ),
        None
    );
}

#[test]
fn native_context_is_wrapped() {
    let script = vec![
        create_window(),
        get_dc(60, 61),
        current_dc(0),
        current_context(0),
        make_current(61, 300, true),
        load_gl(),
        make_current(0, 0, false),
        release_dc(60, 61),
    ];
    assert_eq!(
        play(
            device().create_context_from_native_context(NativeContext(Hglrc(300)), ContextID(8)),
            script
        ),
        Some(Ok(CreatedContext {
            context: Context {
                glrc: Hglrc(300),
                id: ContextID(8),
                gl: Gl { table: 30 },
                hidden_window: HiddenWindow { window: Hwnd(60) },
                framebuffer: Framebuffer::External(()),
                status: ContextStatus::Referenced,
            },
            next_context_id: ContextID(9),
        }))
    );
}

#[test]
fn native_context_must_be_makeable_current() {
    let script = vec![
        create_window(),
        get_dc(60, 61),
        current_dc(0),
        current_context(0),
        make_current(61, 300, false),
        make_current(0, 0, true),
        release_dc(60, 61),
        destroy_window(),
    ];
    assert_eq!(
        play(
            device().create_context_from_native_context(NativeContext(Hglrc(300)), ContextID(8)),
            script
        ),
        None
    );
}

// What is current.

#[test]
fn device_context_is_got_and_released() {
    let guard = play(
        device().get_context_dc(&context()),
        vec![get_dc(50, 51)],
    )
    .unwrap();
    assert_eq!(
        guard,
        DCGuard {
            window: Hwnd(50),
            dc: Hdc(51)
        }
    );
    assert_eq!(play(guard.drop(), vec![release_dc(50, 51)]), Some(()));
    let bound = context_with(Framebuffer::Surface(surface()), ContextStatus::Owned);
    let guard = play(device().get_context_dc(&bound), vec![get_dc(77, 78)]).unwrap();
    assert_eq!(guard.window, Hwnd(77));
}

#[test]
fn context_is_made_current_on_its_window() {
    let script = vec![
        get_dc(50, 51),
        make_current(51, 100, true),
        release_dc(50, 51),
    ];
    assert_eq!(
        play(device().make_context_current(&context()), script),
        Some(Ok(()))
    );
    let context = context_with(Framebuffer::Surface(surface()), ContextStatus::Owned);
    let script = vec![
        get_dc(77, 78),
        make_current(78, 100, false),
        release_dc(77, 78),
    ];
    assert_eq!(
        play(device().make_context_current(&context), script),
        Some(make_current_failed())
    );
}

#[test]
fn no_context_is_made_current() {
    assert_eq!(
        play(
            device().make_no_context_current(),
            vec![make_current(0, 0, true)]
        ),
        Some(Ok(()))
    );
    assert_eq!(
        play(
            device().make_no_context_current(),
            vec![make_current(0, 0, false)]
        ),
        Some(make_current_failed())
    );
}

#[test]
fn context_made_current_for_a_while() {
    let script = vec![
        current_dc(20),
        current_context(21),
        get_dc(50, 51),
        make_current(51, 100, true),
        release_dc(50, 51),
    ];
    let guard = play(
        device().temporarily_make_context_current(&context()),
        script,
    )
    .unwrap()
    .unwrap();
    assert_eq!(
        guard,
        CurrentContextGuard {
            old_dc: Hdc(20),
            old_glrc: Hglrc(21)
        }
    );
    assert_eq!(
        play(guard.drop(), vec![make_current(20, 21, true)]),
        Some(())
    );
}

#[test]
fn failure_to_make_current_for_a_while_is_undone_at_once() {
    let script = vec![
        current_dc(20),
        current_context(21),
        get_dc(50, 51),
        make_current(51, 100, false),
        release_dc(50, 51),
        make_current(20, 21, true),
    ];
    assert_eq!(
        play(
            device().temporarily_make_context_current(&context()),
            script
        ),
        Some(make_current_failed())
    );
}

#[test]
fn current_native_context_is_found() {
    assert_eq!(
        play(NativeContext::current(), vec![current_context(21)]),
        Some(Ok(NativeContext(Hglrc(21))))
    );
    for glrc in [0, -1] {
        assert_eq!(
            play(NativeContext::current(), vec![current_context(glrc)]),
            Some(Err(Error::NoCurrentContext))
        );
    }
}

#[test]
fn context_is_current_or_not() {
    assert_eq!(
        play(
            device().context_is_current(&context()),
            vec![current_context(100)]
        ),
        Some(true)
    );
    assert_eq!(
        play(
            device().context_is_current(&context()),
            vec![current_context(101)]
        ),
        Some(false)
    );
}

#[test]
fn replies_that_do_not_go_with_a_call_end_the_operation() {
    assert_eq!(
        play(
            NativeContext::current(),
            vec![(Call::GetCurrentContext, Reply::Unit)]
        ),
        None
    );
}

// Surfaces.

#[test]
fn surface_of_another_context_is_refused() {
    let mut foreign = surface();
    foreign.context_id = ContextID(4);
    let mut expected = surface();
    expected.context_id = ContextID(4);
    assert_eq!(
        play(device().bind_surface_to_context(context(), foreign), vec![]),
        Some((context(), Err((Error::IncompatibleSurface, expected))))
    );
}

#[test]
fn external_target_refuses_surfaces() {
    let external = || context_with(Framebuffer::External(()), ContextStatus::Referenced);
    assert_eq!(
        play(
            device().bind_surface_to_context(external(), surface()),
            vec![]
        ),
        Some((external(), Err((Error::ExternalRenderTarget, surface()))))
    );
}

#[test]
fn second_surface_is_refused() {
    let bound = || context_with(Framebuffer::Surface(surface()), ContextStatus::Owned);
    assert_eq!(
        play(device().bind_surface_to_context(bound(), surface()), vec![]),
        Some((bound(), Err((Error::SurfaceAlreadyBound, surface()))))
    );
}

#[test]
fn surface_of_another_context_is_refused_before_anything_else() {
    let external = || context_with(Framebuffer::External(()), ContextStatus::Referenced);
    let foreign = || {
        let mut foreign = surface();
        foreign.context_id = ContextID(4);
        foreign
    };
    assert_eq!(
        play(
            device().bind_surface_to_context(external(), foreign()),
            vec![]
        ),
        Some((external(), Err((Error::IncompatibleSurface, foreign()))))
    );
}

#[test]
fn surface_is_bound_and_comes_back() {
    let script = vec![
        current_context(0),
        (Call::LockSurface(SurfaceID(4)), Reply::Unit),
    ];
    let (bound, result) = play(
        device().bind_surface_to_context(context(), surface()),
        script,
    )
    .unwrap();
    assert_eq!(result, Ok(()));
    assert_eq!(bound.framebuffer, Framebuffer::Surface(surface()));
    let script = vec![(Call::UnlockSurface(SurfaceID(4)), Reply::Unit)];
    assert_eq!(
        play(device().unbind_surface_from_context(bound), script),
        Some((context(), Ok(Some(surface()))))
    );
}

#[test]
fn current_context_is_made_current_on_a_new_surface() {
    for ok in [true, false] {
        let script = vec![
            current_context(100),
            (Call::LockSurface(SurfaceID(4)), Reply::Unit),
            get_dc(77, 78),
            make_current(78, 100, ok),
            release_dc(77, 78),
        ];
        assert_eq!(
            play(
                device().bind_surface_to_context(context(), surface()),
                script
            ),
            Some((
                context_with(Framebuffer::Surface(surface()), ContextStatus::Owned),
                Ok(())
            ))
        );
    }
}

#[test]
fn nothing_to_unbind() {
    assert_eq!(
        play(device().unbind_surface_from_context(context()), vec![]),
        Some((context(), Ok(None)))
    );
}

#[test]
fn external_target_is_no_surface() {
    let external = context_with(Framebuffer::External(()), ContextStatus::Referenced);
    assert_eq!(
        play(device().unbind_surface_from_context(external), vec![]),
        Some((
            context_with(Framebuffer::Nothing, ContextStatus::Referenced),
            Err(Error::ExternalRenderTarget)
        ))
    );
}

// Destruction.

fn destroyed() -> Context {
    let mut context = context();
    context.glrc = Hglrc(0);
    context.status = ContextStatus::Destroyed;
    context
}

fn destroy_surface(result: Result<(), Error>) -> (Call, Reply) {
    let call = Call::DestroySurface {
        context_id: ContextID(3),
        glrc: Hglrc(100),
        gl: Gl { table: 1 },
        hidden_window: HiddenWindow { window: Hwnd(50) },
        surface: surface(),
    };
    (call, Reply::SurfaceDestroyed(result))
}

fn delete(ok: bool) -> (Call, Reply) {
    (Call::DeleteContext(Hglrc(100)), Reply::Success(ok))
}

#[test]
fn owned_context_is_deleted() {
    let script = vec![current_context(5), delete(true)];
    assert_eq!(
        play(device().destroy_context(context()), script),
        Some((destroyed(), Ok(())))
    );
}

#[test]
fn current_context_is_left_before_it_is_deleted() {
    let script = vec![
        current_context(100),
        make_current(0, 0, true),
        delete(false),
    ];
    assert_eq!(
        play(device().destroy_context(context()), script),
        Some((destroyed(), Ok(())))
    );
}

#[test]
fn context_of_someone_else_is_not_deleted() {
    let external = context_with(Framebuffer::External(()), ContextStatus::Referenced);
    assert_eq!(
        play(
            device().destroy_context(external),
            vec![current_context(5)]
        ),
        Some((destroyed(), Ok(())))
    );
    let external = context_with(Framebuffer::External(()), ContextStatus::Referenced);
    let script = vec![current_context(100), make_current(0, 0, false)];
    assert_eq!(
        play(device().destroy_context(external), script),
        Some((destroyed(), Ok(())))
    );
}

#[test]
fn destroyed_context_is_not_destroyed_again() {
    assert_eq!(
        play(device().destroy_context(destroyed()), vec![]),
        Some((destroyed(), Ok(())))
    );
}

#[test]
fn surface_goes_with_its_context() {
    let bound = context_with(Framebuffer::Surface(surface()), ContextStatus::Owned);
    let script = vec![
        (Call::UnlockSurface(SurfaceID(4)), Reply::Unit),
        destroy_surface(Ok(())),
        current_context(5),
        delete(true),
    ];
    assert_eq!(
        play(device().destroy_context(bound), script),
        Some((destroyed(), Ok(())))
    );
}

#[test]
fn context_stays_if_its_surface_cannot_be_destroyed() {
    let bound = context_with(Framebuffer::Surface(surface()), ContextStatus::Owned);
    let error = Error::IncompatibleSurface;
    let script = vec![
        (Call::UnlockSurface(SurfaceID(4)), Reply::Unit),
        destroy_surface(Err(error)),
    ];
    assert_eq!(
        play(device().destroy_context(bound), script),
        Some((context(), Err(error)))
    );
}

// Framebuffers.

fn get_integer(name: u32, value: i32) -> (Call, Reply) {
    let call = Call::GetInteger {
        gl: Gl { table: 1 },
        name,
    };
    (call, Reply::Integer(value))
}

fn bind_framebuffer(target: u32, framebuffer: u32) -> (Call, Reply) {
    let call = Call::BindFramebuffer {
        gl: Gl { table: 1 },
        target,
        framebuffer,
    };
    (call, Reply::Unit)
}

#[test]
fn framebuffer_bound_for_a_while() {
    let script = vec![
        get_integer(0x8ca6, 12),
        get_integer(0x8caa, -1),
        bind_framebuffer(0x8d40, 14),
    ];
    let guard = play(
        device().temporarily_bind_framebuffer(&context(), 14),
        script,
    )
    .unwrap();
    assert_eq!(
        guard,
        FramebufferGuard {
            gl: Gl { table: 1 },
            old_read_framebuffer: u32::MAX,
            old_draw_framebuffer: 12,
        }
    );
    let script = vec![
        bind_framebuffer(0x8ca8, u32::MAX),
        bind_framebuffer(0x8ca9, 12),
    ];
    assert_eq!(play(guard.drop(), script), Some(()));
}

#[test]
fn framebuffer_guard_remembers_both_bindings() {
    let script = vec![get_integer(0x8ca6, 3), get_integer(0x8caa, 5)];
    let guard = play(FramebufferGuard::new(&context()), script).unwrap();
    assert_eq!(guard.old_draw_framebuffer, 3);
    assert_eq!(guard.old_read_framebuffer, 5);
}

#[test]
fn current_guard_remembers_both_handles() {
    let script = vec![current_dc(20), current_context(21)];
    assert_eq!(
        play(CurrentContextGuard::new(), script),
        Some(CurrentContextGuard {
            old_dc: Hdc(20),
            old_glrc: Hglrc(21)
        })
    );
}

// Symbols.

fn ask_wgl(address: usize) -> (Call, Reply) {
    let call = Call::GetSymbolAddress(String::from("glClear"));
    (call, Reply::Address(address))
}

fn ask_library(address: usize) -> (Call, Reply) {
    let call = Call::GetLibrarySymbolAddress(String::from("glClear"));
    (call, Reply::Address(address))
}

#[test]
fn symbol_that_wgl_knows() {
    assert_eq!(
        play(
            device().get_proc_address(&context(), "glClear"),
            vec![ask_wgl(0x55)]
        ),
        Some(0x55)
    );
}

#[test]
fn symbol_that_the_library_knows() {
    assert_eq!(
        play(
            device().get_proc_address(&context(), "glClear"),
            vec![ask_wgl(0), ask_library(0x66)]
        ),
        Some(0x66)
    );
}

#[test]
fn symbol_that_nobody_knows() {
    assert_eq!(
        play(
            device().get_proc_address(&context(), "glClear"),
            vec![ask_wgl(0), ask_library(0)]
        ),
        None
    );
}
