use surfman::attributes::{
    ContextAttributeFlags, ContextAttributes, ContextDescriptor, GLVersion,
};
use surfman::constants;
use surfman::context::{
    Context, ContextID, ContextStatus, Framebuffer, Gl, HiddenWindow, NativeContext, Size, Surface,
    SurfaceID, SurfaceInfo, Win32Objects,
};
use surfman::device::Device;
use surfman::error::Error;
use surfman::extensions::WGLExtensionFunctions;
use surfman::handles::{Hdc, Hglrc, Hwnd};
use surfman::pixel_format::PixelFormatDescriptor;
use windows::Win32::Graphics::Gdi::COLOR_BACKGROUND;
use windows::Win32::Graphics::OpenGL::{
    PFD_DOUBLEBUFFER, PFD_DRAW_TO_WINDOW, PFD_MAIN_PLANE, PFD_SUPPORT_OPENGL, PFD_TYPE_RGBA,
};
use windows::Win32::UI::WindowsAndMessaging::{
    CS_OWNDC, WM_CREATE, WS_OVERLAPPEDWINDOW, WS_VISIBLE,
};

fn device() -> Device {
    Device {
        hidden_window: HiddenWindow { window: Hwnd(7) },
        extension_functions: WGLExtensionFunctions::default(),
    }
}

fn surface(objects: Win32Objects) -> Surface {
    Surface {
        id: SurfaceID(4),
        context_id: ContextID(3),
        size: Size { width: 640, height: 480 },
        framebuffer_object: 9,
        win32_objects: objects,
    }
}

fn context(framebuffer: Framebuffer<Surface, ()>) -> Context {
    Context {
        glrc: Hglrc(100),
        id: ContextID(3),
        gl: Gl { table: 1 },
        hidden_window: HiddenWindow { window: Hwnd(50) },
        framebuffer,
        status: ContextStatus::Owned,
    }
}

#[test]
fn handles_that_name_no_context_are_invalid() {
    assert!(Hglrc(0).is_invalid());
    assert!(Hglrc(-1).is_invalid());
    assert!(!Hglrc(1).is_invalid());
    assert!(!Hglrc(-2).is_invalid());
    assert!(!Hglrc(isize::MAX).is_invalid());
}

#[test]
fn null_handles_are_zero() {
    assert_eq!(Hglrc::null(), Hglrc(0));
    assert_eq!(Hdc::null(), Hdc(0));
    assert!(Hglrc::null().is_invalid());
}

#[test]
fn constants_are_those_of_the_system() {
    assert_eq!(constants::PFD_DOUBLEBUFFER, PFD_DOUBLEBUFFER.0);
    assert_eq!(constants::PFD_DRAW_TO_WINDOW, PFD_DRAW_TO_WINDOW.0);
    assert_eq!(constants::PFD_SUPPORT_OPENGL, PFD_SUPPORT_OPENGL.0);
    assert_eq!(constants::PFD_TYPE_RGBA, PFD_TYPE_RGBA.0);
    assert_eq!(constants::PFD_MAIN_PLANE, PFD_MAIN_PLANE.0 as u8);
    assert_eq!(constants::CS_OWNDC, CS_OWNDC.0);
    assert_eq!(constants::COLOR_BACKGROUND, COLOR_BACKGROUND.0);
    assert_eq!(constants::WS_OVERLAPPEDWINDOW, WS_OVERLAPPEDWINDOW.0);
    assert_eq!(constants::WS_VISIBLE, WS_VISIBLE.0);
    assert_eq!(constants::WM_CREATE, WM_CREATE);
}

#[test]
fn pixel_format_request_without_buffers() {
    assert_eq!(
        ContextAttributeFlags::empty().pixel_format_attribs(),
        [
            0x2001, 1, 0x2010, 1, 0x2011, 1, 0x2013, 0x202b, 0x2003, 0x2027, 0x2014, 32, 0x201b, 0,
            0x2022, 0, 0x2023, 0, 0
        ]
    );
}

#[test]
fn pixel_format_request_with_all_buffers() {
    let flags = ContextAttributeFlags {
        alpha: true,
        depth: true,
        stencil: true,
        compatibility_profile: true,
    };
    assert_eq!(
        flags.pixel_format_attribs(),
        [
            0x2001, 1, 0x2010, 1, 0x2011, 1, 0x2013, 0x202b, 0x2003, 0x2027, 0x2014, 32, 0x201b, 8,
            0x2022, 24, 0x2023, 8, 0
        ]
    );
}

#[test]
fn context_request_names_version_and_profile() {
    let mut descriptor = ContextDescriptor {
        pixel_format: 5,
        gl_version: GLVersion { major: 3, minor: 2 },
        compatibility_profile: false,
    };
    assert_eq!(
        descriptor.context_attribs(),
        [0x2091, 3, 0x2092, 2, 0x9126, 1, 0]
    );
    descriptor.compatibility_profile = true;
    assert_eq!(
        descriptor.context_attribs(),
        [0x2091, 3, 0x2092, 2, 0x9126, 2, 0]
    );
}

#[test]
fn buffers_with_bits_are_attributes() {
    let gl_version = GLVersion { major: 4, minor: 1 };
    let descriptor = ContextDescriptor {
        pixel_format: 5,
        gl_version,
        compatibility_profile: true,
    };
    assert_eq!(
        descriptor.attributes([8, 0, -1]),
        ContextAttributes {
            version: gl_version,
            flags: ContextAttributeFlags {
                alpha: true,
                depth: false,
                stencil: false,
                compatibility_profile: true,
            },
        }
    );
    assert_eq!(
        descriptor.attributes([0, 24, 1]).flags,
        ContextAttributeFlags {
            alpha: false,
            depth: true,
            stencil: true,
            compatibility_profile: true,
        }
    );
}

#[test]
fn loader_pixel_format_is_plain_rgba() {
    let descriptor = PixelFormatDescriptor::for_loader();
    assert_eq!(descriptor.size, 40);
    assert_eq!(descriptor.version, 1);
    assert_eq!(descriptor.flags, 0x25);
    assert_eq!(descriptor.pixel_type, 0);
    assert_eq!(descriptor.color_bits, 32);
    assert_eq!(descriptor.alpha_bits, 0);
    assert_eq!(descriptor.depth_bits, 24);
    assert_eq!(descriptor.stencil_bits, 8);
    assert_eq!(descriptor.layer_type, 0);
    assert_eq!(descriptor.damage_mask, 0);
}

#[test]
fn context_is_drawn_through_its_hidden_window() {
    assert_eq!(context(Framebuffer::Nothing).rendering_window(), Hwnd(50));
    assert_eq!(
        context(Framebuffer::External(())).rendering_window(),
        Hwnd(50)
    );
    let texture = Framebuffer::Surface(surface(Win32Objects::Texture));
    assert_eq!(context(texture).rendering_window(), Hwnd(50));
}

#[test]
fn context_is_drawn_through_a_bound_widget() {
    let widget = Framebuffer::Surface(surface(Win32Objects::Widget {
        window_handle: Hwnd(77),
    }));
    assert_eq!(context(widget).rendering_window(), Hwnd(77));
}

#[test]
fn surface_info_of_context() {
    let device = device();
    assert_eq!(
        device.context_surface_info(&context(Framebuffer::Nothing)),
        Ok(None)
    );
    assert_eq!(
        device.context_surface_info(&context(Framebuffer::External(()))),
        Err(Error::ExternalRenderTarget)
    );
    let texture = Framebuffer::Surface(surface(Win32Objects::Texture));
    assert_eq!(
        device.context_surface_info(&context(texture)),
        Ok(Some(SurfaceInfo {
            size: Size {
                width: 640,
                height: 480
            },
            id: SurfaceID(4),
            context_id: ContextID(3),
            framebuffer_object: 9,
        }))
    );
}

#[test]
fn context_tells_id_and_handle() {
    let context = context(Framebuffer::Nothing);
    assert_eq!(device().context_id(&context), ContextID(3));
    assert_eq!(
        device().native_context(&context),
        NativeContext(Hglrc(100))
    );
}

#[test]
fn contexts_must_be_destroyed() {
    let mut context = context(Framebuffer::Nothing);
    assert!(context.must_be_destroyed());
    context.status = ContextStatus::Referenced;
    assert!(context.must_be_destroyed());
    context.status = ContextStatus::Destroyed;
    assert!(!context.must_be_destroyed());
}
