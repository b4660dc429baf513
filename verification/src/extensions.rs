//! WGL extensions: which ones a driver has, and where their functions are.

use vstd::prelude::*;

verus! {

/// A function that some WGL extension adds.
#[derive(Clone, Copy, Debug, PartialEq, Eq, Structural)]
pub enum ExtensionFunction {
    GetExtensionsStringArb,
    ChoosePixelFormatArb,
    GetPixelFormatAttribivArb,
    CreateContextAttribsArb,
    DxCloseDeviceNv,
    DxLockObjectsNv,
    DxOpenDeviceNv,
    DxRegisterObjectNv,
    DxSetResourceShareHandleNv,
    DxUnlockObjectsNv,
    DxUnregisterObjectNv,
}

/// An extension whose functions are looked up when the driver has it.
#[derive(Clone, Copy, Debug, PartialEq, Eq, Structural)]
pub enum Extension {
    /// `WGL_ARB_pixel_format`.
    PixelFormat,
    /// `WGL_ARB_create_context`.
    CreateContext,
    /// `WGL_NV_DX_interop`.
    DxInterop,
}

/// The addresses of the extension functions that were found.
#[derive(Clone, Copy, Debug, PartialEq, Eq)]
pub struct WGLExtensionFunctions {
    /// `wglCreateContextAttribsARB`.
    pub create_context_attribs_arb: Option<usize>,
    /// `wglGetExtensionsStringARB`.
    pub get_extensions_string_arb: Option<usize>,
    pub pixel_format_functions: Option<WGLPixelFormatExtensionFunctions>,
    pub dx_interop_functions: Option<WGLDXInteropExtensionFunctions>,
}

/// The addresses of the functions of `WGL_ARB_pixel_format`.
#[derive(Clone, Copy, Debug, PartialEq, Eq, Structural)]
pub struct WGLPixelFormatExtensionFunctions {
    pub choose_pixel_format_arb: usize,
    pub get_pixel_format_attribiv_arb: usize,
}

/// The addresses of the functions of `WGL_NV_DX_interop`.
#[derive(Clone, Copy, Debug, PartialEq, Eq, Structural)]
pub struct WGLDXInteropExtensionFunctions {
    pub dx_close_device_nv: usize,
    pub dx_lock_objects_nv: usize,
    pub dx_open_device_nv: usize,
    pub dx_register_object_nv: usize,
    pub dx_set_resource_share_handle_nv: usize,
    pub dx_unlock_objects_nv: usize,
    pub dx_unregister_object_nv: usize,
}

impl ExtensionFunction {
    /// The name under which the function is looked up.
    pub open spec fn name(self) -> Seq<char> {
        match self {
            ExtensionFunction::GetExtensionsStringArb => "wglGetExtensionsStringARB"@,
            ExtensionFunction::ChoosePixelFormatArb => "wglChoosePixelFormatARB"@,
            ExtensionFunction::GetPixelFormatAttribivArb => "wglGetPixelFormatAttribivARB"@,
            ExtensionFunction::CreateContextAttribsArb => "wglCreateContextAttribsARB"@,
            ExtensionFunction::DxCloseDeviceNv => "wglDXCloseDeviceNV"@,
            ExtensionFunction::DxLockObjectsNv => "wglDXLockObjectsNV"@,
            ExtensionFunction::DxOpenDeviceNv => "wglDXOpenDeviceNV"@,
            ExtensionFunction::DxRegisterObjectNv => "wglDXRegisterObjectNV"@,
            ExtensionFunction::DxSetResourceShareHandleNv => "wglDXSetResourceShareHandleNV"@,
            ExtensionFunction::DxUnlockObjectsNv => "wglDXUnlockObjectsNV"@,
            ExtensionFunction::DxUnregisterObjectNv => "wglDXUnregisterObjectNV"@,
        }
    }

    /// The name under which the function is looked up.
    pub fn symbol(&self) -> (symbol: &'static str)
        ensures
            symbol@ == self.name(),
    {
        match self {
            ExtensionFunction::GetExtensionsStringArb => "wglGetExtensionsStringARB",
            ExtensionFunction::ChoosePixelFormatArb => "wglChoosePixelFormatARB",
            ExtensionFunction::GetPixelFormatAttribivArb => "wglGetPixelFormatAttribivARB",
            ExtensionFunction::CreateContextAttribsArb => "wglCreateContextAttribsARB",
            ExtensionFunction::DxCloseDeviceNv => "wglDXCloseDeviceNV",
            ExtensionFunction::DxLockObjectsNv => "wglDXLockObjectsNV",
            ExtensionFunction::DxOpenDeviceNv => "wglDXOpenDeviceNV",
            ExtensionFunction::DxRegisterObjectNv => "wglDXRegisterObjectNV",
            ExtensionFunction::DxSetResourceShareHandleNv => "wglDXSetResourceShareHandleNV",
            ExtensionFunction::DxUnlockObjectsNv => "wglDXUnlockObjectsNV",
            ExtensionFunction::DxUnregisterObjectNv => "wglDXUnregisterObjectNV",
        }
    }
}

impl Extension {
    /// The name of the extension.
    pub open spec fn name(self) -> Seq<char> {
        match self {
            Extension::PixelFormat => "WGL_ARB_pixel_format"@,
            Extension::CreateContext => "WGL_ARB_create_context"@,
            Extension::DxInterop => "WGL_NV_DX_interop"@,
        }
    }

    /// The functions of the extension, in the order in which they are looked up.
    pub open spec fn functions(self) -> Seq<ExtensionFunction> {
        match self {
            Extension::PixelFormat => seq![
                ExtensionFunction::ChoosePixelFormatArb,
                ExtensionFunction::GetPixelFormatAttribivArb,
            ],
            Extension::CreateContext => seq![ExtensionFunction::CreateContextAttribsArb],
            Extension::DxInterop => seq![
                ExtensionFunction::DxCloseDeviceNv,
                ExtensionFunction::DxLockObjectsNv,
                ExtensionFunction::DxOpenDeviceNv,
                ExtensionFunction::DxRegisterObjectNv,
                ExtensionFunction::DxSetResourceShareHandleNv,
                ExtensionFunction::DxUnlockObjectsNv,
                ExtensionFunction::DxUnregisterObjectNv,
            ],
        }
    }

    /// How many functions the extension has.
    pub fn function_count(&self) -> (count: usize)
        ensures
            count == self.functions().len(),
    {
        match self {
            Extension::PixelFormat => 2,
            Extension::CreateContext => 1,
            Extension::DxInterop => 7,
        }
    }

    /// The function of the extension that is looked up at the given place.
    pub fn function_at(&self, place: usize) -> (function: ExtensionFunction)
        requires
            place < self.functions().len(),
        ensures
            function == self.functions()[place as int],
    {
        match (self, place) {
            (Extension::PixelFormat, 0) => ExtensionFunction::ChoosePixelFormatArb,
            (Extension::PixelFormat, _) => ExtensionFunction::GetPixelFormatAttribivArb,
            (Extension::CreateContext, _) => ExtensionFunction::CreateContextAttribsArb,
            (Extension::DxInterop, 0) => ExtensionFunction::DxCloseDeviceNv,
            (Extension::DxInterop, 1) => ExtensionFunction::DxLockObjectsNv,
            (Extension::DxInterop, 2) => ExtensionFunction::DxOpenDeviceNv,
            (Extension::DxInterop, 3) => ExtensionFunction::DxRegisterObjectNv,
            (Extension::DxInterop, 4) => ExtensionFunction::DxSetResourceShareHandleNv,
            (Extension::DxInterop, 5) => ExtensionFunction::DxUnlockObjectsNv,
            (Extension::DxInterop, _) => ExtensionFunction::DxUnregisterObjectNv,
        }
    }
}

/// The pointer at an address: none where the address is zero.
pub open spec fn pointer(address: usize) -> Option<usize> {
    if address == 0 {
        None
    } else {
        Some(address)
    }
}

impl WGLExtensionFunctions {
    /// No function at all.
    pub open spec fn nothing() -> WGLExtensionFunctions {
        WGLExtensionFunctions {
            create_context_attribs_arb: None,
            get_extensions_string_arb: None,
            pixel_format_functions: None,
            dx_interop_functions: None,
        }
    }

    /// These functions with those of an extension, whose addresses are given in the order of
    /// [`Extension::functions`].
    pub open spec fn with(
        self,
        extension: Extension,
        addresses: Seq<usize>,
    ) -> WGLExtensionFunctions {
        match extension {
            Extension::PixelFormat => WGLExtensionFunctions {
                pixel_format_functions: Some(
                    WGLPixelFormatExtensionFunctions {
                        choose_pixel_format_arb: addresses[0],
                        get_pixel_format_attribiv_arb: addresses[1],
                    },
                ),
                ..self
            },
            Extension::CreateContext => WGLExtensionFunctions {
                create_context_attribs_arb: pointer(addresses[0]),
                ..self
            },
            Extension::DxInterop => WGLExtensionFunctions {
                dx_interop_functions: Some(
                    WGLDXInteropExtensionFunctions {
                        dx_close_device_nv: addresses[0],
                        dx_lock_objects_nv: addresses[1],
                        dx_open_device_nv: addresses[2],
                        dx_register_object_nv: addresses[3],
                        dx_set_resource_share_handle_nv: addresses[4],
                        dx_unlock_objects_nv: addresses[5],
                        dx_unregister_object_nv: addresses[6],
                    },
                ),
                ..self
            },
        }
    }

    /// Adds the functions of an extension, whose addresses are given in the order of
    /// [`Extension::functions`].
    pub fn install(&mut self, extension: Extension, addresses: &Vec<usize>)
        requires
            addresses.len() == extension.functions().len(),
        ensures
            *final(self) == old(self).with(extension, addresses@),
    {
        match extension {
            Extension::PixelFormat => {
                self.pixel_format_functions = Some(
                    WGLPixelFormatExtensionFunctions {
                        choose_pixel_format_arb: addresses[0],
                        get_pixel_format_attribiv_arb: addresses[1],
                    },
                );
            },
            Extension::CreateContext => {
                self.create_context_attribs_arb = pointer_at(addresses[0]);
            },
            Extension::DxInterop => {
                self.dx_interop_functions = Some(
                    WGLDXInteropExtensionFunctions {
                        dx_close_device_nv: addresses[0],
                        dx_lock_objects_nv: addresses[1],
                        dx_open_device_nv: addresses[2],
                        dx_register_object_nv: addresses[3],
                        dx_set_resource_share_handle_nv: addresses[4],
                        dx_unlock_objects_nv: addresses[5],
                        dx_unregister_object_nv: addresses[6],
                    },
                );
            },
        }
    }
}

impl Default for WGLExtensionFunctions {
    fn default() -> (functions: Self)
        ensures
            functions == WGLExtensionFunctions::nothing(),
    {
        WGLExtensionFunctions {
            create_context_attribs_arb: None,
            get_extensions_string_arb: None,
            pixel_format_functions: None,
            dx_interop_functions: None,
        }
    }
}

/// The pointer at an address: none where the address is zero.
pub(crate) fn pointer_at(address: usize) -> (r: Option<usize>)
    ensures
        r == pointer(address),
{
    if address == 0 {
        None
    } else {
        Some(address)
    }
}

/// The words of a string: what stands before, between and after its spaces. There is one word more
/// than there are spaces, and words may be empty.
pub open spec fn words(s: Seq<char>) -> Seq<Seq<char>>
    decreases s.len(),
{
    if s.len() == 0 {
        seq![seq![]]
    } else {
        let before = words(s.drop_last());
        if s.last() == ' ' {
            before.push(seq![])
        } else {
            before.drop_last().push(before.last().push(s.last()))
        }
    }
}

/// The extension of that name, if its functions are of interest.
pub open spec fn extension_named(word: Seq<char>) -> Option<Extension> {
    if word == Extension::PixelFormat.name() {
        Some(Extension::PixelFormat)
    } else if word == Extension::CreateContext.name() {
        Some(Extension::CreateContext)
    } else if word == Extension::DxInterop.name() {
        Some(Extension::DxInterop)
    } else {
        None
    }
}

/// The extensions that a list of words names, in the order of the words, each as often as it is
/// named.
pub open spec fn extensions_in(names: Seq<Seq<char>>) -> Seq<Extension>
    decreases names.len(),
{
    if names.len() == 0 {
        seq![]
    } else {
        let before = extensions_in(names.drop_last());
        match extension_named(names.last()) {
            Some(extension) => before.push(extension),
            None => before,
        }
    }
}

fn chars_of(s: &str) -> (chars: Vec<char>)
    ensures
        chars@ == s@,
{
    let mut chars: Vec<char> = Vec::new();
    for c in iter: s.chars()
        invariant
            chars@ == iter.seq().take(iter.index()),
            iter.seq() == s@,
    {
        chars.push(c);
    }
    chars
}

/// Whether a stretch of a string is the given word.
fn stretch_is(chars: &Vec<char>, start: usize, end: usize, word: &str) -> (r: bool)
    requires
        start <= end <= chars.len(),
    ensures
        r == (chars@.subrange(start as int, end as int) == word@),
{
    let expected: Vec<char> = chars_of(word);
    if end - start != expected.len() {
        return false;
    }
    let mut i: usize = 0;
    while i < expected.len()
        invariant
            expected@ == word@,
            start <= end <= chars.len(),
            end - start == expected.len(),
            i <= expected.len(),
            forall|j: int| 0 <= j < i ==> chars@[start + j] == expected@[j],
        decreases expected.len() - i,
    {
        if chars[start + i] != expected[i] {
            assert(chars@.subrange(start as int, end as int)[i as int] != word@[i as int]);
            return false;
        }
        i += 1;
    }
    assert(chars@.subrange(start as int, end as int) =~= word@);
    true
}

fn extension_at(chars: &Vec<char>, start: usize, end: usize) -> (r: Option<Extension>)
    requires
        start <= end <= chars.len(),
    ensures
        r == extension_named(chars@.subrange(start as int, end as int)),
{
    if stretch_is(chars, start, end, "WGL_ARB_pixel_format") {
        Some(Extension::PixelFormat)
    } else if stretch_is(chars, start, end, "WGL_ARB_create_context") {
        Some(Extension::CreateContext)
    } else if stretch_is(chars, start, end, "WGL_NV_DX_interop") {
        Some(Extension::DxInterop)
    } else {
        None
    }
}

/// The extensions of interest in a driver's list of extensions, in which a space stands between
/// each two names.
pub fn recognized_extensions(list: &str) -> (found: Vec<Extension>)
    ensures
        found@ == extensions_in(words(list@)),
{
    let chars: Vec<char> = chars_of(list);
    let mut found: Vec<Extension> = Vec::new();
    let mut start: usize = 0;
    let mut i: usize = 0;
    assert(chars@.take(0) =~= seq![]);
    assert(words(chars@.take(0)) =~= seq![chars@.subrange(0, 0)]);
    assert(words(chars@.take(0)).drop_last() =~= seq![]);
    while i < chars.len()
        invariant
            start <= i <= chars.len(),
            words(chars@.take(i as int)).len() > 0,
            words(chars@.take(i as int)).last() == chars@.subrange(start as int, i as int),
            found@ == extensions_in(words(chars@.take(i as int)).drop_last()),
        decreases chars.len() - i,
    {
        let ghost before = words(chars@.take(i as int));
        proof {
            assert(chars@.take(i + 1).drop_last() =~= chars@.take(i as int));
        }
        if chars[i] == ' ' {
            if let Some(extension) = extension_at(&chars, start, i) {
                found.push(extension);
            }
            start = i + 1;
            proof {
                assert(words(chars@.take(i + 1)).drop_last() =~= before);
                assert(chars@.subrange(start as int, i + 1) =~= seq![]);
            }
        } else {
            proof {
                assert(words(chars@.take(i + 1)).drop_last() =~= before.drop_last());
                assert(chars@.subrange(start as int, i + 1) =~= before.last().push(
                    chars@[i as int],
                ));
            }
        }
        i += 1;
    }
    assert(chars@.take(i as int) =~= list@);
    if let Some(extension) = extension_at(&chars, start, i) {
        found.push(extension);
    }
    found
}

} // verus!
