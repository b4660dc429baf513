//! The extensions that a driver lists are those that are loaded.

use crate::call::{Call, Reply};
use crate::constants::WM_CREATE;
use crate::extensions::{
    extension_named, extensions_in, pointer, words, Extension, ExtensionFunction,
    WGLDXInteropExtensionFunctions, WGLExtensionFunctions, WGLPixelFormatExtensionFunctions,
};
use crate::handles::{Hdc, Hglrc, Hwnd};
use crate::loader::{
    delete_program, load_program, loader_thread_program, loader_window, loader_window_class,
    window_proc_program, WindowProcResult,
};
use crate::pixel_format::loader_pixel_format;
use crate::world::{fits, run, succeeds, World};
use vstd::prelude::*;

verus! {

/// Whether a stretch of a string is one of its words: it holds no space, and a space or an end of
/// the string is on either side of it.
pub open spec fn stands_alone(s: Seq<char>, start: int, end: int) -> bool {
    &&& 0 <= start <= end <= s.len()
    &&& start == 0 || s[start - 1] == ' '
    &&& end == s.len() || s[end] == ' '
    &&& forall|k: int| start <= k < end ==> s[k] != ' '
}

/// Whether a string has a name among its words.
pub open spec fn lists(s: Seq<char>, name: Seq<char>) -> bool {
    exists|start: int, end: int| #[trigger]
        stands_alone(s, start, end) && s.subrange(start, end) == name
}

/// Every word stands somewhere in the string, and the last one at its end.
proof fn lemma_word_stands(s: Seq<char>, n: int)
    requires
        0 <= n < words(s).len(),
    ensures
        exists|start: int, end: int| #[trigger]
            stands_alone(s, start, end) && words(s)[n] == s.subrange(start, end) && (end == s.len()
                <==> n == words(s).len() - 1),
    decreases s.len(),
{
    if s.len() == 0 {
        assert(stands_alone(s, 0, 0));
        assert(words(s)[n] =~= s.subrange(0, 0));
    } else {
        let init = s.drop_last();
        let before = words(init);
        assert(forall|k: int| 0 <= k < init.len() ==> s[k] == init[k]);
        if s.last() == ' ' {
            if n < before.len() {
                lemma_word_stands(init, n);
                let (start, end) = choose|start: int, end: int| #[trigger]
                    stands_alone(init, start, end) && before[n] == init.subrange(start, end) && (end
                        == init.len() <==> n == before.len() - 1);
                assert(stands_alone(s, start, end));
                assert(s.subrange(start, end) =~= init.subrange(start, end));
            } else {
                assert(stands_alone(s, s.len() as int, s.len() as int));
                assert(words(s)[n] =~= s.subrange(s.len() as int, s.len() as int));
            }
        } else {
            lemma_words_nonempty(init);
            lemma_word_stands(init, n);
            let (start, end) = choose|start: int, end: int| #[trigger]
                stands_alone(init, start, end) && before[n] == init.subrange(start, end) && (end
                    == init.len() <==> n == before.len() - 1);
            if n < before.len() - 1 {
                assert(stands_alone(s, start, end));
                assert(s.subrange(start, end) =~= init.subrange(start, end));
            } else {
                assert(stands_alone(s, start, s.len() as int));
                assert(s.subrange(start, s.len() as int) =~= init.subrange(start, end).push(
                    s.last(),
                ));
            }
        }
    }
}

proof fn lemma_words_nonempty(s: Seq<char>)
    ensures
        words(s).len() > 0,
    decreases s.len(),
{
    if s.len() > 0 {
        lemma_words_nonempty(s.drop_last());
    }
}

/// Every stretch that stands alone is a word, and the last one if it ends with the string.
proof fn lemma_standing_is_word(s: Seq<char>, start: int, end: int) -> (n: int)
    requires
        stands_alone(s, start, end),
    ensures
        0 <= n < words(s).len(),
        words(s)[n] == s.subrange(start, end),
        end == s.len() <==> n == words(s).len() - 1,
    decreases s.len(),
{
    lemma_words_nonempty(s);
    if s.len() == 0 {
        assert(words(s)[0] =~= s.subrange(start, end));
        0
    } else {
        let init = s.drop_last();
        lemma_words_nonempty(init);
        if end == s.len() {
            if s.last() == ' ' {
                assert(start == s.len());
                assert(words(s).last() =~= s.subrange(start, end));
            } else {
                assert(stands_alone(init, start, end - 1));
                let n = lemma_standing_is_word(init, start, end - 1);
                assert(init.subrange(start, end - 1).push(s.last()) =~= s.subrange(start, end));
            }
            words(s).len() - 1
        } else {
            assert(stands_alone(init, start, end));
            let n = lemma_standing_is_word(init, start, end);
            assert(init.subrange(start, end) =~= s.subrange(start, end));
            n
        }
    }
}

proof fn lemma_extension_names_differ()
    ensures
        forall|extension: Extension|
            #[trigger] extension_named(extension.name()) == Some(extension),
{
    reveal_strlit("WGL_ARB_pixel_format");
    reveal_strlit("WGL_ARB_create_context");
    reveal_strlit("WGL_NV_DX_interop");
    assert("WGL_ARB_pixel_format"@.len() == 20);
    assert("WGL_ARB_create_context"@.len() == 22);
    assert("WGL_NV_DX_interop"@.len() == 17);
}

proof fn lemma_extensions_in(names: Seq<Seq<char>>, extension: Extension)
    ensures
        extensions_in(names).contains(extension) <==> names.contains(extension.name()),
    decreases names.len(),
{
    lemma_extension_names_differ();
    if names.len() > 0 {
        let init = names.drop_last();
        lemma_extensions_in(init, extension);
        let before = extensions_in(init);
        assert(names =~= init.push(names.last()));
        assert(extension_named(extension.name()) == Some(extension));
        if names.contains(extension.name()) {
            let k = choose|k: int| 0 <= k < names.len() && names[k] == extension.name();
            if k < init.len() {
                assert(init[k] == extension.name());
                let m = choose|m: int| 0 <= m < before.len() && before[m] == extension;
                assert(extensions_in(names)[m] == extension);
            } else {
                assert(extensions_in(names).last() == extension);
            }
        }
        if extensions_in(names).contains(extension) {
            let m = choose|m: int|
                0 <= m < extensions_in(names).len() && extensions_in(names)[m] == extension;
            if m < before.len() {
                assert(before[m] == extension);
                let k = choose|k: int| 0 <= k < init.len() && init[k] == extension.name();
                assert(names[k] == extension.name());
            } else {
                assert(names.last() == extension.name());
            }
        }
    }
}

/// An extension is recognized exactly if its name is one of the words of the list, wherever it
/// stands there and however often.
pub proof fn law_recognized_extensions(list: Seq<char>, extension: Extension)
    ensures
        extensions_in(words(list)).contains(extension) <==> lists(list, extension.name()),
{
    lemma_extensions_in(words(list), extension);
    if words(list).contains(extension.name()) {
        let n = choose|n: int| 0 <= n < words(list).len() && words(list)[n] == extension.name();
        lemma_word_stands(list, n);
    }
    if lists(list, extension.name()) {
        let (start, end) = choose|start: int, end: int| #[trigger]
            stands_alone(list, start, end) && list.subrange(start, end) == extension.name();
        let n = lemma_standing_is_word(list, start, end);
        assert(words(list)[n] == extension.name());
    }
}

/// A table of extension functions after the functions of some extensions were looked up, given the
/// address of each function.
pub open spec fn loaded(
    functions: WGLExtensionFunctions,
    extensions: Seq<Extension>,
    address: spec_fn(ExtensionFunction) -> usize,
) -> WGLExtensionFunctions {
    WGLExtensionFunctions {
        create_context_attribs_arb: if extensions.contains(Extension::CreateContext) {
            pointer(address(ExtensionFunction::CreateContextAttribsArb))
        } else {
            functions.create_context_attribs_arb
        },
        get_extensions_string_arb: functions.get_extensions_string_arb,
        pixel_format_functions: if extensions.contains(Extension::PixelFormat) {
            Some(
                WGLPixelFormatExtensionFunctions {
                    choose_pixel_format_arb: address(ExtensionFunction::ChoosePixelFormatArb),
                    get_pixel_format_attribiv_arb: address(
                        ExtensionFunction::GetPixelFormatAttribivArb,
                    ),
                },
            )
        } else {
            functions.pixel_format_functions
        },
        dx_interop_functions: if extensions.contains(Extension::DxInterop) {
            Some(
                WGLDXInteropExtensionFunctions {
                    dx_close_device_nv: address(ExtensionFunction::DxCloseDeviceNv),
                    dx_lock_objects_nv: address(ExtensionFunction::DxLockObjectsNv),
                    dx_open_device_nv: address(ExtensionFunction::DxOpenDeviceNv),
                    dx_register_object_nv: address(ExtensionFunction::DxRegisterObjectNv),
                    dx_set_resource_share_handle_nv: address(
                        ExtensionFunction::DxSetResourceShareHandleNv,
                    ),
                    dx_unlock_objects_nv: address(ExtensionFunction::DxUnlockObjectsNv),
                    dx_unregister_object_nv: address(ExtensionFunction::DxUnregisterObjectNv),
                },
            )
        } else {
            functions.dx_interop_functions
        },
    }
}

/// Whether the driver always gives the same address for a function.
pub open spec fn addresses_are(
    world: World,
    address: spec_fn(ExtensionFunction) -> usize,
) -> bool {
    forall|log: Seq<Call>, function: ExtensionFunction|
        (#[trigger] (world.driver)(log, Call::GetExtensionAddress(function))) == Reply::Address(
            address(function),
        )
}

proof fn lemma_load(
    glrc: Hglrc,
    extensions: Seq<Extension>,
    known: Seq<usize>,
    functions: WGLExtensionFunctions,
    address: spec_fn(ExtensionFunction) -> usize,
    world: World,
)
    requires
        world.orderly(),
        addresses_are(world, address),
        extensions.len() > 0 ==> known.len() < extensions[0].functions().len(),
        extensions.len() > 0 ==> forall|k: int|
            0 <= k < known.len() ==> known[k] == address(#[trigger] extensions[0].functions()[k]),
    ensures
        ({
            let end = run(load_program(glrc, extensions, known, functions), world);
            &&& end.result == Some(
                WindowProcResult { lresult: 0, functions: loaded(functions, extensions, address) },
            )
            &&& end.world.log.len() > 0
            &&& end.world.log.last() == Call::DeleteContext(glrc)
            &&& (if world.glrc != glrc || glrc == Hglrc(0) {
                end.world.current() == world.current()
            } else {
                (world.driver)(end.world.log.drop_last(), end.world.log.last()) == Reply::Success(
                    true,
                ) ==> end.world.current() == (Hdc(0), Hglrc(0))
            })
        }),
    decreases
            extensions.len(),
            if extensions.len() > 0 {
                extensions[0].functions().len() - known.len()
            } else {
                0
            },
{
    if extensions.len() == 0 {
        reveal_with_fuel(run, 2);
        let delete = Call::DeleteContext(glrc);
        assert(fits(delete, world.answer(delete)));
        assert(load_program(glrc, extensions, known, functions) == delete_program(glrc, functions));
        assert(world.after(delete).log.drop_last() =~= world.log);
    } else {
        let wanted = extensions[0].functions();
        let call = Call::GetExtensionAddress(wanted[known.len() as int]);
        let next = world.after(call);
        assert(world.answer(call) == Reply::Address(address(wanted[known.len() as int])));
        let more = known.push(address(wanted[known.len() as int]));
        if more.len() < wanted.len() {
            lemma_load(glrc, extensions, more, functions, address, next);
        } else {
            let rest = extensions.drop_first();
            let with = functions.with(extensions[0], more);
            lemma_load(glrc, rest, seq![], with, address, next);
            assert forall|e: Extension| extensions.contains(e) <==> extensions[0] == e
                || rest.contains(e) by {
                if extensions.contains(e) && extensions[0] != e {
                    let k = choose|k: int| 0 <= k < extensions.len() && extensions[k] == e;
                    assert(rest[k - 1] == e);
                }
                if rest.contains(e) {
                    let k = choose|k: int| 0 <= k < rest.len() && rest[k] == e;
                    assert(extensions[k + 1] == e);
                }
            }
            assert(forall|k: int|
                0 <= k < more.len() ==> more[k] == address(#[trigger] wanted[k]));
            assert(extensions.contains(extensions[0]));
            assert(extensions[0] == Extension::PixelFormat ==> more[0] == address(wanted[0])
                && more[1] == address(wanted[1]));
            assert(extensions[0] == Extension::CreateContext ==> more[0] == address(wanted[0]));
            assert(extensions[0] == Extension::DxInterop ==> more[0] == address(wanted[0])
                && more[1] == address(wanted[1]) && more[2] == address(wanted[2]) && more[3]
                == address(wanted[3]) && more[4] == address(wanted[4]) && more[5] == address(
                wanted[5],
            ) && more[6] == address(wanted[6]));
            assert(loaded(with, rest, address) == loaded(functions, extensions, address));
        }
    }
}

/// Whether the driver always lists the same extensions.
pub open spec fn list_is(world: World, list: Seq<char>) -> bool {
    forall|log: Seq<Call>, call: Call|
        call is GetExtensionsStringArb ==> (#[trigger] (world.driver)(log, call) matches
            Reply::ExtensionsString(s) && s@ == list)
}

/// When the window of the loader is created, the function that lists the extensions is looked up,
/// and the functions of exactly those extensions that the list names. Where there is no function
/// that lists extensions, none is loaded. The last call deletes the context that was current
/// meanwhile, and no context is current afterwards, wherever that succeeds. It comes to an end where
/// the driver does what it is asked for.
pub proof fn law_extensions_are_loaded(
    window: Hwnd,
    wparam: usize,
    lparam: isize,
    functions: WGLExtensionFunctions,
    list: Seq<char>,
    address: spec_fn(ExtensionFunction) -> usize,
    world: World,
)
    requires
        world.orderly(),
        addresses_are(world, address),
        list_is(world, list),
    ensures
        ({
            let end = run(
                window_proc_program(window, WM_CREATE, wparam, lparam, functions),
                world,
            );
            let string_function = address(ExtensionFunction::GetExtensionsStringArb);
            let extensions = if string_function == 0 {
                seq![]
            } else {
                extensions_in(words(list))
            };
            let found = WGLExtensionFunctions {
                get_extensions_string_arb: pointer(string_function),
                ..functions
            };
            &&& world.cooperative() ==> end.result is Some
            &&& end.result is Some ==> end.result->0 == (WindowProcResult {
                lresult: 0,
                functions: loaded(found, extensions, address),
            })
            &&& end.result is Some ==> end.world.log.last() is DeleteContext
            &&& end.result is Some && (world.driver)(
                end.world.log.drop_last(),
                end.world.log.last(),
            ) == Reply::Success(true) ==> end.world.current() == (Hdc(0), Hglrc(0))
            &&& forall|extension: Extension| #[trigger]
                extensions_in(words(list)).contains(extension) <==> lists(list, extension.name())
        }),
{
    let program = window_proc_program(window, WM_CREATE, wparam, lparam, functions);
    let string_function = address(ExtensionFunction::GetExtensionsStringArb);
    let found = WGLExtensionFunctions {
        get_extensions_string_arb: pointer(string_function),
        ..functions
    };
    reveal_with_fuel(run, 8);
    let get_dc = Call::GetDc(window);
    assert(fits(get_dc, world.answer(get_dc)));
    let dc = world.answer(get_dc)->Dc_0;
    let w1 = world.after(get_dc);
    let choose_format = Call::ChoosePixelFormat { dc, descriptor: loader_pixel_format() };
    assert(fits(choose_format, w1.answer(choose_format)));
    assert(world.cooperative() ==> succeeds(choose_format, w1.answer(choose_format)));
    let pixel_format = w1.answer(choose_format)->PixelFormat_0;
    let w2 = w1.after(choose_format);
    let set = Call::SetPixelFormat { dc, pixel_format, descriptor: loader_pixel_format() };
    assert(fits(set, w2.answer(set)));
    assert(world.cooperative() ==> succeeds(set, w2.answer(set)));
    let w3 = w2.after(set);
    let create = Call::CreateContext(dc);
    assert(fits(create, w3.answer(create)));
    assert(world.cooperative() ==> succeeds(create, w3.answer(create)));
    let glrc = (w3.answer(create)->CreatedContext_0)->0;
    let w4 = w3.after(create);
    let make = Call::MakeCurrent { dc, glrc };
    assert(fits(make, w4.answer(make)));
    assert(world.cooperative() ==> succeeds(make, w4.answer(make)));
    let w5 = w4.after(make);
    let find = Call::GetExtensionAddress(ExtensionFunction::GetExtensionsStringArb);
    assert(w5.answer(find) == (world.driver)(w5.log, find));
    let w6 = w5.after(find);
    assert forall|extension: Extension| #[trigger]
        extensions_in(words(list)).contains(extension) <==> lists(list, extension.name()) by {
        law_recognized_extensions(list, extension);
    }
    if string_function == 0 {
        lemma_load(glrc, seq![], seq![], found, address, w6);
    } else {
        let ask = Call::GetExtensionsStringArb { function: string_function, dc };
        assert(w6.answer(ask) == (world.driver)(w6.log, ask));
        let w7 = w6.after(ask);
        lemma_load(glrc, extensions_in(words(list)), seq![], found, address, w7);
    }
}

/// Every message but the one about the creation of the window is left to the system, whose answer
/// is passed on, and no function is looked up.
pub proof fn law_other_messages_are_left_to_system(
    window: Hwnd,
    message: u32,
    wparam: usize,
    lparam: isize,
    functions: WGLExtensionFunctions,
    world: World,
)
    requires
        world.orderly(),
        message != WM_CREATE,
    ensures
        ({
            let call = Call::DefWindowProc { window, message, wparam, lparam };
            let end = run(window_proc_program(window, message, wparam, lparam, functions), world);
            &&& end.result == Some(
                WindowProcResult { lresult: world.answer(call)->Lresult_0, functions },
            )
            &&& end.world == world.after(call)
        }),
{
    reveal_with_fuel(run, 2);
    let call = Call::DefWindowProc { window, message, wparam, lparam };
    assert(fits(call, world.answer(call)));
}

/// The loader's thread creates its window with an empty table, and hands out the table as the
/// procedure of the window left it. It comes to an end where the system does what it is asked for.
pub proof fn law_loader_thread(world: World)
    requires
        world.orderly(),
    ensures
        ({
            let instance = (world.answer(Call::GetModuleHandle)->Module_0)->0;
            let w1 = world.after(Call::GetModuleHandle);
            let register = Call::RegisterClass(loader_window_class(instance));
            let w2 = w1.after(register);
            let create = Call::CreateLoaderWindow {
                wanted: loader_window(instance, w1.answer(register)->Atom_0),
                table: WGLExtensionFunctions::nothing(),
            };
            let created = w2.answer(create);
            let destroy = Call::DestroyWindow(created->LoaderWindow_window->0);
            let end = run(loader_thread_program(), world);
            &&& world.cooperative() ==> end.result is Some
            &&& end.result is Some ==> end.result->0 == created->LoaderWindow_functions
            &&& end.result is Some ==> end.world == w2.after(create).after(destroy)
        }),
{
    reveal_with_fuel(run, 5);
    let get = Call::GetModuleHandle;
    assert(fits(get, world.answer(get)));
    assert(world.cooperative() ==> succeeds(get, world.answer(get)));
    let instance = (world.answer(get)->Module_0)->0;
    let w1 = world.after(get);
    let register = Call::RegisterClass(loader_window_class(instance));
    assert(fits(register, w1.answer(register)));
    assert(world.cooperative() ==> succeeds(register, w1.answer(register)));
    let w2 = w1.after(register);
    let create = Call::CreateLoaderWindow {
        wanted: loader_window(instance, w1.answer(register)->Atom_0),
        table: WGLExtensionFunctions::nothing(),
    };
    assert(fits(create, w2.answer(create)));
    assert(world.cooperative() ==> succeeds(create, w2.answer(create)));
    let w3 = w2.after(create);
    let destroy = Call::DestroyWindow(w2.answer(create)->LoaderWindow_window->0);
    assert(fits(destroy, w3.answer(destroy)));
}

/// What the system answers when the loader's thread creates its window.
pub open spec fn loader_window_reply(world: World) -> Reply {
    let instance = (world.answer(Call::GetModuleHandle)->Module_0)->0;
    let w1 = world.after(Call::GetModuleHandle);
    let register = Call::RegisterClass(loader_window_class(instance));
    w1.after(register).answer(
        Call::CreateLoaderWindow {
            wanted: loader_window(instance, w1.answer(register)->Atom_0),
            table: WGLExtensionFunctions::nothing(),
        },
    )
}

/// Whether the system has the procedure of the loader's window carry out the message about the
/// creation of the window, for the given table, in some world, and answers with the table as the
/// procedure left it.
pub open spec fn procedure_fills_table(
    reply: Reply,
    table: WGLExtensionFunctions,
    window: Hwnd,
    wparam: usize,
    lparam: isize,
    inside: World,
) -> bool {
    let end = run(window_proc_program(window, WM_CREATE, wparam, lparam, table), inside);
    end.result is Some && reply->LoaderWindow_functions == end.result->0.functions
}

/// The loader's thread hands out the functions of exactly those extensions that the driver lists,
/// and the function that lists them, wherever the system has the procedure of its window fill in the
/// table that the window was created with. What the procedure did not look up is not in the table.
pub proof fn law_loader_finds_extensions(
    window: Hwnd,
    wparam: usize,
    lparam: isize,
    list: Seq<char>,
    address: spec_fn(ExtensionFunction) -> usize,
    world: World,
    inside: World,
)
    requires
        world.orderly(),
        inside.orderly(),
        addresses_are(inside, address),
        list_is(inside, list),
        procedure_fills_table(
            loader_window_reply(world),
            WGLExtensionFunctions::nothing(),
            window,
            wparam,
            lparam,
            inside,
        ),
    ensures
        ({
            let end = run(loader_thread_program(), world);
            let string_function = address(ExtensionFunction::GetExtensionsStringArb);
            let extensions = if string_function == 0 {
                seq![]
            } else {
                extensions_in(words(list))
            };
            let found = WGLExtensionFunctions {
                get_extensions_string_arb: pointer(string_function),
                ..WGLExtensionFunctions::nothing()
            };
            &&& world.cooperative() ==> end.result is Some
            &&& end.result is Some ==> {
                let functions = end.result->0;
                &&& functions == loaded(found, extensions, address)
                &&& functions.get_extensions_string_arb == pointer(string_function)
                &&& functions.pixel_format_functions is Some <==> string_function != 0 && lists(
                    list,
                    Extension::PixelFormat.name(),
                )
                &&& functions.dx_interop_functions is Some <==> string_function != 0 && lists(
                    list,
                    Extension::DxInterop.name(),
                )
                &&& functions.create_context_attribs_arb == (if string_function != 0 && lists(
                    list,
                    Extension::CreateContext.name(),
                ) {
                    pointer(address(ExtensionFunction::CreateContextAttribsArb))
                } else {
                    None
                })
            }
        }),
{
    let nothing = WGLExtensionFunctions::nothing();
    law_loader_thread(world);
    law_extensions_are_loaded(window, wparam, lparam, nothing, list, address, inside);
    law_recognized_extensions(list, Extension::PixelFormat);
    law_recognized_extensions(list, Extension::CreateContext);
    law_recognized_extensions(list, Extension::DxInterop);
}

proof fn lemma_words_of_two(a: Seq<char>, b: Seq<char>)
    ensures
        words(a + seq![' '] + b) == words(a) + words(b),
    decreases b.len(),
{
    let both = a + seq![' '] + b;
    if b.len() == 0 {
        assert(both =~= a.push(' '));
        assert(both.drop_last() =~= a);
        assert(both.last() == ' ');
        assert(words(b) =~= seq![seq![]]);
        assert(words(both) =~= words(a) + words(b));
    } else {
        let init = b.drop_last();
        lemma_words_of_two(a, init);
        lemma_words_nonempty(init);
        assert(both.drop_last() =~= a + seq![' '] + init);
        assert(both.last() == b.last());
        assert(words(both) =~= words(a) + words(b));
    }
}

proof fn lemma_extensions_of_two(a: Seq<Seq<char>>, b: Seq<Seq<char>>)
    ensures
        extensions_in(a + b) == extensions_in(a) + extensions_in(b),
    decreases b.len(),
{
    if b.len() == 0 {
        assert(a + b =~= a);
        assert(extensions_in(a) + extensions_in(b) =~= extensions_in(a));
    } else {
        lemma_extensions_of_two(a, b.drop_last());
        assert((a + b).drop_last() =~= a + b.drop_last());
        assert((a + b).last() == b.last());
        assert(extensions_in(a + b) =~= extensions_in(a) + extensions_in(b));
    }
}

proof fn lemma_one_word(word: Seq<char>)
    requires
        !word.contains(' '),
    ensures
        words(word) == seq![word],
    decreases word.len(),
{
    if word.len() == 0 {
        assert(word =~= seq![]);
        assert(words(word) =~= seq![word]);
    } else {
        let init = word.drop_last();
        assert(forall|k: int| 0 <= k < init.len() ==> init[k] == word[k]);
        lemma_one_word(init);
        assert(word.contains(word.last()));
        assert(init.push(word.last()) =~= word);
        assert(words(word) =~= seq![word]);
    }
}

/// Two lists with a space between them name what the first one names and then what the second one
/// names.
pub proof fn law_extensions_of_two_lists(first: Seq<char>, second: Seq<char>)
    ensures
        extensions_in(words(first + seq![' '] + second)) == extensions_in(words(first))
            + extensions_in(words(second)),
{
    lemma_words_of_two(first, second);
    lemma_extensions_of_two(words(first), words(second));
}

/// A list without a space names an extension exactly if it is the name of one, in full.
pub proof fn law_extensions_of_one_word(word: Seq<char>)
    requires
        !word.contains(' '),
    ensures
        word == "WGL_ARB_pixel_format"@ ==> extensions_in(words(word)) == seq![
            Extension::PixelFormat,
        ],
        word == "WGL_ARB_create_context"@ ==> extensions_in(words(word)) == seq![
            Extension::CreateContext,
        ],
        word == "WGL_NV_DX_interop"@ ==> extensions_in(words(word)) == seq![Extension::DxInterop],
        word != "WGL_ARB_pixel_format"@ && word != "WGL_ARB_create_context"@ && word
            != "WGL_NV_DX_interop"@ ==> extensions_in(words(word)) == Seq::<Extension>::empty(),
{
    lemma_one_word(word);
    lemma_extension_names_differ();
    let names = seq![word];
    assert(names.drop_last() =~= seq![]);
    assert(names.last() == word);
    assert(extension_named(Extension::CreateContext.name()) == Some(Extension::CreateContext));
    assert(extension_named(Extension::DxInterop.name()) == Some(Extension::DxInterop));
    assert(extensions_in(names.drop_last()) =~= seq![]);
    match extension_named(word) {
        Some(extension) => {
            assert(extensions_in(names) =~= seq![extension]);
        },
        None => {
            assert(extensions_in(names) =~= seq![]);
        },
    }
}

/// Where no extension is left to load, the rendering context is deleted, and that is all.
pub proof fn law_load_no_extension(glrc: Hglrc, functions: WGLExtensionFunctions, world: World)
    requires
        world.answers(),
    ensures
        ({
            let end = run(load_program(glrc, seq![], seq![], functions), world);
            &&& end.result == Some(WindowProcResult { lresult: 0, functions })
            &&& end.world == world.after(Call::DeleteContext(glrc))
        }),
{
    reveal_with_fuel(run, 2);
    let delete = Call::DeleteContext(glrc);
    assert(fits(delete, world.answer(delete)));
    assert(load_program(glrc, seq![], seq![], functions) == delete_program(glrc, functions));
}

/// The next extension is loaded by looking up its functions, each by its own name; each address goes
/// to its own place in the table, over what was there before, and every other place stays as it is.
/// Then the extensions after it are loaded. The address zero is no function where a function may be
/// missing.
pub proof fn law_load_next_extension(
    glrc: Hglrc,
    extensions: Seq<Extension>,
    functions: WGLExtensionFunctions,
    world: World,
)
    requires
        world.answers(),
        extensions.len() > 0,
    ensures
        ({
            let loading = run(load_program(glrc, extensions, seq![], functions), world);
            let rest = extensions.subrange(1, extensions.len() as int);
            match extensions[0] {
                Extension::CreateContext => {
                    let c1 = Call::GetExtensionAddress(ExtensionFunction::CreateContextAttribsArb);
                    let a1 = world.answer(c1)->Address_0;
                    loading == run(
                        load_program(
                            glrc,
                            rest,
                            seq![],
                            WGLExtensionFunctions {
                                create_context_attribs_arb: if a1 == 0 {
                                    None
                                } else {
                                    Some(a1)
                                },
                                ..functions
                            },
                        ),
                        world.after(c1),
                    )
                },
                Extension::PixelFormat => {
                    let c1 = Call::GetExtensionAddress(ExtensionFunction::ChoosePixelFormatArb);
                    let c2 = Call::GetExtensionAddress(
                        ExtensionFunction::GetPixelFormatAttribivArb,
                    );
                    let w1 = world.after(c1);
                    loading == run(
                        load_program(
                            glrc,
                            rest,
                            seq![],
                            WGLExtensionFunctions {
                                pixel_format_functions: Some(
                                    WGLPixelFormatExtensionFunctions {
                                        choose_pixel_format_arb: world.answer(c1)->Address_0,
                                        get_pixel_format_attribiv_arb: w1.answer(c2)->Address_0,
                                    },
                                ),
                                ..functions
                            },
                        ),
                        w1.after(c2),
                    )
                },
                Extension::DxInterop => {
                    let c1 = Call::GetExtensionAddress(ExtensionFunction::DxCloseDeviceNv);
                    let c2 = Call::GetExtensionAddress(ExtensionFunction::DxLockObjectsNv);
                    let c3 = Call::GetExtensionAddress(ExtensionFunction::DxOpenDeviceNv);
                    let c4 = Call::GetExtensionAddress(ExtensionFunction::DxRegisterObjectNv);
                    let c5 = Call::GetExtensionAddress(
                        ExtensionFunction::DxSetResourceShareHandleNv,
                    );
                    let c6 = Call::GetExtensionAddress(ExtensionFunction::DxUnlockObjectsNv);
                    let c7 = Call::GetExtensionAddress(ExtensionFunction::DxUnregisterObjectNv);
                    let w1 = world.after(c1);
                    let w2 = w1.after(c2);
                    let w3 = w2.after(c3);
                    let w4 = w3.after(c4);
                    let w5 = w4.after(c5);
                    let w6 = w5.after(c6);
                    loading == run(
                        load_program(
                            glrc,
                            rest,
                            seq![],
                            WGLExtensionFunctions {
                                dx_interop_functions: Some(
                                    WGLDXInteropExtensionFunctions {
                                        dx_close_device_nv: world.answer(c1)->Address_0,
                                        dx_lock_objects_nv: w1.answer(c2)->Address_0,
                                        dx_open_device_nv: w2.answer(c3)->Address_0,
                                        dx_register_object_nv: w3.answer(c4)->Address_0,
                                        dx_set_resource_share_handle_nv: w4.answer(c5)->Address_0,
                                        dx_unlock_objects_nv: w5.answer(c6)->Address_0,
                                        dx_unregister_object_nv: w6.answer(c7)->Address_0,
                                    },
                                ),
                                ..functions
                            },
                        ),
                        w6.after(c7),
                    )
                },
            }
        }),
{
    let rest = extensions.subrange(1, extensions.len() as int);
    assert(extensions.drop_first() =~= rest);
    let known: Seq<usize> = seq![];
    match extensions[0] {
        Extension::CreateContext => {
            lemma_load_one(glrc, extensions, known, functions, world);
        },
        Extension::PixelFormat => {
            let (k1, w1) = lemma_load_one(glrc, extensions, known, functions, world);
            lemma_load_one(glrc, extensions, k1, functions, w1);
        },
        Extension::DxInterop => {
            let (k1, w1) = lemma_load_one(glrc, extensions, known, functions, world);
            let (k2, w2) = lemma_load_one(glrc, extensions, k1, functions, w1);
            let (k3, w3) = lemma_load_one(glrc, extensions, k2, functions, w2);
            let (k4, w4) = lemma_load_one(glrc, extensions, k3, functions, w3);
            let (k5, w5) = lemma_load_one(glrc, extensions, k4, functions, w4);
            let (k6, w6) = lemma_load_one(glrc, extensions, k5, functions, w5);
            lemma_load_one(glrc, extensions, k6, functions, w6);
        },
    }
}

/// One function is looked up. What is known afterwards, and the world afterwards, are handed out.
proof fn lemma_load_one(
    glrc: Hglrc,
    extensions: Seq<Extension>,
    known: Seq<usize>,
    functions: WGLExtensionFunctions,
    world: World,
) -> (next: (Seq<usize>, World))
    requires
        world.answers(),
        extensions.len() > 0,
        known.len() < extensions[0].functions().len(),
    ensures
        ({
            let call = Call::GetExtensionAddress(extensions[0].functions()[known.len() as int]);
            let more = known.push(world.answer(call)->Address_0);
            &&& next == (more, world.after(call))
            &&& next.1.answers()
            &&& run(load_program(glrc, extensions, known, functions), world) == (if more.len()
                < extensions[0].functions().len() {
                run(load_program(glrc, extensions, more, functions), next.1)
            } else {
                run(
                    load_program(
                        glrc,
                        extensions.drop_first(),
                        seq![],
                        functions.with(extensions[0], more),
                    ),
                    next.1,
                )
            })
        }),
{
    let call = Call::GetExtensionAddress(extensions[0].functions()[known.len() as int]);
    assert(fits(call, world.answer(call)));
    (known.push(world.answer(call)->Address_0), world.after(call))
}

/// What the procedure of the loader's window does when the window is created, call by call. It gets
/// the device context of that window, chooses and sets a pixel format, creates a rendering context
/// and makes it current, and panics where any of these fails, with nothing more called. Then it looks
/// up the function that lists the extensions. Where there is one, it is called, and the extensions
/// that the list names are loaded; where there is none, no extension is.
pub proof fn law_window_proc_calls(
    window: Hwnd,
    wparam: usize,
    lparam: isize,
    functions: WGLExtensionFunctions,
    world: World,
)
    requires
        world.answers(),
    ensures
        ({
            let end = run(
                window_proc_program(window, WM_CREATE, wparam, lparam, functions),
                world,
            );
            let descriptor = loader_pixel_format();
            let dc = world.answer(Call::GetDc(window))->Dc_0;
            let w1 = world.after(Call::GetDc(window));
            let choose_format = Call::ChoosePixelFormat { dc, descriptor };
            let pixel_format = w1.answer(choose_format)->PixelFormat_0;
            let w2 = w1.after(choose_format);
            let set = Call::SetPixelFormat { dc, pixel_format, descriptor };
            let w3 = w2.after(set);
            let created = w3.answer(Call::CreateContext(dc))->CreatedContext_0;
            let w4 = w3.after(Call::CreateContext(dc));
            let glrc = created->0;
            let make = Call::MakeCurrent { dc, glrc };
            let w5 = w4.after(make);
            let find = Call::GetExtensionAddress(ExtensionFunction::GetExtensionsStringArb);
            let function = w5.answer(find)->Address_0;
            let w6 = w5.after(find);
            let ask = Call::GetExtensionsStringArb { function, dc };
            if pixel_format == 0 {
                end.result is None && end.world == w2
            } else if w2.answer(set) != Reply::Success(true) {
                end.result is None && end.world == w3
            } else if created is None {
                end.result is None && end.world == w4
            } else if w4.answer(make) != Reply::Success(true) {
                end.result is None && end.world == w5
            } else if function == 0 {
                let found = WGLExtensionFunctions { get_extensions_string_arb: None, ..functions };
                end == run(load_program(glrc, seq![], seq![], found), w6)
            } else {
                let found = WGLExtensionFunctions {
                    get_extensions_string_arb: Some(function),
                    ..functions
                };
                let list = (w6.answer(ask)->ExtensionsString_0)@;
                end == run(
                    load_program(glrc, extensions_in(words(list)), seq![], found),
                    w6.after(ask),
                )
            }
        }),
{
    reveal_with_fuel(run, 8);
    let get_dc = Call::GetDc(window);
    assert(fits(get_dc, world.answer(get_dc)));
    let dc = world.answer(get_dc)->Dc_0;
    let w1 = world.after(get_dc);
    let choose_format = Call::ChoosePixelFormat { dc, descriptor: loader_pixel_format() };
    assert(fits(choose_format, w1.answer(choose_format)));
    let pixel_format = w1.answer(choose_format)->PixelFormat_0;
    let w2 = w1.after(choose_format);
    let set = Call::SetPixelFormat { dc, pixel_format, descriptor: loader_pixel_format() };
    assert(fits(set, w2.answer(set)));
    let w3 = w2.after(set);
    let create = Call::CreateContext(dc);
    assert(fits(create, w3.answer(create)));
    let glrc = (w3.answer(create)->CreatedContext_0)->0;
    let w4 = w3.after(create);
    let make = Call::MakeCurrent { dc, glrc };
    assert(fits(make, w4.answer(make)));
    let w5 = w4.after(make);
    let find = Call::GetExtensionAddress(ExtensionFunction::GetExtensionsStringArb);
    assert(fits(find, w5.answer(find)));
    let w6 = w5.after(find);
    let ask = Call::GetExtensionsStringArb { function: w5.answer(find)->Address_0, dc };
    assert(fits(ask, w6.answer(ask)));
}

/// What the loader's thread does, call by call. It asks for the module, registers the window class
/// for it, and creates the window of that class with a table that holds no function; it panics where
/// any of these fails, with nothing more called. Then it destroys that window, and hands out the
/// table as it came back, whether the window could be destroyed or not.
pub proof fn law_loader_thread_calls(world: World)
    requires
        world.answers(),
    ensures
        ({
            let end = run(loader_thread_program(), world);
            let module = world.answer(Call::GetModuleHandle)->Module_0;
            let instance = module->0;
            let w1 = world.after(Call::GetModuleHandle);
            let register = Call::RegisterClass(loader_window_class(instance));
            let class = w1.answer(register)->Atom_0;
            let w2 = w1.after(register);
            let table = WGLExtensionFunctions {
                create_context_attribs_arb: None,
                get_extensions_string_arb: None,
                pixel_format_functions: None,
                dx_interop_functions: None,
            };
            let create = Call::CreateLoaderWindow {
                wanted: loader_window(instance, class),
                table,
            };
            let w3 = w2.after(create);
            if module is None {
                end.result is None && end.world == w1
            } else if class == 0 {
                end.result is None && end.world == w2
            } else {
                w2.answer(create) matches Reply::LoaderWindow { window, functions }
                    && match window {
                    None => end.result is None && end.world == w3,
                    Some(window) => {
                        &&& end.result == Some(functions)
                        &&& end.world == w3.after(Call::DestroyWindow(window))
                    },
                }
            }
        }),
{
    reveal_with_fuel(run, 5);
    let get = Call::GetModuleHandle;
    assert(fits(get, world.answer(get)));
    let instance = (world.answer(get)->Module_0)->0;
    let w1 = world.after(get);
    let register = Call::RegisterClass(loader_window_class(instance));
    assert(fits(register, w1.answer(register)));
    let w2 = w1.after(register);
    let create = Call::CreateLoaderWindow {
        wanted: loader_window(instance, w1.answer(register)->Atom_0),
        table: WGLExtensionFunctions::nothing(),
    };
    assert(fits(create, w2.answer(create)));
    let w3 = w2.after(create);
    let destroy = Call::DestroyWindow(w2.answer(create)->LoaderWindow_window->0);
    assert(fits(destroy, w3.answer(destroy)));
}

} // verus!
