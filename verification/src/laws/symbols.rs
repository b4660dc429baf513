//! Where OpenGL functions are found.

use crate::call::Call;
use crate::symbols::get_proc_address_program;
use crate::world::{fits, run, World};
use vstd::prelude::*;

verus! {

/// The address of a function is the one that WGL gives, and only where WGL gives none the one that
/// the OpenGL library gives. The library is not asked otherwise.
pub proof fn law_wgl_comes_first(symbol_name: String, world: World)
    requires
        world.answers(),
    ensures
        ({
            let ask_wgl = Call::GetSymbolAddress(symbol_name);
            let ask_library = Call::GetLibrarySymbolAddress(symbol_name);
            let by_wgl = world.answer(ask_wgl)->Address_0;
            let by_library = world.after(ask_wgl).answer(ask_library)->Address_0;
            let end = run(get_proc_address_program(symbol_name), world);
            if by_wgl != 0 {
                end.result == Some(by_wgl) && end.world == world.after(ask_wgl)
            } else {
                &&& end.world == world.after(ask_wgl).after(ask_library)
                &&& end.result == (if by_library != 0 {
                    Some(by_library)
                } else {
                    None
                })
            }
        }),
{
    reveal_with_fuel(run, 3);
    let ask_wgl = Call::GetSymbolAddress(symbol_name);
    let ask_library = Call::GetLibrarySymbolAddress(symbol_name);
    assert(fits(ask_wgl, world.answer(ask_wgl)));
    assert(fits(ask_library, world.after(ask_wgl).answer(ask_library)));
}

} // verus!
