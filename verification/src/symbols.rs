//! Looking up OpenGL functions by name.

use crate::call::{Call, Reply};
use crate::context::Context;
use crate::device::Device;
use crate::program::{call_address, Operation, Program, Step};
use vstd::prelude::*;

verus! {

/// Looks up a function. WGL knows the functions of the current context that are newer than OpenGL
/// 1.1; the older ones are in the OpenGL library, where the function must be if WGL does not know
/// it.
pub open spec fn get_proc_address_program(symbol_name: String) -> Program<usize> {
    call_address(
        Call::GetSymbolAddress(symbol_name),
        |address: usize|
            if address != 0 {
                Program::Done(address)
            } else {
                library_lookup_program(symbol_name)
            },
    )
}

/// WGL does not know the function: it is looked up in the OpenGL library.
pub open spec fn library_lookup_program(symbol_name: String) -> Program<usize> {
    call_address(
        Call::GetLibrarySymbolAddress(symbol_name),
        |address: usize|
            if address != 0 {
                Program::Done(address)
            } else {
                Program::Abort
            },
    )
}

/// Looking up an OpenGL function.
pub enum GetProcAddress {
    AskingWgl { symbol_name: String },
    AskingLibrary { symbol_name: String },
}

impl Operation for GetProcAddress {
    type Output = usize;

    open spec fn program(self) -> Program<usize> {
        match self {
            GetProcAddress::AskingWgl { symbol_name } => get_proc_address_program(symbol_name),
            GetProcAddress::AskingLibrary { symbol_name } => library_lookup_program(symbol_name),
        }
    }

    fn resume(self, reply: Reply) -> (step: Step<Self, usize>) {
        match (self, reply) {
            (GetProcAddress::AskingWgl { symbol_name }, Reply::Address(address)) => {
                if address != 0 {
                    Step::Done(address)
                } else {
                    Step::Call(
                        Call::GetLibrarySymbolAddress(symbol_name.clone()),
                        GetProcAddress::AskingLibrary { symbol_name },
                    )
                }
            },
            (GetProcAddress::AskingLibrary { .. }, Reply::Address(address)) => {
                if address != 0 {
                    Step::Done(address)
                } else {
                    Step::Abort
                }
            },
            _ => Step::Abort,
        }
    }
}

/// Fetches the address of an OpenGL function. The name of a function holds no NUL character.
pub fn get_proc_address(symbol_name: &str) -> (step: Step<GetProcAddress, usize>)
    requires
        !symbol_name@.contains('\0'),
    ensures
        step matches Step::Call(Call::GetSymbolAddress(name), operation) && {
            &&& name@ == symbol_name@
            &&& operation.program() == get_proc_address_program(name)
        },
{
    let symbol_name: String = symbol_name.to_owned();
    Step::Call(
        Call::GetSymbolAddress(symbol_name.clone()),
        GetProcAddress::AskingWgl { symbol_name },
    )
}

impl Device {
    /// Fetches the address of an OpenGL function associated with this context.
    ///
    /// OpenGL functions are local to a context. You should not use OpenGL functions on one context
    /// with any other context.
    ///
    /// This method is typically used with a function like `gl::load_with()` from the `gl` crate to
    /// load OpenGL function pointers.
    pub fn get_proc_address(&self, _context: &Context, symbol_name: &str) -> (step: Step<
        GetProcAddress,
        usize,
    >)
        requires
            !symbol_name@.contains('\0'),
        ensures
            step matches Step::Call(Call::GetSymbolAddress(name), operation) && {
                &&& name@ == symbol_name@
                &&& operation.program() == get_proc_address_program(name)
            },
    {
        get_proc_address(symbol_name)
    }
}

} // verus!
