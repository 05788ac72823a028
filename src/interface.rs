//! Named interfaces exposed by host modules through their `CreateInterface`
//! export, and the function slots of an interface's table.

use vstd::prelude::*;

verus! {

/// Width in bytes of one slot of an interface table.
pub const POINTER_WIDTH: u64 = 8;

/// Slot of the engine server interface that runs a server command.
pub const SERVER_COMMAND_SLOT: u64 = 21;

/// Slot of the engine server interface that runs a command as a client.
pub const CLIENT_COMMAND_SLOT: u64 = 23;

#[derive(Clone, Copy, Debug, PartialEq, Eq, Structural)]
pub enum ResolveError {
    /// The module is not mapped in the process.
    ModuleNotFound,
    /// The module has no factory export, or the factory knows no interface
    /// of that name.
    InterfaceNotFound,
}

/// An interface of a module: the base of its table of function slots,
/// never null.
#[derive(Clone, Copy, Debug, PartialEq, Eq, Structural)]
pub struct InterfaceHandle {
    table: u64,
}

/// What resolving an interface yields from the three lookups it makes: the
/// module's handle, the address of its factory export, and what the factory
/// returned for the name (zero for each that was absent or not made).
pub open spec fn resolution(module: u64, factory: u64, table: u64) -> Result<u64, ResolveError> {
    if module == 0 {
        Err(ResolveError::ModuleNotFound)
    } else if factory == 0 || table == 0 {
        Err(ResolveError::InterfaceNotFound)
    } else {
        Ok(table)
    }
}

/// Turns the results of the module lookup, the factory lookup and the
/// factory call into an interface handle. A null answer anywhere is an
/// error, so a handle never holds a null table.
pub fn create_source_interface(module: u64, factory: u64, table: u64) -> (r: Result<
    InterfaceHandle,
    ResolveError,
>)
    ensures
        r matches Ok(h) ==> resolution(module, factory, table) == Ok::<u64, ResolveError>(h@)
            && h@ != 0,
        r matches Err(e) ==> resolution(module, factory, table) == Err::<u64, ResolveError>(e),
{
    if module == 0 {
        Err(ResolveError::ModuleNotFound)
    } else if factory == 0 || table == 0 {
        Err(ResolveError::InterfaceNotFound)
    } else {
        Ok(InterfaceHandle { table })
    }
}

/// Address of slot `index` of a table at `table`.
pub open spec fn slot_of(table: u64, index: u64) -> Option<u64> {
    if table + index * POINTER_WIDTH <= u64::MAX {
        Some((table + index * POINTER_WIDTH) as u64)
    } else {
        None
    }
}

impl View for InterfaceHandle {
    type V = u64;

    closed spec fn view(&self) -> u64 {
        self.table
    }
}

impl InterfaceHandle {
    pub fn table(&self) -> (r: u64)
        ensures
            r == self@,
    {
        self.table
    }

    /// Address of the function pointer in slot `index`:
    /// `table + index * POINTER_WIDTH`. The host gives no bound to check the
    /// index against; the caller keeps it within the interface's slots.
    pub fn slot_address(&self, index: u64) -> (r: Option<u64>)
        ensures
            r == slot_of(self@, index),
    {
        match index.checked_mul(POINTER_WIDTH) {
            Some(offset) => self.table.checked_add(offset),
            None => None,
        }
    }
}

} // verus!
