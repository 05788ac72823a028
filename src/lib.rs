//! Core of a dedicated-server plugin that instruments a running host
//! process: where hooks go and how they dispatch, which interface slots are
//! read, and the process-wide table of resolved engine addresses.
//!
//! Everything here works on plain values (addresses as `u64`, byte strings,
//! small state machines); the platform calls themselves are made by the
//! application around this library.

pub mod clients;
pub mod cstr;
pub mod detour;
pub mod engine;
pub mod frame;
pub mod hooks;
pub mod interface;
pub mod loader;
pub mod table;

pub use cstr::{c_string_bytes, level_name_is, set_c_char_array};
pub use hooks::{
    target_address, HookDescriptor, HookError, HookRegistry, HookState, Route,
};
pub use detour::{
    hook_engine, hook_server, ServerHooks, CONNECT_SUBFUNC_OFFSET, PROCESS_USERCMDS_OFFSET,
    RUN_USERCMD_OFFSET,
};
pub use engine::{LoadError, SourceEngineData};
pub use clients::{slot_address, ClientArray};
pub use table::{EngineDataTable, Phase, TableError};
pub use interface::{
    create_source_interface, InterfaceHandle, ResolveError, CLIENT_COMMAND_SLOT, POINTER_WIDTH,
    SERVER_COMMAND_SLOT,
};
pub use loader::{module_location, uses_altered_search_path, Module};
pub use frame::{change_map_command, client_print_target, force_box_action, FrameAction};
