//! The engine data table: addresses resolved from each module as it loads,
//! the per-connection client array, and the one-time publication that makes
//! the table readable.

use vstd::prelude::*;

verus! {

/// Engine: the server object.
pub const SERVER_OFFSET: u64 = 0x12A53D40;

/// Engine: the server game clients interface.
pub const GAME_CLIENTS_OFFSET: u64 = 0x13F0AAA8;

/// Engine: `CreateFakeClient`.
pub const CREATE_FAKE_CLIENT_OFFSET: u64 = 0x114C60;

/// Engine: the first element of the client array.
pub const CLIENT_ARRAY_OFFSET: u64 = 0x12A53F90;

/// Server: `ClientFullyConnected`.
pub const CLIENT_FULLY_CONNECTED_OFFSET: u64 = 0x153B70;

/// Server: `RunNullCommand`.
pub const RUN_NULL_COMMAND_OFFSET: u64 = 0x5A9FD0;

/// Server: `PlayerByIndex`.
pub const PLAYER_BY_INDEX_OFFSET: u64 = 0x26AA10;

/// Material system: a `CTexture` function.
pub const CTEXTURE_FUNCTION_OFFSET: u64 = 0x79e80;

#[derive(Clone, Copy, Debug, PartialEq, Eq, Structural)]
pub enum LoadError {
    /// The module's base address is null.
    NullBase,
    /// An offset added to the base leaves the address space.
    AddressOverflow,
    /// The engine phase has not filled its part of the table yet.
    EngineNotLoaded,
}

/// Addresses resolved in the host; `None` until the phase that resolves a
/// field has run.
#[derive(Clone, Copy, Debug, PartialEq, Eq, Structural)]
pub struct SourceEngineData {
    pub server: Option<u64>,
    pub game_clients: Option<u64>,
    pub create_fake_client: Option<u64>,
    pub client_array: Option<u64>,
    pub client_fully_connected: Option<u64>,
    pub run_null_command: Option<u64>,
    pub player_by_index: Option<u64>,
    pub some_ctexture_function: Option<u64>,
}

/// The address `offset` bytes past `base` (the caller has checked the sum).
pub open spec fn at(base: u64, offset: u64) -> Option<u64> {
    Some((base + offset) as u64)
}

/// Whether `base + offset` is a valid address for the largest offset a
/// phase uses.
pub open spec fn base_fits(base: u64, largest: u64) -> bool {
    base != 0 && base + largest <= u64::MAX
}

impl SourceEngineData {
    /// A table with nothing resolved.
    pub fn new() -> (r: SourceEngineData)
        ensures
            r == SourceEngineData::empty(),
    {
        SourceEngineData {
            server: None,
            game_clients: None,
            create_fake_client: None,
            client_array: None,
            client_fully_connected: None,
            run_null_command: None,
            player_by_index: None,
            some_ctexture_function: None,
        }
    }

    pub open spec fn empty() -> SourceEngineData {
        SourceEngineData {
            server: None,
            game_clients: None,
            create_fake_client: None,
            client_array: None,
            client_fully_connected: None,
            run_null_command: None,
            player_by_index: None,
            some_ctexture_function: None,
        }
    }

    /// The engine phase has run.
    pub open spec fn engine_loaded(&self) -> bool {
        &&& self.server is Some
        &&& self.game_clients is Some
        &&& self.create_fake_client is Some
        &&& self.client_array is Some
    }

    /// Every phase has run: the table is fully populated.
    pub open spec fn complete(&self) -> bool {
        &&& self.engine_loaded()
        &&& self.client_fully_connected is Some
        &&& self.run_null_command is Some
        &&& self.player_by_index is Some
        &&& self.some_ctexture_function is Some
    }

    pub fn is_complete(&self) -> (r: bool)
        ensures
            r == self.complete(),
    {
        self.server.is_some() && self.game_clients.is_some() && self.create_fake_client.is_some()
            && self.client_array.is_some() && self.client_fully_connected.is_some()
            && self.run_null_command.is_some() && self.player_by_index.is_some()
            && self.some_ctexture_function.is_some()
    }

    /// Fills the engine's fields from the engine module mapped at `base`.
    pub fn load_engine(&mut self, base: u64) -> (r: Result<(), LoadError>)
        ensures
            base == 0 ==> r == Err::<(), LoadError>(LoadError::NullBase),
            base != 0 && !base_fits(base, GAME_CLIENTS_OFFSET) ==> r == Err::<(), LoadError>(
                LoadError::AddressOverflow,
            ),
            r is Ok <==> base_fits(base, GAME_CLIENTS_OFFSET),
            r is Err ==> *final(self) == *old(self),
            r is Ok ==> *final(self) == (SourceEngineData {
                server: at(base, SERVER_OFFSET),
                game_clients: at(base, GAME_CLIENTS_OFFSET),
                create_fake_client: at(base, CREATE_FAKE_CLIENT_OFFSET),
                client_array: at(base, CLIENT_ARRAY_OFFSET),
                ..*old(self)
            }),
    {
        if base == 0 {
            return Err(LoadError::NullBase);
        }
        if base > u64::MAX - GAME_CLIENTS_OFFSET {
            return Err(LoadError::AddressOverflow);
        }
        self.server = Some(base + SERVER_OFFSET);
        self.game_clients = Some(base + GAME_CLIENTS_OFFSET);
        self.create_fake_client = Some(base + CREATE_FAKE_CLIENT_OFFSET);
        self.client_array = Some(base + CLIENT_ARRAY_OFFSET);
        Ok(())
    }

    /// Fills the server's fields from the server module mapped at `base`.
    /// The engine phase comes first.
    pub fn load_server(&mut self, base: u64) -> (r: Result<(), LoadError>)
        ensures
            !old(self).engine_loaded() ==> r == Err::<(), LoadError>(LoadError::EngineNotLoaded),
            old(self).engine_loaded() && base == 0 ==> r == Err::<(), LoadError>(
                LoadError::NullBase,
            ),
            old(self).engine_loaded() && base != 0 && !base_fits(base, RUN_NULL_COMMAND_OFFSET)
                ==> r == Err::<(), LoadError>(LoadError::AddressOverflow),
            r is Ok <==> old(self).engine_loaded() && base_fits(base, RUN_NULL_COMMAND_OFFSET),
            r is Err ==> *final(self) == *old(self),
            r is Ok ==> *final(self) == (SourceEngineData {
                client_fully_connected: at(base, CLIENT_FULLY_CONNECTED_OFFSET),
                run_null_command: at(base, RUN_NULL_COMMAND_OFFSET),
                player_by_index: at(base, PLAYER_BY_INDEX_OFFSET),
                ..*old(self)
            }),
    {
        if !self.is_engine_loaded() {
            return Err(LoadError::EngineNotLoaded);
        }
        if base == 0 {
            return Err(LoadError::NullBase);
        }
        if base > u64::MAX - RUN_NULL_COMMAND_OFFSET {
            return Err(LoadError::AddressOverflow);
        }
        self.client_fully_connected = Some(base + CLIENT_FULLY_CONNECTED_OFFSET);
        self.run_null_command = Some(base + RUN_NULL_COMMAND_OFFSET);
        self.player_by_index = Some(base + PLAYER_BY_INDEX_OFFSET);
        Ok(())
    }

    /// Fills the material system's field from the module mapped at `base`.
    /// The engine phase comes first.
    pub fn load_materialsystem(&mut self, base: u64) -> (r: Result<(), LoadError>)
        ensures
            !old(self).engine_loaded() ==> r == Err::<(), LoadError>(LoadError::EngineNotLoaded),
            old(self).engine_loaded() && base == 0 ==> r == Err::<(), LoadError>(
                LoadError::NullBase,
            ),
            old(self).engine_loaded() && base != 0 && !base_fits(base, CTEXTURE_FUNCTION_OFFSET)
                ==> r == Err::<(), LoadError>(LoadError::AddressOverflow),
            r is Ok <==> old(self).engine_loaded() && base_fits(base, CTEXTURE_FUNCTION_OFFSET),
            r is Err ==> *final(self) == *old(self),
            r is Ok ==> *final(self) == (SourceEngineData {
                some_ctexture_function: at(base, CTEXTURE_FUNCTION_OFFSET),
                ..*old(self)
            }),
    {
        if !self.is_engine_loaded() {
            return Err(LoadError::EngineNotLoaded);
        }
        if base == 0 {
            return Err(LoadError::NullBase);
        }
        if base > u64::MAX - CTEXTURE_FUNCTION_OFFSET {
            return Err(LoadError::AddressOverflow);
        }
        self.some_ctexture_function = Some(base + CTEXTURE_FUNCTION_OFFSET);
        Ok(())
    }

    fn is_engine_loaded(&self) -> (r: bool)
        ensures
            r == self.engine_loaded(),
    {
        self.server.is_some() && self.game_clients.is_some() && self.create_fake_client.is_some()
            && self.client_array.is_some()
    }
}

} // verus!
