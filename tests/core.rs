use devtoys::{
    c_string_bytes, change_map_command, client_print_target, create_source_interface,
    force_box_action, hook_engine, hook_server, level_name_is, module_location, set_c_char_array,
    slot_address, target_address, uses_altered_search_path, ClientArray, EngineDataTable,
    FrameAction, HookError, HookRegistry, HookState, LoadError, Module, Phase, ResolveError,
    Route, SourceEngineData, TableError, CLIENT_COMMAND_SLOT, CONNECT_SUBFUNC_OFFSET,
    PROCESS_USERCMDS_OFFSET, RUN_USERCMD_OFFSET, SERVER_COMMAND_SLOT,
};

fn sum(args: (i32, i32)) -> i32 {
    args.0 + args.1
}

fn minus_one(_: (i32, i32)) -> i32 {
    -1
}

#[test]
fn c_string_appends_terminator() {
    assert_eq!(c_string_bytes("abc"), Some(vec![97, 98, 99, 0]));
    assert_eq!(c_string_bytes(""), Some(vec![0]));
}

#[test]
fn c_string_rejects_interior_zero() {
    assert_eq!(c_string_bytes("a\0b"), None);
}

#[test]
fn c_char_array_truncates_and_terminates() {
    let mut buf = [1i8; 4];
    set_c_char_array(&mut buf, "abcdef");
    assert_eq!(buf, [97, 98, 99, 0]);
    set_c_char_array(&mut buf, "a");
    assert_eq!(buf, [97, 0, 0, 0]);
    let mut one = [5i8; 1];
    set_c_char_array(&mut one, "xyz");
    assert_eq!(one, [0]);
}

#[test]
fn level_name_skips_zero_and_high_bytes() {
    let buf: Vec<i8> = "mp_box".bytes().map(|b| b as i8).chain([0, 0]).collect();
    assert!(level_name_is(&buf, "mp_box"));
    let mixed: Vec<i8> = vec![109, 0, 112, -3, 95, 98, 111, 120];
    assert!(level_name_is(&mixed, "mp_box"));
    assert!(!level_name_is(&buf, "mp_bo"));
    assert!(!level_name_is(&buf, "mp_boxx"));
    assert!(level_name_is(&[0, 0], ""));
}

#[test]
fn target_address_checks_base_and_overflow() {
    assert_eq!(target_address(0, 5), None);
    assert_eq!(target_address(0x1000, 0x10), Some(0x1010));
    assert_eq!(target_address(u64::MAX - 1, 2), None);
    assert_eq!(target_address(u64::MAX - 1, 1), Some(u64::MAX));
}

#[test]
fn register_rejects_owned_and_null_addresses() {
    let mut reg = HookRegistry::new();
    assert_eq!(reg.register(0, true), Err(HookError::InvalidTarget));
    assert_eq!(reg.register(0x5000, true), Ok(0));
    assert_eq!(reg.register(0x5000, false), Err(HookError::AddressAlreadyOwned));
    assert_eq!(reg.register(0x6000, false), Ok(1));
    assert_eq!(reg.len(), 2);
    assert_eq!(reg.owner_of(0x6000), Some(1));
    assert_eq!(reg.owner_of(0x7000), None);
    assert_eq!(reg.get(0).unwrap().state, HookState::Installed);
    assert_eq!(reg.get(2), None);
}

#[test]
fn enable_and_disable_move_the_state() {
    let mut reg = HookRegistry::new();
    let id = reg.register(0x5000, true).unwrap();
    assert_eq!(reg.route(0x5000), Route::Original);
    assert_eq!(reg.enable(id), Ok(()));
    assert!(reg.is_enabled(id));
    assert_eq!(reg.route(0x5000), Route::Replacement(id));
    assert_eq!(reg.disable(id), Ok(()));
    assert_eq!(reg.get(id).unwrap().state, HookState::Disabled);
    assert_eq!(reg.route(0x5000), Route::Original);
    assert_eq!(reg.enable(7), Err(HookError::UnknownHook));
    assert_eq!(reg.disable(7), Err(HookError::UnknownHook));
}

#[test]
fn call_through_hook_keeps_results() {
    let mut reg = HookRegistry::new();
    let addr = target_address(0x4000_0000, 0x1234).unwrap();
    let id = reg.register(addr, true).unwrap();
    reg.enable(id).unwrap();
    let mut calls = Vec::new();
    for a in -3..4 {
        for b in -3..4 {
            assert_eq!(reg.invoke(addr, &sum, &minus_one, (a, b), &mut calls), sum((a, b)));
        }
    }
    assert_eq!(calls.len(), 49);
}

#[test]
fn replacement_without_call_through_answers() {
    let mut reg = HookRegistry::new();
    let id = reg.register(0x9000, false).unwrap();
    reg.enable(id).unwrap();
    let mut calls = Vec::new();
    assert_eq!(reg.invoke(0x9000, &sum, &minus_one, (2, 3), &mut calls), -1);
    assert_eq!(calls, vec![id]);
}

#[test]
fn enabled_once_fires_once_per_call() {
    let mut reg = HookRegistry::new();
    let id = reg.register(0x9000, true).unwrap();
    reg.enable(id).unwrap();
    reg.enable(id).unwrap();
    let mut calls = Vec::new();
    reg.invoke(0x9000, &sum, &minus_one, (1, 1), &mut calls);
    assert_eq!(calls, vec![id]);
    reg.invoke(0x9000, &sum, &minus_one, (1, 1), &mut calls);
    assert_eq!(calls, vec![id, id]);
    reg.invoke(0x9100, &sum, &minus_one, (1, 1), &mut calls);
    assert_eq!(calls, vec![id, id]);
}

#[test]
fn hooked_sum_end_to_end() {
    let base: u64 = 0x7ff0_0000_0000;
    let sum_offset: u64 = 0x2a40;
    let addr = target_address(base, sum_offset).unwrap();
    let mut reg = HookRegistry::new();
    let mut calls = Vec::new();
    assert_eq!(reg.invoke(addr, &sum, &minus_one, (2, 3), &mut calls), 5);
    assert!(calls.is_empty());
    let id = reg.register(addr, true).unwrap();
    reg.enable(id).unwrap();
    assert_eq!(reg.invoke(addr, &sum, &minus_one, (2, 3), &mut calls), 5);
    assert_eq!(calls, vec![id]);
}

#[test]
fn server_hooks_are_placed_together() {
    let mut reg = HookRegistry::new();
    assert_eq!(hook_server(&mut reg, 0), Err(HookError::InvalidTarget));
    assert_eq!(hook_server(&mut reg, u64::MAX - 0x100), Err(HookError::InvalidTarget));
    assert_eq!(reg.len(), 0);
    let base: u64 = 0x1_8000_0000;
    let ids = hook_server(&mut reg, base).unwrap();
    assert_eq!((ids.run_usercmd, ids.process_usercmds), (0, 1));
    assert!(reg.is_enabled(ids.run_usercmd));
    assert!(!reg.is_enabled(ids.process_usercmds));
    assert_eq!(reg.get(0).unwrap().target, base + RUN_USERCMD_OFFSET);
    assert_eq!(reg.get(1).unwrap().target, base + PROCESS_USERCMDS_OFFSET);
    assert_eq!(hook_server(&mut reg, base), Err(HookError::AddressAlreadyOwned));
    assert_eq!(reg.len(), 2);
}

#[test]
fn engine_hook_is_placed_once() {
    let mut reg = HookRegistry::new();
    let base: u64 = 0x1_8000_0000;
    assert_eq!(hook_engine(&mut reg, 0), Err(HookError::InvalidTarget));
    assert_eq!(hook_engine(&mut reg, base), Ok(Some(0)));
    assert_eq!(reg.get(0).unwrap().target, base + CONNECT_SUBFUNC_OFFSET);
    assert!(reg.is_enabled(0));
    assert_eq!(hook_engine(&mut reg, base), Ok(None));
    assert_eq!(reg.len(), 1);
}

#[test]
fn engine_hook_refuses_a_disabled_owner() {
    let mut reg = HookRegistry::new();
    let base: u64 = 0x1_8000_0000;
    reg.register(base + CONNECT_SUBFUNC_OFFSET, true).unwrap();
    assert_eq!(hook_engine(&mut reg, base), Err(HookError::AddressAlreadyOwned));
}

#[test]
fn engine_data_loads_in_order() {
    let mut data = SourceEngineData::new();
    assert_eq!(data.load_server(0x2000_0000), Err(LoadError::EngineNotLoaded));
    assert_eq!(data.load_materialsystem(0x3000_0000), Err(LoadError::EngineNotLoaded));
    assert_eq!(data.load_engine(0), Err(LoadError::NullBase));
    assert_eq!(data.load_engine(u64::MAX - 10), Err(LoadError::AddressOverflow));
    assert_eq!(data, SourceEngineData::new());
    let engine: u64 = 0x1_0000_0000;
    assert_eq!(data.load_engine(engine), Ok(()));
    assert_eq!(data.server, Some(engine + 0x12A53D40));
    assert_eq!(data.game_clients, Some(engine + 0x13F0AAA8));
    assert_eq!(data.create_fake_client, Some(engine + 0x114C60));
    assert_eq!(data.client_array, Some(engine + 0x12A53F90));
    assert!(!data.is_complete());
    assert_eq!(data.load_server(0), Err(LoadError::NullBase));
    assert_eq!(data.load_server(0x2000_0000), Ok(()));
    assert_eq!(data.client_fully_connected, Some(0x2000_0000 + 0x153B70));
    assert_eq!(data.run_null_command, Some(0x2000_0000 + 0x5A9FD0));
    assert_eq!(data.player_by_index, Some(0x2000_0000 + 0x26AA10));
    assert_eq!(data.load_materialsystem(0x3000_0000), Ok(()));
    assert_eq!(data.some_ctexture_function, Some(0x3007_9e80));
    assert!(data.is_complete());
}

fn full_data() -> SourceEngineData {
    let mut data = SourceEngineData::new();
    data.load_engine(0x1_0000_0000).unwrap();
    data.load_server(0x2000_0000).unwrap();
    data.load_materialsystem(0x3000_0000).unwrap();
    data
}

#[test]
fn table_is_unreadable_until_published() {
    let mut table = EngineDataTable::new();
    assert_eq!(table.phase(), Phase::Uninitialized);
    assert_eq!(table.read(), None);
    assert_eq!(table.publish(full_data()), Err(TableError::NotInitializing));
    assert_eq!(table.begin(), Ok(()));
    assert_eq!(table.begin(), Err(TableError::AlreadyStarted));
    assert_eq!(table.read(), None);
    let mut partial = SourceEngineData::new();
    partial.load_engine(0x1_0000_0000).unwrap();
    assert_eq!(table.publish(partial), Err(TableError::Incomplete));
    assert_eq!(table.read(), None);
    assert_eq!(table.publish(full_data()), Ok(()));
    assert_eq!(table.phase(), Phase::Ready);
    assert_eq!(table.read(), Some(full_data()));
    assert_eq!(table.publish(SourceEngineData::new()), Err(TableError::NotInitializing));
    assert_eq!(table.read(), Some(full_data()));
}

#[test]
fn client_index_is_bounds_and_null_checked() {
    let clients = ClientArray::new(vec![0x100, 0, 0x300]);
    let max_players = clients.capacity();
    assert_eq!(max_players, 3);
    assert_eq!(clients.client_by_index(0), None);
    assert_eq!(clients.client_by_index(max_players + 1), None);
    assert_eq!(clients.client_by_index(1), Some(0x100));
    assert_eq!(clients.client_by_index(2), None);
    assert_eq!(clients.client_by_index(3), Some(0x300));
    assert_eq!(clients.occupied(), vec![1, 3]);
    assert_eq!(ClientArray::new(Vec::new()).occupied(), Vec::<usize>::new());
}

#[test]
fn slot_addresses_count_from_one() {
    assert_eq!(slot_address(0x1000, 0, 16), None);
    assert_eq!(slot_address(0x1000, 1, 16), Some(0x1000));
    assert_eq!(slot_address(0x1000, 3, 16), Some(0x1020));
    assert_eq!(slot_address(u64::MAX - 8, 3, 16), None);
    assert_eq!(slot_address(0x1000, u64::MAX, u64::MAX), None);
}

#[test]
fn interface_resolution_never_hands_out_null() {
    let known = create_source_interface(0x7000, 0x7100, 0x8000).unwrap();
    assert_eq!(known.table(), 0x8000);
    assert_eq!(create_source_interface(0x7000, 0x7100, 0), Err(ResolveError::InterfaceNotFound));
    assert_eq!(create_source_interface(0x7000, 0, 0), Err(ResolveError::InterfaceNotFound));
    assert_eq!(create_source_interface(0, 0x7100, 0x8000), Err(ResolveError::ModuleNotFound));
}

#[test]
fn interface_slots_are_pointer_wide() {
    let iface = create_source_interface(1, 1, 0x8000).unwrap();
    assert_eq!(iface.slot_address(0), Some(0x8000));
    assert_eq!(iface.slot_address(SERVER_COMMAND_SLOT), Some(0x8000 + 21 * 8));
    assert_eq!(iface.slot_address(CLIENT_COMMAND_SLOT), Some(0x8000 + 23 * 8));
    assert_eq!(iface.slot_address(u64::MAX / 4), None);
}

#[test]
fn module_locations() {
    assert_eq!(module_location(Module::Engine), vec!["bin", "x64_retail", "engine.dll"]);
    assert_eq!(module_location(Module::Client), vec!["bin", "x64_retail", "client.dll"]);
    assert_eq!(
        module_location(Module::MaterialSystem),
        vec!["bin", "x64_retail", "materialsystem_dx11.dll"]
    );
    let server = module_location(Module::Server);
    assert_eq!(server.len(), 1);
    assert!(server[0].contains("server"));
    assert_ne!(server[0], "server");
    assert!(!uses_altered_search_path(Module::Server));
    assert!(uses_altered_search_path(Module::Engine));
}

#[test]
fn forced_map_decisions() {
    let in_box: Vec<i8> = "mp_box".bytes().map(|b| b as i8).chain([0]).collect();
    let elsewhere: Vec<i8> = "mp_lobby".bytes().map(|b| b as i8).chain([0]).collect();
    assert_eq!(force_box_action(None, &elsewhere), FrameAction::Nothing);
    assert_eq!(force_box_action(Some(0), &elsewhere), FrameAction::Nothing);
    assert_eq!(force_box_action(Some(1), &elsewhere), FrameAction::ChangeMap);
    assert_eq!(force_box_action(Some(1), &in_box), FrameAction::ClearToggle);
    assert_eq!(change_map_command(), b"map mp_box\0".to_vec());
}

#[test]
fn client_print_targets() {
    let clients = ClientArray::new(vec![0x1000, 0, 0x3000]);
    let max_players = clients.capacity();
    assert_eq!(client_print_target(&clients, 1, "hi"), Some((0x1000, vec![104, 105, 0])));
    assert_eq!(client_print_target(&clients, 3, "hi"), Some((0x3000, vec![104, 105, 0])));
    assert_eq!(client_print_target(&clients, 0, "hi"), None);
    assert_eq!(client_print_target(&clients, max_players + 1, "hi"), None);
    assert_eq!(client_print_target(&clients, 2, "hi"), None);
    assert_eq!(client_print_target(&clients, 1, "h\0i"), None);
}

#[test]
fn server_hooks_fire_as_placed() {
    let mut reg = HookRegistry::new();
    let base: u64 = 0x1_8000_0000;
    let ids = hook_server(&mut reg, base).unwrap();
    let mut calls = Vec::new();
    for _ in 0..3 {
        assert_eq!(reg.invoke(base + RUN_USERCMD_OFFSET, &sum, &minus_one, (4, 5), &mut calls), 9);
    }
    for _ in 0..2 {
        assert_eq!(reg.invoke(base + PROCESS_USERCMDS_OFFSET, &sum, &minus_one, (4, 5), &mut calls), 9);
    }
    assert_eq!(calls, vec![ids.run_usercmd; 3]);
}

#[test]
fn engine_hook_fires_once_after_repeated_placement() {
    let mut reg = HookRegistry::new();
    let base: u64 = 0x1_8000_0000;
    let id = hook_engine(&mut reg, base).unwrap().unwrap();
    assert_eq!(hook_engine(&mut reg, base), Ok(None));
    assert_eq!(hook_engine(&mut reg, base), Ok(None));
    let mut calls = Vec::new();
    reg.invoke(base + CONNECT_SUBFUNC_OFFSET, &sum, &minus_one, (0, 0), &mut calls);
    assert_eq!(calls, vec![id]);
}
