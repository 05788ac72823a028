//! The hooks that the plugin places in the server and engine modules, by
//! fixed offset from each module's base. The offsets belong to one exact
//! build of the host.

use crate::hooks::{
    lemma_unique_owner, owned, route_of, target_address, target_of, HookDescriptor, HookError,
    HookRegistry, HookState, Route,
};
use vstd::prelude::*;

verus! {

/// Server: the function that runs queued user commands once per frame.
pub const RUN_USERCMD_OFFSET: u64 = 0x483A50;

/// Server: `CPlayer::ProcessUsercmds`, installed for inspection and left off.
pub const PROCESS_USERCMDS_OFFSET: u64 = 0x159e50;

/// Engine: a function that `CClient::Connect` calls once per connection.
/// `CClient::Connect` itself is hooked elsewhere and cannot be hooked twice,
/// so the callback observes the connection from inside this call, a moment
/// later than the connect entry point.
pub const CONNECT_SUBFUNC_OFFSET: u64 = 0x106270;

/// Ids of the two server hooks.
#[derive(Clone, Copy, Debug, PartialEq, Eq, Structural)]
pub struct ServerHooks {
    pub run_usercmd: usize,
    pub process_usercmds: usize,
}

/// The two server hooks that `hook_server` adds for a module at `base`.
pub open spec fn server_hooks_of(base: u64) -> Seq<HookDescriptor> {
    seq![
        HookDescriptor {
            target: (base + RUN_USERCMD_OFFSET) as u64,
            state: HookState::Enabled,
            call_through: true,
        },
        HookDescriptor {
            target: (base + PROCESS_USERCMDS_OFFSET) as u64,
            state: HookState::Installed,
            call_through: true,
        },
    ]
}

/// Places the server hooks for a server module mapped at `base`: the user
/// command hook, enabled, and the `ProcessUsercmds` hook, installed only.
/// Both call through. Either both are added or, on an error, neither.
pub fn hook_server(reg: &mut HookRegistry, base: u64) -> (r: Result<ServerHooks, HookError>)
    requires
        old(reg).wf(),
    ensures
        final(reg).wf(),
        (target_of(base, RUN_USERCMD_OFFSET) is None || target_of(base, PROCESS_USERCMDS_OFFSET) is None)
            ==> r == Err::<ServerHooks, HookError>(HookError::InvalidTarget),
        (target_of(base, RUN_USERCMD_OFFSET) is Some && target_of(base, PROCESS_USERCMDS_OFFSET) is Some
            && (owned(old(reg)@, (base + RUN_USERCMD_OFFSET) as u64) || owned(
            old(reg)@,
            (base + PROCESS_USERCMDS_OFFSET) as u64,
        ))) ==> r == Err::<ServerHooks, HookError>(HookError::AddressAlreadyOwned),
        r is Err ==> final(reg)@ == old(reg)@,
        r is Ok <==> (base != 0 && base + RUN_USERCMD_OFFSET <= u64::MAX && !owned(
            old(reg)@,
            (base + RUN_USERCMD_OFFSET) as u64,
        ) && !owned(old(reg)@, (base + PROCESS_USERCMDS_OFFSET) as u64)),
        r is Ok ==> {
            &&& final(reg)@ == old(reg)@ + server_hooks_of(base)
            &&& r matches Ok(ids) && ids.run_usercmd == old(reg)@.len() && ids.process_usercmds
                == old(reg)@.len() + 1
        },
        // a call at the user command function reaches its replacement, and
        // only that one; a call at ProcessUsercmds runs the original alone
        r matches Ok(ids) ==> {
            &&& route_of(final(reg)@, (base + RUN_USERCMD_OFFSET) as u64) == Route::Replacement(
                ids.run_usercmd,
            )
            &&& forall|j: int|
                0 <= j < final(reg)@.len() && final(reg)@[j].target == (base + RUN_USERCMD_OFFSET)
                    as u64 ==> j == ids.run_usercmd
            &&& route_of(final(reg)@, (base + PROCESS_USERCMDS_OFFSET) as u64) == Route::Original
        },
{
    let run = match target_address(base, RUN_USERCMD_OFFSET) {
        Some(a) => a,
        None => return Err(HookError::InvalidTarget),
    };
    let process = match target_address(base, PROCESS_USERCMDS_OFFSET) {
        Some(a) => a,
        None => return Err(HookError::InvalidTarget),
    };
    if reg.owner_of(run).is_some() || reg.owner_of(process).is_some() {
        return Err(HookError::AddressAlreadyOwned);
    }
    let run_usercmd = match reg.register(run, true) {
        Ok(id) => id,
        Err(e) => return Err(e),
    };
    let ghost after_run = reg@;
    assert(!owned(after_run, process)) by {
        assert forall|i: int| 0 <= i < after_run.len() implies after_run[i].target != process by {
            if i < old(reg)@.len() {
                assert(old(reg)@[i].target != process);
            }
        }
    }
    let process_usercmds = match reg.register(process, true) {
        Ok(id) => id,
        Err(e) => return Err(e),
    };
    let _ = reg.enable(run_usercmd);
    assert(reg@.len() == old(reg)@.len() + 2);
    assert(reg@[run_usercmd as int] == server_hooks_of(base)[0]);
    assert(reg@[process_usercmds as int] == server_hooks_of(base)[1]);
    assert(reg@ =~= old(reg)@ + server_hooks_of(base));
    proof {
        lemma_unique_owner(reg@, run_usercmd as int);
        lemma_unique_owner(reg@, process_usercmds as int);
    }
    Ok(ServerHooks { run_usercmd, process_usercmds })
}

/// Places the engine's connect hook for an engine module mapped at `base`,
/// enabled and calling through, and returns its id. When an enabled hook
/// already owns that address nothing is added and `None` comes back: the
/// engine phase may run more than once, and the hook stays single.
pub fn hook_engine(reg: &mut HookRegistry, base: u64) -> (r: Result<Option<usize>, HookError>)
    requires
        old(reg).wf(),
    ensures
        final(reg).wf(),
        target_of(base, CONNECT_SUBFUNC_OFFSET) is None ==> r == Err::<Option<usize>, HookError>(
            HookError::InvalidTarget,
        ),
        target_of(base, CONNECT_SUBFUNC_OFFSET) matches Some(t) ==> {
            &&& route_of(old(reg)@, t) is Replacement ==> r == Ok::<Option<usize>, HookError>(None)
                && final(reg)@ == old(reg)@
            &&& (owned(old(reg)@, t) && route_of(old(reg)@, t) is Original) ==> r == Err::<
                Option<usize>,
                HookError,
            >(HookError::AddressAlreadyOwned)
            &&& !owned(old(reg)@, t) ==> (r matches Ok(Some(id)) && id == old(reg)@.len())
                && final(reg)@ == old(reg)@.push(
                HookDescriptor { target: t, state: HookState::Enabled, call_through: true },
            )
        },
        r is Err ==> final(reg)@ == old(reg)@,
        // however often this ran, one enabled hook, and only one, takes each
        // call at the connect function
        r is Ok ==> (route_of(final(reg)@, (base + CONNECT_SUBFUNC_OFFSET) as u64) matches Route::Replacement(
            i,
        ) && (forall|j: int|
            0 <= j < final(reg)@.len() && final(reg)@[j].target == (base + CONNECT_SUBFUNC_OFFSET)
                as u64 ==> j == i)),
        r matches Ok(Some(id)) ==> route_of(final(reg)@, (base + CONNECT_SUBFUNC_OFFSET) as u64)
            == Route::Replacement(id),
{
    let target = match target_address(base, CONNECT_SUBFUNC_OFFSET) {
        Some(a) => a,
        None => return Err(HookError::InvalidTarget),
    };
    match reg.route(target) {
        Route::Replacement(i) => {
            proof {
                lemma_unique_owner(reg@, i as int);
            }
            return Ok(None);
        },
        Route::Original => {},
    }
    let id = match reg.register(target, true) {
        Ok(id) => id,
        Err(e) => return Err(e),
    };
    let _ = reg.enable(id);
    assert(reg@[id as int] == HookDescriptor { target, state: HookState::Enabled, call_through: true });
    assert(reg@ =~= old(reg)@.push(
        HookDescriptor { target, state: HookState::Enabled, call_through: true },
    ));
    proof {
        lemma_unique_owner(reg@, id as int);
    }
    Ok(Some(id))
}

} // verus!
