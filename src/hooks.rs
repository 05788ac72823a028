//! The hook registry: which absolute addresses are intercepted, in which
//! state each interception is, and where a call that reaches an address goes.

use vstd::prelude::*;

verus! {

/// Life of one interception once it has been installed.
#[derive(Clone, Copy, Debug, PartialEq, Eq, Structural)]
pub enum HookState {
    /// Patched in, but calls still run the original code.
    Installed,
    /// Calls run the replacement.
    Enabled,
    /// Was enabled once and has been switched off again.
    Disabled,
}

/// One interception: the address it owns, its state, and whether its
/// replacement forwards to the original code.
#[derive(Clone, Copy, Debug, PartialEq, Eq, Structural)]
pub struct HookDescriptor {
    pub target: u64,
    pub state: HookState,
    pub call_through: bool,
}

#[derive(Clone, Copy, Debug, PartialEq, Eq, Structural)]
pub enum HookError {
    /// The module base is null, or base plus offset leaves the address space.
    InvalidTarget,
    /// Another hook already owns the address.
    AddressAlreadyOwned,
    /// No hook has this id.
    UnknownHook,
}

/// Where a call that reaches an address is sent.
#[derive(Clone, Copy, Debug, PartialEq, Eq, Structural)]
pub enum Route {
    Original,
    Replacement(usize),
}

/// All interceptions of the process, each owning one distinct address. A
/// hook's id is its place in registration order.
pub struct HookRegistry {
    hooks: Vec<HookDescriptor>,
}

/// `base + offset`, when the base is a mapped (non-null) address and the sum
/// stays in the address space.
pub open spec fn target_of(base: u64, offset: u64) -> Option<u64> {
    if base != 0 && base + offset <= u64::MAX {
        Some((base + offset) as u64)
    } else {
        None
    }
}

/// Whether some hook of `s` owns `addr`.
pub open spec fn owned(s: Seq<HookDescriptor>, addr: u64) -> bool {
    exists|i: int| 0 <= i < s.len() && s[i].target == addr
}

/// No two hooks share an address, and none sits at the null address.
pub open spec fn distinct_targets(s: Seq<HookDescriptor>) -> bool {
    &&& forall|i: int, j: int|
        0 <= i < s.len() && 0 <= j < s.len() && i != j ==> s[i].target != s[j].target
    &&& forall|i: int| 0 <= i < s.len() ==> s[i].target != 0
}

/// Where a call at `addr` goes: to the replacement of the enabled hook that
/// owns the address, else to the original code.
pub open spec fn route_of(s: Seq<HookDescriptor>, addr: u64) -> Route {
    if exists|i: int| 0 <= i < s.len() && s[i].target == addr && s[i].state == HookState::Enabled {
        let i = choose|i: int| 0 <= i < s.len() && s[i].target == addr && s[i].state == HookState::Enabled;
        Route::Replacement(i as usize)
    } else {
        Route::Original
    }
}

/// The hooks after hook `id` has been switched to `state`.
pub open spec fn with_state(s: Seq<HookDescriptor>, id: int, state: HookState) -> Seq<HookDescriptor> {
    s.update(id, HookDescriptor { state, ..s[id] })
}

impl View for HookRegistry {
    type V = Seq<HookDescriptor>;

    closed spec fn view(&self) -> Seq<HookDescriptor> {
        self.hooks@
    }
}

/// Computes the absolute address of a function at `offset` in a module mapped
/// at `base`.
pub fn target_address(base: u64, offset: u64) -> (r: Option<u64>)
    ensures
        r == target_of(base, offset),
{
    if base != 0 && offset <= u64::MAX - base {
        Some(base + offset)
    } else {
        None
    }
}

impl HookRegistry {
    pub open spec fn wf(&self) -> bool {
        distinct_targets(self@)
    }

    pub fn new() -> (r: HookRegistry)
        ensures
            r@ == Seq::<HookDescriptor>::empty(),
            r.wf(),
    {
        HookRegistry { hooks: Vec::new() }
    }

    pub fn len(&self) -> (r: usize)
        ensures
            r == self@.len(),
    {
        self.hooks.len()
    }

    /// The hook with id `id`, if there is one.
    pub fn get(&self, id: usize) -> (r: Option<HookDescriptor>)
        ensures
            id < self@.len() ==> r == Some(self@[id as int]),
            id >= self@.len() ==> r is None,
    {
        if id < self.hooks.len() {
            Some(self.hooks[id])
        } else {
            None
        }
    }

    /// The id of the hook that owns `addr`, if any.
    pub fn owner_of(&self, addr: u64) -> (r: Option<usize>)
        ensures
            r matches Some(i) ==> i < self@.len() && self@[i as int].target == addr,
            r is None <==> !owned(self@, addr),
    {
        let mut i: usize = 0;
        while i < self.hooks.len()
            invariant
                0 <= i <= self@.len(),
                forall|k: int| 0 <= k < i ==> self@[k].target != addr,
            decreases self@.len() - i,
        {
            if self.hooks[i].target == addr {
                return Some(i);
            }
            i = i + 1;
        }
        None
    }

    /// Takes ownership of `target` for a new hook, installed and not yet
    /// enabled, and returns its id. An address has at most one hook: a second
    /// need for the same event has to be met at another call site.
    pub fn register(&mut self, target: u64, call_through: bool) -> (r: Result<usize, HookError>)
        requires
            old(self).wf(),
        ensures
            final(self).wf(),
            target == 0 ==> r == Err::<usize, HookError>(HookError::InvalidTarget),
            target != 0 && owned(old(self)@, target) ==> r == Err::<usize, HookError>(
                HookError::AddressAlreadyOwned,
            ),
            r is Err ==> final(self)@ == old(self)@,
            target != 0 && !owned(old(self)@, target) ==> {
                &&& r matches Ok(id) && id == old(self)@.len()
                &&& final(self)@ == old(self)@.push(
                    HookDescriptor { target, state: HookState::Installed, call_through },
                )
            },
    {
        if target == 0 {
            return Err(HookError::InvalidTarget);
        }
        match self.owner_of(target) {
            Some(_) => Err(HookError::AddressAlreadyOwned),
            None => {
                let id = self.hooks.len();
                self.hooks.push(HookDescriptor { target, state: HookState::Installed, call_through });
                proof {
                    let s = self@;
                    assert forall|i: int, j: int|
                        0 <= i < s.len() && 0 <= j < s.len() && i != j implies s[i].target
                        != s[j].target by {
                        if i == id as int {
                            assert(old(self)@[j].target != target);
                        } else if j == id as int {
                            assert(old(self)@[i].target != target);
                        }
                    }
                }
                Ok(id)
            },
        }
    }

    /// Switches hook `id` on. Enabling a hook that is on already changes
    /// nothing.
    pub fn enable(&mut self, id: usize) -> (r: Result<(), HookError>)
        requires
            old(self).wf(),
        ensures
            final(self).wf(),
            id >= old(self)@.len() <==> r == Err::<(), HookError>(HookError::UnknownHook),
            id >= old(self)@.len() ==> final(self)@ == old(self)@,
            id < old(self)@.len() ==> final(self)@ == with_state(
                old(self)@,
                id as int,
                HookState::Enabled,
            ),
    {
        self.set_state(id, HookState::Enabled)
    }

    /// Switches hook `id` off; calls run the original code again.
    pub fn disable(&mut self, id: usize) -> (r: Result<(), HookError>)
        requires
            old(self).wf(),
        ensures
            final(self).wf(),
            id >= old(self)@.len() <==> r == Err::<(), HookError>(HookError::UnknownHook),
            id >= old(self)@.len() ==> final(self)@ == old(self)@,
            id < old(self)@.len() ==> final(self)@ == with_state(
                old(self)@,
                id as int,
                HookState::Disabled,
            ),
    {
        self.set_state(id, HookState::Disabled)
    }

    fn set_state(&mut self, id: usize, state: HookState) -> (r: Result<(), HookError>)
        requires
            old(self).wf(),
        ensures
            final(self).wf(),
            id >= old(self)@.len() <==> r == Err::<(), HookError>(HookError::UnknownHook),
            id >= old(self)@.len() ==> final(self)@ == old(self)@,
            id < old(self)@.len() ==> final(self)@ == with_state(old(self)@, id as int, state),
    {
        if id >= self.hooks.len() {
            return Err(HookError::UnknownHook);
        }
        let h = self.hooks[id];
        self.hooks.set(id, HookDescriptor { state, ..h });
        assert(self@ =~= with_state(old(self)@, id as int, state));
        Ok(())
    }

    /// Whether hook `id` exists and is enabled.
    pub fn is_enabled(&self, id: usize) -> (r: bool)
        ensures
            r == (id < self@.len() && self@[id as int].state == HookState::Enabled),
    {
        id < self.hooks.len() && self.hooks[id].state == HookState::Enabled
    }

    /// Where a call that reaches `addr` goes.
    pub fn route(&self, addr: u64) -> (r: Route)
        requires
            self.wf(),
        ensures
            r == route_of(self@, addr),
            r matches Route::Replacement(i) ==> i < self@.len() && self@[i as int].target == addr,
    {
        match self.owner_of(addr) {
            Some(i) => {
                proof {
                    lemma_unique_owner(self@, i as int);
                }
                if self.hooks[i].state == HookState::Enabled {
                    Route::Replacement(i)
                } else {
                    Route::Original
                }
            },
            None => Route::Original,
        }
    }

    /// Runs one call that reaches `addr` with `args`. When an enabled hook
    /// owns the address its id is appended to `calls`, once, and the result
    /// comes from the original code if the hook calls through, else from
    /// `replacement`. With no enabled hook there the original runs alone.
    pub fn invoke<A, R, F: Fn(A) -> R, G: Fn(A) -> R>(
        &self,
        addr: u64,
        original: &F,
        replacement: &G,
        args: A,
        calls: &mut Vec<usize>,
    ) -> (r: R)
        requires
            self.wf(),
            original.requires((args,)),
            replacement.requires((args,)),
        ensures
            route_of(self@, addr) == Route::Original ==> {
                &&& original.ensures((args,), r)
                &&& final(calls)@ == old(calls)@
            },
            route_of(self@, addr) matches Route::Replacement(i) ==> {
                &&& final(calls)@ == old(calls)@.push(i)
                &&& self@[i as int].call_through ==> original.ensures((args,), r)
                &&& !self@[i as int].call_through ==> replacement.ensures((args,), r)
            },
    {
        match self.route(addr) {
            Route::Original => original(args),
            Route::Replacement(i) => {
                calls.push(i);
                if self.hooks[i].call_through {
                    original(args)
                } else {
                    replacement(args)
                }
            },
        }
    }
}

/// With distinct targets, hook `i` is the only one at its address, and a
/// call there goes to its replacement exactly when it is enabled.
pub proof fn lemma_unique_owner(s: Seq<HookDescriptor>, i: int)
    requires
        distinct_targets(s),
        0 <= i < s.len(),
    ensures
        forall|j: int| 0 <= j < s.len() && s[j].target == s[i].target ==> j == i,
        route_of(s, s[i].target) == if s[i].state == HookState::Enabled {
            Route::Replacement(i as usize)
        } else {
            Route::Original
        },
{
}

/// Once a hook is enabled, every call that reaches its address goes to that
/// hook's replacement and to no other: one event, one replacement call.
pub proof fn lemma_enabled_hook_fires_once(reg: &HookRegistry, id: int)
    requires
        reg.wf(),
        0 <= id < reg@.len(),
        reg@[id].state == HookState::Enabled,
    ensures
        route_of(reg@, reg@[id].target) == Route::Replacement(id as usize),
        forall|j: int| 0 <= j < reg@.len() && j != id ==> reg@[j].target != reg@[id].target,
{
    lemma_unique_owner(reg@, id);
}

/// Enabling a hook a second time leaves the hooks as one enabling did.
pub proof fn lemma_enable_idempotent(s: Seq<HookDescriptor>, id: int)
    requires
        0 <= id < s.len(),
    ensures
        with_state(with_state(s, id, HookState::Enabled), id, HookState::Enabled) == with_state(
            s,
            id,
            HookState::Enabled,
        ),
{
    assert(with_state(with_state(s, id, HookState::Enabled), id, HookState::Enabled) =~= with_state(
        s,
        id,
        HookState::Enabled,
    ));
}

} // verus!
