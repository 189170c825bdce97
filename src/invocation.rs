use vstd::prelude::*;
use crate::error::HookError;
use crate::hook::{spec_begin_detach, usable, HookHandle, HookState};
use crate::symbols::Backend;
use crate::text::{occurs_in, str_contains};

verus! {

/// The states of the interceptor on the universal invocation export.
#[derive(Clone, Copy, Debug, PartialEq, Eq, Structural)]
pub enum GateState {
    Idle,
    Armed,
    Fired,
    Retired,
}

/// The one transition that invocations can cause: an Armed interceptor hit by a
/// matching invocation fires; nothing else moves.
pub open spec fn spec_fire(state: GateState, matched: bool) -> Option<GateState> {
    if state == GateState::Armed && matched {
        Some(GateState::Fired)
    } else {
        None
    }
}

/// The state to install, by compare-and-exchange against `state`, after an
/// invocation; `None` when the invocation leaves the interceptor as it is.
pub fn fire_transition(state: GateState, matched: bool) -> (r: Option<GateState>)
    ensures
        r == spec_fire(state, matched),
{
    if state == GateState::Armed && matched {
        Some(GateState::Fired)
    } else {
        None
    }
}

impl GateState {
    pub open spec fn spec_code(self) -> u8 {
        match self {
            GateState::Idle => 0,
            GateState::Armed => 1,
            GateState::Fired => 2,
            GateState::Retired => 3,
        }
    }

    /// The state as a byte, for an atomic cell.
    pub fn code(&self) -> (r: u8)
        ensures
            r == self.spec_code(),
    {
        match self {
            GateState::Idle => 0,
            GateState::Armed => 1,
            GateState::Fired => 2,
            GateState::Retired => 3,
        }
    }

    /// The state that a byte stands for; bytes that stand for none read as Idle.
    pub fn from_code(c: u8) -> (r: GateState)
        ensures
            c <= 3 ==> r.spec_code() == c,
            c > 3 ==> r == GateState::Idle,
    {
        if c == 1 {
            GateState::Armed
        } else if c == 2 {
            GateState::Fired
        } else if c == 3 {
            GateState::Retired
        } else {
            GateState::Idle
        }
    }
}

/// The trigger: the engine's scene-change or after-serialise callbacks,
/// and on the legacy dynamic-JIT backend also two early bootstrap callbacks.
pub open spec fn spec_should_fire(name: Seq<char>, is_old_mono: bool) -> bool {
    occurs_in("Internal_ActiveSceneChanged"@, name)
        || occurs_in("UnityEngine.ISerializationCallbackReceiver.OnAfterSerialize"@, name)
        || (is_old_mono && (occurs_in("Awake"@, name) || occurs_in("DoSendMouseEvents"@, name)))
}

/// Whether the invoked method's fully qualified name matches the trigger.
pub fn should_fire(name: &str, is_old_mono: bool) -> (r: bool)
    ensures
        r == spec_should_fire(name@, is_old_mono),
{
    if str_contains(name, "Internal_ActiveSceneChanged") {
        return true;
    }
    if str_contains(name, "UnityEngine.ISerializationCallbackReceiver.OnAfterSerialize") {
        return true;
    }
    is_old_mono && (str_contains(name, "Awake") || str_contains(name, "DoSendMouseEvents"))
}

/// Whether the backend is the legacy dynamic-JIT one.
pub fn is_old_mono(backend: Backend) -> (r: bool)
    ensures
        r == match backend {
            Backend::Mono { is_old } => is_old,
            Backend::Il2Cpp => false,
        },
{
    match backend {
        Backend::Mono { is_old } => is_old,
        Backend::Il2Cpp => false,
    }
}

/// The interceptor: Idle until its hook is attached, Armed while it waits for the
/// trigger, Fired once one invocation matched, Retired after it removed
/// its hook. A failed attach leaves it Idle for good.
pub struct InvocationGate {
    state: GateState,
    attach_failed: bool,
    hook: Option<HookHandle>,
}

impl InvocationGate {
    pub closed spec fn spec_state(self) -> GateState {
        self.state
    }

    pub closed spec fn spec_attach_failed(self) -> bool {
        self.attach_failed
    }

    pub closed spec fn spec_hook(self) -> Option<HookHandle> {
        self.hook
    }

    /// A hook is held exactly when the interceptor got past Idle.
    pub closed spec fn wf(self) -> bool {
        &&& (self.state == GateState::Idle) == self.hook.is_none()
        &&& self.attach_failed ==> self.state == GateState::Idle
        &&& (self.state == GateState::Armed || self.state == GateState::Fired) ==> usable(self.hook.unwrap())
        &&& self.hook is Some ==> self.hook.unwrap().target != 0
    }

    pub fn new() -> (g: InvocationGate)
        ensures
            g.wf(),
            g.spec_state() == GateState::Idle,
            !g.spec_attach_failed(),
    {
        InvocationGate { state: GateState::Idle, attach_failed: false, hook: None }
    }

    pub fn state(&self) -> (s: GateState)
        ensures
            s == self.spec_state(),
    {
        self.state
    }

    /// Idle to Armed, with the hook that the attach produced. A failed
    /// attach, or a hook that is not attached or has a null target or
    /// trampoline, keeps the interceptor Idle permanently.
    pub fn arm(&mut self, attached: Result<HookHandle, HookError>)
        requires
            old(self).wf(),
        ensures
            final(self).wf(),
            old(self).spec_state() == GateState::Idle && !old(self).spec_attach_failed() ==> match attached {
                Ok(h) => if usable(h) {
                    &&& final(self).spec_state() == GateState::Armed
                    &&& final(self).spec_hook() == Some(h)
                    &&& !final(self).spec_attach_failed()
                } else {
                    &&& final(self).spec_state() == GateState::Idle
                    &&& final(self).spec_attach_failed()
                },
                Err(_) => final(self).spec_state() == GateState::Idle && final(self).spec_attach_failed(),
            },
            !(old(self).spec_state() == GateState::Idle && !old(self).spec_attach_failed()) ==> *final(self)
                == *old(self),
    {
        if self.state != GateState::Idle || self.attach_failed {
            return ;
        }
        match attached {
            Ok(h) => {
                if h.state == HookState::Attached && h.target != 0 && h.trampoline != 0 {
                    self.state = GateState::Armed;
                    self.hook = Some(h);
                } else {
                    self.attach_failed = true;
                }
            },
            Err(_) => {
                self.attach_failed = true;
            },
        }
    }

    /// One call through the hooked export, after the trampoline ran the export's own behaviour
    /// and produced `forwarded`. The caller always gets `forwarded` back; the
    /// flag says whether this call fired the interceptor.
    pub fn on_call(&mut self, forwarded: usize, matched: bool) -> (r: (usize, bool))
        requires
            old(self).wf(),
        ensures
            final(self).wf(),
            r.0 == forwarded,
            r.1 == (spec_fire(old(self).spec_state(), matched) is Some),
            final(self).spec_state() == match spec_fire(old(self).spec_state(), matched) {
                Some(s) => s,
                None => old(self).spec_state(),
            },
            final(self).spec_hook() == old(self).spec_hook(),
            final(self).spec_attach_failed() == old(self).spec_attach_failed(),
    {
        match fire_transition(self.state, matched) {
            Some(s) => {
                self.state = s;
                (forwarded, true)
            },
            None => (forwarded, false),
        }
    }

    /// The target to unhook when retiring, if the hook is still attached.
    pub fn detach_target(&self) -> (r: Result<usize, HookError>)
        requires
            self.wf(),
        ensures
            r == match self.spec_hook() {
                Some(h) => spec_begin_detach(h),
                None => Err(HookError::AlreadyDetached),
            },
            r matches Ok(t) ==> t != 0,
    {
        match &self.hook {
            Some(h) => h.begin_detach(),
            None => Err(HookError::AlreadyDetached),
        }
    }

    /// Fired to Retired. `unhooked` is what the primitive reported for the
    /// detach, or `None` when it was not asked; a failed detach is not
    /// fatal and the interceptor retires all the same.
    pub fn retire(&mut self, unhooked: Option<bool>)
        requires
            old(self).wf(),
            old(self).spec_state() == GateState::Fired,
        ensures
            final(self).wf(),
            final(self).spec_state() == GateState::Retired,
            final(self).spec_hook() is Some,
            final(self).spec_hook().unwrap().target == old(self).spec_hook().unwrap().target,
            final(self).spec_hook().unwrap().state == match unhooked {
                Some(true) => HookState::Detached,
                _ => HookState::Failed,
            },
    {
        let mut h = self.hook.unwrap();
        let _ = h.finish_detach(unhooked == Some(true));
        self.hook = Some(h);
        self.state = GateState::Retired;
    }
}

/// The interceptor's state after a run of invocations from `state`, each given by
/// whether it matched the trigger, and how many of them fired it.
pub open spec fn spec_run(state: GateState, calls: Seq<bool>) -> (GateState, nat)
    decreases calls.len(),
{
    if calls.len() == 0 {
        (state, 0)
    } else {
        let (s, n) = spec_run(state, calls.drop_last());
        match spec_fire(s, calls.last()) {
            Some(next) => (next, n + 1),
            None => (s, n),
        }
    }
}

/// Exactly-once trigger: whatever the interleaving of invocations through
/// an Armed interceptor, the Armed to Fired transition happens exactly once if at
/// least one of them matches, and never otherwise.
pub proof fn lemma_fires_exactly_once(calls: Seq<bool>)
    ensures
        spec_run(GateState::Armed, calls).1 == (if exists|i: int| 0 <= i < calls.len() && calls[i] { 1nat } else { 0nat }),
        spec_run(GateState::Armed, calls).0 == (if exists|i: int| 0 <= i < calls.len() && calls[i] {
            GateState::Fired
        } else {
            GateState::Armed
        }),
    decreases calls.len(),
{
    if calls.len() > 0 {
        let prefix = calls.drop_last();
        lemma_fires_exactly_once(prefix);
        if exists|i: int| 0 <= i < prefix.len() && prefix[i] {
            let i = choose|i: int| 0 <= i < prefix.len() && prefix[i];
            assert(calls[i]);
        } else if calls.last() {
            assert(calls[calls.len() - 1]);
        } else {
            assert forall|i: int| 0 <= i < calls.len() implies !calls[i] by {
                if i < prefix.len() {
                    assert(prefix[i] == calls[i]);
                }
            }
        }
    }
}

/// Once fired, further invocations, matching or not, never fire again.
pub proof fn lemma_fired_stays(calls: Seq<bool>)
    ensures
        spec_run(GateState::Fired, calls) == (GateState::Fired, 0nat),
    decreases calls.len(),
{
    if calls.len() > 0 {
        lemma_fired_stays(calls.drop_last());
    }
}

} // verus!
