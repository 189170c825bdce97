use vstd::prelude::*;
use crate::error::HookError;

verus! {

/// Where a hook stands.
#[derive(Clone, Copy, Debug, PartialEq, Eq, Structural)]
pub enum HookState {
    Attached,
    Detached,
    /// The primitive failed to remove the hook; it may still be in place.
    Failed,
}

/// A hook installed by the inline-hook primitive on `target`; calling
/// `trampoline` runs the target's own, unhooked behaviour.
#[derive(Clone, Copy, Debug, PartialEq, Eq, Structural)]
pub struct HookHandle {
    pub target: usize,
    pub trampoline: usize,
    pub state: HookState,
}

/// The checks made before the primitive is asked to hook `target`.
pub open spec fn spec_check_attach(target: usize, detour: usize) -> Result<(), HookError> {
    if target == 0 {
        Err(HookError::NullTarget)
    } else if detour == 0 {
        Err(HookError::NullDetour)
    } else {
        Ok(())
    }
}

/// Validates an attach: `Ok` means the primitive may be asked to patch
/// `target` so that it jumps to `detour`.
pub fn check_attach(target: usize, detour: usize) -> (r: Result<(), HookError>)
    ensures
        r == spec_check_attach(target, detour),
{
    if target == 0 {
        Err(HookError::NullTarget)
    } else if detour == 0 {
        Err(HookError::NullDetour)
    } else {
        Ok(())
    }
}

/// The hook that an attach produced, given what the primitive reported:
/// `None` for a failure, else the trampoline address.
pub open spec fn spec_attach(target: usize, detour: usize, outcome: Option<usize>) -> Result<HookHandle, HookError> {
    match spec_check_attach(target, detour) {
        Err(e) => Err(e),
        Ok(()) => match outcome {
            None => Err(HookError::Primitive),
            Some(t) => if t == 0 {
                Err(HookError::Null)
            } else {
                Ok(HookHandle { target, trampoline: t, state: HookState::Attached })
            },
        },
    }
}

/// Finishes an attach with the primitive's outcome. A null trampoline on a
/// reported success is an invariant violation and gives `Null`.
pub fn attach(target: usize, detour: usize, outcome: Option<usize>) -> (r: Result<HookHandle, HookError>)
    ensures
        r == spec_attach(target, detour, outcome),
{
    match check_attach(target, detour) {
        Err(e) => Err(e),
        Ok(()) => match outcome {
            None => Err(HookError::Primitive),
            Some(t) => if t == 0 {
                Err(HookError::Null)
            } else {
                Ok(HookHandle { target, trampoline: t, state: HookState::Attached })
            },
        },
    }
}

/// What a detach of `h` hands to the primitive, or why it asks nothing.
pub open spec fn spec_begin_detach(h: HookHandle) -> Result<usize, HookError> {
    if h.target == 0 {
        Err(HookError::NullTarget)
    } else if h.state == HookState::Attached {
        Ok(h.target)
    } else {
        Err(HookError::AlreadyDetached)
    }
}

/// Whether a hook can stand behind an armed interceptor: attached, with a
/// non-null target and trampoline.
pub open spec fn usable(h: HookHandle) -> bool {
    h.state == HookState::Attached && h.target != 0 && h.trampoline != 0
}

impl HookHandle {
    /// Asks to detach: the target to hand to the primitive, or an error
    /// when it must not be asked at all: `NullTarget` for a null target,
    /// `AlreadyDetached` when the hook is not attached.
    pub fn begin_detach(&self) -> (r: Result<usize, HookError>)
        ensures
            r == spec_begin_detach(*self),
            r matches Ok(t) ==> t != 0,
    {
        if self.target == 0 {
            return Err(HookError::NullTarget);
        }
        match self.state {
            HookState::Attached => Ok(self.target),
            _ => Err(HookError::AlreadyDetached),
        }
    }

    /// Records what the primitive reported for a detach of this hook.
    pub fn finish_detach(&mut self, removed: bool) -> (r: Result<(), HookError>)
        requires
            old(self).state == HookState::Attached,
        ensures
            final(self).target == old(self).target,
            final(self).trampoline == old(self).trampoline,
            final(self).state == (if removed { HookState::Detached } else { HookState::Failed }),
            r == (if removed { Ok::<(), HookError>(()) } else { Err(HookError::Primitive) }),
    {
        if removed {
            self.state = HookState::Detached;
            Ok(())
        } else {
            self.state = HookState::Failed;
            Err(HookError::Primitive)
        }
    }
}

} // verus!
