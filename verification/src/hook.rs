//! Bookkeeping of the global mouse and keyboard hooks.

use vstd::prelude::*;

verus! {

/// The raw handles of the installed global hooks, if any.
#[derive(Clone, Copy, Debug, PartialEq, Eq, Structural)]
pub struct HookSet {
    pub keyboard: Option<usize>,
    pub mouse: Option<usize>,
}

/// Which hooks to install now.
#[derive(Clone, Copy, Debug, PartialEq, Eq, Structural)]
pub struct HookRequest {
    pub keyboard: bool,
    pub mouse: bool,
}

/// The kind of a global hook.
#[derive(Clone, Copy, Debug, PartialEq, Eq, Structural)]
pub enum HookKind {
    Keyboard,
    Mouse,
}

/// No hook installed.
pub open spec fn no_hooks() -> HookSet {
    HookSet { keyboard: None, mouse: None }
}

/// The hooks to install when a mode that watches the mouse and the keyboard starts: the
/// keyboard hook unless one is already in place, and the mouse hook in every case.
pub open spec fn spec_install_request(hooks: HookSet) -> HookRequest {
    HookRequest { keyboard: hooks.keyboard is None, mouse: true }
}

/// Decides which hooks to install, keyboard first and then mouse.
pub fn install_hooks(hooks: &HookSet) -> (r: HookRequest)
    ensures
        r == spec_install_request(*hooks),
{
    HookRequest { keyboard: hooks.keyboard.is_none(), mouse: true }
}

/// Forgets both hooks and returns the handles to release, keyboard first and then mouse.
pub fn uninstall_hooks(hooks: &mut HookSet) -> (released: HookSet)
    ensures
        released == *old(hooks),
        *final(hooks) == no_hooks(),
{
    let released = *hooks;
    hooks.keyboard = None;
    hooks.mouse = None;
    released
}

/// Records the outcome of installing a hook of `kind`: the new handle on success, the
/// previous state on failure. Returns whether the hook was installed; a failed keyboard
/// hook is fatal to the caller (capture and selection could not be ended by Escape).
pub fn record_hook(hooks: &mut HookSet, kind: HookKind, handle: Option<usize>) -> (installed: bool)
    ensures
        installed == handle is Some,
        handle is None ==> *final(hooks) == *old(hooks),
        handle is Some ==> *final(hooks) == (match kind {
            HookKind::Keyboard => HookSet { keyboard: handle, ..*old(hooks) },
            HookKind::Mouse => HookSet { mouse: handle, ..*old(hooks) },
        }),
{
    if handle.is_some() {
        match kind {
            HookKind::Keyboard => hooks.keyboard = handle,
            HookKind::Mouse => hooks.mouse = handle,
        }
        true
    } else {
        false
    }
}

} // verus!
