use clickcapture::hook::{install_hooks, record_hook, uninstall_hooks, HookKind, HookRequest, HookSet};

#[test]
fn install_requests_keyboard_only_when_missing() {
    let none = HookSet { keyboard: None, mouse: None };
    assert_eq!(install_hooks(&none), HookRequest { keyboard: true, mouse: true });
    let with_kb = HookSet { keyboard: Some(7), mouse: None };
    assert_eq!(install_hooks(&with_kb), HookRequest { keyboard: false, mouse: true });
    let both = HookSet { keyboard: Some(7), mouse: Some(8) };
    assert_eq!(install_hooks(&both), HookRequest { keyboard: false, mouse: true });
}

#[test]
fn uninstall_returns_handles_and_clears() {
    let mut hooks = HookSet { keyboard: Some(3), mouse: Some(4) };
    let released = uninstall_hooks(&mut hooks);
    assert_eq!(released, HookSet { keyboard: Some(3), mouse: Some(4) });
    assert_eq!(hooks, HookSet { keyboard: None, mouse: None });
    assert_eq!(uninstall_hooks(&mut hooks), HookSet { keyboard: None, mouse: None });
}

#[test]
fn record_keeps_state_on_failure() {
    let mut hooks = HookSet { keyboard: None, mouse: Some(1) };
    assert!(!record_hook(&mut hooks, HookKind::Keyboard, None));
    assert_eq!(hooks, HookSet { keyboard: None, mouse: Some(1) });
    assert!(record_hook(&mut hooks, HookKind::Keyboard, Some(9)));
    assert_eq!(hooks, HookSet { keyboard: Some(9), mouse: Some(1) });
    record_hook(&mut hooks, HookKind::Mouse, Some(10));
    assert_eq!(hooks, HookSet { keyboard: Some(9), mouse: Some(10) });
}
