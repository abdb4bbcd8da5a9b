use clickcapture::app_state::{notice_message, AppState, ControlStates, Effect, MouseMessage, Notice};
use clickcapture::auto_click::AutoClickJob;
use clickcapture::geometry::{Point, Rect};
use clickcapture::hook::{HookKind, HookRequest, HookSet, record_hook};

fn p(x: i32, y: i32) -> Point {
    Point { x, y }
}

#[test]
fn fresh_state_defaults() {
    let s = AppState::new(1920, 1080);
    assert!(!s.is_area_select_mode && !s.is_capture_mode && !s.is_dragging);
    assert_eq!(s.capture_file_counter, 1);
    assert_eq!(s.capture_scale_factor, 65);
    assert_eq!(s.jpeg_quality, 95);
    assert_eq!(s.pdf_max_size_mb, 500);
    assert_eq!(s.screen_width, 1920);
    assert_eq!(s.screen_height, 1080);
    assert_eq!(s.selected_area, None);
    assert_eq!(s.get_mouse_hook(), None);
    assert_eq!(s.get_keyboard_hook(), None);
}

#[test]
fn area_selection_by_drag() {
    let mut s = AppState::new(1920, 1080);
    let e = s.start_area_select_mode(Some(p(5, 6)));
    assert_eq!(
        e,
        vec![
            Effect::InstallHooks(HookRequest { keyboard: true, mouse: true }),
            Effect::ShowAreaOverlay,
        ]
    );
    assert!(s.is_area_select_mode);
    assert_eq!(s.current_mouse_pos, p(5, 6));
    assert_eq!(s.on_area_overlay_shown(true), vec![Effect::UpdateControls, Effect::DialogToBack]);
    assert!(s.is_area_select_mode);
    record_hook(&mut s.hooks, HookKind::Keyboard, Some(11));
    record_hook(&mut s.hooks, HookKind::Mouse, Some(12));

    let down = s.on_mouse_event(true, MouseMessage::LeftDown, p(300, 200));
    assert!(down.consume);
    assert!(down.effects.is_empty());
    assert!(s.is_dragging);

    let mv = s.on_mouse_event(true, MouseMessage::Move, p(100, 400));
    assert!(!mv.consume);
    assert_eq!(mv.effects, vec![Effect::RefreshAreaOverlay]);
    assert_eq!(s.drag_end, p(100, 400));

    let up = s.on_mouse_event(true, MouseMessage::LeftUp, p(90, 410));
    assert!(up.consume);
    assert_eq!(
        up.effects,
        vec![
            Effect::HideAreaOverlay,
            Effect::ReleaseHooks(HookSet { keyboard: Some(11), mouse: Some(12) }),
            Effect::UpdateControls,
            Effect::DialogToFront,
        ]
    );
    assert_eq!(s.selected_area, Some(Rect { left: 100, top: 200, right: 300, bottom: 400 }));
    assert!(!s.is_area_select_mode && !s.is_dragging);
    assert_eq!(s.hooks, HookSet { keyboard: None, mouse: None });
    assert_eq!(s.current_mouse_pos, p(90, 410));
}

#[test]
fn area_selection_refused_when_already_on() {
    let mut s = AppState::new(800, 600);
    s.start_area_select_mode(Some(p(0, 0)));
    let e = s.start_area_select_mode(Some(p(1, 1)));
    assert_eq!(e, vec![Effect::Notify(Notice::AlreadySelectingArea)]);
    assert_eq!(s.current_mouse_pos, p(0, 0));
}

#[test]
fn area_selection_without_cursor_shows_overlay_only() {
    let mut s = AppState::new(800, 600);
    let e = s.start_area_select_mode(None);
    assert_eq!(e, vec![Effect::ShowAreaOverlay]);
    assert!(!s.is_area_select_mode);
}

#[test]
fn area_overlay_failure_restores_the_dialog() {
    let mut s = AppState::new(800, 600);
    s.start_area_select_mode(Some(p(4, 4)));
    record_hook(&mut s.hooks, HookKind::Keyboard, Some(21));
    record_hook(&mut s.hooks, HookKind::Mouse, Some(22));
    let e = s.on_area_overlay_shown(false);
    assert_eq!(
        e,
        vec![
            Effect::HideAreaOverlay,
            Effect::ReleaseHooks(HookSet { keyboard: Some(21), mouse: Some(22) }),
            Effect::UpdateControls,
            Effect::DialogToFront,
        ]
    );
    assert!(!s.is_area_select_mode && !s.is_dragging);
    assert_eq!(s.hooks, HookSet { keyboard: None, mouse: None });
    assert_eq!(s.selected_area, None);
}

#[test]
fn escape_cancels_area_selection() {
    let mut s = AppState::new(800, 600);
    s.start_area_select_mode(Some(p(0, 0)));
    s.on_mouse_event(true, MouseMessage::LeftDown, p(10, 10));
    let other = s.on_key_event(true, true, Some(65));
    assert!(!other.consume);
    let esc = s.on_key_event(true, true, Some(27));
    assert!(esc.consume);
    assert!(!s.is_area_select_mode && !s.is_dragging);
    assert_eq!(s.selected_area, None);
    let again = s.on_key_event(true, true, Some(27));
    assert!(!again.consume);
    assert!(again.effects.is_empty());
}

#[test]
fn capture_mode_needs_an_area_and_a_count() {
    let mut s = AppState::new(800, 600);
    assert_eq!(s.toggle_capture_mode(), vec![Effect::Notify(Notice::NoAreaSelected)]);
    assert!(!s.is_capture_mode);
    s.selected_area = Some(Rect { left: 0, top: 0, right: 10, bottom: 10 });
    s.apply_auto_click_checkbox(true);
    assert_eq!(s.toggle_capture_mode(), vec![Effect::Notify(Notice::AutoClickCountMissing)]);
    s.apply_auto_click_count_text(" 3 ");
    let on = s.toggle_capture_mode();
    assert_eq!(
        on,
        vec![
            Effect::InstallHooks(HookRequest { keyboard: true, mouse: true }),
            Effect::ShowCaptureOverlay,
            Effect::DialogToBack,
            Effect::UpdateControls,
        ]
    );
    assert!(s.is_capture_mode);
}

#[test]
fn clicks_in_capture_mode() {
    let mut s = AppState::new(800, 600);
    s.selected_area = Some(Rect { left: 0, top: 0, right: 10, bottom: 10 });
    s.toggle_capture_mode();
    let mv = s.on_mouse_event(true, MouseMessage::Move, p(3, 4));
    assert_eq!(mv.effects, vec![Effect::MoveCaptureOverlay]);
    let down = s.on_mouse_event(true, MouseMessage::LeftDown, p(3, 4));
    assert!(!down.consume);
    let up = s.on_mouse_event(true, MouseMessage::LeftUp, p(3, 4));
    assert!(!up.consume);
    assert_eq!(up.effects, vec![Effect::CaptureArea]);
}

#[test]
fn first_click_starts_the_clicker_and_escape_stops_it() {
    let mut s = AppState::new(800, 600);
    s.selected_area = Some(Rect { left: 0, top: 0, right: 10, bottom: 10 });
    s.apply_auto_click_checkbox(true);
    s.apply_auto_click_count_text("5");
    s.apply_interval_selection(2000);
    s.toggle_capture_mode();
    let up = s.on_mouse_event(true, MouseMessage::LeftUp, p(7, 8));
    assert!(up.consume);
    assert_eq!(
        up.effects,
        vec![Effect::StartAutoClick(AutoClickJob { position: p(7, 8), interval_ms: 2000, max_count: 5 })]
    );
    assert!(s.auto_clicker.is_running());
    // Clicks sent by the running clicker are captured.
    let next = s.on_mouse_event(true, MouseMessage::LeftUp, p(7, 8));
    assert_eq!(next.effects, vec![Effect::CaptureArea]);
    let esc = s.on_key_event(true, true, Some(27));
    assert!(esc.consume);
    assert_eq!(
        esc.effects,
        vec![
            Effect::ReleaseHooks(HookSet { keyboard: None, mouse: None }),
            Effect::HideCaptureOverlay,
            Effect::DialogToFront,
            Effect::StopAutoClick,
            Effect::UpdateControls,
        ]
    );
    assert!(!s.is_capture_mode);
    assert!(!s.auto_clicker.is_running());
}

#[test]
fn run_completion_ends_capture_mode() {
    let mut s = AppState::new(800, 600);
    assert!(s.on_auto_click_complete().is_empty());
    s.selected_area = Some(Rect { left: 0, top: 0, right: 10, bottom: 10 });
    s.toggle_capture_mode();
    let e = s.on_auto_click_complete();
    assert_eq!(e.last(), Some(&Effect::UpdateControls));
    assert!(!s.is_capture_mode);
}

#[test]
fn a_run_that_ends_by_itself_is_no_longer_running() {
    let mut s = AppState::new(800, 600);
    s.selected_area = Some(Rect { left: 0, top: 0, right: 10, bottom: 10 });
    s.apply_auto_click_checkbox(true);
    s.apply_auto_click_count_text("3");
    s.toggle_capture_mode();
    let click = s.on_mouse_event(true, MouseMessage::LeftUp, p(5, 5));
    assert!(click.consume);
    assert!(s.auto_clicker.is_running());
    let e = s.on_auto_click_complete();
    assert!(!s.auto_clicker.is_running());
    assert!(!s.is_capture_mode);
    assert!(!e.contains(&Effect::StopAutoClick));
    assert_eq!(e.last(), Some(&Effect::UpdateControls));
}

#[test]
fn invalid_hook_events_only_pass_on() {
    let mut s = AppState::new(800, 600);
    s.start_area_select_mode(Some(p(0, 0)));
    let r = s.on_mouse_event(false, MouseMessage::LeftDown, p(9, 9));
    assert!(r.consume);
    assert!(!s.is_dragging);
    assert_eq!(s.current_mouse_pos, p(0, 0));
    let k = s.on_key_event(false, true, Some(27));
    assert!(!k.consume);
    assert!(s.is_area_select_mode);
}

#[test]
fn shutdown_ends_the_active_mode() {
    let mut s = AppState::new(800, 600);
    assert_eq!(s.shutdown(), vec![Effect::EndDialog]);
    s.start_area_select_mode(Some(p(0, 0)));
    let e = s.shutdown();
    assert_eq!(e.len(), 5);
    assert_eq!(e[4], Effect::EndDialog);
    assert!(!s.is_area_select_mode);
}

#[test]
fn controls_follow_the_mode() {
    let mut s = AppState::new(800, 600);
    let idle = s.control_states();
    assert_eq!(
        idle,
        ControlStates {
            area_select_button: true,
            capture_button: true,
            browse_button: true,
            export_pdf_button: true,
            close_button: true,
            auto_click_checkbox: true,
            scale_combo: true,
            quality_combo: true,
            pdf_size_combo: true,
            auto_click_interval_combo: false,
            auto_click_count_edit: false,
        }
    );
    s.apply_auto_click_checkbox(true);
    assert!(s.control_states().auto_click_interval_combo);
    s.start_area_select_mode(Some(p(0, 0)));
    let area = s.control_states();
    assert!(area.area_select_button && area.close_button);
    assert!(!area.capture_button && !area.browse_button && !area.export_pdf_button);
    assert!(!area.auto_click_checkbox && !area.auto_click_interval_combo && !area.scale_combo);
    s.cancel_area_select_mode();
    s.set_exporting_to_pdf(true);
    let exporting = s.control_states();
    assert!(!exporting.close_button && !exporting.area_select_button && !exporting.capture_button);
}

#[test]
fn notice_texts() {
    let (text, title) = notice_message(Notice::AlreadySelectingArea);
    assert_eq!(text, "既にエリア選択モード中です");
    assert_eq!(title, "エリア選択エラー");
    let (_, title) = notice_message(Notice::NoAreaSelected);
    assert_eq!(title, "エラー - エリア未選択");
    let (text, _) = notice_message(Notice::AutoClickCountMissing);
    assert_eq!(text, "回数の値が0、もしくは未設定です。1以上の値を設定してください。");
}
