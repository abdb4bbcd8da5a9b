//! The application state and the decisions taken on each user or system event.
//!
//! Every event handler updates the state and returns, in order, the side effects
//! (windows to show or hide, hooks to install or release, messages to display) that
//! the caller carries out.

use vstd::prelude::*;

use crate::auto_click::{AutoClickJob, AutoClicker};
use crate::geometry::{normalized_rect, spanned_rect, Point, Rect};
use crate::hook::{install_hooks, no_hooks, spec_install_request, uninstall_hooks, HookRequest, HookSet};

verus! {

/// Default capture scale, in percent.
pub const DEFAULT_SCALE_PERCENT: u8 = 65;
/// Default JPEG quality, in percent.
pub const DEFAULT_JPEG_QUALITY: u8 = 95;
/// Default PDF size limit, in megabytes.
pub const DEFAULT_PDF_MAX_SIZE_MB: u16 = 500;

/// A message the user has to acknowledge.
#[derive(Clone, Copy, Debug, PartialEq, Eq, Structural)]
pub enum Notice {
    /// Area selection was asked for while it is already on.
    AlreadySelectingArea,
    /// Capture mode was asked for before any area was selected.
    NoAreaSelected,
    /// Capture mode was asked for with automatic clicking on and no click count.
    AutoClickCountMissing,
}

/// A side effect the caller carries out, in the order given.
#[derive(Clone, Copy, Debug, PartialEq, Eq, Structural)]
pub enum Effect {
    /// Show a message box.
    Notify(Notice),
    /// Install the hooks requested; record each handle obtained.
    InstallHooks(HookRequest),
    /// Release these hook handles.
    ReleaseHooks(HookSet),
    ShowAreaOverlay,
    HideAreaOverlay,
    RefreshAreaOverlay,
    ShowCaptureOverlay,
    HideCaptureOverlay,
    /// Move the capture-mode overlay next to the cursor.
    MoveCaptureOverlay,
    /// Enable and disable the dialog's controls as `control_states` says.
    UpdateControls,
    /// Minimize the dialog.
    DialogToBack,
    /// Restore the dialog and bring it to the front.
    DialogToFront,
    /// Run the automatic clicker with this job in the background.
    StartAutoClick(AutoClickJob),
    /// Signal the background clicker to stop and wait for it.
    StopAutoClick,
    /// Capture the selected area now.
    CaptureArea,
    /// Close the dialog.
    EndDialog,
}

/// The mouse messages the global mouse hook tells apart.
#[derive(Clone, Copy, Debug, PartialEq, Eq, Structural)]
pub enum MouseMessage {
    Move,
    LeftDown,
    LeftUp,
    Other,
}

/// What a hook callback does with an event: whether it swallows it, and the side effects.
#[derive(Debug)]
pub struct HookResponse {
    pub consume: bool,
    pub effects: Vec<Effect>,
}

/// The state of the application.
#[derive(Debug)]
pub struct AppState {
    /// The installed global hooks.
    pub hooks: HookSet,
    /// Area selection mode: a drag on the screen selects the capture area.
    pub is_area_select_mode: bool,
    /// Capture mode: a left click saves the selected area.
    pub is_capture_mode: bool,
    /// A selection drag is in progress.
    pub is_dragging: bool,
    pub drag_start: Point,
    pub drag_end: Point,
    /// The last cursor position the mouse hook reported.
    pub current_mouse_pos: Point,
    /// The area to capture, once selected.
    pub selected_area: Option<Rect>,
    /// The folder captures are saved in.
    pub selected_folder_path: Option<String>,
    /// Number of the next capture file.
    pub capture_file_counter: u32,
    pub screen_width: i32,
    pub screen_height: i32,
    /// Whether the capture-mode overlay shows the "processing" picture.
    pub capture_overlay_is_processing: bool,
    /// Scale of saved captures, in percent.
    pub capture_scale_factor: u8,
    /// JPEG quality of saved captures, in percent.
    pub jpeg_quality: u8,
    /// Size limit of one exported PDF file, in megabytes.
    pub pdf_max_size_mb: u16,
    /// A PDF export is under way.
    pub is_exporting_to_pdf: bool,
    pub auto_clicker: AutoClicker,
}

impl AppState {
    /// The consistency the event handlers keep: a drag only happens while selecting an
    /// area, the two modes exclude each other, capture mode has an area to capture,
    /// and a selected area has its edges in order.
    pub open spec fn inv(self) -> bool {
        &&& self.is_dragging ==> self.is_area_select_mode
        &&& !(self.is_area_select_mode && self.is_capture_mode)
        &&& self.is_capture_mode ==> self.selected_area is Some
        &&& self.selected_area matches Some(r) ==> r.is_normalized()
    }

    /// Neither mode is on.
    pub open spec fn is_idle(self) -> bool {
        !self.is_area_select_mode && !self.is_capture_mode
    }

    /// A fresh state for a screen of the given size: no mode, no area, no folder, file
    /// counter at one, scale 65 %, quality 95 %, PDF limit 500 MB, clicker off.
    pub fn new(screen_width: i32, screen_height: i32) -> (r: AppState)
        ensures
            r.hooks == no_hooks(),
            !r.is_area_select_mode,
            !r.is_capture_mode,
            !r.is_dragging,
            r.drag_start == (Point { x: 0, y: 0 }),
            r.drag_end == (Point { x: 0, y: 0 }),
            r.current_mouse_pos == (Point { x: 0, y: 0 }),
            r.selected_area is None,
            r.selected_folder_path is None,
            r.capture_file_counter == 1,
            r.screen_width == screen_width,
            r.screen_height == screen_height,
            !r.capture_overlay_is_processing,
            r.capture_scale_factor == DEFAULT_SCALE_PERCENT,
            r.jpeg_quality == DEFAULT_JPEG_QUALITY,
            r.pdf_max_size_mb == DEFAULT_PDF_MAX_SIZE_MB,
            !r.is_exporting_to_pdf,
            r.auto_clicker == (AutoClicker {
                enabled: false,
                interval_ms: 1000,
                progress_count: 0,
                max_count: 0,
                running: false,
            }),
            r.inv(),
    {
        AppState {
            hooks: HookSet { keyboard: None, mouse: None },
            is_area_select_mode: false,
            is_capture_mode: false,
            is_dragging: false,
            drag_start: Point { x: 0, y: 0 },
            drag_end: Point { x: 0, y: 0 },
            current_mouse_pos: Point { x: 0, y: 0 },
            selected_area: None,
            selected_folder_path: None,
            capture_file_counter: 1,
            screen_width,
            screen_height,
            capture_overlay_is_processing: false,
            capture_scale_factor: DEFAULT_SCALE_PERCENT,
            jpeg_quality: DEFAULT_JPEG_QUALITY,
            pdf_max_size_mb: DEFAULT_PDF_MAX_SIZE_MB,
            is_exporting_to_pdf: false,
            auto_clicker: AutoClicker::new(),
        }
    }

    /// The handle of the mouse hook, if installed.
    pub fn get_mouse_hook(&self) -> (r: Option<usize>)
        ensures
            r == self.hooks.mouse,
    {
        self.hooks.mouse
    }

    /// The handle of the keyboard hook, if installed.
    pub fn get_keyboard_hook(&self) -> (r: Option<usize>)
        ensures
            r == self.hooks.keyboard,
    {
        self.hooks.keyboard
    }

    // ----- area selection -----

    /// The state after area selection ends, whether completed or cancelled.
    pub open spec fn spec_cancel_area_select(self) -> AppState {
        AppState { is_area_select_mode: false, is_dragging: false, hooks: no_hooks(), ..self }
    }

    /// The side effects of ending area selection.
    pub open spec fn cancel_area_select_effects(self) -> Seq<Effect> {
        seq![
            Effect::HideAreaOverlay,
            Effect::ReleaseHooks(self.hooks),
            Effect::UpdateControls,
            Effect::DialogToFront,
        ]
    }

    /// Ends area selection: leaves the mode and any drag, hides the overlay, releases the
    /// hooks, updates the controls and brings the dialog back.
    pub fn cancel_area_select_mode(&mut self) -> (r: Vec<Effect>)
        ensures
            *final(self) == old(self).spec_cancel_area_select(),
            r@ == old(self).cancel_area_select_effects(),
    {
        self.is_area_select_mode = false;
        if self.is_dragging {
            self.is_dragging = false;
        }
        let released = uninstall_hooks(&mut self.hooks);
        let mut r = Vec::new();
        r.push(Effect::HideAreaOverlay);
        r.push(Effect::ReleaseHooks(released));
        r.push(Effect::UpdateControls);
        r.push(Effect::DialogToFront);
        assert(r@ =~= old(self).cancel_area_select_effects());
        r
    }

    /// The state after a drag completes: the spanned rectangle becomes the selected area,
    /// and area selection ends.
    pub open spec fn spec_end_area_select(self) -> AppState {
        AppState {
            selected_area: Some(spanned_rect(self.drag_start, self.drag_end)),
            ..self
        }.spec_cancel_area_select()
    }

    /// Completes area selection with the rectangle spanned by the drag.
    pub fn end_area_select_mode(&mut self) -> (r: Vec<Effect>)
        ensures
            *final(self) == old(self).spec_end_area_select(),
            r@ == old(self).cancel_area_select_effects(),
    {
        let rect = normalized_rect(self.drag_start, self.drag_end);
        self.selected_area = Some(rect);
        self.cancel_area_select_mode()
    }

    /// The state after the area selection button is pressed, with the cursor position if
    /// it could be read.
    pub open spec fn spec_start_area_select(self, cursor: Option<Point>) -> AppState {
        if self.is_area_select_mode {
            self
        } else {
            match cursor {
                Some(p) => AppState { is_area_select_mode: true, current_mouse_pos: p, ..self },
                None => self,
            }
        }
    }

    /// The side effects of pressing the area selection button.
    pub open spec fn start_area_select_effects(self, cursor: Option<Point>) -> Seq<Effect> {
        if self.is_area_select_mode {
            seq![Effect::Notify(Notice::AlreadySelectingArea)]
        } else {
            let install = if cursor is Some {
                seq![Effect::InstallHooks(spec_install_request(self.hooks))]
            } else {
                Seq::empty()
            };
            install + seq![Effect::ShowAreaOverlay]
        }
    }

    /// Starts area selection. Refused with a notice when it is already on. The mode is
    /// entered, and the hooks installed, only if the cursor position could be read; the
    /// overlay is shown in either case, and the caller then reports with
    /// `on_area_overlay_shown` whether that worked.
    pub fn start_area_select_mode(&mut self, cursor: Option<Point>) -> (r: Vec<Effect>)
        ensures
            *final(self) == old(self).spec_start_area_select(cursor),
            r@ == old(self).start_area_select_effects(cursor),
    {
        let mut r = Vec::new();
        if self.is_area_select_mode {
            r.push(Effect::Notify(Notice::AlreadySelectingArea));
            assert(r@ =~= old(self).start_area_select_effects(cursor));
            return r;
        }
        if let Some(p) = cursor {
            self.is_area_select_mode = true;
            self.current_mouse_pos = p;
            r.push(Effect::InstallHooks(install_hooks(&self.hooks)));
        }
        r.push(Effect::ShowAreaOverlay);
        assert(r@ =~= old(self).start_area_select_effects(cursor));
        r
    }

    /// The state after the area selection overlay was shown, or failed to show.
    pub open spec fn spec_area_overlay_shown(self, shown: bool) -> AppState {
        if shown {
            self
        } else {
            self.spec_cancel_area_select()
        }
    }

    /// The side effects after the area selection overlay was shown, or failed to show.
    pub open spec fn area_overlay_shown_effects(self, shown: bool) -> Seq<Effect> {
        if shown {
            seq![Effect::UpdateControls, Effect::DialogToBack]
        } else {
            self.cancel_area_select_effects()
        }
    }

    /// Completes the start of area selection once the overlay was shown: the controls are
    /// updated and the dialog minimized. When the overlay could not be shown, area selection
    /// is cancelled instead: mode and hooks released, overlay hidden, controls updated, and
    /// the dialog restored.
    pub fn on_area_overlay_shown(&mut self, shown: bool) -> (r: Vec<Effect>)
        ensures
            *final(self) == old(self).spec_area_overlay_shown(shown),
            r@ == old(self).area_overlay_shown_effects(shown),
    {
        if shown {
            let mut r = Vec::new();
            r.push(Effect::UpdateControls);
            r.push(Effect::DialogToBack);
            assert(r@ =~= old(self).area_overlay_shown_effects(shown));
            r
        } else {
            self.cancel_area_select_mode()
        }
    }

    // ----- capture mode -----

    /// Whether capture mode may start: an area is selected, and automatic clicking, if on,
    /// has a click count.
    pub open spec fn can_start_capture(self) -> bool {
        self.selected_area is Some && !(self.auto_clicker.enabled && self.auto_clicker.max_count
            == 0)
    }

    /// The state after the capture button is pressed (or capture mode is ended otherwise).
    pub open spec fn spec_toggle_capture(self) -> AppState {
        if self.is_capture_mode {
            AppState {
                is_capture_mode: false,
                hooks: no_hooks(),
                auto_clicker: AutoClicker { running: false, ..self.auto_clicker },
                ..self
            }
        } else if !self.can_start_capture() {
            self
        } else {
            AppState { is_capture_mode: true, ..self }
        }
    }

    /// The side effects of pressing the capture button.
    pub open spec fn toggle_capture_effects(self) -> Seq<Effect> {
        if self.is_capture_mode {
            seq![Effect::ReleaseHooks(self.hooks), Effect::HideCaptureOverlay, Effect::DialogToFront]
                + (if self.auto_clicker.running {
                seq![Effect::StopAutoClick]
            } else {
                Seq::empty()
            }) + seq![Effect::UpdateControls]
        } else if self.selected_area is None {
            seq![Effect::Notify(Notice::NoAreaSelected)]
        } else if self.auto_clicker.enabled && self.auto_clicker.max_count == 0 {
            seq![Effect::Notify(Notice::AutoClickCountMissing)]
        } else {
            seq![
                Effect::InstallHooks(spec_install_request(self.hooks)),
                Effect::ShowCaptureOverlay,
                Effect::DialogToBack,
                Effect::UpdateControls,
            ]
        }
    }

    /// Switches capture mode on or off.
    ///
    /// Off: releases the hooks, hides the overlay, brings the dialog back and stops a
    /// running clicker. On: refused with a notice when no area is selected, or when
    /// automatic clicking is on with a count of zero; otherwise installs the hooks, shows
    /// the overlay and minimizes the dialog. The controls are updated unless refused.
    pub fn toggle_capture_mode(&mut self) -> (r: Vec<Effect>)
        ensures
            *final(self) == old(self).spec_toggle_capture(),
            r@ == old(self).toggle_capture_effects(),
    {
        let mut r = Vec::new();
        if self.is_capture_mode {
            self.is_capture_mode = false;
            let released = uninstall_hooks(&mut self.hooks);
            r.push(Effect::ReleaseHooks(released));
            r.push(Effect::HideCaptureOverlay);
            r.push(Effect::DialogToFront);
            if self.auto_clicker.is_running() {
                self.auto_clicker.stop();
                r.push(Effect::StopAutoClick);
            }
        } else {
            if self.selected_area.is_none() {
                r.push(Effect::Notify(Notice::NoAreaSelected));
                assert(r@ =~= old(self).toggle_capture_effects());
                return r;
            }
            if self.auto_clicker.is_enabled() && self.auto_clicker.get_max_count() == 0 {
                r.push(Effect::Notify(Notice::AutoClickCountMissing));
                assert(r@ =~= old(self).toggle_capture_effects());
                return r;
            }
            self.is_capture_mode = true;
            r.push(Effect::InstallHooks(install_hooks(&self.hooks)));
            r.push(Effect::ShowCaptureOverlay);
            r.push(Effect::DialogToBack);
        }
        r.push(Effect::UpdateControls);
        assert(r@ =~= old(self).toggle_capture_effects());
        r
    }

    // ----- global hooks -----

    /// The state, side effects and consumption decided for a mouse event reported at
    /// `pos` (`valid` is false when the hook must only pass the event on).
    pub open spec fn spec_mouse_event(self, valid: bool, msg: MouseMessage, pos: Point) -> (
        AppState,
        Seq<Effect>,
        bool,
    ) {
        let press = msg == MouseMessage::LeftDown || msg == MouseMessage::LeftUp;
        if !valid {
            (self, Seq::empty(), self.is_area_select_mode && press)
        } else {
            let s = AppState { current_mouse_pos: pos, ..self };
            match msg {
                MouseMessage::Move => {
                    let follow = if s.is_capture_mode {
                        seq![Effect::MoveCaptureOverlay]
                    } else {
                        Seq::empty()
                    };
                    if s.is_area_select_mode && s.is_dragging {
                        (
                            AppState { drag_end: pos, ..s },
                            follow + seq![Effect::RefreshAreaOverlay],
                            false,
                        )
                    } else {
                        (s, follow, false)
                    }
                },
                MouseMessage::LeftDown => {
                    if s.is_area_select_mode {
                        (
                            AppState { drag_start: pos, drag_end: pos, is_dragging: true, ..s },
                            Seq::empty(),
                            true,
                        )
                    } else {
                        (s, Seq::empty(), false)
                    }
                },
                MouseMessage::LeftUp => {
                    if s.is_area_select_mode && s.is_dragging {
                        (s.spec_end_area_select(), s.cancel_area_select_effects(), true)
                    } else if s.is_capture_mode && s.auto_clicker.enabled
                        && !s.auto_clicker.running {
                        (
                            AppState { auto_clicker: s.auto_clicker.spec_started(), ..s },
                            seq![
                                Effect::StartAutoClick(
                                    AutoClickJob {
                                        position: pos,
                                        interval_ms: s.auto_clicker.interval_ms,
                                        max_count: s.auto_clicker.max_count,
                                    },
                                ),
                            ],
                            true,
                        )
                    } else if s.is_capture_mode {
                        (s, seq![Effect::CaptureArea], s.is_area_select_mode)
                    } else {
                        (s, Seq::empty(), s.is_area_select_mode)
                    }
                },
                MouseMessage::Other => (s, Seq::empty(), false),
            }
        }
    }

    /// Handles an event of the global mouse hook.
    ///
    /// The cursor position is recorded. A move drags the capture-mode overlay along and
    /// extends a selection drag; a left press starts a selection drag in area selection
    /// mode; a left release completes the drag, or in capture mode starts the automatic
    /// clicker (when switched on and idle) or captures the area. Presses and releases are
    /// swallowed while area selection is on (the release that completes the drag
    /// included), as is the click that starts the clicker.
    pub fn on_mouse_event(&mut self, valid: bool, msg: MouseMessage, pos: Point) -> (r:
        HookResponse)
        ensures
            (*final(self), r.effects@, r.consume) == old(self).spec_mouse_event(valid, msg, pos),
    {
        let press = msg == MouseMessage::LeftDown || msg == MouseMessage::LeftUp;
        if !valid {
            return HookResponse { consume: self.is_area_select_mode && press, effects: Vec::new() };
        }
        self.current_mouse_pos = pos;
        let mut effects = Vec::new();
        match msg {
            MouseMessage::Move => {
                if self.is_capture_mode {
                    effects.push(Effect::MoveCaptureOverlay);
                }
                if self.is_area_select_mode && self.is_dragging {
                    self.drag_end = pos;
                    effects.push(Effect::RefreshAreaOverlay);
                }
            },
            MouseMessage::LeftDown => {
                if self.is_area_select_mode {
                    self.drag_start = pos;
                    self.drag_end = pos;
                    self.is_dragging = true;
                    return HookResponse { consume: true, effects };
                }
            },
            MouseMessage::LeftUp => {
                if self.is_area_select_mode && self.is_dragging {
                    effects = self.end_area_select_mode();
                    return HookResponse { consume: true, effects };
                } else if self.is_capture_mode {
                    if self.auto_clicker.is_enabled() && !self.auto_clicker.is_running() {
                        match self.auto_clicker.start(pos) {
                            Ok(job) => effects.push(Effect::StartAutoClick(job)),
                            Err(_) => {},
                        }
                        return HookResponse { consume: true, effects };
                    }
                    effects.push(Effect::CaptureArea);
                }
            },
            MouseMessage::Other => {},
        }
        let consume = self.is_area_select_mode && press;
        proof {
            let (s2, e2, c2) = old(self).spec_mouse_event(valid, msg, pos);
            assert(effects@ =~= e2);
        }
        HookResponse { consume, effects }
    }

    /// The state, side effects and consumption decided for a keyboard event: a valid
    /// key-down of Escape ends capture mode and area selection.
    pub open spec fn spec_key_event(self, valid: bool, key_down: bool, vk: Option<u32>) -> (
        AppState,
        Seq<Effect>,
        bool,
    ) {
        if valid && key_down && vk == Some(27u32) {
            let s1 = if self.is_capture_mode {
                self.spec_toggle_capture()
            } else {
                self
            };
            let e1 = if self.is_capture_mode {
                self.toggle_capture_effects()
            } else {
                Seq::empty()
            };
            let s2 = if s1.is_area_select_mode {
                s1.spec_cancel_area_select()
            } else {
                s1
            };
            let e2 = if s1.is_area_select_mode {
                s1.cancel_area_select_effects()
            } else {
                Seq::empty()
            };
            (s2, e1 + e2, self.is_capture_mode || s1.is_area_select_mode)
        } else {
            (self, Seq::empty(), false)
        }
    }

    /// Handles an event of the global keyboard hook (`vk` is the virtual key code, when
    /// the event carries one): Escape ends capture mode and area selection, and is then
    /// swallowed.
    pub fn on_key_event(&mut self, valid: bool, key_down: bool, vk: Option<u32>) -> (r:
        HookResponse)
        ensures
            (*final(self), r.effects@, r.consume) == old(self).spec_key_event(valid, key_down, vk),
    {
        let mut effects = Vec::new();
        if !(valid && key_down) {
            return HookResponse { consume: false, effects };
        }
        let code = match vk {
            Some(c) => c,
            None => {
                return HookResponse { consume: false, effects };
            },
        };
        let mut handled = false;
        if code == 27 && self.is_capture_mode {
            effects = self.toggle_capture_mode();
            handled = true;
        }
        if code == 27 && self.is_area_select_mode {
            let mut more = self.cancel_area_select_mode();
            effects.append(&mut more);
            handled = true;
        }
        proof {
            let (s2, e2, c2) = old(self).spec_key_event(valid, key_down, vk);
            assert(effects@ =~= e2);
        }
        HookResponse { consume: handled, effects }
    }

    /// The state after the background clicker reports the end of its run: no run is under
    /// way any more, and capture mode, if still on, ends.
    pub open spec fn spec_auto_click_complete(self) -> AppState {
        let s = self.spec_run_ended();
        if s.is_capture_mode {
            s.spec_toggle_capture()
        } else {
            s
        }
    }

    /// The state once the background run has ended: the clicker is no longer running.
    pub open spec fn spec_run_ended(self) -> AppState {
        AppState { auto_clicker: AutoClicker { running: false, ..self.auto_clicker }, ..self }
    }

    /// Handles the end of an automatic click run (the caller has already waited for the
    /// finished background thread): the clicker is marked as no longer running, and
    /// capture mode, if still on, ends; there is no run left to stop.
    pub fn on_auto_click_complete(&mut self) -> (r: Vec<Effect>)
        ensures
            *final(self) == old(self).spec_auto_click_complete(),
            !final(self).auto_clicker.running,
            r@ == (if old(self).is_capture_mode {
                old(self).spec_run_ended().toggle_capture_effects()
            } else {
                Seq::empty()
            }),
    {
        self.auto_clicker.stop();
        if self.is_capture_mode {
            self.toggle_capture_mode()
        } else {
            Vec::new()
        }
    }

    /// The state after the dialog is asked to close.
    pub open spec fn spec_shutdown(self) -> AppState {
        if self.is_capture_mode {
            self.spec_toggle_capture()
        } else if self.is_area_select_mode {
            self.spec_cancel_area_select()
        } else {
            self
        }
    }

    /// Handles the close button or the window's close request: ends capture mode, or else
    /// area selection, then closes the dialog.
    pub fn shutdown(&mut self) -> (r: Vec<Effect>)
        ensures
            *final(self) == old(self).spec_shutdown(),
            r@ == (if old(self).is_capture_mode {
                old(self).toggle_capture_effects()
            } else if old(self).is_area_select_mode {
                old(self).cancel_area_select_effects()
            } else {
                Seq::empty()
            }).push(Effect::EndDialog),
    {
        let mut r = if self.is_capture_mode {
            self.toggle_capture_mode()
        } else if self.is_area_select_mode {
            self.cancel_area_select_mode()
        } else {
            Vec::new()
        };
        r.push(Effect::EndDialog);
        r
    }

    // ----- dialog controls -----

    /// Which controls of the dialog are enabled in this state.
    pub open spec fn spec_control_states(self) -> ControlStates {
        let (area, capture, browse, pdf, close, auto, combos) = if self.is_area_select_mode {
            (true, false, false, false, true, false, false)
        } else if self.is_capture_mode {
            (false, true, false, false, true, false, false)
        } else if self.is_exporting_to_pdf {
            (false, false, false, false, false, false, false)
        } else {
            (true, true, true, true, true, true, true)
        };
        ControlStates {
            area_select_button: area,
            capture_button: capture,
            browse_button: browse,
            export_pdf_button: pdf,
            close_button: close,
            auto_click_checkbox: auto,
            scale_combo: combos,
            quality_combo: combos,
            pdf_size_combo: combos,
            auto_click_interval_combo: auto && self.auto_clicker.enabled,
            auto_click_count_edit: auto && self.auto_clicker.enabled,
        }
    }

    /// Which controls of the dialog are enabled: during area selection only its button and
    /// Close; in capture mode only its button and Close; during a PDF export none; otherwise
    /// all, the clicker's interval and count only while the clicker is switched on.
    pub fn control_states(&self) -> (r: ControlStates)
        ensures
            r == self.spec_control_states(),
    {
        let (area, capture, browse, pdf, close, auto, combos) = if self.is_area_select_mode {
            (true, false, false, false, true, false, false)
        } else if self.is_capture_mode {
            (false, true, false, false, true, false, false)
        } else if self.is_exporting_to_pdf {
            (false, false, false, false, false, false, false)
        } else {
            (true, true, true, true, true, true, true)
        };
        let clicker = auto && self.auto_clicker.is_enabled();
        ControlStates {
            area_select_button: area,
            capture_button: capture,
            browse_button: browse,
            export_pdf_button: pdf,
            close_button: close,
            auto_click_checkbox: auto,
            scale_combo: combos,
            quality_combo: combos,
            pdf_size_combo: combos,
            auto_click_interval_combo: clicker,
            auto_click_count_edit: clicker,
        }
    }
}

/// The enabled state of each control of the dialog.
#[derive(Clone, Copy, Debug, PartialEq, Eq, Structural)]
pub struct ControlStates {
    pub area_select_button: bool,
    pub capture_button: bool,
    pub browse_button: bool,
    pub export_pdf_button: bool,
    pub close_button: bool,
    pub auto_click_checkbox: bool,
    pub scale_combo: bool,
    pub quality_combo: bool,
    pub pdf_size_combo: bool,
    pub auto_click_interval_combo: bool,
    pub auto_click_count_edit: bool,
}

// ----- laws -----

/// Mouse events keep the state consistent.
pub proof fn lemma_mouse_event_keeps_inv(s: AppState, valid: bool, msg: MouseMessage, pos: Point)
    requires
        s.inv(),
    ensures
        s.spec_mouse_event(valid, msg, pos).0.inv(),
{
    let t = AppState { current_mouse_pos: pos, ..s };
    crate::geometry::lemma_spanned_rect(t.drag_start, t.drag_end);
}

/// A key-down of Escape always leaves both modes, and releases the hooks when a mode was
/// on; keyboard events keep the state consistent.
pub proof fn lemma_escape_leaves_modes(s: AppState, valid: bool, key_down: bool, vk: Option<u32>)
    ensures
        s.inv() ==> s.spec_key_event(valid, key_down, vk).0.inv(),
        valid && key_down && vk == Some(27u32) ==> s.spec_key_event(valid, key_down, vk).0.is_idle(),
        valid && key_down && vk == Some(27u32) && !s.is_idle() ==> s.spec_key_event(
            valid,
            key_down,
            vk,
        ).0.hooks == no_hooks(),
        valid && key_down && vk == Some(27u32) ==> (s.spec_key_event(valid, key_down, vk).2
            <==> !s.is_idle()),
{
}

/// A left-button press outside area selection does nothing but record the cursor: no side
/// effect, and it is passed on. In particular a press never captures.
pub proof fn lemma_press_outside_selection_does_nothing(s: AppState, valid: bool, pos: Point)
    requires
        !s.is_area_select_mode,
    ensures
        s.spec_mouse_event(valid, MouseMessage::LeftDown, pos).1.len() == 0,
        !s.spec_mouse_event(valid, MouseMessage::LeftDown, pos).2,
        s.spec_mouse_event(valid, MouseMessage::LeftDown, pos).0.is_capture_mode
            == s.is_capture_mode,
        s.spec_mouse_event(valid, MouseMessage::LeftDown, pos).0.auto_clicker == s.auto_clicker,
{
}

/// Which mouse events can act at all: an event the hook must only pass on changes nothing
/// and has no effect; a capture is taken only on a valid left release in capture mode, and
/// the clicker is started only there too; a move only drags the overlay or the selection;
/// other messages have no effect.
pub proof fn lemma_mouse_events_that_act(s: AppState, valid: bool, msg: MouseMessage, pos: Point)
    ensures
        ({
            let (s2, e, c) = s.spec_mouse_event(valid, msg, pos);
            &&& !valid ==> s2 == s && e.len() == 0
            &&& e.contains(Effect::CaptureArea) ==> valid && msg == MouseMessage::LeftUp
                && s.is_capture_mode && e == seq![Effect::CaptureArea]
            &&& (exists|j: AutoClickJob| e.contains(Effect::StartAutoClick(j))) ==> valid && msg
                == MouseMessage::LeftUp && s.is_capture_mode && s.auto_clicker.enabled
                && !s.auto_clicker.running
            &&& msg == MouseMessage::Move ==> !c && forall|k: int|
                0 <= k < e.len() ==> e[k] == Effect::MoveCaptureOverlay || e[k]
                    == Effect::RefreshAreaOverlay
            &&& msg == MouseMessage::Other ==> e.len() == 0 && !c
        }),
{
    let (s2, e, c) = s.spec_mouse_event(valid, msg, pos);
    if e.contains(Effect::CaptureArea) {
        let k = choose|k: int| 0 <= k < e.len() && e[k] == Effect::CaptureArea;
        assert(valid);
    }
    if exists|j: AutoClickJob| e.contains(Effect::StartAutoClick(j)) {
        let j = choose|j: AutoClickJob| e.contains(Effect::StartAutoClick(j));
        let k = choose|k: int| 0 <= k < e.len() && e[k] == Effect::StartAutoClick(j);
        assert(valid);
    }
}

/// Keys other than a valid press of Escape are passed on and change nothing.
pub proof fn lemma_other_keys_pass(s: AppState, valid: bool, key_down: bool, vk: Option<u32>)
    requires
        !(valid && key_down && vk == Some(27u32)),
    ensures
        s.spec_key_event(valid, key_down, vk).0 == s,
        s.spec_key_event(valid, key_down, vk).1.len() == 0,
        !s.spec_key_event(valid, key_down, vk).2,
{
}

/// A click (press at `a`, release at `b`) in capture mode, with the automatic clicker not
/// waiting for its first click, takes exactly one capture, on the release, and passes both
/// events on. When the clicker is switched on and idle, the click instead starts it at
/// `b`, is swallowed, and takes no capture itself.
pub proof fn lemma_capture_click_once(s: AppState, a: Point, b: Point)
    requires
        s.is_capture_mode,
        !s.is_area_select_mode,
    ensures
        ({
            let (s1, e1, c1) = s.spec_mouse_event(true, MouseMessage::LeftDown, a);
            let (s2, e2, c2) = s1.spec_mouse_event(true, MouseMessage::LeftUp, b);
            &&& e1 == Seq::<Effect>::empty()
            &&& !c1
            &&& !(s.auto_clicker.enabled && !s.auto_clicker.running) ==> {
                &&& e1 + e2 == seq![Effect::CaptureArea]
                &&& !c2
                &&& s2.is_capture_mode
                &&& s2.capture_file_counter == s.capture_file_counter
            }
            &&& (s.auto_clicker.enabled && !s.auto_clicker.running) ==> {
                &&& e1 + e2 == seq![
                    Effect::StartAutoClick(
                        AutoClickJob {
                            position: b,
                            interval_ms: s.auto_clicker.interval_ms,
                            max_count: s.auto_clicker.max_count,
                        },
                    ),
                ]
                &&& c2
                &&& s2.auto_clicker.running
                &&& s2.auto_clicker.progress_count == 0
            }
        }),
{
    assert(Seq::<Effect>::empty() + seq![Effect::CaptureArea] =~= seq![Effect::CaptureArea]);
    let job = Effect::StartAutoClick(
        AutoClickJob {
            position: b,
            interval_ms: s.auto_clicker.interval_ms,
            max_count: s.auto_clicker.max_count,
        },
    );
    assert(Seq::<Effect>::empty() + seq![job] =~= seq![job]);
}

/// Escape during area selection (capture mode off) cancels it: the selection overlay is
/// hidden, the hooks held are released, the controls updated and the dialog brought
/// back, in that order; the key is swallowed, the mode and any drag end, no hook is held
/// any more, and the selected area is kept as it was.
pub proof fn lemma_escape_cancels_area_selection(s: AppState)
    requires
        s.is_area_select_mode,
        !s.is_capture_mode,
    ensures
        ({
            let (s2, e, c) = s.spec_key_event(true, true, Some(27u32));
            &&& e == seq![
                Effect::HideAreaOverlay,
                Effect::ReleaseHooks(s.hooks),
                Effect::UpdateControls,
                Effect::DialogToFront,
            ]
            &&& c
            &&& !s2.is_area_select_mode
            &&& !s2.is_dragging
            &&& s2.hooks == no_hooks()
            &&& s2.selected_area == s.selected_area
        }),
{
    assert(Seq::<Effect>::empty() + s.cancel_area_select_effects() =~= s.cancel_area_select_effects());
}

/// Escape in capture mode (area selection off) ends it: the hooks held are released, the
/// capture overlay hidden, the dialog brought back, a running clicker stopped, and the
/// controls updated, in that order; the key is swallowed.
pub proof fn lemma_escape_ends_capture(s: AppState)
    requires
        s.is_capture_mode,
        !s.is_area_select_mode,
    ensures
        ({
            let (s2, e, c) = s.spec_key_event(true, true, Some(27u32));
            let stop = if s.auto_clicker.running {
                seq![Effect::StopAutoClick]
            } else {
                Seq::empty()
            };
            &&& e == seq![
                Effect::ReleaseHooks(s.hooks),
                Effect::HideCaptureOverlay,
                Effect::DialogToFront,
            ] + stop + seq![Effect::UpdateControls]
            &&& c
            &&& !s2.is_capture_mode
            &&& !s2.auto_clicker.running
            &&& s2.hooks == no_hooks()
        }),
{
    let e1 = s.toggle_capture_effects();
    assert(e1 + Seq::<Effect>::empty() =~= e1);
}

/// Which controls are enabled in each situation: during area selection only its button
/// and Close; in capture mode only its button and Close; while a PDF export runs (neither
/// mode on) none at all; otherwise all, the clicker's interval and count only while the
/// clicker is switched on.
pub proof fn lemma_controls_by_situation(s: AppState)
    ensures
        s.is_area_select_mode ==> s.spec_control_states() == (ControlStates {
            area_select_button: true,
            capture_button: false,
            browse_button: false,
            export_pdf_button: false,
            close_button: true,
            auto_click_checkbox: false,
            scale_combo: false,
            quality_combo: false,
            pdf_size_combo: false,
            auto_click_interval_combo: false,
            auto_click_count_edit: false,
        }),
        !s.is_area_select_mode && s.is_capture_mode ==> s.spec_control_states() == (
        ControlStates {
            area_select_button: false,
            capture_button: true,
            browse_button: false,
            export_pdf_button: false,
            close_button: true,
            auto_click_checkbox: false,
            scale_combo: false,
            quality_combo: false,
            pdf_size_combo: false,
            auto_click_interval_combo: false,
            auto_click_count_edit: false,
        }),
        !s.is_area_select_mode && !s.is_capture_mode && s.is_exporting_to_pdf
            ==> s.spec_control_states() == (ControlStates {
            area_select_button: false,
            capture_button: false,
            browse_button: false,
            export_pdf_button: false,
            close_button: false,
            auto_click_checkbox: false,
            scale_combo: false,
            quality_combo: false,
            pdf_size_combo: false,
            auto_click_interval_combo: false,
            auto_click_count_edit: false,
        }),
        !s.is_area_select_mode && !s.is_capture_mode && !s.is_exporting_to_pdf
            ==> s.spec_control_states() == (ControlStates {
            area_select_button: true,
            capture_button: true,
            browse_button: true,
            export_pdf_button: true,
            close_button: true,
            auto_click_checkbox: true,
            scale_combo: true,
            quality_combo: true,
            pdf_size_combo: true,
            auto_click_interval_combo: s.auto_clicker.enabled,
            auto_click_count_edit: s.auto_clicker.enabled,
        }),
{
}

/// In a consistent state, the buttons that start a mode are enabled only while the other
/// mode is off.
pub proof fn lemma_mode_buttons_gated(s: AppState)
    requires
        s.inv(),
    ensures
        s.spec_control_states().area_select_button ==> !s.is_capture_mode,
        s.spec_control_states().capture_button ==> !s.is_area_select_mode,
{
}

/// Pressing an enabled mode button, ending a click run, or closing keeps the state
/// consistent; in particular the two modes never overlap.
pub proof fn lemma_enabled_commands_keep_inv(s: AppState, cursor: Option<Point>)
    requires
        s.inv(),
    ensures
        s.spec_control_states().area_select_button ==> s.spec_start_area_select(cursor).inv(),
        s.spec_control_states().capture_button ==> s.spec_toggle_capture().inv(),
        s.spec_auto_click_complete().inv(),
        s.spec_shutdown().inv(),
        s.spec_shutdown().is_idle(),
{
}

/// Switching capture mode on and off again gives back the state it started from, when the
/// mode could start and nothing was running.
pub proof fn lemma_capture_toggle_round_trip(s: AppState)
    requires
        s.is_idle(),
        s.can_start_capture(),
        !s.auto_clicker.running,
        s.hooks == no_hooks(),
    ensures
        s.spec_toggle_capture().is_capture_mode,
        s.spec_toggle_capture().spec_toggle_capture() == s,
{
    assert(s.spec_toggle_capture().spec_toggle_capture().auto_clicker == s.auto_clicker);
}

/// A selection drag: pressing at `a`, moving to `b` and releasing at `c` selects the
/// rectangle spanned by `a` and `b`, ends area selection, releases the hooks and keeps the
/// rest of the state (the file counter, the settings, the clicker).
pub proof fn lemma_drag_selects_area(s: AppState, a: Point, b: Point, c: Point)
    requires
        s.inv(),
        s.is_area_select_mode,
    ensures
        ({
            let s1 = s.spec_mouse_event(true, MouseMessage::LeftDown, a).0;
            let s2 = s1.spec_mouse_event(true, MouseMessage::Move, b).0;
            let s3 = s2.spec_mouse_event(true, MouseMessage::LeftUp, c).0;
            &&& s.spec_mouse_event(true, MouseMessage::LeftDown, a).2
            &&& s2.spec_mouse_event(true, MouseMessage::LeftUp, c).2
            &&& s3.selected_area == Some(spanned_rect(a, b))
            &&& s3.is_idle()
            &&& !s3.is_dragging
            &&& s3.hooks == no_hooks()
            &&& s3.capture_file_counter == s.capture_file_counter
            &&& s3.selected_folder_path == s.selected_folder_path
            &&& s3.auto_clicker == s.auto_clicker
            &&& s3.current_mouse_pos == c
            &&& s3.inv()
        }),
{
    crate::geometry::lemma_spanned_rect(a, b);
}

/// When the area selection overlay cannot be shown, starting area selection ends with the
/// mode off, no hook installed, and the dialog restored (the last effect); the rest of the
/// state is as before, the cursor position apart.
pub proof fn lemma_area_overlay_failure_restores(s: AppState, cursor: Option<Point>)
    requires
        !s.is_area_select_mode,
        s.hooks == no_hooks(),
        !s.is_dragging,
    ensures
        ({
            let s1 = s.spec_start_area_select(cursor);
            let s2 = s1.spec_area_overlay_shown(false);
            let effects = s.start_area_select_effects(cursor) + s1.area_overlay_shown_effects(
                false,
            );
            &&& !s2.is_area_select_mode
            &&& s2.hooks == no_hooks()
            &&& effects.last() == Effect::DialogToFront
            &&& effects.contains(Effect::HideAreaOverlay)
            &&& s2 == (AppState {
                current_mouse_pos: s1.current_mouse_pos,
                ..s
            })
        }),
{
    let s1 = s.spec_start_area_select(cursor);
    let effects = s.start_area_select_effects(cursor) + s1.area_overlay_shown_effects(false);
    let k = s.start_area_select_effects(cursor).len() as int;
    assert(effects[k] == Effect::HideAreaOverlay);
}

/// Cancelling area selection right after starting it leaves the selected area, the
/// settings and the rest of the state as they were; only the cursor position is updated.
pub proof fn lemma_area_select_cancel_round_trip(s: AppState, p: Point)
    requires
        s.is_idle(),
        !s.is_dragging,
        s.hooks == no_hooks(),
    ensures
        s.spec_start_area_select(Some(p)).spec_cancel_area_select() == (AppState {
            current_mouse_pos: p,
            ..s
        }),
{
}


/// The text and the title of the message box shown for a notice.
pub open spec fn notice_texts(n: Notice) -> (Seq<char>, Seq<char>) {
    match n {
        Notice::AlreadySelectingArea => ("既にエリア選択モード中です"@, "エリア選択エラー"@),
        Notice::NoAreaSelected => (
            "先にエリア選択を行ってください。\n\n操作手順:\n1. エリア選択ボタンをクリック\n2. 画面上でドラッグして範囲を選択\n3. キャプチャ開始ボタンをクリック"@,
            "エラー - エリア未選択"@,
        ),
        Notice::AutoClickCountMissing => (
            "回数の値が0、もしくは未設定です。1以上の値を設定してください。"@,
            "自動クリックエラー"@,
        ),
    }
}

/// Builds the text and the title of the message box shown for a notice.
pub fn notice_message(n: Notice) -> (r: (String, String))
    ensures
        (r.0@, r.1@) == notice_texts(n),
{
    match n {
        Notice::AlreadySelectingArea => (
            String::from_str("既にエリア選択モード中です"),
            String::from_str("エリア選択エラー"),
        ),
        Notice::NoAreaSelected => (
            String::from_str(
                "先にエリア選択を行ってください。\n\n操作手順:\n1. エリア選択ボタンをクリック\n2. 画面上でドラッグして範囲を選択\n3. キャプチャ開始ボタンをクリック",
            ),
            String::from_str("エラー - エリア未選択"),
        ),
        Notice::AutoClickCountMissing => (
            String::from_str("回数の値が0、もしくは未設定です。1以上の値を設定してください。"),
            String::from_str("自動クリックエラー"),
        ),
    }
}

} // verus!
