use clickcapture::app_state::AppState;
use clickcapture::constants::{
    BN_CLICKED, CBN_SELCHANGE, EN_KILLFOCUS, IDC_AREA_SELECT_BUTTON, IDC_AUTO_CLICK_COUNT_EDIT,
    IDC_BROWSE_BUTTON, IDC_CAPTURE_START_BUTTON, IDC_CLOSE_BUTTON, IDC_EXPORT_PDF_BUTTON,
    IDC_LOG_EDIT, IDC_SCALE_COMBO, IDI_CAMERA_OFF, IDI_CAMERA_ON, IDI_CLOSE, IDI_SELECT_AREA_OFF,
};
use clickcapture::ui::{
    interval_options, pdf_size_options, quality_options, route_command, scale_options, Command,
    CommandRoute, DEFAULT_INTERVAL_INDEX, DEFAULT_PDF_SIZE_INDEX, DEFAULT_QUALITY_INDEX,
    DEFAULT_SCALE_INDEX,
};

fn pairs(opts: Vec<clickcapture::ui::ComboOption>) -> Vec<(String, isize)> {
    opts.into_iter().map(|o| (o.label, o.data)).collect()
}

#[test]
fn scale_and_quality_choices() {
    let scales = pairs(scale_options());
    assert_eq!(scales.len(), 10);
    assert_eq!(scales[0], ("100%".to_string(), 100));
    assert_eq!(scales[9], ("55%".to_string(), 55));
    assert_eq!(scales[DEFAULT_SCALE_INDEX].1, 65);
    let qualities = pairs(quality_options());
    assert_eq!(
        qualities.iter().map(|q| q.1).collect::<Vec<_>>(),
        vec![100, 95, 90, 85, 80, 75, 70]
    );
    assert_eq!(qualities[DEFAULT_QUALITY_INDEX], ("95%".to_string(), 95));
}

#[test]
fn pdf_size_and_interval_choices() {
    let sizes = pairs(pdf_size_options());
    assert_eq!(
        sizes,
        vec![
            ("20MB".to_string(), 20),
            ("40MB".to_string(), 40),
            ("60MB".to_string(), 60),
            ("80MB".to_string(), 80),
            ("100MB".to_string(), 100),
            ("最大(1GB)".to_string(), 1024),
        ]
    );
    assert_eq!(sizes[DEFAULT_PDF_SIZE_INDEX].1, 20);
    let intervals = pairs(interval_options());
    assert_eq!(intervals[0], ("1秒".to_string(), 1000));
    assert_eq!(intervals[4], ("5秒".to_string(), 5000));
    assert_eq!(intervals[DEFAULT_INTERVAL_INDEX].1, 1000);
}

#[test]
fn default_selections_match_the_state() {
    let mut s = AppState::new(800, 600);
    s.apply_default_selections();
    assert_eq!(s.capture_scale_factor, 65);
    assert_eq!(s.jpeg_quality, 95);
    assert_eq!(s.pdf_max_size_mb, 20);
    assert_eq!(s.auto_clicker.interval_ms, 1000);
    let pdf = pairs(pdf_size_options());
    assert_eq!(pdf[DEFAULT_PDF_SIZE_INDEX].1, s.pdf_max_size_mb as isize);
}

#[test]
fn selections_update_the_settings() {
    let mut s = AppState::new(800, 600);
    s.apply_scale_selection(80);
    assert_eq!(s.capture_scale_factor, 80);
    s.apply_quality_selection(70);
    assert_eq!(s.jpeg_quality, 70);
    s.apply_pdf_size_selection(1024);
    assert_eq!(s.pdf_max_size_mb, 1024);
    s.apply_interval_selection(4000);
    assert_eq!(s.auto_clicker.interval_ms, 4000);
    s.apply_auto_click_checkbox(true);
    assert!(s.auto_clicker.enabled);
    s.apply_auto_click_count_text("12");
    assert_eq!(s.auto_clicker.max_count, 12);
    s.apply_auto_click_count_text("abc");
    assert_eq!(s.auto_clicker.max_count, 12);
    s.apply_auto_click_count_text("");
    assert_eq!(s.auto_clicker.max_count, 12);
    s.set_selected_folder("D:\\shots".to_string());
    assert_eq!(s.selected_folder_path.as_deref(), Some("D:\\shots"));
}

#[test]
fn item_data_is_read_back_truncated() {
    let mut s = AppState::new(800, 600);
    s.apply_scale_selection(256 + 60);
    assert_eq!(s.capture_scale_factor, 60);
    s.apply_pdf_size_selection(65536 + 40);
    assert_eq!(s.pdf_max_size_mb, 40);
}

#[test]
fn button_icons_show_the_mode() {
    let mut s = AppState::new(800, 600);
    assert_eq!(s.button_icon(IDC_CAPTURE_START_BUTTON as u32), Some(IDI_CAMERA_OFF));
    assert_eq!(s.button_icon(IDC_AREA_SELECT_BUTTON as u32), Some(IDI_SELECT_AREA_OFF));
    assert_eq!(s.button_icon(IDC_CLOSE_BUTTON as u32), Some(IDI_CLOSE));
    assert_eq!(s.button_icon(IDC_LOG_EDIT as u32), None);
    assert!(!s.button_pressed(IDC_CAPTURE_START_BUTTON as u32));
    s.is_capture_mode = true;
    assert_eq!(s.button_icon(IDC_CAPTURE_START_BUTTON as u32), Some(IDI_CAMERA_ON));
    assert!(s.button_pressed(IDC_CAPTURE_START_BUTTON as u32));
    assert!(!s.button_pressed(IDC_AREA_SELECT_BUTTON as u32));
    assert!(!s.button_pressed(IDC_CLOSE_BUTTON as u32));
}

#[test]
fn commands_are_routed() {
    assert_eq!(
        route_command(IDC_BROWSE_BUTTON, BN_CLICKED),
        CommandRoute { command: Some(Command::BrowseFolder), handled: true }
    );
    assert_eq!(route_command(IDC_BROWSE_BUTTON, 5), CommandRoute { command: None, handled: false });
    assert_eq!(
        route_command(IDC_EXPORT_PDF_BUTTON, 5),
        CommandRoute { command: Some(Command::ExportPdf), handled: true }
    );
    assert_eq!(
        route_command(IDC_SCALE_COMBO, CBN_SELCHANGE),
        CommandRoute { command: Some(Command::ScaleChanged), handled: true }
    );
    assert_eq!(route_command(IDC_SCALE_COMBO, 3), CommandRoute { command: None, handled: true });
    assert_eq!(
        route_command(IDC_AUTO_CLICK_COUNT_EDIT, EN_KILLFOCUS),
        CommandRoute { command: Some(Command::CountEdited), handled: true }
    );
    assert_eq!(route_command(9999, BN_CLICKED), CommandRoute { command: None, handled: false });
}
