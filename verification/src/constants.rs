//! Resource and control identifiers shared with the dialog resource script, and the
//! notification codes the dialog reacts to.

use vstd::prelude::*;

verus! {

/// The main dialog.
pub const IDD_DIALOG1: u16 = 101;

/// Folder browse button.
pub const IDC_BROWSE_BUTTON: i32 = 1001;
/// Edit box that shows the save folder.
pub const IDC_PATH_EDIT: i32 = 1002;
/// Area selection button.
pub const IDC_AREA_SELECT_BUTTON: i32 = 1005;
/// Capture mode button.
pub const IDC_CAPTURE_START_BUTTON: i32 = 1006;
/// Close button.
pub const IDC_CLOSE_BUTTON: i32 = 1007;
/// PDF export button.
pub const IDC_EXPORT_PDF_BUTTON: i32 = 1008;
/// Scale combo box.
pub const IDC_SCALE_COMBO: i32 = 1009;
/// JPEG quality combo box.
pub const IDC_QUALITY_COMBO: i32 = 1010;
/// PDF size limit combo box.
pub const IDC_PDF_SIZE_COMBO: i32 = 1011;
/// One-line log box.
pub const IDC_LOG_EDIT: i32 = 1012;
/// Automatic click check box.
pub const IDC_AUTO_CLICK_CHECKBOX: i32 = 1013;
/// Automatic click interval combo box.
pub const IDC_AUTO_CLICK_INTERVAL_COMBO: i32 = 1014;
/// Automatic click count edit box.
pub const IDC_AUTO_CLICK_COUNT_EDIT: i32 = 1015;

/// Camera icon, capture mode off.
pub const IDI_CAMERA_OFF: i32 = 2001;
/// Camera icon, capture mode on.
pub const IDI_CAMERA_ON: i32 = 2002;
/// Selection icon, area selection on.
pub const IDI_SELECT_AREA_ON: i32 = 2003;
/// Selection icon, area selection off.
pub const IDI_SELECT_AREA_OFF: i32 = 2004;
/// Folder icon.
pub const IDI_SELECT_FOLDER: i32 = 2005;
/// Close icon.
pub const IDI_CLOSE: i32 = 2006;
/// PDF export icon.
pub const IDI_EXPORT_PDF: i32 = 2007;
/// Application icon.
pub const IDI_APP_ICON: i32 = 2008;
/// Overlay picture shown while a capture is being processed.
pub const IDP_CAPTURE_PROCESSING: i32 = 2009;
/// Overlay picture shown while waiting for a click.
pub const IDP_CAPTURE_WAITING: i32 = 2010;

/// Message posted to the dialog when an automatic click run ends.
pub const WM_AUTO_CLICK_COMPLETE: u32 = 0x8001;

/// Combo box notification: the selection changed.
pub const CBN_SELCHANGE: u16 = 1;
/// Button notification: clicked.
pub const BN_CLICKED: u16 = 0;
/// Edit box notification: lost the focus.
pub const EN_KILLFOCUS: u16 = 0x0200;

/// Virtual key code of the Escape key.
pub const VK_ESCAPE_CODE: u32 = 27;

} // verus!
