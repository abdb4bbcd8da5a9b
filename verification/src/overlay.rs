//! Names under which the overlay windows and their window classes are registered.

use vstd::prelude::*;

verus! {

/// The window name of the overlay called `overlay`: `ClickCapture_<overlay>_Windows`.
pub open spec fn window_name_text(overlay: Seq<char>) -> Seq<char> {
    "ClickCapture_"@ + overlay + "_Windows"@
}

/// The window class name of the overlay called `overlay`: `ClickCapture_<overlay>_Class`.
pub open spec fn class_name_text(overlay: Seq<char>) -> Seq<char> {
    "ClickCapture_"@ + overlay + "_Class"@
}

/// Builds the window name of an overlay.
pub fn overlay_window_name(overlay: &str) -> (r: String)
    ensures
        r@ == window_name_text(overlay@),
{
    let mut s = String::from_str("ClickCapture_");
    s.append(overlay);
    s.append("_Windows");
    s
}

/// Builds the window class name of an overlay.
pub fn overlay_class_name(overlay: &str) -> (r: String)
    ensures
        r@ == class_name_text(overlay@),
{
    let mut s = String::from_str("ClickCapture_");
    s.append(overlay);
    s.append("_Class");
    s
}

/// The name of the area selection overlay.
pub fn area_select_overlay_name() -> (r: &'static str)
    ensures
        r@ == "AreaSelect"@,
{
    "AreaSelect"
}

/// The name of the capture-mode overlay.
pub fn capturing_overlay_name() -> (r: &'static str)
    ensures
        r@ == "Capturing"@,
{
    "Capturing"
}

} // verus!
