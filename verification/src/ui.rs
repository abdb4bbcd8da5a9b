//! The dialog's settings controls: the choices each combo box offers, what a choice or an
//! edit sets, which icon each owner-drawn button shows, and which handler a command
//! notification goes to.

use vstd::prelude::*;

use crate::app_state::AppState;
use crate::auto_click::AutoClicker;
use crate::constants::{
    BN_CLICKED, CBN_SELCHANGE, EN_KILLFOCUS, IDC_AREA_SELECT_BUTTON, IDC_AUTO_CLICK_CHECKBOX,
    IDC_AUTO_CLICK_COUNT_EDIT, IDC_AUTO_CLICK_INTERVAL_COMBO, IDC_BROWSE_BUTTON,
    IDC_CAPTURE_START_BUTTON, IDC_CLOSE_BUTTON, IDC_EXPORT_PDF_BUTTON, IDC_PDF_SIZE_COMBO,
    IDC_QUALITY_COMBO, IDC_SCALE_COMBO, IDI_CAMERA_OFF, IDI_CAMERA_ON, IDI_CLOSE, IDI_EXPORT_PDF,
    IDI_SELECT_AREA_OFF, IDI_SELECT_AREA_ON, IDI_SELECT_FOLDER,
};
use crate::text::{append_decimal, decimal, parse_trimmed_u32, parsed_u32, trimmed};

verus! {

/// One entry of a combo box: the text shown and the value attached to it.
#[derive(Debug)]
pub struct ComboOption {
    pub label: String,
    pub data: isize,
}

/// `v` followed by a percent sign.
pub open spec fn percent_label(v: nat) -> Seq<char> {
    decimal(v) + "%"@
}

/// `v` followed by "MB".
pub open spec fn megabyte_label(v: nat) -> Seq<char> {
    decimal(v) + "MB"@
}

/// `v` followed by the character for seconds.
pub open spec fn seconds_label(v: nat) -> Seq<char> {
    decimal(v) + "秒"@
}

/// The label of the last PDF size choice, one gigabyte.
pub open spec fn max_size_label() -> Seq<char> {
    "最大(1GB)"@
}

fn labelled(v: u32, suffix: &str) -> (r: String)
    ensures
        r@ == decimal(v as nat) + suffix@,
{
    let mut s = String::new();
    append_decimal(&mut s, v as u64);
    s.append(suffix);
    s
}

/// Whether `opts` lists `count` choices whose value at position `i` is `first - step * i`
/// and whose label is `label(value)`.
pub open spec fn descending_options(
    opts: Seq<ComboOption>,
    count: nat,
    first: int,
    step: int,
    label: spec_fn(nat) -> Seq<char>,
) -> bool {
    &&& opts.len() == count
    &&& forall|i: int|
        0 <= i < count ==> #[trigger] opts[i].data == first - step * i && opts[i].label@ == label(
            (first - step * i) as nat,
        )
}

fn stepped_options(count: u32, first: u32, step: u32, suffix: &str) -> (r: Vec<ComboOption>)
    requires
        step * (count - 1) <= first,
        first <= 1000000,
        count >= 1,
    ensures
        forall|i: int|
            0 <= i < count ==> #[trigger] r@[i].data == first - step * i && r@[i].label@ == decimal(
                (first - step * i) as nat,
            ) + suffix@,
        r@.len() == count,
{
    let mut r: Vec<ComboOption> = Vec::new();
    let mut i: u32 = 0;
    while i < count
        invariant
            step * (count - 1) <= first,
            first <= 1000000,
            i <= count,
            r@.len() == i,
            forall|k: int|
                0 <= k < i ==> #[trigger] r@[k].data == first - step * k && r@[k].label@
                    == decimal((first - step * k) as nat) + suffix@,
        decreases count - i,
    {
        assert(step * i <= step * (count - 1)) by (nonlinear_arith)
            requires
                i <= count - 1,
        ;
        let v = first - step * i;
        r.push(ComboOption { label: labelled(v, suffix), data: v as isize });
        i = i + 1;
    }
    r
}

/// The scale choices: 100 % down to 55 % in steps of 5.
pub fn scale_options() -> (r: Vec<ComboOption>)
    ensures
        descending_options(r@, 10, 100, 5, |v: nat| percent_label(v)),
{
    let r = stepped_options(10, 100, 5, "%");
    assert(descending_options(r@, 10, 100, 5, |v: nat| percent_label(v)));
    r
}

/// The scale choice selected when the dialog opens: 65 %, the default scale.
pub const DEFAULT_SCALE_INDEX: usize = 7;

/// The JPEG quality choices: 100 % down to 70 % in steps of 5.
pub fn quality_options() -> (r: Vec<ComboOption>)
    ensures
        descending_options(r@, 7, 100, 5, |v: nat| percent_label(v)),
{
    let r = stepped_options(7, 100, 5, "%");
    assert(descending_options(r@, 7, 100, 5, |v: nat| percent_label(v)));
    r
}

/// The quality choice selected when the dialog opens: 95 %, the default quality.
pub const DEFAULT_QUALITY_INDEX: usize = 1;

/// The PDF size choices: 20, 40, 60, 80 and 100 MB, then one gigabyte (1024 MB).
pub fn pdf_size_options() -> (r: Vec<ComboOption>)
    ensures
        r@.len() == 6,
        forall|i: int|
            0 <= i < 5 ==> #[trigger] r@[i].data == 20 + 20 * i && r@[i].label@ == megabyte_label(
                (20 + 20 * i) as nat,
            ),
        r@[5].data == 1024,
        r@[5].label@ == max_size_label(),
{
    let mut r: Vec<ComboOption> = Vec::new();
    let mut v: u32 = 20;
    while v <= 100
        invariant
            20 <= v <= 120,
            v % 20 == 0,
            r@.len() == (v - 20) / 20,
            forall|i: int|
                0 <= i < r@.len() ==> #[trigger] r@[i].data == 20 + 20 * i && r@[i].label@
                    == megabyte_label((20 + 20 * i) as nat),
        decreases 120 - v,
    {
        r.push(ComboOption { label: labelled(v, "MB"), data: v as isize });
        v = v + 20;
    }
    r.push(ComboOption { label: String::from_str("最大(1GB)"), data: 1024 });
    r
}

/// The PDF size choice selected when the dialog opens: the first one, 20 MB.
pub const DEFAULT_PDF_SIZE_INDEX: usize = 0;

/// The automatic click interval choices: 1 to 5 seconds, each valued in milliseconds.
pub fn interval_options() -> (r: Vec<ComboOption>)
    ensures
        r@.len() == 5,
        forall|i: int|
            0 <= i < 5 ==> #[trigger] r@[i].data == (i + 1) * 1000 && r@[i].label@ == seconds_label(
                (i + 1) as nat,
            ),
{
    let mut r: Vec<ComboOption> = Vec::new();
    let mut sec: u32 = 1;
    while sec <= 5
        invariant
            1 <= sec <= 6,
            r@.len() == sec - 1,
            forall|i: int|
                0 <= i < r@.len() ==> #[trigger] r@[i].data == (i + 1) * 1000 && r@[i].label@
                    == seconds_label((i + 1) as nat),
        decreases 6 - sec,
    {
        r.push(ComboOption { label: labelled(sec, "秒"), data: (sec * 1000) as isize });
        sec = sec + 1;
    }
    r
}

/// The interval choice selected when the dialog opens: one second, the default interval.
pub const DEFAULT_INTERVAL_INDEX: usize = 0;

impl AppState {
    /// Applies the value of the chosen scale entry (kept as its low byte, as the combo box
    /// item data is read back).
    pub fn apply_scale_selection(&mut self, data: isize)
        ensures
            *final(self) == (AppState { capture_scale_factor: data as u8, ..*old(self) }),
    {
        self.capture_scale_factor = data as u8;
    }

    /// Applies the value of the chosen quality entry (its low byte).
    pub fn apply_quality_selection(&mut self, data: isize)
        ensures
            *final(self) == (AppState { jpeg_quality: data as u8, ..*old(self) }),
    {
        self.jpeg_quality = data as u8;
    }

    /// Applies the value of the chosen PDF size entry (its low 16 bits), in megabytes.
    pub fn apply_pdf_size_selection(&mut self, data: isize)
        ensures
            *final(self) == (AppState { pdf_max_size_mb: data as u16, ..*old(self) }),
    {
        self.pdf_max_size_mb = data as u16;
    }

    /// Applies the value of the chosen interval entry, in milliseconds.
    pub fn apply_interval_selection(&mut self, data: isize)
        ensures
            *final(self) == (AppState {
                auto_clicker: AutoClicker { interval_ms: data as u64, ..old(self).auto_clicker },
                ..*old(self)
            }),
    {
        self.auto_clicker.set_interval(data as u64);
    }

    /// Applies the state of the automatic click check box.
    pub fn apply_auto_click_checkbox(&mut self, checked: bool)
        ensures
            *final(self) == (AppState {
                auto_clicker: AutoClicker { enabled: checked, ..old(self).auto_clicker },
                ..*old(self)
            }),
    {
        self.auto_clicker.set_enabled(checked);
    }

    /// Applies the text of the click count box when it loses the focus: a number (surrounded
    /// by white space, with an optional `+`) becomes the click count; other text is ignored.
    pub fn apply_auto_click_count_text(&mut self, text: &str)
        ensures
            parsed_u32(trimmed(text@)) matches Some(n) ==> *final(self) == (AppState {
                auto_clicker: AutoClicker { max_count: n, ..old(self).auto_clicker },
                ..*old(self)
            }),
            parsed_u32(trimmed(text@)) is None ==> *final(self) == *old(self),
    {
        if let Some(count) = parse_trimmed_u32(text) {
            self.auto_clicker.set_max_count(count);
        }
    }

    /// Brings the settings in line with the entries the dialog's combo boxes select when
    /// it opens (the `DEFAULT_*_INDEX` entries), so that each combo box shows the state's
    /// value: 65 % scale, 95 % quality, a 20 MB PDF size limit, a one-second interval.
    pub fn apply_default_selections(&mut self)
        ensures
            *final(self) == (AppState {
                capture_scale_factor: 65,
                jpeg_quality: 95,
                pdf_max_size_mb: 20,
                auto_clicker: AutoClicker { interval_ms: 1000, ..old(self).auto_clicker },
                ..*old(self)
            }),
            final(self).capture_scale_factor == scale_options_data(DEFAULT_SCALE_INDEX as int),
            final(self).jpeg_quality == quality_options_data(DEFAULT_QUALITY_INDEX as int),
            final(self).pdf_max_size_mb == 20 + 20 * DEFAULT_PDF_SIZE_INDEX,
            final(self).auto_clicker.interval_ms == (DEFAULT_INTERVAL_INDEX + 1) * 1000,
    {
        let scale = scale_options();
        let quality = quality_options();
        let pdf = pdf_size_options();
        let interval = interval_options();
        assert(scale@[DEFAULT_SCALE_INDEX as int].data == 100 - 5 * 7);
        assert(quality@[DEFAULT_QUALITY_INDEX as int].data == 100 - 5 * 1);
        assert(pdf@[DEFAULT_PDF_SIZE_INDEX as int].data == 20);
        assert(interval@[DEFAULT_INTERVAL_INDEX as int].data == 1000);
        self.apply_scale_selection(scale[DEFAULT_SCALE_INDEX].data);
        self.apply_quality_selection(quality[DEFAULT_QUALITY_INDEX].data);
        self.apply_pdf_size_selection(pdf[DEFAULT_PDF_SIZE_INDEX].data);
        self.apply_interval_selection(interval[DEFAULT_INTERVAL_INDEX].data);
    }

    /// Records the folder captures are saved in.
    pub fn set_selected_folder(&mut self, path: String)
        ensures
            *final(self) == (AppState { selected_folder_path: Some(path), ..*old(self) }),
    {
        self.selected_folder_path = Some(path);
    }

    /// Marks the start or the end of a PDF export (the caller then updates the controls).
    pub fn set_exporting_to_pdf(&mut self, exporting: bool)
        ensures
            *final(self) == (AppState { is_exporting_to_pdf: exporting, ..*old(self) }),
    {
        self.is_exporting_to_pdf = exporting;
    }

    /// The icon an owner-drawn button shows: the camera and the selection icons show
    /// whether their mode is on; folder, PDF and close buttons have one icon each; other
    /// controls are not drawn here.
    pub open spec fn spec_button_icon(self, control_id: u32) -> Option<i32> {
        if control_id == IDC_CAPTURE_START_BUTTON {
            Some(
                if self.is_capture_mode {
                    IDI_CAMERA_ON
                } else {
                    IDI_CAMERA_OFF
                },
            )
        } else if control_id == IDC_AREA_SELECT_BUTTON {
            Some(
                if self.is_area_select_mode {
                    IDI_SELECT_AREA_ON
                } else {
                    IDI_SELECT_AREA_OFF
                },
            )
        } else if control_id == IDC_BROWSE_BUTTON {
            Some(IDI_SELECT_FOLDER)
        } else if control_id == IDC_EXPORT_PDF_BUTTON {
            Some(IDI_EXPORT_PDF)
        } else if control_id == IDC_CLOSE_BUTTON {
            Some(IDI_CLOSE)
        } else {
            None
        }
    }

    /// Chooses the icon of an owner-drawn button.
    pub fn button_icon(&self, control_id: u32) -> (r: Option<i32>)
        ensures
            r == self.spec_button_icon(control_id),
    {
        if control_id == IDC_CAPTURE_START_BUTTON as u32 {
            Some(
                if self.is_capture_mode {
                    IDI_CAMERA_ON
                } else {
                    IDI_CAMERA_OFF
                },
            )
        } else if control_id == IDC_AREA_SELECT_BUTTON as u32 {
            Some(
                if self.is_area_select_mode {
                    IDI_SELECT_AREA_ON
                } else {
                    IDI_SELECT_AREA_OFF
                },
            )
        } else if control_id == IDC_BROWSE_BUTTON as u32 {
            Some(IDI_SELECT_FOLDER)
        } else if control_id == IDC_EXPORT_PDF_BUTTON as u32 {
            Some(IDI_EXPORT_PDF)
        } else if control_id == IDC_CLOSE_BUTTON as u32 {
            Some(IDI_CLOSE)
        } else {
            None
        }
    }
}

impl AppState {
    /// Whether an owner-drawn button is drawn pressed: the camera button while capture mode
    /// is on, the selection button while area selection is on, no other button.
    pub fn button_pressed(&self, control_id: u32) -> (r: bool)
        ensures
            r == ((control_id == IDC_CAPTURE_START_BUTTON && self.is_capture_mode) || (
            control_id == IDC_AREA_SELECT_BUTTON && self.is_area_select_mode)),
    {
        (control_id == IDC_CAPTURE_START_BUTTON as u32 && self.is_capture_mode) || (control_id
            == IDC_AREA_SELECT_BUTTON as u32 && self.is_area_select_mode)
    }
}

/// The value of scale entry `i` (100 % down in steps of 5).
pub open spec fn scale_options_data(i: int) -> int {
    100 - 5 * i
}

/// The value of quality entry `i` (100 % down in steps of 5).
pub open spec fn quality_options_data(i: int) -> int {
    100 - 5 * i
}

/// The handler a command notification of the dialog calls.
#[derive(Clone, Copy, Debug, PartialEq, Eq, Structural)]
pub enum Command {
    BrowseFolder,
    StartAreaSelect,
    ToggleCapture,
    ExportPdf,
    Close,
    ScaleChanged,
    QualityChanged,
    PdfSizeChanged,
    AutoClickToggled,
    IntervalChanged,
    CountEdited,
}

/// Where a command notification goes: the handler to call, if any, and whether the
/// dialog reports the message as handled.
#[derive(Clone, Copy, Debug, PartialEq, Eq, Structural)]
pub struct CommandRoute {
    pub command: Option<Command>,
    pub handled: bool,
}

/// The routing of a command notification from control `id` with notification `code`.
pub open spec fn spec_route_command(id: i32, code: u16) -> CommandRoute {
    let on = |c: Command, expected: u16|
        if code == expected {
            CommandRoute { command: Some(c), handled: true }
        } else {
            CommandRoute { command: None, handled: true }
        };
    let only = |c: Command, expected: u16|
        if code == expected {
            CommandRoute { command: Some(c), handled: true }
        } else {
            CommandRoute { command: None, handled: false }
        };
    if id == IDC_BROWSE_BUTTON {
        only(Command::BrowseFolder, BN_CLICKED)
    } else if id == IDC_AREA_SELECT_BUTTON {
        only(Command::StartAreaSelect, BN_CLICKED)
    } else if id == IDC_CAPTURE_START_BUTTON {
        only(Command::ToggleCapture, BN_CLICKED)
    } else if id == IDC_EXPORT_PDF_BUTTON {
        CommandRoute { command: Some(Command::ExportPdf), handled: true }
    } else if id == IDC_CLOSE_BUTTON {
        CommandRoute { command: Some(Command::Close), handled: true }
    } else if id == IDC_SCALE_COMBO {
        on(Command::ScaleChanged, CBN_SELCHANGE)
    } else if id == IDC_QUALITY_COMBO {
        on(Command::QualityChanged, CBN_SELCHANGE)
    } else if id == IDC_PDF_SIZE_COMBO {
        on(Command::PdfSizeChanged, CBN_SELCHANGE)
    } else if id == IDC_AUTO_CLICK_CHECKBOX {
        on(Command::AutoClickToggled, BN_CLICKED)
    } else if id == IDC_AUTO_CLICK_INTERVAL_COMBO {
        on(Command::IntervalChanged, CBN_SELCHANGE)
    } else if id == IDC_AUTO_CLICK_COUNT_EDIT {
        on(Command::CountEdited, EN_KILLFOCUS)
    } else {
        CommandRoute { command: None, handled: false }
    }
}

fn route_when(code: u16, expected: u16, c: Command, handled_anyway: bool) -> (r: CommandRoute)
    ensures
        r == (if code == expected {
            CommandRoute { command: Some(c), handled: true }
        } else {
            CommandRoute { command: None, handled: handled_anyway }
        }),
{
    if code == expected {
        CommandRoute { command: Some(c), handled: true }
    } else {
        CommandRoute { command: None, handled: handled_anyway }
    }
}

/// Routes a command notification: buttons act on a click (the PDF and close buttons on
/// any notification), combo boxes on a change of selection, the check box on a click, the
/// count box when it loses the focus. Notifications of the settings controls count as
/// handled even when nothing is done; the browse, area and capture buttons' other
/// notifications and unknown controls do not.
pub fn route_command(id: i32, code: u16) -> (r: CommandRoute)
    ensures
        r == spec_route_command(id, code),
{
    if id == IDC_BROWSE_BUTTON {
        route_when(code, BN_CLICKED, Command::BrowseFolder, false)
    } else if id == IDC_AREA_SELECT_BUTTON {
        route_when(code, BN_CLICKED, Command::StartAreaSelect, false)
    } else if id == IDC_CAPTURE_START_BUTTON {
        route_when(code, BN_CLICKED, Command::ToggleCapture, false)
    } else if id == IDC_EXPORT_PDF_BUTTON {
        CommandRoute { command: Some(Command::ExportPdf), handled: true }
    } else if id == IDC_CLOSE_BUTTON {
        CommandRoute { command: Some(Command::Close), handled: true }
    } else if id == IDC_SCALE_COMBO {
        route_when(code, CBN_SELCHANGE, Command::ScaleChanged, true)
    } else if id == IDC_QUALITY_COMBO {
        route_when(code, CBN_SELCHANGE, Command::QualityChanged, true)
    } else if id == IDC_PDF_SIZE_COMBO {
        route_when(code, CBN_SELCHANGE, Command::PdfSizeChanged, true)
    } else if id == IDC_AUTO_CLICK_CHECKBOX {
        route_when(code, BN_CLICKED, Command::AutoClickToggled, true)
    } else if id == IDC_AUTO_CLICK_INTERVAL_COMBO {
        route_when(code, CBN_SELCHANGE, Command::IntervalChanged, true)
    } else if id == IDC_AUTO_CLICK_COUNT_EDIT {
        route_when(code, EN_KILLFOCUS, Command::CountEdited, true)
    } else {
        CommandRoute { command: None, handled: false }
    }
}

/// The entries selected when the dialog opens carry the state's defaults for the scale,
/// the quality and the click interval.
pub proof fn lemma_default_selections(scale: Seq<ComboOption>, quality: Seq<ComboOption>)
    requires
        descending_options(scale, 10, 100, 5, |v: nat| percent_label(v)),
        descending_options(quality, 7, 100, 5, |v: nat| percent_label(v)),
    ensures
        scale[DEFAULT_SCALE_INDEX as int].data == crate::app_state::DEFAULT_SCALE_PERCENT,
        quality[DEFAULT_QUALITY_INDEX as int].data == crate::app_state::DEFAULT_JPEG_QUALITY,
        (DEFAULT_INTERVAL_INDEX + 1) * 1000 == crate::auto_click::DEFAULT_INTERVAL_MS,
{
    assert(scale[7].data == 100 - 5 * 7);
    assert(quality[1].data == 100 - 5 * 1);
}


/// The control a command belongs to.
pub open spec fn command_control(c: Command) -> i32 {
    match c {
        Command::BrowseFolder => IDC_BROWSE_BUTTON,
        Command::StartAreaSelect => IDC_AREA_SELECT_BUTTON,
        Command::ToggleCapture => IDC_CAPTURE_START_BUTTON,
        Command::ExportPdf => IDC_EXPORT_PDF_BUTTON,
        Command::Close => IDC_CLOSE_BUTTON,
        Command::ScaleChanged => IDC_SCALE_COMBO,
        Command::QualityChanged => IDC_QUALITY_COMBO,
        Command::PdfSizeChanged => IDC_PDF_SIZE_COMBO,
        Command::AutoClickToggled => IDC_AUTO_CLICK_CHECKBOX,
        Command::IntervalChanged => IDC_AUTO_CLICK_INTERVAL_COMBO,
        Command::CountEdited => IDC_AUTO_CLICK_COUNT_EDIT,
    }
}

/// The notification of its control that runs a command; `None` for any notification.
pub open spec fn command_trigger(c: Command) -> Option<u16> {
    match c {
        Command::BrowseFolder | Command::StartAreaSelect | Command::ToggleCapture => Some(
            BN_CLICKED,
        ),
        Command::ExportPdf | Command::Close => None,
        Command::ScaleChanged | Command::QualityChanged | Command::PdfSizeChanged
        | Command::IntervalChanged => Some(CBN_SELCHANGE),
        Command::AutoClickToggled => Some(BN_CLICKED),
        Command::CountEdited => Some(EN_KILLFOCUS),
    }
}

/// Whether a notification counts as handled: whenever it runs a command, and for any
/// notification of the settings controls (combo boxes, the check box, the count box);
/// never otherwise (other notifications of the browse, area and capture buttons, and
/// unknown controls).
pub proof fn lemma_handled_notifications(id: i32, code: u16)
    ensures
        spec_route_command(id, code).handled == (spec_route_command(id, code).command is Some
            || id == IDC_SCALE_COMBO || id == IDC_QUALITY_COMBO || id == IDC_PDF_SIZE_COMBO || id
            == IDC_AUTO_CLICK_CHECKBOX || id == IDC_AUTO_CLICK_INTERVAL_COMBO || id
            == IDC_AUTO_CLICK_COUNT_EDIT),
{
}

/// Each control runs its own handler and no other: a notification from control `id` with
/// code `code` runs command `c` exactly when `id` is `c`'s control and `code` is the
/// notification that triggers it (any, for the PDF and Close buttons).
pub proof fn lemma_commands_route_to_their_control(id: i32, code: u16, c: Command)
    ensures
        spec_route_command(id, code).command == Some(c) <==> (id == command_control(c) && (
        command_trigger(c) is None || command_trigger(c) == Some(code))),
{
}

} // verus!
